//! Sinsemilla commitments.

use group::ff::PrimeField;
use group::GroupEncoding;
use sinsemilla::CommitDomain;
use vstd::prelude::*;

use crate::primitives::pallas;

verus! {

/// The encoding of the Sinsemilla commitment to `msg` in `domain` with trapdoor `r`, and `None`
/// where the hash has no value.
pub uninterp spec fn sinsemilla_commit(
    domain: Seq<char>,
    msg: Seq<bool>,
    r: Seq<u8>,
) -> Option<Seq<u8>>;

/// The x-coordinate of the commitment that [`sinsemilla_commit`] names.
pub open spec fn sinsemilla_short_commit(
    domain: Seq<char>,
    msg: Seq<bool>,
    r: Seq<u8>,
) -> Option<Seq<u8>> {
    match sinsemilla_commit(domain, msg, r) {
        Some(cm) => Some(pallas::extract_p(cm)),
        None => None,
    }
}

/// `sinsemilla::CommitDomain::commit`. Claimed: the outcome depends on the domain, the message and
/// the trapdoor alone, and a commitment is a point. A message of more than 2530 bits, or a domain
/// that encodes in 226 bytes or more, is refused; 32 characters encode in fewer.
#[verifier::external_body]
pub(crate) fn commit(domain: &str, msg: Vec<bool>, r: &[u8; 32]) -> (cm: Option<[u8; 32]>)
    requires
        domain@.len() <= 32,
        msg@.len() <= 2530,
        pallas::is_scalar(r@),
    ensures
        cm is Some <==> sinsemilla_commit(domain@, msg@, r@) is Some,
        cm is Some ==> sinsemilla_commit(domain@, msg@, r@) == Some(cm->0@),
        cm is Some ==> pallas::pallas_is_point(cm->0@),
{
    let r = pasta_curves::pallas::Scalar::from_repr(*r).unwrap();
    let cm: Option<pasta_curves::pallas::Point> =
        CommitDomain::new(domain).commit(msg.into_iter(), &r).into();
    cm.map(|cm| cm.to_bytes())
}

/// `sinsemilla::CommitDomain::short_commit`. Claimed: it is the x-coordinate of what
/// `CommitDomain::commit` gives, and as such a base field element.
#[verifier::external_body]
pub(crate) fn short_commit(domain: &str, msg: Vec<bool>, r: &[u8; 32]) -> (cm: Option<[u8; 32]>)
    requires
        domain@.len() <= 32,
        msg@.len() <= 2530,
        pallas::is_scalar(r@),
    ensures
        cm is Some <==> sinsemilla_short_commit(domain@, msg@, r@) is Some,
        cm is Some ==> sinsemilla_short_commit(domain@, msg@, r@) == Some(cm->0@),
        cm is Some ==> pallas::is_base(cm->0@),
{
    let r = pasta_curves::pallas::Scalar::from_repr(*r).unwrap();
    let cm: Option<pasta_curves::pallas::Base> =
        CommitDomain::new(domain).short_commit(msg.into_iter(), &r).into();
    cm.map(|cm| cm.to_repr())
}

} // verus!
