//! RedPallas spend authorization keys.

use group::ff::PrimeField;
use reddsa::orchard::SpendAuth;
use reddsa::VerificationKey;
use vstd::prelude::*;

use crate::primitives::pallas;

verus! {

/// The encoding of the basepoint of Orchard's spend authorization signatures.
pub open spec fn spend_auth_basepoint() -> Seq<u8> {
    seq![
        99u8, 201u8, 117u8, 184u8, 132u8, 114u8, 26u8, 141u8, 12u8, 161u8, 112u8, 123u8, 227u8,
        12u8, 127u8, 12u8, 95u8, 68u8, 95u8, 62u8, 124u8, 24u8, 141u8, 59u8, 6u8, 214u8, 241u8,
        40u8, 179u8, 35u8, 85u8, 183u8,
    ]
}

/// `reddsa::VerificationKey::<orchard::SpendAuth>::randomize`. Claimed: it adds the randomizer's
/// multiple of the basepoint to the key.
#[verifier::external_body]
pub(crate) fn randomize(ak: &[u8; 32], alpha: &[u8; 32]) -> (r: [u8; 32])
    requires
        pallas::pallas_is_point(ak@),
        pallas::is_scalar(alpha@),
    ensures
        r@ == pallas::pallas_add(ak@, pallas::pallas_mul(alpha@, spend_auth_basepoint())),
        pallas::pallas_is_point(r@),
{
    let ak = VerificationKey::<SpendAuth>::try_from(*ak).unwrap();
    ak.randomize(&pasta_curves::pallas::Scalar::from_repr(*alpha).unwrap()).into()
}

} // verus!
