//! Comparison in constant time.

use subtle::ConstantTimeEq;
use vstd::prelude::*;

verus! {

/// `<[u8] as subtle::ConstantTimeEq>::ct_eq`. Claimed: it answers whether the two strings are
/// equal.
#[verifier::external_body]
pub(crate) fn ct_eq(a: &[u8], b: &[u8]) -> (r: bool)
    ensures
        r == (a@ == b@),
{
    bool::from(a.ct_eq(b))
}

} // verus!
