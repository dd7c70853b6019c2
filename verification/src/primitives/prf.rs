//! The pseudorandom function with which keys and note fields are expanded, and its reductions into
//! the two fields.

use vstd::prelude::*;

use crate::bytes;
use crate::bytes::{append, take_array};
use crate::primitives::hash;
use crate::primitives::hash::blake2b_hash;
use crate::primitives::pallas;
use crate::primitives::pallas::{base_from_uniform, scalar_from_uniform};

verus! {

/// The personalization of the expansion function: `Zcash_ExpandSeed`.
pub const EXPAND_SEED_PERSONALIZATION: [u8; 16] = [
    0x5a, 0x63, 0x61, 0x73, 0x68, 0x5f, 0x45, 0x78, 0x70, 0x61, 0x6e, 0x64, 0x53, 0x65, 0x65, 0x64,
];

/// The expansion of `key` under the domain separator `tag` and the further input `t`.
pub open spec fn prf_expand_spec(key: Seq<u8>, tag: u8, t: Seq<u8>) -> Seq<u8> {
    hash::blake2b(EXPAND_SEED_PERSONALIZATION@, key + seq![tag] + t, 64)
}

/// The base field element to which a 64-byte expansion reduces.
pub open spec fn to_base_spec(b: Seq<u8>) -> Seq<u8> {
    bytes::le_bytes(bytes::le_nat(b) % pallas::base_modulus(), 32)
}

/// The scalar to which a 64-byte expansion reduces.
pub open spec fn to_scalar_spec(b: Seq<u8>) -> Seq<u8> {
    bytes::le_bytes(bytes::le_nat(b) % pallas::scalar_modulus(), 32)
}

/// Expands `key` under the domain separator `tag` and the further input `t`.
pub fn prf_expand(key: &[u8; 32], tag: u8, t: &[u8]) -> (r: [u8; 64])
    ensures
        r@ == prf_expand_spec(key@, tag, t@),
{
    let mut input: Vec<u8> = Vec::new();
    append(&mut input, key);
    input.push(tag);
    append(&mut input, t);
    assert(input@ =~= key@ + seq![tag] + t@);
    let hash = blake2b_hash(&EXPAND_SEED_PERSONALIZATION, input.as_slice(), 64);
    let r: [u8; 64] = take_array(hash.as_slice(), 0);
    assert(r@ =~= hash@);
    r
}

/// Reduces an expansion into the base field.
pub fn to_base(b: &[u8; 64]) -> (r: [u8; 32])
    ensures
        r@ == to_base_spec(b@),
        pallas::is_base(r@),
{
    base_from_uniform(b)
}

/// Reduces an expansion into the scalar field.
pub fn to_scalar(b: &[u8; 64]) -> (r: [u8; 32])
    ensures
        r@ == to_scalar_spec(b@),
        pallas::is_scalar(r@),
{
    scalar_from_uniform(b)
}

} // verus!
