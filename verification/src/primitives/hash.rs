//! BLAKE2b and Poseidon.

use blake2b_simd::Params;
use group::ff::PrimeField;
use halo2_poseidon::{ConstantLength, P128Pow5T3};
use vstd::prelude::*;

use crate::primitives::pallas;

verus! {

/// The BLAKE2b hash of `input` with the given personalization and output length.
pub uninterp spec fn blake2b(personal: Seq<u8>, input: Seq<u8>, len: nat) -> Seq<u8>;

/// The Poseidon hash of two base field elements, with the P128Pow5T3 parameters.
pub uninterp spec fn poseidon_hash(a: Seq<u8>, b: Seq<u8>) -> Seq<u8>;

/// `blake2b_simd::Params::{hash_length, personal, to_state}`, `State::update` and
/// `State::finalize`. Claimed: the hash has the length asked for, and depends on the
/// personalization, the input and that length alone.
#[verifier::external_body]
pub(crate) fn blake2b_hash(personal: &[u8; 16], input: &[u8], len: usize) -> (r: Vec<u8>)
    requires
        1 <= len <= 64,
    ensures
        r@ == blake2b(personal@, input@, len as nat),
        r@.len() == len,
{
    let mut state = Params::new().hash_length(len).personal(personal).to_state();
    state.update(input).finalize().as_bytes().to_vec()
}

/// `halo2_poseidon::Hash::hash` over two elements, with a width of three and a rate of two.
/// Claimed: the result is a base field element that depends on the two elements alone.
#[verifier::external_body]
pub(crate) fn poseidon(a: &[u8; 32], b: &[u8; 32]) -> (r: [u8; 32])
    requires
        pallas::is_base(a@),
        pallas::is_base(b@),
    ensures
        r@ == poseidon_hash(a@, b@),
        pallas::is_base(r@),
{
    let a = pasta_curves::pallas::Base::from_repr(*a).unwrap();
    let b = pasta_curves::pallas::Base::from_repr(*b).unwrap();
    halo2_poseidon::Hash::<_, P128Pow5T3, ConstantLength<2>, 3, 2>::init().hash([a, b]).to_repr()
}

} // verus!
