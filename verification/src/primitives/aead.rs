//! The ChaCha20-Poly1305 authenticated cipher.

use chacha20poly1305::aead::AeadInPlace;
use chacha20poly1305::{ChaCha20Poly1305, KeyInit};
use vstd::prelude::*;

use crate::bytes;

verus! {

/// Whether `tag` authenticates the ciphertext and the associated data under the key and nonce.
pub uninterp spec fn aead_verifies(
    key: Seq<u8>,
    nonce: Seq<u8>,
    aad: Seq<u8>,
    ciphertext: Seq<u8>,
    tag: Seq<u8>,
) -> bool;

/// The ciphertext of `plaintext` under the key and nonce, followed by the 16-byte tag that
/// authenticates it and the associated data.
pub uninterp spec fn aead_seal(
    key: Seq<u8>,
    nonce: Seq<u8>,
    aad: Seq<u8>,
    plaintext: Seq<u8>,
) -> Seq<u8>;

/// The first bytes with which the cipher masks what it encrypts under the key and nonce, as many as
/// the longest plaintext has: what a plaintext of zeros is masked to.
pub open spec fn keystream(key: Seq<u8>, nonce: Seq<u8>) -> Seq<u8> {
    aead_seal(key, nonce, Seq::empty(), bytes::zeros(564)).take(564)
}

/// `data`, of at most 564 bytes, with the mask taken off, or put on. No tag authenticates it.
pub open spec fn apply_keystream(key: Seq<u8>, nonce: Seq<u8>, data: Seq<u8>) -> Seq<u8> {
    Seq::new(data.len(), |i: int| data[i] ^ keystream(key, nonce)[i])
}

/// The plaintext of `ciphertext`, where `tag` authenticates it and the associated data under the
/// key and nonce, and `None` where it does not.
pub open spec fn aead_open(
    key: Seq<u8>,
    nonce: Seq<u8>,
    aad: Seq<u8>,
    ciphertext: Seq<u8>,
    tag: Seq<u8>,
) -> Option<Seq<u8>> {
    if aead_verifies(key, nonce, aad, ciphertext, tag) {
        Some(apply_keystream(key, nonce, ciphertext))
    } else {
        None
    }
}

/// `ChaCha20Poly1305::decrypt_in_place_detached`. Claimed: whether it succeeds depends on the five
/// arguments alone, and where it does, it takes off the mask that `encrypt_in_place_detached` puts
/// on, which depends on the key, the nonce and the position alone. The cipher panics on ciphertexts
/// of about 2^38 bytes; those of this protocol have 564 at most.
#[verifier::external_body]
pub(crate) fn open_detached(
    key: &[u8; 32],
    nonce: &[u8; 12],
    aad: &[u8],
    ciphertext: &[u8],
    tag: &[u8; 16],
) -> (r: Option<Vec<u8>>)
    requires
        ciphertext@.len() <= 564,
    ensures
        r is Some <==> aead_verifies(key@, nonce@, aad@, ciphertext@, tag@),
        r is Some ==> r->0@ == apply_keystream(key@, nonce@, ciphertext@),
{
    let mut buffer = ciphertext.to_vec();
    ChaCha20Poly1305::new(key.into())
        .decrypt_in_place_detached(nonce.into(), aad, &mut buffer, tag.into())
        .ok()
        .map(|()| buffer)
}

/// `ChaCha20Poly1305::encrypt_in_place_detached`, with the tag behind the ciphertext. Claimed: the
/// outcome depends on the four arguments alone, is as long as the plaintext and the tag together,
/// and opens under the same key, nonce and associated data to the plaintext. The cipher panics on
/// plaintexts of about 2^38 bytes; those of this protocol have 564 at most.
#[verifier::external_body]
pub(crate) fn seal(key: &[u8; 32], nonce: &[u8; 12], aad: &[u8], plaintext: &[u8]) -> (r: Vec<u8>)
    requires
        plaintext@.len() <= 564,
    ensures
        r@ == aead_seal(key@, nonce@, aad@, plaintext@),
        r@.len() == plaintext@.len() + 16,
        aead_open(
            key@,
            nonce@,
            aad@,
            r@.take(plaintext@.len() as int),
            r@.skip(plaintext@.len() as int),
        ) == Some(plaintext@),
{
    let mut buffer = plaintext.to_vec();
    let tag = ChaCha20Poly1305::new(key.into())
        .encrypt_in_place_detached(nonce.into(), aad, &mut buffer)
        .unwrap();
    buffer.extend_from_slice(&tag);
    buffer
}

} // verus!
