//! What the functions on keys, addresses, values and notes return, stated of the calls themselves
//! in terms of bytes, the curve and the hashes.
//!
//! A law here takes the arguments of one or more calls and what the calls returned, and says how
//! these relate for every input.

use vstd::prelude::*;

use crate::action::Action;
use crate::address::Address;
use crate::bytes;
use crate::bytes::{u64_from_le, u64_to_le};
use crate::keys;
use crate::keys::{
    DiversifiedTransmissionKey, Diversifier, EphemeralPublicKey, EphemeralSecretKey,
    FullViewingKey, FullViewingKeyView, OutgoingViewingKey, PreparedEphemeralPublicKey,
    PreparedIncomingViewingKey, Scope, ScopeClassifier, SharedSecret, SpendAuthRandomizer,
    SpendValidatingKey, VerificationKey,
};
use crate::note;
use crate::note::{
    ExtractedNoteCommitment, Note, NoteCommitment, NoteVersion, NoteView, Nullifier, RandomSeed,
    Rho, TransmittedNoteCiphertext,
};
use crate::primitives::hash;
use crate::primitives::pallas;
use crate::primitives::prf;
use crate::primitives::prf::{prf_expand, to_base, to_scalar};
use crate::primitives::redpallas;
use crate::primitives::sinsemilla_commit;
use crate::value;
use crate::value::{NoteValue, ValueCommitTrapdoor, ValueCommitment, ValueSum};

verus! {

// Bytes and bits.

/// Eight bytes are read as the integer whose base-256 digits they are, least significant first, and
/// writing it gives them back.
pub proof fn integers_are_little_endian(b: [u8; 8], v: u64, w: [u8; 8])
    requires
        call_ensures(u64_from_le, (&b,), v),
        call_ensures(u64_to_le, (v,), w),
    ensures
        v as int == b@[0] + 0x100 * b@[1] + 0x1_0000 * b@[2] + 0x100_0000 * b@[3] + 0x1_0000_0000
            * b@[4] + 0x100_0000_0000 * b@[5] + 0x1_0000_0000_0000 * b@[6] + 0x100_0000_0000_0000
            * b@[7],
        w@ == b@,
{
    reveal_with_fuel(bytes::le_nat, 9);
    bytes::lemma_le_bytes_of_le_nat(b@);
}

/// A 64-bit integer that is written and read again is unchanged.
pub proof fn integers_are_read_back(v: u64, b: [u8; 8], w: u64)
    requires
        call_ensures(u64_to_le, (v,), b),
        call_ensures(u64_from_le, (&b,), w),
    ensures
        w == v,
{
    bytes::lemma_le_nat_of_le_bytes_u64(v, 8);
}

/// The bits of a byte string are the binary digits of its bytes, least significant first.
pub proof fn bits_are_binary_digits(b: Seq<u8>, n: nat, k: int)
    requires
        n == 8 * b.len(),
        0 <= k < b.len(),
    ensures
        ({
            let bits = bytes::bits_le(b, n);
            let bit = |j: int| if bits[8 * k + j] { 1int } else { 0 };
            b[k] == bit(0) + 2 * bit(1) + 4 * bit(2) + 8 * bit(3) + 16 * bit(4) + 32 * bit(5) + 64
                * bit(6) + 128 * bit(7)
        }),
{
    let x: u8 = b[k];
    let bits = bytes::bits_le(b, n);
    assert forall|j: int| 0 <= j < 8 implies #[trigger] bits[8 * k + j] == ((x >> (j as u8)) & 1u8
        == 1u8) by {
        assert((8 * k + j) / 8 == k && (8 * k + j) % 8 == j);
    }
    assert(bits[8 * k + 0] == ((x >> 0u8) & 1u8 == 1u8));
    assert(x == (x >> 0u8) % 2 + 2 * ((x >> 1u8) % 2) + 4 * ((x >> 2u8) % 2) + 8 * ((x >> 3u8) % 2)
        + 16 * ((x >> 4u8) % 2) + 32 * ((x >> 5u8) % 2) + 64 * ((x >> 6u8) % 2) + 128 * ((x >> 7u8)
        % 2)) by (bit_vector);
    assert forall|s: u8| #[trigger] ((x >> s) & 1u8) == (x >> s) % 2 by {
        let y: u8 = x >> s;
        assert(y & 1u8 == y % 2) by (bit_vector);
    }
}

/// Every prefix of the bits of a byte string is a prefix of all of them.
pub proof fn fewer_bits_are_a_prefix(b: Seq<u8>, m: nat, n: nat)
    requires
        m <= n,
    ensures
        bytes::bits_le(b, m) == bytes::bits_le(b, n).take(m as int),
        bytes::bits_le(b, n).len() == n,
{
    assert(bytes::bits_le(b, m) =~= bytes::bits_le(b, n).take(m as int));
}

/// An integer is the first byte of its encoding plus 256 times the integer that the other bytes
/// encode, and its encoding is its remainder by 256 and then the encoding of the quotient.
pub proof fn integers_are_made_of_digits(x: u8, b: Seq<u8>, n: nat, len: nat)
    ensures
        bytes::le_nat(Seq::empty()) == 0,
        bytes::le_nat(seq![x] + b) == x as nat + 256 * bytes::le_nat(b),
        bytes::le_bytes(n, 0) == Seq::<u8>::empty(),
        bytes::le_bytes(n, len + 1) == seq![(n % 256) as u8] + bytes::le_bytes(n / 256, len),
        bytes::le_bytes(bytes::le_nat(b), b.len()) == b,
{
    assert((seq![x] + b).drop_first() =~= b);
    bytes::lemma_le_bytes_of_le_nat(b);
}

/// A string of zeros holds zeros, and the identity is encoded by thirty-two of them.
pub proof fn zeros_are_zero(len: nat)
    ensures
        bytes::zeros(len).len() == len,
        forall|i: int| 0 <= i < len ==> #[trigger] bytes::zeros(len)[i] == 0,
        pallas::identity() == bytes::zeros(32),
{
}

/// A string is a point's, a base field element's or a scalar's encoding only at its length, and the
/// two fields are those of the curve.
pub proof fn fields_are_bounded(b: Seq<u8>)
    ensures
        pallas::is_base(b) <==> b.len() == 32 && bytes::le_nat(b)
            < 0x40000000000000000000000000000000224698fc094cf91b992d30ed00000001,
        pallas::is_scalar(b) <==> b.len() == 32 && bytes::le_nat(b)
            < 0x40000000000000000000000000000000224698fc0994a8dd8c46eb2100000001,
{
}

// Encodings. What was parsed encodes as the bytes it was parsed from.

/// A diversifier keeps its bytes.
pub proof fn diversifier_keeps_its_bytes(b: [u8; 11], d: Diversifier, r: &[u8; 11])
    requires
        call_ensures(Diversifier::from_bytes, (b,), d),
        call_ensures(Diversifier::as_array, (&d,), r),
    ensures
        r@ == b@,
{
}

/// An outgoing viewing key keeps its bytes.
pub proof fn outgoing_viewing_key_keeps_its_bytes(
    b: [u8; 32],
    k: OutgoingViewingKey,
    r: &[u8; 32],
)
    requires
        call_ensures(OutgoingViewingKey::from_bytes, (b,), k),
        call_ensures(OutgoingViewingKey::as_bytes, (&k,), r),
    ensures
        r@ == b@,
{
}

/// A transmission key is parsed from every point but the identity, and keeps its bytes.
pub proof fn transmission_key_keeps_its_bytes(
    b: [u8; 32],
    k: Option<DiversifiedTransmissionKey>,
    r: [u8; 32],
)
    requires
        call_ensures(DiversifiedTransmissionKey::from_bytes, (&b,), k),
        k is Some ==> call_ensures(DiversifiedTransmissionKey::to_bytes, (&k->0,), r),
    ensures
        k is Some <==> pallas::pallas_is_point(b@) && exists|i: int|
            0 <= i < 32 && #[trigger] b@[i] != 0,
        k is Some ==> r@ == b@,
{
    assert(b@ == pallas::identity() <==> b@ =~= pallas::identity());
    if b@ != pallas::identity() {
        let i = choose|i: int| 0 <= i < 32 && b@[i] != pallas::identity()[i];
        assert(b@[i] != 0);
    }
}

/// An ephemeral secret key is parsed from every canonical scalar but zero, and keeps its bytes.
pub proof fn ephemeral_secret_key_keeps_its_bytes(
    b: [u8; 32],
    k: Option<EphemeralSecretKey>,
    r: [u8; 32],
)
    requires
        call_ensures(EphemeralSecretKey::from_bytes, (&b,), k),
        k is Some ==> call_ensures(EphemeralSecretKey::to_bytes, (&k->0,), r),
    ensures
        k is Some <==> 0 < bytes::le_nat(b@) < pallas::scalar_modulus(),
        k is Some ==> r@ == b@,
{
    lemma_zero_bytes(b@);
}

/// An ephemeral public key is parsed from every point but the identity, and keeps its bytes.
pub proof fn ephemeral_public_key_keeps_its_bytes(
    b: [u8; 32],
    k: Option<EphemeralPublicKey>,
    r: [u8; 32],
    p: PreparedEphemeralPublicKey,
    s: [u8; 32],
)
    requires
        call_ensures(EphemeralPublicKey::from_bytes, (&b,), k),
        k is Some ==> {
            &&& call_ensures(EphemeralPublicKey::to_bytes, (&k->0,), r)
            &&& call_ensures(PreparedEphemeralPublicKey::new, (k->0,), p)
            &&& call_ensures(PreparedEphemeralPublicKey::to_bytes, (&p,), s)
        },
    ensures
        k is Some <==> pallas::pallas_is_point(b@) && b@ != bytes::zeros(32),
        k is Some ==> r@ == b@ && s@ == b@,
{
}

/// An incoming viewing key is parsed from every canonical scalar but zero, and keeps its bytes.
pub proof fn incoming_viewing_key_keeps_its_bytes(
    b: [u8; 32],
    k: Option<PreparedIncomingViewingKey>,
    r: [u8; 32],
)
    requires
        call_ensures(PreparedIncomingViewingKey::from_bytes, (&b,), k),
        k is Some ==> call_ensures(PreparedIncomingViewingKey::raw_scalar, (&k->0,), r),
    ensures
        k is Some <==> 0 < bytes::le_nat(b@) < pallas::scalar_modulus(),
        k is Some ==> r@ == b@,
{
    lemma_zero_bytes(b@);
}

/// A verification key is parsed from every point, and keeps its bytes.
pub proof fn verification_key_keeps_its_bytes(
    b: [u8; 32],
    k: Option<VerificationKey>,
    r: [u8; 32],
)
    requires
        call_ensures(VerificationKey::from_bytes, (&b,), k),
        k is Some ==> call_ensures(VerificationKey::to_bytes, (&k->0,), r),
    ensures
        k is Some <==> pallas::pallas_is_point(b@),
        k is Some ==> r@ == b@,
{
}

/// A value commitment is parsed from every point, and keeps all its bytes.
pub proof fn value_commitment_keeps_its_bytes(
    b: [u8; 32],
    c: Option<ValueCommitment>,
    r: [u8; 32],
)
    requires
        call_ensures(ValueCommitment::from_bytes, (&b,), c),
        c is Some ==> call_ensures(ValueCommitment::to_bytes, (&c->0,), r),
    ensures
        c is Some <==> pallas::pallas_is_point(b@),
        c is Some ==> r@ == b@,
{
}

/// A nullifier is parsed from every canonical base field element, keeps its bytes, and is the rho
/// of the note that the same action creates.
pub proof fn nullifier_keeps_its_bytes(
    b: [u8; 32],
    nf: Option<Nullifier>,
    r: [u8; 32],
    rho: Rho,
    s: [u8; 32],
)
    requires
        call_ensures(Nullifier::from_bytes, (&b,), nf),
        nf is Some ==> {
            &&& call_ensures(Nullifier::to_bytes, (&nf->0,), r)
            &&& call_ensures(Rho::from_nf_old, (nf->0,), rho)
            &&& call_ensures(Rho::to_bytes, (&rho,), s)
        },
    ensures
        nf is Some <==> bytes::le_nat(b@) < pallas::base_modulus(),
        nf is Some ==> r@ == b@ && s@ == b@,
{
}

/// An extracted note commitment is parsed from every canonical base field element, and keeps its
/// bytes.
pub proof fn extracted_commitment_keeps_its_bytes(
    b: [u8; 32],
    c: Option<ExtractedNoteCommitment>,
    r: [u8; 32],
)
    requires
        call_ensures(ExtractedNoteCommitment::from_bytes, (&b,), c),
        c is Some ==> call_ensures(ExtractedNoteCommitment::to_bytes, (&c->0,), r),
    ensures
        c is Some <==> bytes::le_nat(b@) < pallas::base_modulus(),
        c is Some ==> r@ == b@,
{
}

/// Thirty-two bytes encode zero only where all of them are zero.
proof fn lemma_zero_bytes(b: Seq<u8>)
    requires
        b.len() == 32,
    ensures
        bytes::le_nat(b) == 0 <==> b == pallas::identity(),
{
    bytes::lemma_le_nat_of_zeros(32);
    bytes::lemma_le_bytes_of_le_nat(b);
    bytes::lemma_le_bytes_of_le_nat(pallas::identity());
}

/// Two keys, diversifiers or addresses compare as equal exactly where their encodings are equal.
pub proof fn keys_are_equal_as_encodings(
    d: [Diversifier; 2],
    ovk: [OutgoingViewingKey; 2],
    pk_d: [DiversifiedTransmissionKey; 2],
    rk: [VerificationKey; 2],
    fvk: [FullViewingKey; 2],
    addr: [Address; 2],
    r: [bool; 6],
)
    requires
        call_ensures(Diversifier::eq, (&d[0], &d[1]), r[0]),
        call_ensures(OutgoingViewingKey::eq, (&ovk[0], &ovk[1]), r[1]),
        call_ensures(DiversifiedTransmissionKey::eq, (&pk_d[0], &pk_d[1]), r[2]),
        call_ensures(VerificationKey::eq, (&rk[0], &rk[1]), r[3]),
        call_ensures(FullViewingKey::eq, (&fvk[0], &fvk[1]), r[4]),
        call_ensures(Address::eq, (&addr[0], &addr[1]), r[5]),
    ensures
        r[0] == (d[0]@ == d[1]@),
        r[1] == (ovk[0]@ == ovk[1]@),
        r[2] == (pk_d[0]@ == pk_d[1]@),
        r[3] == (rk[0]@ == rk[1]@),
        r[4] == (fvk[0]@.ak == fvk[1]@.ak && fvk[0]@.nk == fvk[1]@.nk && fvk[0]@.rivk
            == fvk[1]@.rivk),
        r[5] == (addr[0]@.d == addr[1]@.d && addr[0]@.pk_d == addr[1]@.pk_d),
{
}

/// Two parts of notes, or commitments, compare as equal exactly where their encodings are equal,
/// and two notes exactly where what is extracted from their commitments is.
pub proof fn notes_are_equal_as_commitments(
    nf: [Nullifier; 2],
    rho: [Rho; 2],
    rseed: [RandomSeed; 2],
    cmx: [ExtractedNoteCommitment; 2],
    cv: [ValueCommitment; 2],
    notes: [Note; 2],
    cms: [NoteCommitment; 2],
    r: [bool; 6],
)
    requires
        call_ensures(Nullifier::eq, (&nf[0], &nf[1]), r[0]),
        call_ensures(Rho::eq, (&rho[0], &rho[1]), r[1]),
        call_ensures(RandomSeed::eq, (&rseed[0], &rseed[1]), r[2]),
        call_ensures(ExtractedNoteCommitment::eq, (&cmx[0], &cmx[1]), r[3]),
        call_ensures(ValueCommitment::eq, (&cv[0], &cv[1]), r[4]),
        call_ensures(Note::eq, (&notes[0], &notes[1]), r[5]),
        call_ensures(Note::commitment, (&notes[0],), cms[0]),
        call_ensures(Note::commitment, (&notes[1],), cms[1]),
    ensures
        r[0] == (nf[0]@ == nf[1]@),
        r[1] == (rho[0]@ == rho[1]@),
        r[2] == (rseed[0]@ == rseed[1]@),
        r[3] == (cmx[0]@ == cmx[1]@),
        r[4] == (cv[0]@ == cv[1]@),
        r[5] == (pallas::extract_p(cms[0]@) == pallas::extract_p(cms[1]@)),
{
}

// The expansion function and the fields.

/// The expansion of a key is the BLAKE2b hash, personalized `Zcash_ExpandSeed`, of the key, the
/// separator and the further input, in this order and whole.
pub proof fn expansion_is_a_hash(key: &[u8; 32], tag: u8, t: &[u8], r: [u8; 64])
    requires
        call_ensures(prf_expand, (key, tag, t), r),
    ensures
        r@ == hash::blake2b(
            seq![
                0x5au8, 0x63, 0x61, 0x73, 0x68, 0x5f, 0x45, 0x78, 0x70, 0x61, 0x6e, 0x64, 0x53,
                0x65, 0x65, 0x64,
            ],
            key@.push(tag) + t@,
            64,
        ),
{
    lemma_expansion(key@, tag, t@);
}

/// The expansion of a key, of any bytes, is that hash.
pub proof fn lemma_expansion(key: Seq<u8>, tag: u8, t: Seq<u8>)
    ensures
        prf::prf_expand_spec(key, tag, t) == hash::blake2b(
            seq![
                0x5au8, 0x63, 0x61, 0x73, 0x68, 0x5f, 0x45, 0x78, 0x70, 0x61, 0x6e, 0x64, 0x53,
                0x65, 0x65, 0x64,
            ],
            key.push(tag) + t,
            64,
        ),
{
    assert(prf::EXPAND_SEED_PERSONALIZATION@ =~= seq![
        0x5au8, 0x63, 0x61, 0x73, 0x68, 0x5f, 0x45, 0x78, 0x70, 0x61, 0x6e, 0x64, 0x53, 0x65, 0x65,
        0x64,
    ]);
    assert(key + seq![tag] + t =~= key.push(tag) + t);
}

/// An expansion reduces into either field to the remainder by the field's order.
pub proof fn expansions_are_reduced(b: &[u8; 64], base: [u8; 32], scalar: [u8; 32])
    requires
        call_ensures(to_base, (b,), base),
        call_ensures(to_scalar, (b,), scalar),
    ensures
        base@ == bytes::le_bytes(bytes::le_nat(b@) % pallas::base_modulus(), 32),
        scalar@ == bytes::le_bytes(bytes::le_nat(b@) % pallas::scalar_modulus(), 32),
{
}

/// What is extracted from a point is zero for the identity, and else the x-coordinate.
pub proof fn extraction_is_the_x_coordinate(point: Seq<u8>)
    ensures
        point == bytes::zeros(32) ==> pallas::extract_p(point) == bytes::zeros(32),
        point != bytes::zeros(32) ==> pallas::extract_p(point) == pallas::pallas_x(point),
{
}

// Keys.

/// The base of a diversifier is the point to which its bytes hash, and where that is the identity,
/// the one to which the empty string hashes.
pub proof fn base_is_the_hash_of_the_diversifier(d: &Diversifier, r: [u8; 32])
    requires
        call_ensures(Diversifier::g_d, (d,), r),
    ensures
        ({
            let h = pallas::pallas_hash_to_curve("z.cash:Orchard-gd"@, d@);
            &&& h != pallas::identity() ==> r@ == h
            &&& h == pallas::identity() ==> r@ == pallas::pallas_hash_to_curve(
                "z.cash:Orchard-gd"@,
                Seq::empty(),
            )
        }),
{
    lemma_base(d@);
}

/// The base that any bytes stand for is that hash.
pub proof fn lemma_base(d: Seq<u8>)
    ensures
        ({
            let h = pallas::pallas_hash_to_curve("z.cash:Orchard-gd"@, d);
            &&& h != pallas::identity() ==> keys::diversify_hash(d) == h
            &&& h == pallas::identity() ==> keys::diversify_hash(d) == pallas::pallas_hash_to_curve(
                "z.cash:Orchard-gd"@,
                Seq::empty(),
            )
        }),
{
}

/// The address of a viewing key at a diversifier has that diversifier, and for its transmission key
/// the key's multiple of the diversifier's base.
pub proof fn address_is_a_multiple_of_its_base(
    ivk: &PreparedIncomingViewingKey,
    d: Diversifier,
    g_d: [u8; 32],
    derived: Option<DiversifiedTransmissionKey>,
    address: Option<Address>,
)
    requires
        call_ensures(Diversifier::g_d, (&d,), g_d),
        call_ensures(DiversifiedTransmissionKey::derive, (ivk, &d), derived),
        call_ensures(PreparedIncomingViewingKey::address, (ivk, d), address),
    ensures
        derived is Some <==> g_d@ != pallas::identity(),
        address is Some <==> derived is Some,
        derived is Some ==> derived->0@ == pallas::pallas_mul(ivk@, g_d@),
        address is Some ==> address->0@.d == d@ && address->0@.pk_d == derived->0@,
{
}

/// An address keeps the parts that it is made from.
pub proof fn address_keeps_its_parts(
    d: Diversifier,
    pk_d: DiversifiedTransmissionKey,
    address: Address,
    got_d: Diversifier,
    got_pk_d: &DiversifiedTransmissionKey,
    g_d: [u8; 32],
    got_g_d: [u8; 32],
)
    requires
        call_ensures(Address::from_parts, (d, pk_d), address),
        call_ensures(Address::diversifier, (&address,), got_d),
        call_ensures(Address::pk_d, (&address,), got_pk_d),
        call_ensures(Diversifier::g_d, (&d,), g_d),
        call_ensures(Address::g_d, (&address,), got_g_d),
    ensures
        got_d@ == d@,
        got_pk_d@ == pk_d@,
        got_g_d@ == g_d@,
{
}

/// Two addresses have the same expanded receiver exactly where their bases and their transmission
/// keys are the same.
pub proof fn expanded_receivers_are_bases_and_keys(
    a: &Address,
    b: &Address,
    g_a: [u8; 32],
    g_b: [u8; 32],
    k_a: &DiversifiedTransmissionKey,
    k_b: &DiversifiedTransmissionKey,
    r: bool,
)
    requires
        call_ensures(Address::g_d, (a,), g_a),
        call_ensures(Address::g_d, (b,), g_b),
        call_ensures(Address::pk_d, (a,), k_a),
        call_ensures(Address::pk_d, (b,), k_b),
        call_ensures(Address::same_expanded_receiver, (a, b), r),
    ensures
        r <==> g_a@ == g_b@ && k_a@ == k_b@,
{
}

/// The public half of an ephemeral key pair is the secret half's multiple of the base, the sender
/// shares the secret half's multiple of the transmission key, and the recipient the viewing key's
/// multiple of the public half. These are the same where the transmission key is the viewing key's
/// multiple of the base.
pub proof fn both_ends_share_a_secret(
    esk: &EphemeralSecretKey,
    d: &Diversifier,
    pk_d: &DiversifiedTransmissionKey,
    ivk: &PreparedIncomingViewingKey,
    scalar: [u8; 32],
    g_d: [u8; 32],
    epk: EphemeralPublicKey,
    prepared: PreparedEphemeralPublicKey,
    sent: SharedSecret,
    received: SharedSecret,
    sent_bytes: [u8; 32],
    received_bytes: [u8; 32],
)
    requires
        call_ensures(PreparedIncomingViewingKey::raw_scalar, (ivk,), scalar),
        call_ensures(Diversifier::g_d, (d,), g_d),
        call_ensures(EphemeralSecretKey::derive_public, (esk, d), epk),
        call_ensures(PreparedEphemeralPublicKey::new, (epk,), prepared),
        call_ensures(EphemeralSecretKey::agree, (esk, pk_d), sent),
        call_ensures(PreparedEphemeralPublicKey::agree, (&prepared, ivk), received),
        call_ensures(SharedSecret::to_bytes, (&sent,), sent_bytes),
        call_ensures(SharedSecret::to_bytes, (&received,), received_bytes),
    ensures
        epk@ == pallas::pallas_mul(esk@, g_d@),
        sent_bytes@ == pallas::pallas_mul(esk@, pk_d@),
        received_bytes@ == pallas::pallas_mul(scalar@, pallas::pallas_mul(esk@, g_d@)),
        pk_d@ == pallas::pallas_mul(scalar@, g_d@) ==> sent_bytes@ == received_bytes@,
{
}

/// The symmetric key is the BLAKE2b hash, personalized `Zcash_OrchardKDF`, of the shared secret and
/// the ephemeral key, in this order and whole.
pub proof fn symmetric_key_is_a_hash(
    secret: &SharedSecret,
    secret_bytes: [u8; 32],
    ephemeral_key: &[u8; 32],
    r: [u8; 32],
)
    requires
        call_ensures(SharedSecret::to_bytes, (secret,), secret_bytes),
        call_ensures(SharedSecret::kdf_orchard, (secret, ephemeral_key), r),
    ensures
        r@ == hash::blake2b(
            seq![
                0x5au8, 0x63, 0x61, 0x73, 0x68, 0x5f, 0x4f, 0x72, 0x63, 0x68, 0x61, 0x72, 0x64,
                0x4b, 0x44, 0x46,
            ],
            secret_bytes@ + ephemeral_key@,
            32,
        ),
{
    lemma_symmetric_key(secret@, ephemeral_key@);
}

/// The symmetric key that any bytes give is that hash.
pub proof fn lemma_symmetric_key(secret: Seq<u8>, ephemeral_key: Seq<u8>)
    ensures
        keys::kdf_orchard_spec(secret, ephemeral_key) == hash::blake2b(
            seq![
                0x5au8, 0x63, 0x61, 0x73, 0x68, 0x5f, 0x4f, 0x72, 0x63, 0x68, 0x61, 0x72, 0x64,
                0x4b, 0x44, 0x46,
            ],
            secret + ephemeral_key,
            32,
        ),
{
    assert(keys::KDF_ORCHARD_PERSONALIZATION@ =~= seq![
        0x5au8, 0x63, 0x61, 0x73, 0x68, 0x5f, 0x4f, 0x72, 0x63, 0x68, 0x61, 0x72, 0x64, 0x4b, 0x44,
        0x46,
    ]);
}

/// The incoming viewing key of a scope commits to `ak` and `nk`, 255 bits of each. Its randomness
/// is `rivk` in the external scope, and in the internal scope the expansion of `rivk` under `0x83`
/// with `ak` and `nk`.
pub proof fn incoming_viewing_keys_commit_to_ak_and_nk(
    fvk: &FullViewingKey,
    external: PreparedIncomingViewingKey,
    internal: PreparedIncomingViewingKey,
)
    requires
        call_ensures(FullViewingKey::to_ivk, (fvk, Scope::External), external),
        call_ensures(FullViewingKey::to_ivk, (fvk, Scope::Internal), internal),
    ensures
        ({
            let msg = bytes::bits_le(fvk@.ak, 255) + bytes::bits_le(fvk@.nk, 255);
            let expanded = prf::prf_expand_spec(fvk@.rivk, 0x83, fvk@.ak + fvk@.nk);
            let internal_rivk = bytes::le_bytes(
                bytes::le_nat(expanded) % pallas::scalar_modulus(),
                32,
            );
            let external_cm = sinsemilla_commit::sinsemilla_commit(
                "z.cash:Orchard-CommitIvk"@,
                msg,
                fvk@.rivk,
            );
            let internal_cm = sinsemilla_commit::sinsemilla_commit(
                "z.cash:Orchard-CommitIvk"@,
                msg,
                internal_rivk,
            );
            &&& external_cm is Some && external@ == pallas::extract_p(external_cm->0)
            &&& internal_cm is Some && internal@ == pallas::extract_p(internal_cm->0)
        }),
{
}

/// The incoming viewing key of any parts is that commitment, in either scope.
pub proof fn incoming_viewing_key_formula(key: FullViewingKeyView)
    ensures
        ({
            let msg = bytes::bits_le(key.ak, 255) + bytes::bits_le(key.nk, 255);
            let expanded = prf::prf_expand_spec(key.rivk, 0x83, key.ak + key.nk);
            let internal_rivk = bytes::le_bytes(
                bytes::le_nat(expanded) % pallas::scalar_modulus(),
                32,
            );
            let external_cm = sinsemilla_commit::sinsemilla_commit(
                "z.cash:Orchard-CommitIvk"@,
                msg,
                key.rivk,
            );
            let internal_cm = sinsemilla_commit::sinsemilla_commit(
                "z.cash:Orchard-CommitIvk"@,
                msg,
                internal_rivk,
            );
            &&& key.ivk_in(Scope::External) is Some <==> external_cm is Some
            &&& external_cm is Some ==> key.ivk_in(Scope::External) == Some(
                pallas::extract_p(external_cm->0),
            )
            &&& key.ivk_in(Scope::Internal) is Some <==> internal_cm is Some
            &&& internal_cm is Some ==> key.ivk_in(Scope::Internal) == Some(
                pallas::extract_p(internal_cm->0),
            )
        }),
{
}

/// A full viewing key keeps the bytes that it is parsed from: its nullifier deriving key is the
/// second third, and its spend validating key, the first third, is what a randomizer is added to.
/// The first third of every key that is parsed is a point other than the identity whose sign bit is
/// clear, the second a base field element, and the last a scalar.
pub proof fn full_viewing_key_keeps_its_bytes(
    b: [u8; 96],
    fvk: Option<FullViewingKey>,
    nk: [u8; 32],
    ak: SpendValidatingKey,
    alpha_bytes: [u8; 32],
    alpha: Option<SpendAuthRandomizer>,
    rk: VerificationKey,
    rk_bytes: [u8; 32],
)
    requires
        call_ensures(FullViewingKey::from_bytes, (&b,), fvk),
        call_ensures(SpendAuthRandomizer::from_bytes, (&alpha_bytes,), alpha),
        fvk is Some ==> {
            &&& call_ensures(FullViewingKey::nk, (&fvk->0,), nk)
            &&& call_ensures(SpendValidatingKey::from_fvk, (&fvk->0,), ak)
        },
        fvk is Some && alpha is Some ==> {
            &&& call_ensures(SpendValidatingKey::randomize, (&ak, &alpha->0), rk)
            &&& call_ensures(VerificationKey::to_bytes, (&rk,), rk_bytes)
        },
    ensures
        alpha is Some <==> bytes::le_nat(alpha_bytes@) < pallas::scalar_modulus(),
        fvk is Some ==> {
            &&& nk@ == b@.subrange(32, 64)
            &&& fvk->0@.ak == b@.subrange(0, 32)
            &&& fvk->0@.nk == b@.subrange(32, 64)
            &&& fvk->0@.rivk == b@.subrange(64, 96)
            &&& pallas::pallas_is_point(b@.subrange(0, 32))
            &&& b@.subrange(0, 32) != pallas::identity()
            &&& b@[31] < 0x80
            &&& bytes::le_nat(b@.subrange(32, 64)) < pallas::base_modulus()
            &&& bytes::le_nat(b@.subrange(64, 96)) < pallas::scalar_modulus()
        },
        fvk is Some && alpha is Some ==> rk_bytes@ == pallas::pallas_add(
            b@.subrange(0, 32),
            pallas::pallas_mul(alpha_bytes@, redpallas::spend_auth_basepoint()),
        ),
{
    assert(b@.subrange(0, 32)[31] == b@[31]);
}

/// A full viewing key is parsed exactly where its thirds are what they must be and the commitments
/// of both scopes have a value other than zero.
pub proof fn full_viewing_key_is_parsed_where_valid(b: [u8; 96], fvk: Option<FullViewingKey>)
    requires
        call_ensures(FullViewingKey::from_bytes, (&b,), fvk),
    ensures
        ({
            let ak = b@.subrange(0, 32);
            let nk = b@.subrange(32, 64);
            let rivk = b@.subrange(64, 96);
            let msg = bytes::bits_le(ak, 255) + bytes::bits_le(nk, 255);
            let expanded = prf::prf_expand_spec(rivk, 0x83, ak + nk);
            let internal_rivk = bytes::le_bytes(
                bytes::le_nat(expanded) % pallas::scalar_modulus(),
                32,
            );
            let external_cm = sinsemilla_commit::sinsemilla_commit(
                "z.cash:Orchard-CommitIvk"@,
                msg,
                rivk,
            );
            let internal_cm = sinsemilla_commit::sinsemilla_commit(
                "z.cash:Orchard-CommitIvk"@,
                msg,
                internal_rivk,
            );
            fvk is Some <==> {
                &&& pallas::pallas_is_point(ak)
                &&& ak != pallas::identity()
                &&& b@[31] < 0x80
                &&& bytes::le_nat(nk) < pallas::base_modulus()
                &&& bytes::le_nat(rivk) < pallas::scalar_modulus()
                &&& external_cm is Some
                &&& pallas::extract_p(external_cm->0) != pallas::identity()
                &&& internal_cm is Some
                &&& pallas::extract_p(internal_cm->0) != pallas::identity()
            }
        }),
{
    assert(b@.subrange(0, 32)[31] == b@[31]);
}

/// A full viewing key has an address in the external scope where the external viewing key's
/// multiple of the address's base is its transmission key, else in the internal scope where the
/// internal one's is, and else in none. Its classifier gives the same answer.
pub proof fn scopes_are_decided_by_multiples(
    fvk: &FullViewingKey,
    address: &Address,
    external: PreparedIncomingViewingKey,
    internal: PreparedIncomingViewingKey,
    g_d: [u8; 32],
    classifier: ScopeClassifier,
    direct: Option<Scope>,
    cached: Option<Scope>,
)
    requires
        call_ensures(FullViewingKey::to_ivk, (fvk, Scope::External), external),
        call_ensures(FullViewingKey::to_ivk, (fvk, Scope::Internal), internal),
        call_ensures(Address::g_d, (address,), g_d),
        call_ensures(FullViewingKey::scope_classifier, (fvk,), classifier),
        call_ensures(FullViewingKey::scope_for_address, (fvk, address), direct),
        call_ensures(ScopeClassifier::scope_for_address, (&classifier, address), cached),
    ensures
        ({
            let is_external = pallas::pallas_mul(external@, g_d@) == address@.pk_d;
            let is_internal = pallas::pallas_mul(internal@, g_d@) == address@.pk_d;
            &&& direct == Some(Scope::External) <==> is_external
            &&& direct == Some(Scope::Internal) <==> !is_external && is_internal
            &&& direct is None <==> !is_external && !is_internal
            &&& cached == direct
        }),
{
}

// Values.

/// A value is its raw number of zatoshis, is written and read in little-endian order, and the
/// difference of two values is the difference of the integers, with its sign.
pub proof fn values_are_integers(
    a: u64,
    b: u64,
    x: NoteValue,
    y: NoteValue,
    raw: u64,
    encoded: [u8; 8],
    decoded: NoteValue,
    difference: ValueSum,
)
    requires
        call_ensures(NoteValue::from_raw, (a,), x),
        call_ensures(NoteValue::from_raw, (b,), y),
        call_ensures(NoteValue::inner, (&x,), raw),
        call_ensures(NoteValue::to_bytes, (&x,), encoded),
        call_ensures(NoteValue::from_bytes, (&encoded,), decoded),
        call_ensures(NoteValue::minus, (&x, y), difference),
    ensures
        raw == a,
        encoded@ == bytes::le_bytes(a as nat, 8),
        decoded.raw == a,
        difference.raw as int == a as int - b as int,
{
    bytes::lemma_le_nat_of_le_bytes_u64(a, 8);
}

/// The commitment to a value is the value's multiple of one fixed point plus the trapdoor's
/// multiple of another, where a negative value stands for its remainder by the group's order.
pub proof fn value_commitments_are_sums(
    v: ValueSum,
    trapdoor_bytes: [u8; 32],
    rcv: Option<ValueCommitTrapdoor>,
    cv: ValueCommitment,
    cv_bytes: [u8; 32],
)
    requires
        call_ensures(ValueCommitTrapdoor::from_bytes, (&trapdoor_bytes,), rcv),
        rcv is Some ==> {
            &&& call_ensures(ValueCommitment::derive, (v, &rcv->0), cv)
            &&& call_ensures(ValueCommitment::to_bytes, (&cv,), cv_bytes)
        },
    ensures
        rcv is Some <==> bytes::le_nat(trapdoor_bytes@) < pallas::scalar_modulus(),
        rcv is Some ==> cv_bytes@ == pallas::pallas_add(
            pallas::pallas_mul(
                bytes::le_bytes(
                    ((v.raw as int) % (pallas::scalar_modulus() as int)) as nat,
                    32,
                ),
                pallas::pallas_hash_to_curve("z.cash:Orchard-cv"@, seq![0x76u8]),
            ),
            pallas::pallas_mul(
                trapdoor_bytes@,
                pallas::pallas_hash_to_curve("z.cash:Orchard-cv"@, seq![0x72u8]),
            ),
        ),
{
}

/// The commitment to any integer, of any bytes for the trapdoor, is that sum.
pub proof fn lemma_value_commitment(v: int, rcv: Seq<u8>)
    ensures
        value::value_commitment(v, rcv) == pallas::pallas_add(
            pallas::pallas_mul(
                bytes::le_bytes((v % (pallas::scalar_modulus() as int)) as nat, 32),
                pallas::pallas_hash_to_curve("z.cash:Orchard-cv"@, seq![0x76u8]),
            ),
            pallas::pallas_mul(
                rcv,
                pallas::pallas_hash_to_curve("z.cash:Orchard-cv"@, seq![0x72u8]),
            ),
        ),
{
}

// Notes.

/// The lead bytes of the two versions are `0x02` and `0x03`, and a version is told by its own lead
/// byte and by no other byte.
pub proof fn versions_are_told_by_lead_bytes(
    version: NoteVersion,
    lead: u8,
    byte: u8,
    told: Option<NoteVersion>,
)
    requires
        call_ensures(NoteVersion::lead_byte, (&version,), lead),
        call_ensures(NoteVersion::from_lead_byte, (byte,), told),
    ensures
        version == NoteVersion::V2 <==> lead == 0x02,
        version == NoteVersion::V3 <==> lead == 0x03,
        lead == version.lead(),
        told == Some(version) <==> byte == lead,
        told is None <==> byte != 0x02 && byte != 0x03,
{
}

/// What a seed gives in a note: each is the reduced expansion of the seed with the note's rho, the
/// ephemeral secret key under `0x04`, the commitment trapdoor under `0x05` and psi under `0x09`.
pub proof fn seeds_are_expanded(rseed: Seq<u8>, rho: Seq<u8>)
    ensures
        note::esk_of(rseed, rho) == bytes::le_bytes(
            bytes::le_nat(prf::prf_expand_spec(rseed, 0x04, rho)) % pallas::scalar_modulus(),
            32,
        ),
        note::rcm_of(rseed, rho) == bytes::le_bytes(
            bytes::le_nat(prf::prf_expand_spec(rseed, 0x05, rho)) % pallas::scalar_modulus(),
            32,
        ),
        note::psi_of(rseed, rho) == bytes::le_bytes(
            bytes::le_nat(prf::prf_expand_spec(rseed, 0x09, rho)) % pallas::base_modulus(),
            32,
        ),
{
}

/// A seed is read exactly where its expansion under `0x04` does not reduce to zero, keeps its
/// bytes, and gives that scalar as the ephemeral secret key.
pub proof fn seed_is_read_where_its_key_is_not_zero(
    b: [u8; 32],
    rho: &Rho,
    expanded: [u8; 64],
    scalar: [u8; 32],
    rseed: Option<RandomSeed>,
    r: &[u8; 32],
    esk: Option<EphemeralSecretKey>,
)
    requires
        call_ensures(to_scalar, (&expanded,), scalar),
        expanded@ == prf::prf_expand_spec(b@, 0x04, rho@),
        call_ensures(RandomSeed::from_bytes, (b, rho), rseed),
        rseed is Some ==> {
            &&& call_ensures(RandomSeed::as_bytes, (&rseed->0,), r)
            &&& call_ensures(RandomSeed::esk, (&rseed->0, rho), esk)
        },
    ensures
        rseed is Some <==> scalar@ != bytes::zeros(32),
        rseed is Some ==> r@ == b@ && esk is Some && esk->0@ == scalar@,
{
    seeds_are_expanded(b@, rho@);
}

/// A seed gives in a note with any rho, its own or not, the ephemeral secret key to which its
/// expansion with that rho reduces, and none where that is zero.
pub proof fn seed_gives_a_key_with_any_rho(
    rseed: &RandomSeed,
    rho: &Rho,
    esk: Option<EphemeralSecretKey>,
)
    requires
        call_ensures(RandomSeed::esk, (rseed, rho), esk),
    ensures
        ({
            let scalar = bytes::le_bytes(
                bytes::le_nat(prf::prf_expand_spec(rseed@, 0x04, rho@)) % pallas::scalar_modulus(),
                32,
            );
            &&& esk is Some <==> scalar != bytes::zeros(32)
            &&& esk is Some ==> esk->0@ == scalar
        }),
{
}

/// A note is made exactly where its commitment has a value, whatever its version, and keeps the
/// parts that it is made from. Both ways of making it agree.
pub proof fn note_keeps_its_parts(
    recipient: Address,
    value: NoteValue,
    rho: Rho,
    rseed: RandomSeed,
    version: NoteVersion,
    made: Option<Note>,
    made_with: Option<(Note, NoteCommitment)>,
    got: (Address, NoteValue, Rho, &RandomSeed, NoteVersion),
)
    requires
        call_ensures(Note::from_parts, (recipient, value, rho, rseed, version), made),
        call_ensures(
            Note::from_parts_with_commitment,
            (recipient, value, rho, rseed, version),
            made_with,
        ),
        made is Some ==> {
            &&& call_ensures(Note::recipient, (&made->0,), got.0)
            &&& call_ensures(Note::value, (&made->0,), got.1)
            &&& call_ensures(Note::rho, (&made->0,), got.2)
            &&& call_ensures(Note::rseed, (&made->0,), got.3)
            &&& call_ensures(Note::version, (&made->0,), got.4)
        },
    ensures
        ({
            let cm = sinsemilla_commit::sinsemilla_commit(
                "z.cash:Orchard-NoteCommit"@,
                bytes::bits_le(keys::diversify_hash(recipient@.d), 256) + bytes::bits_le(
                    recipient@.pk_d,
                    256,
                ) + bytes::bits_le(bytes::le_bytes(value.raw as nat, 8), 64) + bytes::bits_le(
                    rho@,
                    255,
                ) + bytes::bits_le(note::psi_of(rseed@, rho@), 255),
                note::rcm_of(rseed@, rho@),
            );
            &&& made is Some <==> cm is Some
            &&& made_with is Some <==> cm is Some
            &&& made_with matches Some((n, with)) ==> with@ == cm->0 && n@ == made->0@
        }),
        made is Some ==> {
            &&& got.0@.d == recipient@.d && got.0@.pk_d == recipient@.pk_d
            &&& got.1.raw == value.raw
            &&& got.2@ == rho@
            &&& got.3@ == rseed@
            &&& got.4 == version
        },
{
}

/// The commitment to a note commits to 256 bits of its recipient's base, 256 of the transmission
/// key, the 64 of the value, 255 of rho and 255 of psi, with the note's trapdoor. The version is
/// not committed to.
pub proof fn note_commitment_formula(n: NoteView)
    ensures
        n.commitment() == sinsemilla_commit::sinsemilla_commit(
            "z.cash:Orchard-NoteCommit"@,
            bytes::bits_le(keys::diversify_hash(n.recipient.d), 256) + bytes::bits_le(
                n.recipient.pk_d,
                256,
            ) + bytes::bits_le(bytes::le_bytes(n.value as nat, 8), 64) + bytes::bits_le(n.rho, 255)
                + bytes::bits_le(note::psi_of(n.rseed, n.rho), 255),
            note::rcm_of(n.rseed, n.rho),
        ),
        n.commitment() is Some ==> n.cmx() == pallas::extract_p(n.commitment()->0),
        n.esk() == note::esk_of(n.rseed, n.rho),
        n.epk() == pallas::pallas_mul(
            note::esk_of(n.rseed, n.rho),
            keys::diversify_hash(n.recipient.d),
        ),
{
}

/// A note's commitment and the commitment extracted from it are those of its parts.
pub proof fn commitment_is_that_of_the_parts(
    n: &Note,
    cm: NoteCommitment,
    cmx: ExtractedNoteCommitment,
    esk: Option<EphemeralSecretKey>,
)
    requires
        call_ensures(Note::commitment, (n,), cm),
        call_ensures(ExtractedNoteCommitment::from_commitment, (&cm,), cmx),
        call_ensures(Note::esk, (n,), esk),
    ensures
        sinsemilla_commit::sinsemilla_commit(
            "z.cash:Orchard-NoteCommit"@,
            bytes::bits_le(keys::diversify_hash(n@.recipient.d), 256) + bytes::bits_le(
                n@.recipient.pk_d,
                256,
            ) + bytes::bits_le(bytes::le_bytes(n@.value as nat, 8), 64) + bytes::bits_le(
                n@.rho,
                255,
            ) + bytes::bits_le(note::psi_of(n@.rseed, n@.rho), 255),
            note::rcm_of(n@.rseed, n@.rho),
        ) == Some(cm@),
        cmx@ == pallas::extract_p(cm@),
        esk is Some <==> note::esk_of(n@.rseed, n@.rho) != pallas::identity(),
        esk is Some ==> esk->0@ == note::esk_of(n@.rseed, n@.rho),
{
}

/// The nullifier of a note is what is extracted from its commitment plus a multiple of a fixed
/// point. The multiple is the Poseidon hash of the nullifier deriving key and rho, plus psi. Giving
/// the note's own commitment spares computing it and changes nothing.
pub proof fn nullifier_is_extracted_from_a_sum(
    n: &Note,
    fvk: &FullViewingKey,
    nk: [u8; 32],
    cm: NoteCommitment,
    nf: Nullifier,
    with: Nullifier,
)
    requires
        call_ensures(FullViewingKey::nk, (fvk,), nk),
        call_ensures(Note::commitment, (n,), cm),
        call_ensures(Note::nullifier, (n, fvk), nf),
        call_ensures(Note::nullifier_with_commitment, (n, fvk, &cm), with),
    ensures
        with@ == nf@,
        ({
            let scalar = (bytes::le_nat(hash::poseidon_hash(nk@, n@.rho)) + bytes::le_nat(
                note::psi_of(n@.rseed, n@.rho),
            )) % pallas::base_modulus();
            nf@ == pallas::extract_p(
                pallas::pallas_add(
                    pallas::pallas_mul(
                        bytes::le_bytes(scalar, 32),
                        pallas::pallas_hash_to_curve("z.cash:Orchard"@, seq![0x4bu8]),
                    ),
                    cm@,
                ),
            )
        }),
{
}

/// The nullifier that is derived with any commitment is extracted from the sum with that
/// commitment.
pub proof fn nullifier_with_any_commitment(
    n: &Note,
    fvk: &FullViewingKey,
    cm: &NoteCommitment,
    nf: Nullifier,
)
    requires
        call_ensures(Note::nullifier_with_commitment, (n, fvk, cm), nf),
    ensures
        nf@ == pallas::extract_p(
            pallas::pallas_add(
                pallas::pallas_mul(
                    bytes::le_bytes(
                        (bytes::le_nat(hash::poseidon_hash(fvk@.nk, n@.rho)) + bytes::le_nat(
                            note::psi_of(n@.rseed, n@.rho),
                        )) % pallas::base_modulus(),
                        32,
                    ),
                    pallas::pallas_hash_to_curve("z.cash:Orchard"@, seq![0x4bu8]),
                ),
                cm@,
            ),
        ),
{
}

/// The nullifier of any parts of a note is extracted from that sum.
pub proof fn nullifier_formula(n: NoteView, nk: Seq<u8>)
    ensures
        n.nullifier(nk) == pallas::extract_p(
            pallas::pallas_add(
                pallas::pallas_mul(
                    bytes::le_bytes(
                        (bytes::le_nat(hash::poseidon_hash(nk, n.rho)) + bytes::le_nat(
                            note::psi_of(n.rseed, n.rho),
                        )) % pallas::base_modulus(),
                        32,
                    ),
                    pallas::pallas_hash_to_curve("z.cash:Orchard"@, seq![0x4bu8]),
                ),
                n.commitment()->0,
            ),
        ),
{
}

/// An action is made exactly where `rk` is not the identity, keeps the parts that it is made from,
/// and gives its nullifier as the rho of the note that it creates.
pub proof fn action_keeps_its_parts<T>(
    nf: Nullifier,
    rk: VerificationKey,
    cmx: ExtractedNoteCommitment,
    encrypted_note: TransmittedNoteCiphertext,
    cv_net: ValueCommitment,
    authorization: T,
    made: Option<Action<T>>,
    got_nf: &Nullifier,
    got_rk: &VerificationKey,
    got_cmx: &ExtractedNoteCommitment,
    got_note: &TransmittedNoteCiphertext,
    got_cv_net: &ValueCommitment,
    got_authorization: &T,
    rho: Rho,
)
    requires
        call_ensures(
            Action::<T>::from_parts,
            (nf, rk, cmx, encrypted_note, cv_net, authorization),
            made,
        ),
        made is Some ==> {
            &&& call_ensures(Action::<T>::nullifier, (&made->0,), got_nf)
            &&& call_ensures(Action::<T>::rk, (&made->0,), got_rk)
            &&& call_ensures(Action::<T>::cmx, (&made->0,), got_cmx)
            &&& call_ensures(Action::<T>::encrypted_note, (&made->0,), got_note)
            &&& call_ensures(Action::<T>::cv_net, (&made->0,), got_cv_net)
            &&& call_ensures(Action::<T>::authorization, (&made->0,), got_authorization)
            &&& call_ensures(Action::<T>::rho, (&made->0,), rho)
        },
    ensures
        made is Some <==> rk@ != bytes::zeros(32),
        made is Some ==> {
            &&& got_nf@ == nf@
            &&& got_rk@ == rk@
            &&& got_cmx@ == cmx@
            &&& got_note.epk_bytes@ == encrypted_note.epk_bytes@
            &&& got_note.enc_ciphertext@ == encrypted_note.enc_ciphertext@
            &&& got_note.out_ciphertext@ == encrypted_note.out_ciphertext@
            &&& got_cv_net@ == cv_net@
            &&& *got_authorization == authorization
            &&& rho@ == nf@
        },
{
    if made is Some {
        assert(got_note@ == encrypted_note@);
    }
}

} // verus!
