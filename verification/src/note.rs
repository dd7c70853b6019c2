//! Notes, and what is derived from them.

use vstd::prelude::*;

use crate::address::{Address, AddressView};
use crate::bytes;
use crate::bytes::{append_bits, bytes_eq};
use crate::keys::{EphemeralSecretKey, FullViewingKey};
use crate::primitives::hash;
use crate::primitives::hash::poseidon;
use crate::primitives::pallas;
use crate::primitives::pallas::{
    base_add, base_is_canonical, hash_to_curve, point_add, point_mul, point_x,
};
use crate::primitives::prf;
use crate::primitives::prf::{prf_expand, to_base, to_scalar};
use crate::primitives::sinsemilla_commit;
use crate::primitives::sinsemilla_commit::commit;
use crate::value::NoteValue;

verus! {

/// The version of a note plaintext.
#[derive(Clone, Copy, PartialEq, Eq, Structural, Debug)]
pub enum NoteVersion {
    /// The version of Orchard notes, with lead byte `0x02`.
    V2,
    /// The version of Ironwood notes, with lead byte `0x03`.
    V3,
}

impl NoteVersion {
    /// The byte with which a note plaintext of this version starts.
    pub open spec fn lead(self) -> u8 {
        match self {
            NoteVersion::V2 => 0x02,
            NoteVersion::V3 => 0x03,
        }
    }

    /// The version whose note plaintexts start with `byte`.
    pub open spec fn of_lead(byte: u8) -> Option<NoteVersion> {
        if byte == 0x02 {
            Some(NoteVersion::V2)
        } else if byte == 0x03 {
            Some(NoteVersion::V3)
        } else {
            None
        }
    }

    /// The byte with which a note plaintext of this version starts.
    pub fn lead_byte(&self) -> (r: u8)
        ensures
            r == self.lead(),
    {
        match self {
            NoteVersion::V2 => 0x02,
            NoteVersion::V3 => 0x03,
        }
    }

    /// The version whose note plaintexts start with `byte`.
    pub fn from_lead_byte(byte: u8) -> (r: Option<Self>)
        ensures
            r == NoteVersion::of_lead(byte),
    {
        match byte {
            0x02 => Some(NoteVersion::V2),
            0x03 => Some(NoteVersion::V3),
            _ => None,
        }
    }
}

/// The nullifier that spending a note reveals: a base field element, held by its encoding.
#[derive(Clone, Copy, Eq, Debug)]
pub struct Nullifier {
    bytes: [u8; 32],
}

impl View for Nullifier {
    type V = Seq<u8>;

    closed spec fn view(&self) -> Seq<u8> {
        self.bytes@
    }
}

impl PartialEq for Nullifier {
    fn eq(&self, other: &Self) -> (r: bool) {
        bytes_eq(&self.bytes, &other.bytes)
    }
}

impl vstd::std_specs::cmp::PartialEqSpecImpl for Nullifier {
    open spec fn obeys_eq_spec() -> bool {
        true
    }

    open spec fn eq_spec(&self, other: &Self) -> bool {
        self@ == other@
    }
}

impl Nullifier {
    #[verifier::type_invariant]
    spec fn is_valid(self) -> bool {
        pallas::is_base(self.bytes@)
    }

    /// Parses the encoding of a base field element.
    pub fn from_bytes(bytes: &[u8; 32]) -> (r: Option<Self>)
        ensures
            r is Some <==> pallas::is_base(bytes@),
            r is Some ==> r->0@ == bytes@,
    {
        if base_is_canonical(bytes) {
            Some(Nullifier { bytes: *bytes })
        } else {
            None
        }
    }

    /// The encoding of this nullifier.
    pub fn to_bytes(&self) -> (r: [u8; 32])
        ensures
            r@ == self@,
            pallas::is_base(r@),
    {
        proof {
            use_type_invariant(self);
        }
        self.bytes
    }
}

/// What makes a note unique: the nullifier of the note that was spent in the action that created
/// it, read as a base field element.
#[derive(Clone, Copy, Eq, Debug)]
pub struct Rho {
    bytes: [u8; 32],
}

impl View for Rho {
    type V = Seq<u8>;

    closed spec fn view(&self) -> Seq<u8> {
        self.bytes@
    }
}

impl PartialEq for Rho {
    fn eq(&self, other: &Self) -> (r: bool) {
        bytes_eq(&self.bytes, &other.bytes)
    }
}

impl vstd::std_specs::cmp::PartialEqSpecImpl for Rho {
    open spec fn obeys_eq_spec() -> bool {
        true
    }

    open spec fn eq_spec(&self, other: &Self) -> bool {
        self@ == other@
    }
}

impl Rho {
    #[verifier::type_invariant]
    spec fn is_valid(self) -> bool {
        pallas::is_base(self.bytes@)
    }

    /// The value for the output of the action that reveals `nf`.
    pub fn from_nf_old(nf: Nullifier) -> (r: Self)
        ensures
            r@ == nf@,
    {
        Rho { bytes: nf.to_bytes() }
    }

    /// The encoding of this value.
    pub fn to_bytes(&self) -> (r: [u8; 32])
        ensures
            r@ == self@,
            pallas::is_base(r@),
    {
        proof {
            use_type_invariant(self);
        }
        self.bytes
    }

    /// The number of bytes that this value holds on the heap: none.
    pub fn dynamic_usage(&self) -> (r: usize)
        ensures
            r == 0,
    {
        0
    }

    /// The bounds on the number of bytes that this value holds on the heap: none.
    pub fn dynamic_usage_bounds(&self) -> (r: (usize, Option<usize>))
        ensures
            r == (0usize, Some(0usize)),
    {
        (0, Some(0))
    }
}

/// The scalar of the ephemeral secret key that a random seed gives in a note with the given rho.
pub open spec fn esk_of(rseed: Seq<u8>, rho: Seq<u8>) -> Seq<u8> {
    prf::to_scalar_spec(prf::prf_expand_spec(rseed, 0x04, rho))
}

/// The commitment trapdoor that a random seed gives in a note with the given rho.
pub open spec fn rcm_of(rseed: Seq<u8>, rho: Seq<u8>) -> Seq<u8> {
    prf::to_scalar_spec(prf::prf_expand_spec(rseed, 0x05, rho))
}

/// The base field element that a random seed gives in a note with the given rho.
pub open spec fn psi_of(rseed: Seq<u8>, rho: Seq<u8>) -> Seq<u8> {
    prf::to_base_spec(prf::prf_expand_spec(rseed, 0x09, rho))
}

/// The random seed of a note.
#[derive(Clone, Copy, Eq, Debug)]
pub struct RandomSeed {
    bytes: [u8; 32],
}

impl View for RandomSeed {
    type V = Seq<u8>;

    closed spec fn view(&self) -> Seq<u8> {
        self.bytes@
    }
}

impl PartialEq for RandomSeed {
    fn eq(&self, other: &Self) -> (r: bool) {
        bytes_eq(&self.bytes, &other.bytes)
    }
}

impl vstd::std_specs::cmp::PartialEqSpecImpl for RandomSeed {
    open spec fn obeys_eq_spec() -> bool {
        true
    }

    open spec fn eq_spec(&self, other: &Self) -> bool {
        self@ == other@
    }
}

impl RandomSeed {
    /// The seed with the given bytes, where it gives an ephemeral secret key other than zero in a
    /// note with the given rho.
    pub fn from_bytes(bytes: [u8; 32], rho: &Rho) -> (r: Option<Self>)
        ensures
            r is Some <==> esk_of(bytes@, rho@) != pallas::identity(),
            r is Some ==> r->0@ == bytes@,
    {
        let rseed = RandomSeed { bytes };
        match rseed.esk(rho) {
            Some(_) => Some(rseed),
            None => None,
        }
    }

    /// The bytes of this seed.
    pub fn as_bytes(&self) -> (r: &[u8; 32])
        ensures
            r@ == self@,
    {
        &self.bytes
    }

    /// The ephemeral secret key of a note with this seed and the given rho, where it is not zero.
    pub fn esk(&self, rho: &Rho) -> (r: Option<EphemeralSecretKey>)
        ensures
            r is Some <==> esk_of(self@, rho@) != pallas::identity(),
            r is Some ==> r->0@ == esk_of(self@, rho@),
    {
        let esk = to_scalar(&prf_expand(&self.bytes, 0x04, &rho.bytes));
        EphemeralSecretKey::from_bytes(&esk)
    }

    /// The commitment trapdoor of a note with this seed and the given rho.
    fn rcm(&self, rho: &Rho) -> (r: [u8; 32])
        ensures
            r@ == rcm_of(self@, rho@),
            pallas::is_scalar(r@),
    {
        to_scalar(&prf_expand(&self.bytes, 0x05, &rho.bytes))
    }

    /// The further base field element that a note with this seed and the given rho commits to.
    fn psi(&self, rho: &Rho) -> (r: [u8; 32])
        ensures
            r@ == psi_of(self@, rho@),
            pallas::is_base(r@),
    {
        to_base(&prf_expand(&self.bytes, 0x09, &rho.bytes))
    }
}

/// A note commitment: a point, held by its encoding.
#[derive(Clone, Copy, Debug)]
pub struct NoteCommitment {
    bytes: [u8; 32],
}

impl View for NoteCommitment {
    type V = Seq<u8>;

    closed spec fn view(&self) -> Seq<u8> {
        self.bytes@
    }
}

impl NoteCommitment {
    #[verifier::type_invariant]
    spec fn is_valid(self) -> bool {
        pallas::pallas_is_point(self.bytes@)
    }
}

/// The x-coordinate of a note commitment: a base field element, held by its encoding.
#[derive(Clone, Copy, Eq, Debug)]
pub struct ExtractedNoteCommitment {
    bytes: [u8; 32],
}

impl View for ExtractedNoteCommitment {
    type V = Seq<u8>;

    closed spec fn view(&self) -> Seq<u8> {
        self.bytes@
    }
}

impl PartialEq for ExtractedNoteCommitment {
    fn eq(&self, other: &Self) -> (r: bool) {
        bytes_eq(&self.bytes, &other.bytes)
    }
}

impl vstd::std_specs::cmp::PartialEqSpecImpl for ExtractedNoteCommitment {
    open spec fn obeys_eq_spec() -> bool {
        true
    }

    open spec fn eq_spec(&self, other: &Self) -> bool {
        self@ == other@
    }
}

impl ExtractedNoteCommitment {
    /// Parses the encoding of a base field element.
    pub fn from_bytes(bytes: &[u8; 32]) -> (r: Option<Self>)
        ensures
            r is Some <==> pallas::is_base(bytes@),
            r is Some ==> r->0@ == bytes@,
    {
        if base_is_canonical(bytes) {
            Some(ExtractedNoteCommitment { bytes: *bytes })
        } else {
            None
        }
    }

    /// The x-coordinate of a note commitment.
    pub fn from_commitment(cm: &NoteCommitment) -> (r: Self)
        ensures
            r@ == pallas::extract_p(cm@),
    {
        proof {
            use_type_invariant(cm);
        }
        ExtractedNoteCommitment { bytes: point_x(&cm.bytes) }
    }

    /// The encoding of this commitment.
    pub fn to_bytes(&self) -> (r: [u8; 32])
        ensures
            r@ == self@,
    {
        self.bytes
    }
}

/// What a note is made of.
pub struct NoteView {
    /// The address that can spend the note.
    pub recipient: AddressView,
    /// The value of the note, in zatoshis.
    pub value: u64,
    /// The encoding of what makes the note unique.
    pub rho: Seq<u8>,
    /// The random seed of the note.
    pub rseed: Seq<u8>,
    /// The version of the note's plaintext.
    pub version: NoteVersion,
}

impl NoteView {
    /// Whether the parts have the lengths of a note's parts.
    pub open spec fn has_lengths(self) -> bool {
        self.recipient.has_lengths() && self.rho.len() == 32 && self.rseed.len() == 32
    }

    /// Whether the parts are those of a note: they have their lengths, the transmission key is a
    /// point other than the identity, and the commitment has a value.
    pub open spec fn is_valid(self) -> bool {
        &&& self.has_lengths()
        &&& pallas::pallas_is_point(self.recipient.pk_d)
        &&& self.recipient.pk_d != pallas::identity()
        &&& self.commitment() is Some
    }

    /// The ephemeral secret key of the note.
    pub open spec fn esk(self) -> Seq<u8> {
        esk_of(self.rseed, self.rho)
    }

    /// The ephemeral public key of the note: the multiple of the recipient's base by the ephemeral
    /// secret key.
    pub open spec fn epk(self) -> Seq<u8> {
        pallas::pallas_mul(self.esk(), self.recipient.g_d())
    }

    /// The bits that the note commits to: the recipient's base and transmission key, the value,
    /// rho and psi.
    pub open spec fn committed_bits(self) -> Seq<bool> {
        bytes::bits_le(self.recipient.g_d(), 256) + bytes::bits_le(self.recipient.pk_d, 256)
            + bytes::bits_le(bytes::le_bytes(self.value as nat, 8), 64) + bytes::bits_le(
            self.rho,
            255,
        ) + bytes::bits_le(psi_of(self.rseed, self.rho), 255)
    }

    /// The encoding of the commitment to the note, where it has a value.
    pub open spec fn commitment(self) -> Option<Seq<u8>> {
        sinsemilla_commit::sinsemilla_commit(
            "z.cash:Orchard-NoteCommit"@,
            self.committed_bits(),
            rcm_of(self.rseed, self.rho),
        )
    }

    /// The x-coordinate of the commitment to the note.
    pub open spec fn cmx(self) -> Seq<u8> {
        pallas::extract_p(self.commitment()->0)
    }

    /// The nullifier that spending the note reveals, given the nullifier deriving key: the
    /// x-coordinate of the commitment plus a multiple of a fixed point.
    pub open spec fn nullifier(self, nk: Seq<u8>) -> Seq<u8> {
        nullifier_of(nk, self.rho, psi_of(self.rseed, self.rho), self.commitment()->0)
    }
}

/// The nullifier of a note with the given rho, psi and commitment, given the nullifier deriving
/// key.
pub open spec fn nullifier_of(nk: Seq<u8>, rho: Seq<u8>, psi: Seq<u8>, cm: Seq<u8>) -> Seq<u8> {
    let k = pallas::pallas_hash_to_curve("z.cash:Orchard"@, seq![0x4bu8]);
    let prf_nf = hash::poseidon_hash(nk, rho);
    let scalar = bytes::le_bytes(
        (bytes::le_nat(prf_nf) + bytes::le_nat(psi)) % pallas::base_modulus(),
        32,
    );
    pallas::extract_p(pallas::pallas_add(pallas::pallas_mul(scalar, k), cm))
}

/// Computes the commitment to a note with the given parts.
fn derive_commitment(recipient: &Address, value: NoteValue, rho: &Rho, rseed: &RandomSeed) -> (r:
    Option<NoteCommitment>)
    ensures
        ({
            let cm = (NoteView {
                recipient: recipient@,
                value: value.raw,
                rho: rho@,
                rseed: rseed@,
                version: NoteVersion::V2,
            }).commitment();
            &&& r is Some <==> cm is Some
            &&& r is Some ==> cm == Some(r->0@)
        }),
        pallas::pallas_is_point(recipient@.pk_d),
        recipient@.pk_d != pallas::identity(),
{
    let g_d = recipient.g_d();
    let pk_d = recipient.pk_d().to_bytes();
    let v = value.to_bytes();
    let psi = rseed.psi(rho);
    let mut msg: Vec<bool> = Vec::new();
    append_bits(&mut msg, &g_d, 256);
    append_bits(&mut msg, &pk_d, 256);
    append_bits(&mut msg, &v, 64);
    append_bits(&mut msg, &rho.bytes, 255);
    append_bits(&mut msg, &psi, 255);
    let ghost view = NoteView {
        recipient: recipient@,
        value: value.raw,
        rho: rho@,
        rseed: rseed@,
        version: NoteVersion::V2,
    };
    assert(msg@ =~= view.committed_bits());
    proof {
        reveal_strlit("z.cash:Orchard-NoteCommit");
    }
    match commit("z.cash:Orchard-NoteCommit", msg, &rseed.rcm(rho)) {
        Some(bytes) => Some(NoteCommitment { bytes }),
        None => None,
    }
}

/// A note whose commitment has a value.
#[derive(Clone, Copy, Eq, Debug)]
pub struct Note {
    recipient: Address,
    value: NoteValue,
    rho: Rho,
    rseed: RandomSeed,
    version: NoteVersion,
}

impl View for Note {
    type V = NoteView;

    closed spec fn view(&self) -> NoteView {
        NoteView {
            recipient: self.recipient@,
            value: self.value.raw,
            rho: self.rho@,
            rseed: self.rseed@,
            version: self.version,
        }
    }
}

/// Two notes are equal where the x-coordinates of their commitments are.
impl PartialEq for Note {
    fn eq(&self, other: &Self) -> (r: bool) {
        let cmx = ExtractedNoteCommitment::from_commitment(&self.commitment());
        let other_cmx = ExtractedNoteCommitment::from_commitment(&other.commitment());
        cmx == other_cmx
    }
}

impl vstd::std_specs::cmp::PartialEqSpecImpl for Note {
    open spec fn obeys_eq_spec() -> bool {
        true
    }

    open spec fn eq_spec(&self, other: &Self) -> bool {
        self@.cmx() == other@.cmx()
    }
}

impl Note {
    #[verifier::type_invariant]
    spec fn is_valid(self) -> bool {
        self@.is_valid()
    }

    /// The parts of a note have their lengths.
    pub proof fn lengths(&self)
        ensures
            self@.has_lengths(),
    {
        self.recipient.lengths();
    }

    /// The note with the given parts, where its commitment has a value.
    pub fn from_parts(
        recipient: Address,
        value: NoteValue,
        rho: Rho,
        rseed: RandomSeed,
        version: NoteVersion,
    ) -> (r: Option<Self>)
        ensures
            ({
                let parts = NoteView {
                    recipient: recipient@,
                    value: value.raw,
                    rho: rho@,
                    rseed: rseed@,
                    version,
                };
                &&& r is Some <==> parts.commitment() is Some
                &&& r is Some ==> r->0@ == parts && parts.is_valid()
            }),
    {
        match Note::from_parts_with_commitment(recipient, value, rho, rseed, version) {
            Some((note, _)) => Some(note),
            None => None,
        }
    }

    /// The note with the given parts, where its commitment has a value, and that commitment.
    pub fn from_parts_with_commitment(
        recipient: Address,
        value: NoteValue,
        rho: Rho,
        rseed: RandomSeed,
        version: NoteVersion,
    ) -> (r: Option<(Self, NoteCommitment)>)
        ensures
            ({
                let parts = NoteView {
                    recipient: recipient@,
                    value: value.raw,
                    rho: rho@,
                    rseed: rseed@,
                    version,
                };
                &&& r is Some <==> parts.commitment() is Some
                &&& r matches Some((note, cm)) ==> {
                    &&& note@ == parts
                    &&& parts.is_valid()
                    &&& parts.commitment() == Some(cm@)
                }
            }),
    {
        proof {
            recipient.lengths();
        }
        match derive_commitment(&recipient, value, &rho, &rseed) {
            Some(cm) => Some((Note { recipient, value, rho, rseed, version }, cm)),
            None => None,
        }
    }

    /// The address that can spend this note.
    pub fn recipient(&self) -> (r: Address)
        ensures
            r@ == self@.recipient,
            self@.is_valid(),
    {
        proof {
            use_type_invariant(self);
        }
        self.recipient
    }

    /// The value of this note.
    pub fn value(&self) -> (r: NoteValue)
        ensures
            r.raw == self@.value,
    {
        self.value
    }

    /// What makes this note unique.
    pub fn rho(&self) -> (r: Rho)
        ensures
            r@ == self@.rho,
    {
        self.rho
    }

    /// The random seed of this note.
    pub fn rseed(&self) -> (r: &RandomSeed)
        ensures
            r@ == self@.rseed,
    {
        &self.rseed
    }

    /// The version of this note's plaintext.
    pub fn version(&self) -> (r: NoteVersion)
        ensures
            r == self@.version,
    {
        self.version
    }

    /// The ephemeral secret key of this note, where it is not zero. It never is for a note whose
    /// seed was read for the note's own rho.
    pub fn esk(&self) -> (r: Option<EphemeralSecretKey>)
        ensures
            r is Some <==> self@.esk() != pallas::identity(),
            r is Some ==> r->0@ == self@.esk(),
    {
        self.rseed.esk(&self.rho)
    }

    /// The commitment to this note.
    pub fn commitment(&self) -> (r: NoteCommitment)
        ensures
            self@.commitment() == Some(r@),
    {
        proof {
            use_type_invariant(self);
        }
        derive_commitment(&self.recipient, self.value, &self.rho, &self.rseed).unwrap()
    }

    /// The nullifier that spending this note with `fvk` reveals, given the commitment to this note.
    pub fn nullifier_with_commitment(&self, fvk: &FullViewingKey, cm: &NoteCommitment) -> (r:
        Nullifier)
        ensures
            r@ == nullifier_of(fvk@.nk, self@.rho, psi_of(self@.rseed, self@.rho), cm@),
            self@.commitment() == Some(cm@) ==> r@ == self@.nullifier(fvk@.nk),
    {
        let nk = fvk.nk();
        let rho = self.rho.to_bytes();
        let psi = self.rseed.psi(&self.rho);
        let prf_nf = poseidon(&nk, &rho);
        let scalar = base_add(&prf_nf, &psi);
        let tag: [u8; 1] = [0x4b];
        assert(tag@ =~= seq![0x4bu8]);
        proof {
            use_type_invariant(cm);
            reveal_strlit("z.cash:Orchard");
        }
        let k = hash_to_curve("z.cash:Orchard", &tag);
        Nullifier { bytes: point_x(&point_add(&point_mul(&scalar, &k), &cm.bytes)) }
    }

    /// The nullifier that spending this note with `fvk` reveals.
    pub fn nullifier(&self, fvk: &FullViewingKey) -> (r: Nullifier)
        ensures
            r@ == self@.nullifier(fvk@.nk),
    {
        self.nullifier_with_commitment(fvk, &self.commitment())
    }
}

/// The encrypted form in which a note is transmitted.
#[derive(Clone, Copy, Debug)]
pub struct TransmittedNoteCiphertext {
    /// The encoding of the ephemeral public key.
    pub epk_bytes: [u8; 32],
    /// The encrypted note plaintext, which the recipient reads.
    pub enc_ciphertext: [u8; 580],
    /// The encrypted outgoing plaintext, which the sender reads.
    pub out_ciphertext: [u8; 80],
}

/// What a transmitted note is made of.
pub struct CiphertextView {
    /// The encoding of the ephemeral public key.
    pub epk: Seq<u8>,
    /// The encrypted note plaintext.
    pub enc: Seq<u8>,
    /// The encrypted outgoing plaintext.
    pub out: Seq<u8>,
}

impl CiphertextView {
    /// Whether the parts have the lengths of a transmitted note's parts.
    pub open spec fn has_lengths(self) -> bool {
        self.epk.len() == 32 && self.enc.len() == 580 && self.out.len() == 80
    }
}

impl View for TransmittedNoteCiphertext {
    type V = CiphertextView;

    open spec fn view(&self) -> CiphertextView {
        CiphertextView {
            epk: self.epk_bytes@,
            enc: self.enc_ciphertext@,
            out: self.out_ciphertext@,
        }
    }
}

} // verus!
