//! In-band secret distribution for Orchard bundles.

use vstd::prelude::*;

use crate::action::{Action, ActionView};
use crate::address::{Address, AddressView};
use crate::bytes;
use crate::bytes::{append, bytes_eq, take_array};
use crate::keys;
use crate::keys::{
    DiversifiedTransmissionKey, Diversifier, EphemeralPublicKey, EphemeralSecretKey,
    OutgoingViewingKey, PreparedEphemeralPublicKey, PreparedIncomingViewingKey, SharedSecret,
};
use crate::note::{
    ExtractedNoteCommitment, Note, NoteVersion, NoteView, Nullifier, RandomSeed, Rho,
};
use crate::primitives::aead;
use crate::primitives::aead::{open_detached, seal};
use crate::primitives::hash;
use crate::primitives::hash::blake2b_hash;
use crate::primitives::pallas;
use crate::primitives::pallas::point_mul_batch;
use crate::primitives::timing::ct_eq;
use crate::value::{NoteValue, ValueCommitment};

pub mod laws;
pub mod outcomes;
mod sealed;
pub mod testing;

verus! {

/// The size of a note plaintext without its memo, in bytes.
pub const COMPACT_NOTE_SIZE: usize = 52;

/// The size of a note plaintext, in bytes.
pub const NOTE_PLAINTEXT_SIZE: usize = 564;

/// The size of an encrypted note plaintext and its tag, in bytes.
pub const ENC_CIPHERTEXT_SIZE: usize = 580;

/// The size of an outgoing plaintext, in bytes.
pub const OUT_PLAINTEXT_SIZE: usize = 64;

/// The size of an encrypted outgoing plaintext and its tag, in bytes.
pub const OUT_CIPHERTEXT_SIZE: usize = 80;

/// The personalization of the outgoing cipher key derivation: `Zcash_Orchardock`.
pub const PRF_OCK_ORCHARD_PERSONALIZATION: [u8; 16] = [
    0x5a, 0x63, 0x61, 0x73, 0x68, 0x5f, 0x4f, 0x72, 0x63, 0x68, 0x61, 0x72, 0x64, 0x6f, 0x63, 0x6b,
];

/// The encoding of an ephemeral public key, which need not be valid.
#[derive(Clone, Copy, Debug)]
pub struct EphemeralKeyBytes(pub [u8; 32]);

/// The key under which an outgoing plaintext is encrypted.
#[derive(Clone, Copy, Debug)]
pub struct OutgoingCipherKey(pub [u8; 32]);

/// A note plaintext.
#[derive(Clone, Copy, Debug)]
pub struct NotePlaintextBytes(pub [u8; 564]);

/// An outgoing plaintext.
#[derive(Clone, Copy, Debug)]
pub struct OutPlaintextBytes(pub [u8; 64]);

/// The outgoing cipher key of an output.
pub open spec fn prf_ock(ovk: Seq<u8>, cv: Seq<u8>, cmx: Seq<u8>, epk: Seq<u8>) -> Seq<u8> {
    hash::blake2b(PRF_OCK_ORCHARD_PERSONALIZATION@, ovk + cv + cmx + epk, 32)
}

/// The plaintext of a note without its memo: lead byte, diversifier, value and random seed.
pub open spec fn compact_plaintext(note: NoteView) -> Seq<u8> {
    seq![note.version.lead()] + note.recipient.d + bytes::le_bytes(note.value as nat, 8)
        + note.rseed
}

/// The plaintext of a note.
pub open spec fn note_plaintext(note: NoteView, memo: Seq<u8>) -> Seq<u8> {
    compact_plaintext(note) + memo
}

/// The note that a plaintext of the given version describes to someone who knows its rho and its
/// transmission key, with no regard to whether there is such a note.
pub open spec fn described_note(
    rho: Seq<u8>,
    plaintext: Seq<u8>,
    version: NoteVersion,
    pk_d: Seq<u8>,
) -> NoteView {
    NoteView {
        recipient: AddressView { d: plaintext.subrange(1, 12), pk_d },
        value: bytes::le_nat(plaintext.subrange(12, 20)) as u64,
        rho,
        rseed: plaintext.subrange(20, 52),
        version,
    }
}

/// Whether there is a note with these parts that can be read from a plaintext: the random seed
/// gives an ephemeral secret key other than zero, the transmission key is not the identity, and the
/// commitment has a value.
pub open spec fn is_constructible(note: NoteView) -> bool {
    &&& note.esk() != pallas::identity()
    &&& note.recipient.pk_d != pallas::identity()
    &&& note.commitment() is Some
}

/// The transmission key that is extracted from an outgoing plaintext: its first half, where that is
/// a point other than the identity.
pub open spec fn extracted_pk_d(op: Seq<u8>) -> Option<Seq<u8>> {
    let pk_d = op.subrange(0, 32);
    if pallas::pallas_is_point(pk_d) && pk_d != pallas::identity() {
        Some(pk_d)
    } else {
        None
    }
}

/// The ephemeral secret key that is extracted from an outgoing plaintext: its second half, where
/// that is a scalar other than zero.
pub open spec fn extracted_esk(op: Seq<u8>) -> Option<Seq<u8>> {
    let esk = op.subrange(32, 64);
    if keys::is_nonzero_scalar(esk) {
        Some(esk)
    } else {
        None
    }
}

/// The note that a domain parses a plaintext as, for someone who knows its transmission key.
pub open spec fn parsed_note(domain: DomainView, plaintext: Seq<u8>, pk_d: Seq<u8>) -> Option<
    NoteView,
> {
    let note = described_note(domain.rho, plaintext, domain.accepted, pk_d);
    if plaintext.len() > 0 && plaintext[0] == domain.accepted.lead() && is_constructible(note) {
        Some(note)
    } else {
        None
    }
}

/// Computes the outgoing cipher key of an output.
pub fn prf_ock_orchard(
    ovk: &OutgoingViewingKey,
    cv: &ValueCommitment,
    cmx_bytes: &[u8; 32],
    ephemeral_key: &EphemeralKeyBytes,
) -> (r: OutgoingCipherKey)
    ensures
        r.0@ == prf_ock(ovk@, cv@, cmx_bytes@, ephemeral_key.0@),
{
    let mut input: Vec<u8> = Vec::new();
    append(&mut input, ovk.as_bytes());
    append(&mut input, &cv.to_bytes());
    append(&mut input, cmx_bytes);
    append(&mut input, &ephemeral_key.0);
    assert(input@ =~= ovk@ + cv@ + cmx_bytes@ + ephemeral_key.0@);
    let hash = blake2b_hash(&PRF_OCK_ORCHARD_PERSONALIZATION, input.as_slice(), 32);
    let key: [u8; 32] = take_array(hash.as_slice(), 0);
    assert(key@ =~= hash@);
    OutgoingCipherKey(key)
}

/// The fields of a note plaintext between its lead byte and its memo.
#[derive(Clone, Copy, Debug)]
pub struct PlaintextFields {
    /// The diversifier of the recipient's address.
    pub diversifier: Diversifier,
    /// The value of the note.
    pub value: NoteValue,
    /// The bytes of the random seed, which were not held against a rho.
    pub rseed: [u8; 32],
}

/// Splits a note plaintext into its fields, with no regard to its lead byte.
pub fn plaintext_fields(plaintext: &[u8]) -> (r: PlaintextFields)
    requires
        COMPACT_NOTE_SIZE <= plaintext@.len(),
    ensures
        r.diversifier@ == plaintext@.subrange(1, 12),
        r.value.raw as nat == bytes::le_nat(plaintext@.subrange(12, 20)),
        r.rseed@ == plaintext@.subrange(20, 52),
{
    PlaintextFields {
        diversifier: Diversifier::from_bytes(take_array(plaintext, 1)),
        value: NoteValue::from_bytes(&take_array(plaintext, 12)),
        rseed: take_array(plaintext, 20),
    }
}

/// Parses a note plaintext of a version that was accepted, for the holder of the transmission key.
fn parse_note_plaintext_without_memo(
    rho: Rho,
    plaintext: &[u8],
    note_version: NoteVersion,
    pk_d: DiversifiedTransmissionKey,
) -> (r: Option<(Note, Address)>)
    requires
        COMPACT_NOTE_SIZE <= plaintext@.len(),
    ensures
        ({
            let note = described_note(rho@, plaintext@, note_version, pk_d@);
            &&& r is Some <==> is_constructible(note)
            &&& r matches Some((n, to)) ==> n@ == note && to@ == note.recipient
        }),
{
    let fields = plaintext_fields(plaintext);
    let rseed = match RandomSeed::from_bytes(fields.rseed, &rho) {
        Some(rseed) => rseed,
        None => return None,
    };
    let recipient = Address::from_parts(fields.diversifier, pk_d);
    match Note::from_parts(recipient, fields.value, rho, rseed, note_version) {
        Some(note) => Some((note, recipient)),
        None => None,
    }
}

/// Which note plaintexts a domain accepts.
pub trait DomainPolicy {
    /// The only version that is accepted.
    spec fn accepted(&self) -> NoteVersion;

    /// The version of a note plaintext, where it is the accepted one.
    fn note_version(&self, plaintext: &[u8]) -> (r: Option<NoteVersion>)
        ensures
            r == (if plaintext@.len() > 0 && plaintext@[0] == self.accepted().lead() {
                Some(self.accepted())
            } else {
                None
            }),
    ;
}

/// A sealed marker trait for note encryption domains with a fixed note plaintext version.
///
/// This trait is sealed so that only this crate can define supported note encryption
/// domains.
pub trait DomainVersion: sealed::Sealed + Default {
    /// The note plaintext version accepted by this domain during parsing and decryption.
    const NOTE_VERSION: NoteVersion;

    /// The note plaintext version accepted by this domain, for contracts.
    spec fn version() -> NoteVersion;

    /// The constant and the version that contracts speak of are the same.
    proof fn version_is_constant()
        ensures
            Self::NOTE_VERSION == Self::version(),
    ;
}

impl<V: DomainVersion> DomainPolicy for V {
    open spec fn accepted(&self) -> NoteVersion {
        V::version()
    }

    fn note_version(&self, plaintext: &[u8]) -> (r: Option<NoteVersion>) {
        proof {
            V::version_is_constant();
        }
        let version = V::NOTE_VERSION;
        if plaintext.len() > 0 && plaintext[0] == version.lead_byte() {
            Some(version)
        } else {
            None
        }
    }
}

/// Marker type for Orchard note encryption domains.
#[derive(Debug)]
pub struct OrchardVersion;

impl Default for OrchardVersion {
    fn default() -> (r: Self)
        ensures
            r == OrchardVersion,
    {
        OrchardVersion
    }
}

impl sealed::Sealed for OrchardVersion {

}

impl DomainVersion for OrchardVersion {
    const NOTE_VERSION: NoteVersion = NoteVersion::V2;

    open spec fn version() -> NoteVersion {
        NoteVersion::V2
    }

    proof fn version_is_constant() {
    }
}

/// Marker type for Ironwood note encryption domains.
#[derive(Debug)]
pub struct IronwoodVersion;

impl Default for IronwoodVersion {
    fn default() -> (r: Self)
        ensures
            r == IronwoodVersion,
    {
        IronwoodVersion
    }
}

impl sealed::Sealed for IronwoodVersion {

}

impl DomainVersion for IronwoodVersion {
    const NOTE_VERSION: NoteVersion = NoteVersion::V3;

    open spec fn version() -> NoteVersion {
        NoteVersion::V3
    }

    proof fn version_is_constant() {
    }
}

/// The policy of a bundle: one version, chosen when the domain is made.
#[derive(Debug)]
pub struct BundleDomainPolicy {
    note_version: NoteVersion,
}

impl DomainPolicy for BundleDomainPolicy {
    closed spec fn accepted(&self) -> NoteVersion {
        self.note_version
    }

    fn note_version(&self, plaintext: &[u8]) -> (r: Option<NoteVersion>) {
        if plaintext.len() == 0 {
            return None;
        }
        match NoteVersion::from_lead_byte(plaintext[0]) {
            Some(note_version) => if note_version == self.note_version {
                Some(note_version)
            } else {
                None
            },
            None => None,
        }
    }
}

/// What a note encryption domain is made of.
pub struct DomainView {
    /// The rho of the note.
    pub rho: Seq<u8>,
    /// The only note plaintext version that is accepted.
    pub accepted: NoteVersion,
}

/// Note encryption logic for a note plaintext version policy.
///
/// The policy type `P` selects which note plaintext version is accepted during
/// parsing and decryption. Encryption uses the version recorded by the note.
#[derive(Debug)]
pub struct NoteEncryptionDomain<P> {
    rho: Rho,
    policy: P,
}

impl<P: DomainPolicy> View for NoteEncryptionDomain<P> {
    type V = DomainView;

    closed spec fn view(&self) -> DomainView {
        DomainView { rho: self.rho@, accepted: self.policy.accepted() }
    }
}

impl<P> NoteEncryptionDomain<P> {
    /// The number of bytes that this domain holds on the heap.
    pub fn dynamic_usage(&self) -> (r: usize)
        ensures
            r == 0,
    {
        self.rho.dynamic_usage()
    }

    /// The bounds on the number of bytes that this domain holds on the heap.
    pub fn dynamic_usage_bounds(&self) -> (r: (usize, Option<usize>))
        ensures
            r == (0usize, Some(0usize)),
    {
        self.rho.dynamic_usage_bounds()
    }
}

/// Orchard-specific note encryption logic.
///
/// This domain accepts only [`NoteVersion::V2`] note plaintexts, which use lead
/// byte `0x02`.
pub type OrchardDomain = NoteEncryptionDomain<OrchardVersion>;

/// Ironwood-specific note encryption logic.
///
/// This domain is otherwise identical to [`OrchardDomain`], but accepts only
/// [`NoteVersion::V3`] note plaintexts, which use lead byte `0x03`.
pub type IronwoodDomain = NoteEncryptionDomain<IronwoodVersion>;

/// Note encryption logic restricted to a single note plaintext version.
///
/// Trial decryption happens once; after decryption succeeds, the revealed note plaintext lead byte
/// selects the note version, which is enforced to match the expected one.
pub type BundleDomain = NoteEncryptionDomain<BundleDomainPolicy>;

impl<V: DomainVersion> NoteEncryptionDomain<V> {
    /// Constructs a domain for the note with the given rho.
    pub fn from_rho(rho: Rho) -> (r: Self)
        ensures
            r@ == (DomainView { rho: rho@, accepted: V::version() }),
    {
        NoteEncryptionDomain { rho, policy: V::default() }
    }

    /// Constructs a domain that can be used to trial-decrypt this action's output note.
    pub fn for_action<T>(act: &Action<T>) -> (r: Self)
        ensures
            r@ == (DomainView { rho: act@.nf, accepted: V::version() }),
    {
        Self::from_rho(act.rho())
    }

    /// Constructs a domain that can be used to trial-decrypt a partially created action's output
    /// note.
    pub fn for_pczt_action(act: &crate::pczt::Action) -> (r: Self)
        ensures
            r@ == (DomainView { rho: act.spend.nullifier@, accepted: V::version() }),
    {
        Self::from_rho(Rho::from_nf_old(act.spend().nullifier))
    }
}

impl NoteEncryptionDomain<BundleDomainPolicy> {
    /// Constructs a domain that can be used to trial-decrypt this action's
    /// output note as a note of `note_version`.
    pub fn for_action<T>(act: &Action<T>, note_version: NoteVersion) -> (r: Self)
        ensures
            r@ == (DomainView { rho: act@.nf, accepted: note_version }),
    {
        NoteEncryptionDomain { rho: act.rho(), policy: BundleDomainPolicy { note_version } }
    }
}

impl<P: DomainPolicy> NoteEncryptionDomain<P> {
    /// The rho of the note.
    pub fn rho(&self) -> (r: Rho)
        ensures
            r@ == self@.rho,
    {
        self.rho
    }

    /// The version of a note plaintext, where this domain accepts it.
    pub fn note_version(&self, plaintext: &[u8]) -> (r: Option<NoteVersion>)
        ensures
            r == (if plaintext@.len() > 0 && plaintext@[0] == self@.accepted.lead() {
                Some(self@.accepted)
            } else {
                None
            }),
    {
        self.policy.note_version(plaintext)
    }

    /// The ephemeral secret key with which a note is encrypted. It is missing only where the note's
    /// seed gives zero with the note's rho, for which the seed was then not read.
    pub fn derive_esk(note: &Note) -> (r: Option<EphemeralSecretKey>)
        ensures
            r is Some <==> note@.esk() != pallas::identity(),
            r is Some ==> r->0@ == note@.esk(),
    {
        note.esk()
    }

    /// The transmission key of a note's recipient.
    pub fn get_pk_d(note: &Note) -> (r: DiversifiedTransmissionKey)
        ensures
            r@ == note@.recipient.pk_d,
    {
        *note.recipient().pk_d()
    }

    /// Prepares an ephemeral public key for agreement with many viewing keys.
    pub fn prepare_epk(epk: EphemeralPublicKey) -> (r: PreparedEphemeralPublicKey)
        ensures
            r@ == epk@,
    {
        PreparedEphemeralPublicKey::new(epk)
    }

    /// The public half of an ephemeral key pair for a note's recipient. Whoever holds a viewing key
    /// of the recipient shares with it what the sender shares with the recipient, and it is then
    /// not the identity.
    pub fn ka_derive_public(note: &Note, esk: &EphemeralSecretKey) -> (r: EphemeralPublicKey)
        ensures
            r@ == pallas::pallas_mul(esk@, note@.recipient.g_d()),
            pallas::pallas_is_point(r@),
            esk@ == note@.esk() ==> r@ == note@.epk(),
            forall|ivk: Seq<u8>|
                pallas::is_scalar(ivk) && #[trigger] pallas::pallas_mul(
                    ivk,
                    note@.recipient.g_d(),
                ) == note@.recipient.pk_d ==> r@ != pallas::identity() && pallas::pallas_mul(
                    ivk,
                    r@,
                ) == pallas::pallas_mul(esk@, note@.recipient.pk_d),
    {
        esk.derive_public(&note.recipient().diversifier())
    }

    /// The secret that a sender shares with a transmission key.
    pub fn ka_agree_enc(esk: &EphemeralSecretKey, pk_d: &DiversifiedTransmissionKey) -> (r:
        SharedSecret)
        ensures
            r@ == pallas::pallas_mul(esk@, pk_d@),
            keys::is_nonzero_scalar(esk@),
    {
        esk.agree(pk_d)
    }

    /// The secret that the holder of a viewing key shares with an ephemeral public key.
    pub fn ka_agree_dec(ivk: &PreparedIncomingViewingKey, epk: &PreparedEphemeralPublicKey) -> (r:
        SharedSecret)
        ensures
            r@ == pallas::pallas_mul(ivk@, epk@),
    {
        epk.agree(ivk)
    }

    /// The symmetric key that a shared secret and an ephemeral key give.
    pub fn kdf(secret: SharedSecret, ephemeral_key: &EphemeralKeyBytes) -> (r: [u8; 32])
        ensures
            r@ == keys::kdf_orchard_spec(secret@, ephemeral_key.0@),
    {
        secret.kdf_orchard(&ephemeral_key.0)
    }

    /// The plaintext of a note. Its lead byte is that of the version that the note records,
    /// whatever this domain accepts.
    pub fn note_plaintext_bytes(note: &Note, memo: &[u8; 512]) -> (r: NotePlaintextBytes)
        ensures
            r.0@ == note_plaintext(note@, memo@),
    {
        let mut np: Vec<u8> = Vec::new();
        np.push(note.version().lead_byte());
        append(&mut np, note.recipient().diversifier().as_array());
        append(&mut np, &note.value().to_bytes());
        append(&mut np, note.rseed().as_bytes());
        append(&mut np, memo);
        assert(np@ =~= note_plaintext(note@, memo@));
        let r: [u8; 564] = take_array(np.as_slice(), 0);
        assert(r@ =~= np@);
        NotePlaintextBytes(r)
    }

    /// The outgoing cipher key of an output.
    pub fn derive_ock(
        ovk: &OutgoingViewingKey,
        cv: &ValueCommitment,
        cmstar_bytes: &[u8; 32],
        ephemeral_key: &EphemeralKeyBytes,
    ) -> (r: OutgoingCipherKey)
        ensures
            r.0@ == prf_ock(ovk@, cv@, cmstar_bytes@, ephemeral_key.0@),
    {
        prf_ock_orchard(ovk, cv, cmstar_bytes, ephemeral_key)
    }

    /// The outgoing plaintext of a note: the recipient's transmission key, then the ephemeral
    /// secret key. Both are extracted from it again.
    pub fn outgoing_plaintext_bytes(note: &Note, esk: &EphemeralSecretKey) -> (r: OutPlaintextBytes)
        ensures
            r.0@ == note@.recipient.pk_d + esk@,
            extracted_pk_d(r.0@) == Some(note@.recipient.pk_d),
            extracted_esk(r.0@) == Some(esk@),
    {
        let mut op: Vec<u8> = Vec::new();
        append(&mut op, &note.recipient().pk_d().to_bytes());
        append(&mut op, &esk.to_bytes());
        let r: [u8; 64] = take_array(op.as_slice(), 0);
        assert(r@ =~= note@.recipient.pk_d + esk@);
        assert(r@.subrange(0, 32) =~= note@.recipient.pk_d);
        assert(r@.subrange(32, 64) =~= esk@);
        OutPlaintextBytes(r)
    }

    /// The encoding of an ephemeral public key.
    pub fn epk_bytes(epk: &EphemeralPublicKey) -> (r: EphemeralKeyBytes)
        ensures
            r.0@ == epk@,
    {
        EphemeralKeyBytes(epk.to_bytes())
    }

    /// Parses an ephemeral public key: a point other than the identity.
    pub fn epk(ephemeral_key: &EphemeralKeyBytes) -> (r: Option<EphemeralPublicKey>)
        ensures
            r is Some <==> pallas::pallas_is_point(ephemeral_key.0@) && ephemeral_key.0@
                != pallas::identity(),
            r is Some ==> r->0@ == ephemeral_key.0@,
    {
        EphemeralPublicKey::from_bytes(&ephemeral_key.0)
    }

    /// The extracted commitment to a note.
    pub fn cmstar(note: &Note) -> (r: ExtractedNoteCommitment)
        ensures
            r@ == note@.cmx(),
    {
        ExtractedNoteCommitment::from_commitment(&note.commitment())
    }

    /// Parses a note plaintext, with or without its memo, for the holder of a viewing key.
    pub fn parse_note_plaintext_without_memo_ivk(
        &self,
        ivk: &PreparedIncomingViewingKey,
        plaintext: &[u8],
    ) -> (r: Option<(Note, Address)>)
        requires
            plaintext@.len() > 0 && plaintext@[0] == self@.accepted.lead() ==> COMPACT_NOTE_SIZE
                <= plaintext@.len(),
        ensures
            ({
                let note = parsed_note(
                    self@,
                    plaintext@,
                    pallas::pallas_mul(ivk@, keys::diversify_hash(plaintext@.subrange(1, 12))),
                );
                &&& r is Some <==> note is Some
                &&& r matches Some((n, to)) ==> Some(n@) == note && to@ == n@.recipient
            }),
    {
        let note_version = match self.note_version(plaintext) {
            Some(note_version) => note_version,
            None => return None,
        };
        let diversifier = Diversifier::from_bytes(take_array(plaintext, 1));
        let pk_d = match DiversifiedTransmissionKey::derive(ivk, &diversifier) {
            Some(pk_d) => pk_d,
            None => return None,
        };
        parse_note_plaintext_without_memo(self.rho, plaintext, note_version, pk_d)
    }

    /// Parses a note plaintext for someone who knows the recipient's transmission key.
    pub fn parse_note_plaintext_without_memo_ovk(
        &self,
        pk_d: &DiversifiedTransmissionKey,
        plaintext: &NotePlaintextBytes,
    ) -> (r: Option<(Note, Address)>)
        ensures
            ({
                let note = parsed_note(self@, plaintext.0@, pk_d@);
                &&& r is Some <==> note is Some
                &&& r matches Some((n, to)) ==> Some(n@) == note && to@ == n@.recipient
            }),
    {
        let note_version = match self.note_version(&plaintext.0) {
            Some(note_version) => note_version,
            None => return None,
        };
        parse_note_plaintext_without_memo(self.rho, &plaintext.0, note_version, *pk_d)
    }

    /// The memo of a note plaintext.
    pub fn extract_memo(&self, plaintext: &NotePlaintextBytes) -> (r: [u8; 512])
        ensures
            r@ == plaintext.0@.subrange(52, 564),
    {
        take_array(&plaintext.0, COMPACT_NOTE_SIZE)
    }

    /// The transmission key of an outgoing plaintext, where it is a point other than the identity.
    pub fn extract_pk_d(out_plaintext: &OutPlaintextBytes) -> (r: Option<
        DiversifiedTransmissionKey,
    >)
        ensures
            r is Some <==> extracted_pk_d(out_plaintext.0@) is Some,
            r is Some ==> extracted_pk_d(out_plaintext.0@) == Some(r->0@),
    {
        DiversifiedTransmissionKey::from_bytes(&take_array(&out_plaintext.0, 0))
    }

    /// The ephemeral secret key of an outgoing plaintext, where it is a scalar other than zero.
    pub fn extract_esk(out_plaintext: &OutPlaintextBytes) -> (r: Option<EphemeralSecretKey>)
        ensures
            r is Some <==> extracted_esk(out_plaintext.0@) is Some,
            r is Some ==> extracted_esk(out_plaintext.0@) == Some(r->0@),
    {
        EphemeralSecretKey::from_bytes(&take_array(&out_plaintext.0, 32))
    }
}

/// The parts of an output that its recipient and its sender read.
pub struct OutputView {
    /// The encoding of the ephemeral public key.
    pub epk: Seq<u8>,
    /// The encoding of the extracted note commitment.
    pub cmstar: Seq<u8>,
    /// The encrypted note plaintext, or the part of it that is kept.
    pub enc: Seq<u8>,
}

/// An output whose encrypted note plaintext has `N` bytes.
pub trait ShieldedOutput<const N: usize> {
    /// The parts of this output.
    spec fn parts(&self) -> OutputView;

    /// The encoding of the ephemeral public key.
    fn ephemeral_key(&self) -> (r: EphemeralKeyBytes)
        ensures
            r.0@ == self.parts().epk,
    ;

    /// The encoding of the extracted note commitment.
    fn cmstar_bytes(&self) -> (r: [u8; 32])
        ensures
            r@ == self.parts().cmstar,
    ;

    /// The encrypted note plaintext, or the part of it that is kept.
    fn enc_ciphertext(&self) -> (r: &[u8; N])
        ensures
            r@ == self.parts().enc,
    ;
}

impl<T> ShieldedOutput<ENC_CIPHERTEXT_SIZE> for Action<T> {
    open spec fn parts(&self) -> OutputView {
        OutputView {
            epk: self@.encrypted_note.epk,
            cmstar: self@.cmx,
            enc: self@.encrypted_note.enc,
        }
    }

    fn ephemeral_key(&self) -> (r: EphemeralKeyBytes) {
        EphemeralKeyBytes(self.encrypted_note().epk_bytes)
    }

    fn cmstar_bytes(&self) -> (r: [u8; 32]) {
        self.cmx().to_bytes()
    }

    fn enc_ciphertext(&self) -> (r: &[u8; ENC_CIPHERTEXT_SIZE]) {
        &self.encrypted_note().enc_ciphertext
    }
}

impl ShieldedOutput<ENC_CIPHERTEXT_SIZE> for crate::pczt::Action {
    open spec fn parts(&self) -> OutputView {
        OutputView {
            epk: self.output.encrypted_note.epk_bytes@,
            cmstar: self.output.cmx@,
            enc: self.output.encrypted_note.enc_ciphertext@,
        }
    }

    fn ephemeral_key(&self) -> (r: EphemeralKeyBytes) {
        EphemeralKeyBytes(self.output().encrypted_note().epk_bytes)
    }

    fn cmstar_bytes(&self) -> (r: [u8; 32]) {
        self.output().cmx().to_bytes()
    }

    fn enc_ciphertext(&self) -> (r: &[u8; ENC_CIPHERTEXT_SIZE]) {
        &self.output().encrypted_note().enc_ciphertext
    }
}

/// What a compact action is made of.
pub struct CompactActionView {
    /// The encoding of the nullifier of the note that is spent.
    pub nf: Seq<u8>,
    /// The encoding of the extracted commitment to the note that is created.
    pub cmx: Seq<u8>,
    /// The encoding of the ephemeral public key.
    pub epk: Seq<u8>,
    /// The encrypted note plaintext up to its memo.
    pub enc: Seq<u8>,
}

/// The part of an action that a light client needs: all but the memo and the tag of the encrypted
/// note plaintext, the outgoing plaintext, and what authorizes the action and fixes its value.
pub open spec fn compact_form(action: ActionView) -> CompactActionView {
    CompactActionView {
        nf: action.nf,
        cmx: action.cmx,
        epk: action.encrypted_note.epk,
        enc: action.encrypted_note.enc.subrange(0, 52),
    }
}

/// A compact Action for light clients.
#[derive(Clone, Copy)]
pub struct CompactAction {
    nullifier: Nullifier,
    cmx: ExtractedNoteCommitment,
    ephemeral_key: EphemeralKeyBytes,
    enc_ciphertext: [u8; 52],
}

impl View for CompactAction {
    type V = CompactActionView;

    closed spec fn view(&self) -> CompactActionView {
        CompactActionView {
            nf: self.nullifier@,
            cmx: self.cmx@,
            epk: self.ephemeral_key.0@,
            enc: self.enc_ciphertext@,
        }
    }
}

/// The part of an action that a light client needs.
impl<T> From<&Action<T>> for CompactAction {
    fn from(action: &Action<T>) -> (r: Self)
        ensures
            r@ == compact_form(action@),
    {
        CompactAction {
            nullifier: *action.nullifier(),
            cmx: *action.cmx(),
            ephemeral_key: EphemeralKeyBytes(action.encrypted_note().epk_bytes),
            enc_ciphertext: take_array(&action.encrypted_note().enc_ciphertext, 0),
        }
    }
}

impl<T> vstd::std_specs::convert::FromSpecImpl<&Action<T>> for CompactAction {
    open spec fn obeys_from_spec() -> bool {
        false
    }

    open spec fn from_spec(action: &Action<T>) -> Self {
        arbitrary()
    }
}

impl CompactAction {
    /// Create a CompactAction from its constituent parts
    pub fn from_parts(
        nullifier: Nullifier,
        cmx: ExtractedNoteCommitment,
        ephemeral_key: EphemeralKeyBytes,
        enc_ciphertext: [u8; 52],
    ) -> (r: Self)
        ensures
            r@ == (CompactActionView {
                nf: nullifier@,
                cmx: cmx@,
                epk: ephemeral_key.0@,
                enc: enc_ciphertext@,
            }),
    {
        CompactAction { nullifier, cmx, ephemeral_key, enc_ciphertext }
    }

    /// Returns the nullifier of the note being spent.
    pub fn nullifier(&self) -> (r: Nullifier)
        ensures
            r@ == self@.nf,
    {
        self.nullifier
    }

    /// Returns the commitment to the new note being created.
    pub fn cmx(&self) -> (r: ExtractedNoteCommitment)
        ensures
            r@ == self@.cmx,
    {
        self.cmx
    }

    /// Obtains the [`Rho`] value that was used to construct the new note being created.
    pub fn rho(&self) -> (r: Rho)
        ensures
            r@ == self@.nf,
    {
        Rho::from_nf_old(self.nullifier)
    }

    /// What this action shows of itself when debugged: its type's name alone.
    pub fn debug_text(&self) -> (r: String)
        ensures
            r@ == "CompactAction"@,
    {
        "CompactAction".to_string()
    }
}

impl ShieldedOutput<COMPACT_NOTE_SIZE> for CompactAction {
    open spec fn parts(&self) -> OutputView {
        OutputView { epk: self@.epk, cmstar: self@.cmx, enc: self@.enc }
    }

    fn ephemeral_key(&self) -> (r: EphemeralKeyBytes) {
        EphemeralKeyBytes(self.ephemeral_key.0)
    }

    fn cmstar_bytes(&self) -> (r: [u8; 32]) {
        self.cmx.to_bytes()
    }

    fn enc_ciphertext(&self) -> (r: &[u8; COMPACT_NOTE_SIZE]) {
        &self.enc_ciphertext
    }
}

impl<V: DomainVersion> NoteEncryptionDomain<V> {
    /// Constructs a domain that can be used to trial-decrypt this compact action's output note.
    pub fn for_compact_action(act: &CompactAction) -> (r: Self)
        ensures
            r@ == (DomainView { rho: act@.nf, accepted: V::version() }),
    {
        Self::from_rho(act.rho())
    }
}

/// The plaintext to which an encrypted note plaintext opens under a key.
pub open spec fn open_note(key: Seq<u8>, enc: Seq<u8>) -> Option<Seq<u8>> {
    aead::aead_open(
        key,
        bytes::zeros(12),
        Seq::empty(),
        enc.subrange(0, 564),
        enc.subrange(564, 580),
    )
}

/// The plaintext to which an encrypted outgoing plaintext opens under a key.
pub open spec fn open_outgoing(ock: Seq<u8>, out: Seq<u8>) -> Option<Seq<u8>> {
    aead::aead_open(
        ock,
        bytes::zeros(12),
        Seq::empty(),
        out.subrange(0, 64),
        out.subrange(64, 80),
    )
}

/// The first bytes of a note plaintext, which the first bytes of its ciphertext are under a key.
/// No tag authenticates them.
pub open spec fn open_compact(key: Seq<u8>, enc: Seq<u8>) -> Seq<u8> {
    aead::apply_keystream(key, bytes::zeros(12), enc)
}

/// The symmetric key that the holder of a viewing key tries on an output with the given ephemeral
/// key, where that is a point other than the identity.
pub open spec fn trial_key(ivk: Seq<u8>, epk: Seq<u8>) -> Option<Seq<u8>> {
    if pallas::pallas_is_point(epk) && epk != pallas::identity() {
        Some(keys::kdf_orchard_spec(pallas::pallas_mul(ivk, epk), epk))
    } else {
        None
    }
}

/// Whether a note that was read from an output is the one that the output was made for: it has the
/// output's commitment, and gives the output's ephemeral key.
pub open spec fn is_note_of(note: NoteView, output: OutputView) -> bool {
    note.cmx() == output.cmstar && note.epk() == output.epk
}

/// The note that the holder of a viewing key reads from a plaintext, with or without its memo, to
/// which an output was opened.
pub open spec fn note_read(
    domain: DomainView,
    ivk: Seq<u8>,
    plaintext: Seq<u8>,
    output: OutputView,
) -> Option<NoteView> {
    let pk_d = pallas::pallas_mul(ivk, keys::diversify_hash(plaintext.subrange(1, 12)));
    match parsed_note(domain, plaintext, pk_d) {
        Some(note) => if is_note_of(note, output) {
            Some(note)
        } else {
            None
        },
        None => None,
    }
}

/// The note and memo that the holder of a viewing key reads from a whole output.
pub open spec fn whole_note(domain: DomainView, ivk: Seq<u8>, output: OutputView) -> Option<
    (NoteView, Seq<u8>),
> {
    match trial_key(ivk, output.epk) {
        Some(key) => match open_note(key, output.enc) {
            Some(plaintext) => match note_read(domain, ivk, plaintext, output) {
                Some(note) => Some((note, plaintext.subrange(52, 564))),
                None => None,
            },
            None => None,
        },
        None => None,
    }
}

/// The note that the holder of a viewing key reads from the compact form of an output with a
/// symmetric key.
pub open spec fn compact_note_under(
    domain: DomainView,
    ivk: Seq<u8>,
    key: Option<Seq<u8>>,
    output: OutputView,
) -> Option<NoteView> {
    match key {
        Some(key) => note_read(domain, ivk, open_compact(key, output.enc), output),
        None => None,
    }
}

/// The note that the holder of a viewing key reads from the compact form of an output.
pub open spec fn compact_note(domain: DomainView, ivk: Seq<u8>, output: OutputView) -> Option<
    NoteView,
> {
    compact_note_under(domain, ivk, trial_key(ivk, output.epk), output)
}

/// Whether a note plaintext is one of the expected note, as far as the domain and the transmission
/// key go: the domain has the note's rho and accepts its version, the key is the recipient's, and
/// the plaintext up to its memo is the note's.
pub open spec fn binds(
    domain: DomainView,
    plaintext: Seq<u8>,
    pk_d: Seq<u8>,
    expected: NoteView,
) -> bool {
    &&& plaintext.len() == 564
    &&& domain.rho == expected.rho
    &&& domain.accepted == expected.version
    &&& pk_d == expected.recipient.pk_d
    &&& plaintext.subrange(0, 52) == compact_plaintext(expected)
}

/// The memo that a sender who knows the transmission key and the ephemeral secret key recovers from
/// an output of the expected note: the output opens to a plaintext of that note, and the key pair
/// is the one that the note gives.
pub open spec fn recovered_memo(
    domain: DomainView,
    pk_d: Seq<u8>,
    esk: Seq<u8>,
    output: OutputView,
    expected: NoteView,
) -> Option<Seq<u8>> {
    match open_note(
        keys::kdf_orchard_spec(pallas::pallas_mul(esk, pk_d), output.epk),
        output.enc,
    ) {
        Some(plaintext) => if binds(domain, plaintext, pk_d, expected) && esk == expected.esk()
            && output.epk == expected.epk() {
            Some(plaintext.subrange(52, 564))
        } else {
            None
        },
        None => None,
    }
}

/// The memo that a sender who knows the outgoing cipher key recovers from an output of the expected
/// note: the outgoing plaintext holds a valid transmission key and a valid ephemeral secret key,
/// and they recover the memo.
pub open spec fn recovered_memo_with_ock(
    domain: DomainView,
    ock: Seq<u8>,
    output: OutputView,
    out: Seq<u8>,
    expected: NoteView,
) -> Option<Seq<u8>> {
    match open_outgoing(ock, out) {
        Some(op) => match (extracted_pk_d(op), extracted_esk(op)) {
            (Some(pk_d), Some(esk)) => recovered_memo(domain, pk_d, esk, output, expected),
            _ => None,
        },
        None => None,
    }
}

/// A plaintext starts with that of a note exactly where its fields are the note's.
pub proof fn lemma_compact_plaintext(plaintext: Seq<u8>, note: NoteView)
    requires
        plaintext.len() >= 52,
        note.has_lengths(),
    ensures
        plaintext.subrange(0, 52) == compact_plaintext(note) <==> {
            &&& plaintext[0] == note.version.lead()
            &&& plaintext.subrange(1, 12) == note.recipient.d
            &&& bytes::le_nat(plaintext.subrange(12, 20)) == note.value
            &&& plaintext.subrange(20, 52) == note.rseed
        },
{
    let head = plaintext.subrange(0, 52);
    let fields = compact_plaintext(note);
    let value = plaintext.subrange(12, 20);
    bytes::lemma_le_bytes_of_le_nat(value);
    bytes::lemma_le_nat_of_le_bytes_u64(note.value, 8);
    assert(head[0] == plaintext[0]);
    assert(fields[0] == note.version.lead());
    assert(fields.subrange(1, 12) =~= note.recipient.d);
    assert(fields.subrange(12, 20) =~= bytes::le_bytes(note.value as nat, 8));
    assert(fields.subrange(20, 52) =~= note.rseed);
    assert(head.subrange(1, 12) =~= plaintext.subrange(1, 12));
    assert(head.subrange(12, 20) =~= value);
    assert(head.subrange(20, 52) =~= plaintext.subrange(20, 52));
    if plaintext[0] == note.version.lead() && plaintext.subrange(1, 12) == note.recipient.d
        && bytes::le_nat(value) == note.value && plaintext.subrange(20, 52) == note.rseed {
        assert(head =~= seq![plaintext[0]] + plaintext.subrange(1, 12) + value
            + plaintext.subrange(20, 52));
    }
}

/// Holds a decrypted note plaintext against the expected note.
///
/// The note commitment is a function of the base, the transmission key, the value, rho and the
/// random seed. Rho comes from the domain, the diversifier determines the base, and all else is
/// compared, so that a plaintext that is accepted here is one of a note with the same commitment,
/// and no commitment is computed.
pub fn binds_to_note<P: DomainPolicy>(
    domain: &NoteEncryptionDomain<P>,
    plaintext: &NotePlaintextBytes,
    pk_d: &DiversifiedTransmissionKey,
    expected: &Note,
) -> (r: bool)
    ensures
        r == binds(domain@, plaintext.0@, pk_d@, expected@),
{
    proof {
        expected.lengths();
        lemma_compact_plaintext(plaintext.0@, expected@);
    }
    if domain.rho != expected.rho() {
        return false;
    }
    match domain.note_version(&plaintext.0) {
        Some(version) => {
            if version != expected.version() {
                return false;
            }
        },
        None => return false,
    }
    let fields = plaintext_fields(&plaintext.0);
    if fields.diversifier != expected.recipient().diversifier() {
        return false;
    }
    if fields.value != expected.value() {
        return false;
    }
    if !bytes_eq(&fields.rseed, expected.rseed().as_bytes()) {
        return false;
    }
    *pk_d == *expected.recipient().pk_d()
}

/// Holds an ephemeral key pair against the one that the expected note gives. Either half is
/// compared in constant time.
pub fn ephemeral_key_agrees(
    esk: &EphemeralSecretKey,
    ephemeral_key: &EphemeralKeyBytes,
    derived_esk: &EphemeralSecretKey,
    derived_epk: &EphemeralPublicKey,
) -> (r: bool)
    ensures
        r == (derived_esk@ == esk@ && derived_epk@ == ephemeral_key.0@),
{
    if !ct_eq(&derived_esk.to_bytes(), &esk.to_bytes()) {
        return false;
    }
    ct_eq(&derived_epk.to_bytes(), &ephemeral_key.0)
}

/// Decrypts `output`'s note ciphertext with the secret that `esk` and `pk_d` share, holds the
/// plaintext against `expected`, and returns the memo.
fn recover_bound_inner<P: DomainVersion, Output: ShieldedOutput<ENC_CIPHERTEXT_SIZE>>(
    domain: &NoteEncryptionDomain<P>,
    pk_d: DiversifiedTransmissionKey,
    esk: EphemeralSecretKey,
    output: &Output,
    expected: &Note,
) -> (r: Option<[u8; 512]>)
    ensures
        ({
            let memo = recovered_memo(domain@, pk_d@, esk@, output.parts(), expected@);
            &&& r is Some <==> memo is Some
            &&& r is Some ==> memo == Some(r->0@)
        }),
{
    let ephemeral_key = output.ephemeral_key();
    let shared_secret = NoteEncryptionDomain::<P>::ka_agree_enc(&esk, &pk_d);
    let key = NoteEncryptionDomain::<P>::kdf(shared_secret, &ephemeral_key);

    let enc_ciphertext = output.enc_ciphertext();
    let ciphertext: [u8; 564] = take_array(enc_ciphertext, 0);
    let tag: [u8; 16] = take_array(enc_ciphertext, NOTE_PLAINTEXT_SIZE);
    let plaintext = match open(&key, &ciphertext, &tag) {
        Some(plaintext) => {
            let np: [u8; 564] = take_array(plaintext.as_slice(), 0);
            assert(np@ =~= plaintext@);
            NotePlaintextBytes(np)
        },
        None => return None,
    };

    if !binds_to_note(domain, &plaintext, &pk_d, expected) {
        return None;
    }
    let derived_esk = match NoteEncryptionDomain::<P>::derive_esk(expected) {
        Some(derived_esk) => derived_esk,
        None => return None,
    };
    let derived_epk = NoteEncryptionDomain::<P>::ka_derive_public(expected, &derived_esk);
    if !ephemeral_key_agrees(&esk, &ephemeral_key, &derived_esk, &derived_epk) {
        return None;
    }
    Some(domain.extract_memo(&plaintext))
}

/// Opens a ciphertext that was sealed without associated data under a key that is used once.
fn open(key: &[u8; 32], ciphertext: &[u8], tag: &[u8; 16]) -> (r: Option<Vec<u8>>)
    requires
        ciphertext@.len() <= 564,
    ensures
        ({
            let plaintext = aead::aead_open(
                key@,
                bytes::zeros(12),
                Seq::empty(),
                ciphertext@,
                tag@,
            );
            &&& r is Some <==> plaintext is Some
            &&& r is Some ==> plaintext == Some(r->0@)
        }),
{
    let nonce: [u8; 12] = [0u8; 12];
    let aad: [u8; 0] = [];
    assert(nonce@ =~= bytes::zeros(12));
    assert(aad@ =~= Seq::empty());
    open_detached(key, &nonce, &aad, ciphertext, tag)
}

/// Recovers the memo of an output of `expected`, which has been validated, from the transmission
/// key and the ephemeral secret key. The note commitment is not computed again.
///
/// The note's rho and its version are checked against the domain, that is, against the action.
pub fn recover_output_bound_with_pkd_esk<
    P: DomainVersion,
    Output: ShieldedOutput<ENC_CIPHERTEXT_SIZE>,
>(
    domain: &NoteEncryptionDomain<P>,
    pk_d: DiversifiedTransmissionKey,
    esk: EphemeralSecretKey,
    output: &Output,
    expected: &Note,
) -> (r: Option<[u8; 512]>)
    ensures
        ({
            let memo = recovered_memo(domain@, pk_d@, esk@, output.parts(), expected@);
            &&& r is Some <==> memo is Some
            &&& r is Some ==> memo == Some(r->0@)
        }),
{
    recover_bound_inner(domain, pk_d, esk, output, expected)
}

/// Recovers the memo of an output of `expected`, which has been validated, from the outgoing cipher
/// key. The note commitment is not computed again.
pub fn recover_output_bound_with_ock<
    P: DomainVersion,
    Output: ShieldedOutput<ENC_CIPHERTEXT_SIZE>,
>(
    domain: &NoteEncryptionDomain<P>,
    ock: &OutgoingCipherKey,
    output: &Output,
    out_ciphertext: &[u8; 80],
    expected: &Note,
) -> (r: Option<[u8; 512]>)
    ensures
        ({
            let memo = recovered_memo_with_ock(
                domain@,
                ock.0@,
                output.parts(),
                out_ciphertext@,
                expected@,
            );
            &&& r is Some <==> memo is Some
            &&& r is Some ==> memo == Some(r->0@)
        }),
{
    let ciphertext: [u8; 64] = take_array(out_ciphertext, 0);
    let tag: [u8; 16] = take_array(out_ciphertext, OUT_PLAINTEXT_SIZE);
    let op = match open(&ock.0, &ciphertext, &tag) {
        Some(plaintext) => {
            let op: [u8; 64] = take_array(plaintext.as_slice(), 0);
            assert(op@ =~= plaintext@);
            OutPlaintextBytes(op)
        },
        None => return None,
    };
    let pk_d = match NoteEncryptionDomain::<P>::extract_pk_d(&op) {
        Some(pk_d) => pk_d,
        None => return None,
    };
    let esk = match NoteEncryptionDomain::<P>::extract_esk(&op) {
        Some(esk) => esk,
        None => return None,
    };
    recover_bound_inner(domain, pk_d, esk, output, expected)
}

/// Recovers the memo of an output of `expected`, which has been validated, from the outgoing
/// viewing key. The note commitment is not computed again.
pub fn recover_output_bound_with_ovk<
    P: DomainVersion,
    Output: ShieldedOutput<ENC_CIPHERTEXT_SIZE>,
>(
    domain: &NoteEncryptionDomain<P>,
    ovk: &OutgoingViewingKey,
    output: &Output,
    cv: &ValueCommitment,
    out_ciphertext: &[u8; 80],
    expected: &Note,
) -> (r: Option<[u8; 512]>)
    ensures
        ({
            let memo = recovered_memo_with_ock(
                domain@,
                prf_ock(ovk@, cv@, output.parts().cmstar, output.parts().epk),
                output.parts(),
                out_ciphertext@,
                expected@,
            );
            &&& r is Some <==> memo is Some
            &&& r is Some ==> memo == Some(r->0@)
        }),
{
    let ock = NoteEncryptionDomain::<P>::derive_ock(
        ovk,
        cv,
        &output.cmstar_bytes(),
        &output.ephemeral_key(),
    );
    recover_output_bound_with_ock(domain, &ock, output, out_ciphertext, expected)
}

/// Whether a lane of a prepared batch is that of an ephemeral key: the key is prepared where it is
/// a point other than the identity.
pub open spec fn is_prepared_lane(
    key: EphemeralKeyBytes,
    lane: (Option<PreparedEphemeralPublicKey>, EphemeralKeyBytes),
) -> bool {
    &&& lane.1 == key
    &&& lane.0 is Some <==> pallas::pallas_is_point(key.0@) && key.0@ != pallas::identity()
    &&& lane.0 is Some ==> lane.0->0@ == key.0@
}

/// Whether a lane of a batch of secrets is the one that a viewing key shares with an ephemeral key.
pub open spec fn is_agreed_lane(
    ivk: Seq<u8>,
    epk: Option<PreparedEphemeralPublicKey>,
    lane: Option<SharedSecret>,
) -> bool {
    match epk {
        Some(epk) => lane is Some && lane->0@ == pallas::pallas_mul(ivk, epk@),
        None => lane is None,
    }
}

/// Whether a lane of a batch of symmetric keys is the one that a secret and an ephemeral key give.
pub open spec fn is_kdf_lane(
    item: (Option<SharedSecret>, EphemeralKeyBytes),
    lane: Option<[u8; 32]>,
) -> bool {
    match item.0 {
        Some(secret) => lane is Some && lane->0@ == keys::kdf_orchard_spec(secret@, item.1.0@),
        None => lane is None,
    }
}

impl<P: DomainPolicy> NoteEncryptionDomain<P> {
    /// Derives the symmetric keys of a batch. Each is the one that [`NoteEncryptionDomain::kdf`]
    /// derives, and a lane without a secret has none.
    pub fn batch_kdf(items: &Vec<(Option<SharedSecret>, EphemeralKeyBytes)>) -> (r: Vec<
        Option<[u8; 32]>,
    >)
        ensures
            r@.len() == items@.len(),
            forall|i: int| 0 <= i < items@.len() ==> is_kdf_lane(items@[i], #[trigger] r@[i]),
    {
        let mut r: Vec<Option<[u8; 32]>> = Vec::new();
        let mut i: usize = 0;
        while i < items.len()
            invariant
                i <= items@.len(),
                r@.len() == i,
                forall|j: int| 0 <= j < i ==> is_kdf_lane(items@[j], #[trigger] r@[j]),
            decreases items@.len() - i,
        {
            let key = match &items[i].0 {
                Some(secret) => Some(secret.kdf_orchard(&items[i].1.0)),
                None => None,
            };
            r.push(key);
            i = i + 1;
        }
        r
    }

    /// Prepares the ephemeral keys of a batch. A lane whose key is not valid has none.
    pub fn batch_epk(ephemeral_keys: &Vec<EphemeralKeyBytes>) -> (r: Vec<
        (Option<PreparedEphemeralPublicKey>, EphemeralKeyBytes),
    >)
        ensures
            r@.len() == ephemeral_keys@.len(),
            forall|i: int|
                0 <= i < ephemeral_keys@.len() ==> is_prepared_lane(
                    ephemeral_keys@[i],
                    #[trigger] r@[i],
                ),
    {
        let mut r: Vec<(Option<PreparedEphemeralPublicKey>, EphemeralKeyBytes)> = Vec::new();
        let mut i: usize = 0;
        while i < ephemeral_keys.len()
            invariant
                i <= ephemeral_keys@.len(),
                r@.len() == i,
                forall|j: int|
                    0 <= j < i ==> is_prepared_lane(ephemeral_keys@[j], #[trigger] r@[j]),
            decreases ephemeral_keys@.len() - i,
        {
            let ephemeral_key = ephemeral_keys[i];
            let epk = match Self::epk(&ephemeral_key) {
                Some(epk) => Some(Self::prepare_epk(epk)),
                None => None,
            };
            r.push((epk, ephemeral_key));
            i = i + 1;
        }
        r
    }

    /// Agrees with all the ephemeral keys of a batch at once. Each secret is the one that
    /// [`NoteEncryptionDomain::ka_agree_dec`] gives, and a lane without a key has none.
    pub fn batch_ka_agree_dec(
        ivk: &PreparedIncomingViewingKey,
        epks: &Vec<Option<PreparedEphemeralPublicKey>>,
    ) -> (r: Vec<Option<SharedSecret>>)
        ensures
            r@.len() == epks@.len(),
            forall|i: int|
                0 <= i < epks@.len() ==> is_agreed_lane(ivk@, epks@[i], #[trigger] r@[i]),
    {
        // The points of the lanes that have one, and where each lane's point stands among them.
        let mut points: Vec<[u8; 32]> = Vec::new();
        let mut places: Vec<Option<usize>> = Vec::new();
        let mut i: usize = 0;
        while i < epks.len()
            invariant
                i <= epks@.len(),
                places@.len() == i,
                forall|j: int|
                    0 <= j < points@.len() ==> pallas::pallas_is_point((#[trigger] points@[j])@),
                forall|j: int|
                    0 <= j < i ==> match #[trigger] places@[j] {
                        Some(place) => place < points@.len() && epks@[j] is Some
                            && points@[place as int]@ == epks@[j]->0@,
                        None => epks@[j] is None,
                    },
            decreases epks@.len() - i,
        {
            match &epks[i] {
                Some(epk) => {
                    places.push(Some(points.len()));
                    points.push(epk.to_bytes());
                },
                None => places.push(None),
            }
            i = i + 1;
        }

        let products = point_mul_batch(&ivk.raw_scalar(), &points);
        let mut r: Vec<Option<SharedSecret>> = Vec::new();
        let mut i: usize = 0;
        while i < epks.len()
            invariant
                i <= epks@.len(),
                places@.len() == epks@.len(),
                r@.len() == i,
                products@.len() == points@.len(),
                forall|j: int|
                    0 <= j < points@.len() ==> (#[trigger] products@[j])@ == pallas::pallas_mul(
                        ivk@,
                        points@[j]@,
                    ),
                forall|j: int|
                    0 <= j < epks@.len() ==> match #[trigger] places@[j] {
                        Some(place) => place < points@.len() && epks@[j] is Some
                            && points@[place as int]@ == epks@[j]->0@,
                        None => epks@[j] is None,
                    },
                forall|j: int|
                    0 <= j < i ==> is_agreed_lane(ivk@, epks@[j], #[trigger] r@[j]),
            decreases epks@.len() - i,
        {
            let secret = match places[i] {
                Some(place) => Some(SharedSecret::from_point(products[place])),
                None => None,
            };
            r.push(secret);
            i = i + 1;
        }
        r
    }
}

/// The encrypted plaintext of a note, under the secret that the ephemeral secret key shares with
/// the recipient.
pub open spec fn sealed_note(note: NoteView, esk: Seq<u8>, memo: Seq<u8>) -> Seq<u8> {
    aead::aead_seal(
        keys::kdf_orchard_spec(
            pallas::pallas_mul(esk, note.recipient.pk_d),
            pallas::pallas_mul(esk, note.recipient.g_d()),
        ),
        bytes::zeros(12),
        Seq::empty(),
        note_plaintext(note, memo),
    )
}

impl<P: DomainPolicy> NoteEncryptionDomain<P> {
    /// Encrypts the plaintext of a note. Both ends read it: the sender with the ephemeral secret
    /// key, and whoever holds a viewing key of the recipient with the ephemeral public key, from
    /// the whole ciphertext or from its compact form. With the ephemeral secret key of the note
    /// itself, the sender recovers the memo.
    pub fn encrypt_note_plaintext(note: &Note, esk: &EphemeralSecretKey, memo: &[u8; 512]) -> (r:
        [u8; 580])
        ensures
            r@ == sealed_note(note@, esk@, memo@),
            ({
                let epk = pallas::pallas_mul(esk@, note@.recipient.g_d());
                let plaintext = note_plaintext(note@, memo@);
                &&& open_note(
                    keys::kdf_orchard_spec(pallas::pallas_mul(esk@, note@.recipient.pk_d), epk),
                    r@,
                ) == Some(plaintext)
                &&& forall|ivk: Seq<u8>|
                    pallas::is_scalar(ivk) && #[trigger] pallas::pallas_mul(
                        ivk,
                        note@.recipient.g_d(),
                    ) == note@.recipient.pk_d ==> trial_key(ivk, epk) is Some && open_note(
                        trial_key(ivk, epk)->0,
                        r@,
                    ) == Some(plaintext) && open_compact(
                        trial_key(ivk, epk)->0,
                        r@.subrange(0, 52),
                    ) == compact_plaintext(note@)
            }),
            esk@ == note@.esk() ==> forall|domain: DomainView, output: OutputView|
                domain.rho == note@.rho && domain.accepted == note@.version && output.epk
                    == note@.epk() && output.enc == r@ ==> #[trigger] recovered_memo(
                    domain,
                    note@.recipient.pk_d,
                    esk@,
                    output,
                    note@,
                ) == Some(memo@),
    {
        let epk = Self::ka_derive_public(note, esk);
        let ephemeral_key = Self::epk_bytes(&epk);
        let secret = Self::ka_agree_enc(esk, note.recipient().pk_d());
        let key = Self::kdf(secret, &ephemeral_key);
        let plaintext = Self::note_plaintext_bytes(note, memo);
        let sealed = seal_once(&key, &plaintext.0);
        let r: [u8; 580] = take_array(sealed.as_slice(), 0);
        assert(r@ =~= sealed@);
        assert(r@.subrange(0, 564) =~= sealed@.take(564));
        assert(r@.subrange(564, 580) =~= sealed@.skip(564));
        assert(plaintext.0@.subrange(0, 52) =~= compact_plaintext(note@));
        assert(plaintext.0@.subrange(52, 564) =~= memo@);
        assert(r@.subrange(0, 52) =~= sealed@.take(52));
        assert(plaintext.0@.take(52) =~= compact_plaintext(note@));
        r
    }

    /// Encrypts the outgoing plaintext of a note. Under the same key it opens to the recipient's
    /// transmission key and the ephemeral secret key, so that whoever has the key recovers what
    /// those two recover.
    pub fn encrypt_outgoing_plaintext(
        ock: &OutgoingCipherKey,
        note: &Note,
        esk: &EphemeralSecretKey,
    ) -> (r: [u8; 80])
        ensures
            r@ == aead::aead_seal(
                ock.0@,
                bytes::zeros(12),
                Seq::empty(),
                note@.recipient.pk_d + esk@,
            ),
            open_outgoing(ock.0@, r@) == Some(note@.recipient.pk_d + esk@),
            forall|domain: DomainView, output: OutputView, expected: NoteView|
                #![trigger recovered_memo_with_ock(domain, ock.0@, output, r@, expected)]
                recovered_memo_with_ock(domain, ock.0@, output, r@, expected) == recovered_memo(
                    domain,
                    note@.recipient.pk_d,
                    esk@,
                    output,
                    expected,
                ),
    {
        let plaintext = Self::outgoing_plaintext_bytes(note, esk);
        let sealed = seal_once(&ock.0, &plaintext.0);
        let r: [u8; 80] = take_array(sealed.as_slice(), 0);
        assert(r@ =~= sealed@);
        assert(r@.subrange(0, 64) =~= sealed@.take(64));
        assert(r@.subrange(64, 80) =~= sealed@.skip(64));
        r
    }
}

/// Seals a plaintext without associated data under a key that is used once.
fn seal_once(key: &[u8; 32], plaintext: &[u8]) -> (r: Vec<u8>)
    requires
        plaintext@.len() <= 564,
    ensures
        r@ == aead::aead_seal(key@, bytes::zeros(12), Seq::empty(), plaintext@),
        r@.len() == plaintext@.len() + 16,
        aead::aead_open(
            key@,
            bytes::zeros(12),
            Seq::empty(),
            r@.take(plaintext@.len() as int),
            r@.skip(plaintext@.len() as int),
        ) == Some(plaintext@),
{
    let nonce: [u8; 12] = [0u8; 12];
    let aad: [u8; 0] = [];
    assert(nonce@ =~= bytes::zeros(12));
    assert(aad@ =~= Seq::empty());
    seal(key, &nonce, &aad, plaintext)
}

} // verus!
