//! What the functions of note encryption return, stated of the calls themselves in terms of bytes,
//! the curve, the hashes and the cipher.
//!
//! A law here takes the arguments of one or more calls and what the calls returned, and says how
//! these relate for every input.

use vstd::prelude::*;

use crate::action::Action;
use crate::address::Address;
use crate::bytes;
use crate::keys;
use crate::keys::{
    DiversifiedTransmissionKey, EphemeralPublicKey, EphemeralSecretKey, OutgoingViewingKey,
    PreparedEphemeralPublicKey, PreparedIncomingViewingKey, SharedSecret,
};
use crate::note::{
    ExtractedNoteCommitment, Note, NoteVersion, NoteView, Nullifier, Rho,
    TransmittedNoteCiphertext,
};
use crate::note_encryption;
use crate::note_encryption::testing::{fake_compact_action, FakeActionError};
use crate::note_encryption::{
    binds_to_note, ephemeral_key_agrees, plaintext_fields, prf_ock_orchard,
    recover_output_bound_with_ock, recover_output_bound_with_ovk,
    recover_output_bound_with_pkd_esk, BundleDomainPolicy, CompactAction, DomainPolicy,
    DomainVersion, EphemeralKeyBytes, IronwoodVersion, NoteEncryptionDomain, NotePlaintextBytes,
    OrchardVersion, OutPlaintextBytes, OutgoingCipherKey, PlaintextFields, ShieldedOutput,
};
use crate::outcomes;
use crate::pczt;
use crate::primitives::aead;
use crate::primitives::hash;
use crate::primitives::pallas;
use crate::value::{NoteValue, ValueCommitment};

verus! {

// Keys.

/// The outgoing cipher key is the BLAKE2b hash, personalized `Zcash_Orchardock`, of the outgoing
/// viewing key, the value commitment, the extracted note commitment and the ephemeral key, in this
/// order and every byte of each as it was given.
pub proof fn outgoing_cipher_key_is_a_hash<P: DomainPolicy>(
    ovk_bytes: [u8; 32],
    ovk: OutgoingViewingKey,
    cv_bytes: [u8; 32],
    cv: Option<ValueCommitment>,
    cmx: &[u8; 32],
    epk: &EphemeralKeyBytes,
    direct: OutgoingCipherKey,
    derived: OutgoingCipherKey,
)
    requires
        call_ensures(OutgoingViewingKey::from_bytes, (ovk_bytes,), ovk),
        call_ensures(ValueCommitment::from_bytes, (&cv_bytes,), cv),
        cv is Some ==> {
            &&& call_ensures(prf_ock_orchard, (&ovk, &cv->0, cmx, epk), direct)
            &&& call_ensures(
                NoteEncryptionDomain::<P>::derive_ock,
                (&ovk, &cv->0, cmx, epk),
                derived,
            )
        },
    ensures
        cv is Some ==> direct.0@ == hash::blake2b(
            seq![
                0x5au8, 0x63, 0x61, 0x73, 0x68, 0x5f, 0x4f, 0x72, 0x63, 0x68, 0x61, 0x72, 0x64,
                0x6f, 0x63, 0x6b,
            ],
            ovk_bytes@ + cv_bytes@ + cmx@ + epk.0@,
            32,
        ),
        cv is Some ==> derived.0@ == direct.0@,
{
    lemma_outgoing_cipher_key(ovk_bytes@, cv_bytes@, cmx@, epk.0@);
}

/// The outgoing cipher key that any bytes give is that hash.
pub proof fn lemma_outgoing_cipher_key(ovk: Seq<u8>, cv: Seq<u8>, cmx: Seq<u8>, epk: Seq<u8>)
    ensures
        note_encryption::prf_ock(ovk, cv, cmx, epk) == hash::blake2b(
            seq![
                0x5au8, 0x63, 0x61, 0x73, 0x68, 0x5f, 0x4f, 0x72, 0x63, 0x68, 0x61, 0x72, 0x64,
                0x6f, 0x63, 0x6b,
            ],
            ovk + cv + cmx + epk,
            32,
        ),
{
    assert(note_encryption::PRF_OCK_ORCHARD_PERSONALIZATION@ =~= seq![
        0x5au8, 0x63, 0x61, 0x73, 0x68, 0x5f, 0x4f, 0x72, 0x63, 0x68, 0x61, 0x72, 0x64, 0x6f, 0x63,
        0x6b,
    ]);
}

/// The functions of a domain on keys are the functions of the keys: preparing, agreeing and
/// deriving in a domain gives what the keys themselves give.
pub proof fn domain_keys_are_the_keys<P: DomainPolicy>(
    note: &Note,
    esk: &EphemeralSecretKey,
    pk_d: &DiversifiedTransmissionKey,
    ivk: &PreparedIncomingViewingKey,
    epk: EphemeralPublicKey,
    ephemeral_key: &EphemeralKeyBytes,
    public: EphemeralPublicKey,
    prepared: PreparedEphemeralPublicKey,
    sent: SharedSecret,
    received: SharedSecret,
    key: [u8; 32],
    own: Option<EphemeralSecretKey>,
    to: DiversifiedTransmissionKey,
    encoded: EphemeralKeyBytes,
    parsed: Option<EphemeralPublicKey>,
)
    requires
        call_ensures(NoteEncryptionDomain::<P>::ka_derive_public, (note, esk), public),
        call_ensures(NoteEncryptionDomain::<P>::prepare_epk, (epk,), prepared),
        call_ensures(NoteEncryptionDomain::<P>::ka_agree_enc, (esk, pk_d), sent),
        call_ensures(NoteEncryptionDomain::<P>::ka_agree_dec, (ivk, &prepared), received),
        call_ensures(NoteEncryptionDomain::<P>::kdf, (sent, ephemeral_key), key),
        call_ensures(NoteEncryptionDomain::<P>::derive_esk, (note,), own),
        call_ensures(NoteEncryptionDomain::<P>::get_pk_d, (note,), to),
        call_ensures(NoteEncryptionDomain::<P>::epk_bytes, (&epk,), encoded),
        call_ensures(NoteEncryptionDomain::<P>::epk, (ephemeral_key,), parsed),
    ensures
        public@ == pallas::pallas_mul(esk@, keys::diversify_hash(note@.recipient.d)),
        prepared@ == epk@,
        sent@ == pallas::pallas_mul(esk@, pk_d@),
        received@ == pallas::pallas_mul(ivk@, epk@),
        key@ == hash::blake2b(
            seq![
                0x5au8, 0x63, 0x61, 0x73, 0x68, 0x5f, 0x4f, 0x72, 0x63, 0x68, 0x61, 0x72, 0x64,
                0x4b, 0x44, 0x46,
            ],
            sent@ + ephemeral_key.0@,
            32,
        ),
        own is Some <==> note@.esk() != pallas::identity(),
        own is Some ==> own->0@ == note@.esk(),
        to@ == note@.recipient.pk_d,
        encoded.0@ == epk@,
        parsed is Some <==> pallas::pallas_is_point(ephemeral_key.0@) && ephemeral_key.0@
            != bytes::zeros(32),
        parsed is Some ==> parsed->0@ == ephemeral_key.0@,
{
    outcomes::lemma_symmetric_key(sent@, ephemeral_key.0@);
}

// Domains.

/// A domain has the rho it was made with: for an action, whether whole, partially created or
/// compact, the nullifier of the note that the action spends.
pub proof fn domains_have_the_rho_of_their_action<V: DomainVersion, T>(
    rho: Rho,
    action: &Action<T>,
    partial: &pczt::Action,
    compact: &CompactAction,
    version: NoteVersion,
    made: (
        NoteEncryptionDomain<V>,
        NoteEncryptionDomain<V>,
        NoteEncryptionDomain<V>,
        NoteEncryptionDomain<V>,
        NoteEncryptionDomain<BundleDomainPolicy>,
    ),
    rhos: [Rho; 5],
    nf: &Nullifier,
    compact_nf: Nullifier,
)
    requires
        call_ensures(NoteEncryptionDomain::<V>::from_rho, (rho,), made.0),
        call_ensures(NoteEncryptionDomain::<V>::for_action::<T>, (action,), made.1),
        call_ensures(NoteEncryptionDomain::<V>::for_pczt_action, (partial,), made.2),
        call_ensures(NoteEncryptionDomain::<V>::for_compact_action, (compact,), made.3),
        call_ensures(
            NoteEncryptionDomain::<BundleDomainPolicy>::for_action::<T>,
            (action, version),
            made.4,
        ),
        call_ensures(NoteEncryptionDomain::<V>::rho, (&made.0,), rhos[0]),
        call_ensures(NoteEncryptionDomain::<V>::rho, (&made.1,), rhos[1]),
        call_ensures(NoteEncryptionDomain::<V>::rho, (&made.2,), rhos[2]),
        call_ensures(NoteEncryptionDomain::<V>::rho, (&made.3,), rhos[3]),
        call_ensures(NoteEncryptionDomain::<BundleDomainPolicy>::rho, (&made.4,), rhos[4]),
        call_ensures(Action::<T>::nullifier, (action,), nf),
        call_ensures(CompactAction::nullifier, (compact,), compact_nf),
    ensures
        rhos[0]@ == rho@,
        rhos[1]@ == nf@,
        rhos[2]@ == partial.spend.nullifier@,
        rhos[3]@ == compact_nf@,
        rhos[4]@ == nf@,
{
}

/// An Orchard domain accepts a plaintext exactly where its first byte is `0x02`, an Ironwood domain
/// where it is `0x03`, and a domain for a version where it is that version's lead byte, however the
/// domain was made and whatever follows the first byte.
pub proof fn domains_accept_one_lead_byte<T>(
    rho: Rho,
    action: &Action<T>,
    version: NoteVersion,
    plaintext: &[u8],
    orchard: NoteEncryptionDomain<OrchardVersion>,
    ironwood: NoteEncryptionDomain<IronwoodVersion>,
    bundle: NoteEncryptionDomain<BundleDomainPolicy>,
    r: [Option<NoteVersion>; 3],
)
    requires
        call_ensures(NoteEncryptionDomain::<OrchardVersion>::from_rho, (rho,), orchard),
        call_ensures(NoteEncryptionDomain::<IronwoodVersion>::from_rho, (rho,), ironwood),
        call_ensures(
            NoteEncryptionDomain::<BundleDomainPolicy>::for_action::<T>,
            (action, version),
            bundle,
        ),
        call_ensures(
            NoteEncryptionDomain::<OrchardVersion>::note_version,
            (&orchard, plaintext),
            r[0],
        ),
        call_ensures(
            NoteEncryptionDomain::<IronwoodVersion>::note_version,
            (&ironwood, plaintext),
            r[1],
        ),
        call_ensures(
            NoteEncryptionDomain::<BundleDomainPolicy>::note_version,
            (&bundle, plaintext),
            r[2],
        ),
    ensures
        ({
            let v2 = plaintext@.len() > 0 && plaintext@[0] == 0x02;
            let v3 = plaintext@.len() > 0 && plaintext@[0] == 0x03;
            &&& r[0] == if v2 {
                Some(NoteVersion::V2)
            } else {
                None
            }
            &&& r[1] == if v3 {
                Some(NoteVersion::V3)
            } else {
                None
            }
            &&& r[2] is Some <==> version == NoteVersion::V2 && v2 || version == NoteVersion::V3
                && v3
            &&& r[2] is Some ==> r[2] == Some(version)
        }),
{
}

/// Every domain of a fixed version, whatever action it is made for, accepts that version.
pub proof fn domains_accept_their_version<V: DomainVersion, T>(
    rho: Rho,
    action: &Action<T>,
    partial: &pczt::Action,
    compact: &CompactAction,
    made: (
        NoteEncryptionDomain<V>,
        NoteEncryptionDomain<V>,
        NoteEncryptionDomain<V>,
        NoteEncryptionDomain<V>,
    ),
)
    requires
        call_ensures(NoteEncryptionDomain::<V>::from_rho, (rho,), made.0),
        call_ensures(NoteEncryptionDomain::<V>::for_action::<T>, (action,), made.1),
        call_ensures(NoteEncryptionDomain::<V>::for_pczt_action, (partial,), made.2),
        call_ensures(NoteEncryptionDomain::<V>::for_compact_action, (compact,), made.3),
    ensures
        made.0@.accepted == V::NOTE_VERSION,
        made.1@.accepted == V::NOTE_VERSION,
        made.2@.accepted == V::NOTE_VERSION,
        made.3@.accepted == V::NOTE_VERSION,
{
    V::version_is_constant();
}

// Plaintexts.

/// A note plaintext is the lead byte of the note's version, the eleven bytes of the diversifier,
/// the eight of the value in little-endian order, the thirty-two of the random seed, and the memo.
pub proof fn note_plaintext_layout<P: DomainPolicy>(
    note: &Note,
    memo: &[u8; 512],
    r: NotePlaintextBytes,
)
    requires
        call_ensures(NoteEncryptionDomain::<P>::note_plaintext_bytes, (note, memo), r),
    ensures
        note@.version == NoteVersion::V2 <==> r.0@[0] == 0x02,
        note@.version == NoteVersion::V3 <==> r.0@[0] == 0x03,
        r.0@.subrange(1, 12) == note@.recipient.d,
        r.0@.subrange(12, 20) == bytes::le_bytes(note@.value as nat, 8),
        r.0@.subrange(20, 52) == note@.rseed,
        r.0@.subrange(52, 564) == memo@,
{
    note.lengths();
    bytes::lemma_le_bytes_len(note@.value as nat, 8);
    assert(r.0@[0] == note@.version.lead());
    assert(r.0@.subrange(1, 12) =~= note@.recipient.d);
    assert(r.0@.subrange(12, 20) =~= bytes::le_bytes(note@.value as nat, 8));
    assert(r.0@.subrange(20, 52) =~= note@.rseed);
    assert(r.0@.subrange(52, 564) =~= memo@);
}

/// A plaintext is split by position, and its memo is what follows the first fifty-two bytes.
pub proof fn plaintexts_are_split_by_position<P: DomainPolicy>(
    domain: &NoteEncryptionDomain<P>,
    plaintext: &NotePlaintextBytes,
    short: &[u8],
    fields: PlaintextFields,
    memo: [u8; 512],
)
    requires
        short@.len() >= 52,
        call_ensures(plaintext_fields, (short,), fields),
        call_ensures(NoteEncryptionDomain::<P>::extract_memo, (domain, plaintext), memo),
    ensures
        forall|i: int| 0 <= i < 11 ==> #[trigger] fields.diversifier@[i] == short@[i + 1],
        bytes::le_bytes(fields.value.raw as nat, 8) == short@.subrange(12, 20),
        forall|i: int| 0 <= i < 32 ==> #[trigger] fields.rseed@[i] == short@[i + 20],
        forall|i: int| 0 <= i < 512 ==> #[trigger] memo@[i] == plaintext.0@[i + 52],
{
    bytes::lemma_le_bytes_of_le_nat(short@.subrange(12, 20));
}

/// Someone who knows the transmission key parses a plaintext exactly where its first byte is the
/// lead byte that the domain accepts, its seed gives an ephemeral secret key other than zero, and
/// the note has a commitment. The note has the plaintext's diversifier, value and seed, the given
/// transmission key, and the domain's rho and version.
pub proof fn plaintext_is_parsed_with_a_transmission_key<P: DomainPolicy>(
    domain: &NoteEncryptionDomain<P>,
    pk_d: &DiversifiedTransmissionKey,
    pk_d_bytes: [u8; 32],
    plaintext: &NotePlaintextBytes,
    value: u64,
    r: Option<(Note, Address)>,
)
    requires
        value as nat == bytes::le_nat(plaintext.0@.subrange(12, 20)),
        call_ensures(DiversifiedTransmissionKey::to_bytes, (pk_d,), pk_d_bytes),
        call_ensures(
            NoteEncryptionDomain::<P>::parse_note_plaintext_without_memo_ovk,
            (domain, pk_d, plaintext),
            r,
        ),
    ensures
        ({
            let note = NoteView {
                recipient: crate::address::AddressView {
                    d: plaintext.0@.subrange(1, 12),
                    pk_d: pk_d_bytes@,
                },
                value,
                rho: domain@.rho,
                rseed: plaintext.0@.subrange(20, 52),
                version: domain@.accepted,
            };
            &&& r is Some <==> {
                &&& domain@.accepted == NoteVersion::V2 ==> plaintext.0@[0] == 0x02
                &&& domain@.accepted == NoteVersion::V3 ==> plaintext.0@[0] == 0x03
                &&& note.esk() != pallas::identity()
                &&& note.commitment() is Some
            }
            &&& r matches Some((n, to)) ==> n@ == note && to@ == note.recipient
        }),
{
}

/// The holder of a viewing key parses a plaintext, with or without its memo, as someone does who
/// knows the viewing key's multiple of the base that the plaintext's diversifier stands for.
pub proof fn plaintext_is_parsed_with_a_viewing_key<P: DomainPolicy>(
    domain: &NoteEncryptionDomain<P>,
    ivk: &PreparedIncomingViewingKey,
    plaintext: &[u8],
    value: u64,
    r: Option<(Note, Address)>,
)
    requires
        plaintext@.len() >= 52,
        value as nat == bytes::le_nat(plaintext@.subrange(12, 20)),
        call_ensures(
            NoteEncryptionDomain::<P>::parse_note_plaintext_without_memo_ivk,
            (domain, ivk, plaintext),
            r,
        ),
    ensures
        ({
            let d = plaintext@.subrange(1, 12);
            let note = NoteView {
                recipient: crate::address::AddressView {
                    d,
                    pk_d: pallas::pallas_mul(ivk@, keys::diversify_hash(d)),
                },
                value,
                rho: domain@.rho,
                rseed: plaintext@.subrange(20, 52),
                version: domain@.accepted,
            };
            &&& r is Some <==> {
                &&& domain@.accepted == NoteVersion::V2 ==> plaintext@[0] == 0x02
                &&& domain@.accepted == NoteVersion::V3 ==> plaintext@[0] == 0x03
                &&& note.esk() != pallas::identity()
                &&& note.recipient.pk_d != pallas::identity()
                &&& note.commitment() is Some
            }
            &&& r matches Some((n, to)) ==> n@ == note && to@ == note.recipient
        }),
{
}

/// A plaintext whose first byte is not the lead byte that the domain accepts is parsed as no note,
/// however short it is.
pub proof fn other_lead_bytes_are_refused<P: DomainPolicy>(
    domain: &NoteEncryptionDomain<P>,
    ivk: &PreparedIncomingViewingKey,
    plaintext: &[u8],
    r: Option<(Note, Address)>,
)
    requires
        domain@.accepted == NoteVersion::V2 ==> plaintext@.len() == 0 || plaintext@[0] != 0x02,
        domain@.accepted == NoteVersion::V3 ==> plaintext@.len() == 0 || plaintext@[0] != 0x03,
        call_ensures(
            NoteEncryptionDomain::<P>::parse_note_plaintext_without_memo_ivk,
            (domain, ivk, plaintext),
            r,
        ),
    ensures
        r is None,
{
}

/// A note that is written is parsed as the same note by a domain with its rho and version, and as
/// none by a domain of the other version, provided that its seed was read for its rho.
pub proof fn written_notes_are_parsed_back<P: DomainPolicy, Q: DomainPolicy>(
    note: &Note,
    recipient: Address,
    memo: &[u8; 512],
    plaintext: NotePlaintextBytes,
    domain: &NoteEncryptionDomain<Q>,
    pk_d: &DiversifiedTransmissionKey,
    r: Option<(Note, Address)>,
    read: [u8; 512],
)
    requires
        call_ensures(Note::recipient, (note,), recipient),
        call_ensures(Address::pk_d, (&recipient,), pk_d),
        call_ensures(NoteEncryptionDomain::<P>::note_plaintext_bytes, (note, memo), plaintext),
        call_ensures(
            NoteEncryptionDomain::<Q>::parse_note_plaintext_without_memo_ovk,
            (domain, pk_d, &plaintext),
            r,
        ),
        call_ensures(NoteEncryptionDomain::<Q>::extract_memo, (domain, &plaintext), read),
        domain@.rho == note@.rho,
        note@.esk() != pallas::identity(),
    ensures
        read@ == memo@,
        r is Some <==> domain@.accepted == note@.version,
        r matches Some((n, to)) ==> n@ == note@ && to@ == note@.recipient,
{
    note_encryption::laws::plaintext_parses_as_its_note(note@, memo@);
    note_plaintext_layout::<P>(note, memo, plaintext);
}

/// An outgoing plaintext is the transmission key and then the ephemeral secret key, and both are
/// extracted from it again. Of any other, each half is extracted where it is valid.
pub proof fn outgoing_plaintext_layout<P: DomainPolicy>(
    note: &Note,
    esk: &EphemeralSecretKey,
    op: OutPlaintextBytes,
    any: &OutPlaintextBytes,
    pk_d: Option<DiversifiedTransmissionKey>,
    secret: Option<EphemeralSecretKey>,
    any_pk_d: Option<DiversifiedTransmissionKey>,
    any_secret: Option<EphemeralSecretKey>,
)
    requires
        call_ensures(NoteEncryptionDomain::<P>::outgoing_plaintext_bytes, (note, esk), op),
        call_ensures(NoteEncryptionDomain::<P>::extract_pk_d, (&op,), pk_d),
        call_ensures(NoteEncryptionDomain::<P>::extract_esk, (&op,), secret),
        call_ensures(NoteEncryptionDomain::<P>::extract_pk_d, (any,), any_pk_d),
        call_ensures(NoteEncryptionDomain::<P>::extract_esk, (any,), any_secret),
    ensures
        op.0@ == note@.recipient.pk_d + esk@,
        pk_d is Some && pk_d->0@ == note@.recipient.pk_d,
        secret is Some && secret->0@ == esk@,
        any_pk_d is Some <==> pallas::pallas_is_point(any.0@.subrange(0, 32)) && any.0@.subrange(
            0,
            32,
        ) != bytes::zeros(32),
        any_pk_d is Some ==> any_pk_d->0@ == any.0@.subrange(0, 32),
        any_secret is Some <==> bytes::le_nat(any.0@.subrange(32, 64)) < pallas::scalar_modulus()
            && any.0@.subrange(32, 64) != bytes::zeros(32),
        any_secret is Some ==> any_secret->0@ == any.0@.subrange(32, 64),
{
}

/// The commitment of a domain is the one extracted from the note's commitment.
pub proof fn cmstar_is_the_extracted_commitment<P: DomainPolicy>(
    note: &Note,
    cm: crate::note::NoteCommitment,
    cmx: ExtractedNoteCommitment,
)
    requires
        call_ensures(Note::commitment, (note,), cm),
        call_ensures(NoteEncryptionDomain::<P>::cmstar, (note,), cmx),
    ensures
        cmx@ == pallas::extract_p(cm@),
        cmx@ == note@.cmx(),
{
}

// Recovery.

/// Recovery from the transmission key and the ephemeral secret key gives a memo exactly where the
/// ciphertext is authentic under the key that the two share, its plaintext is that of the expected
/// note, of a version that the domain accepts, the domain has the note's rho, the transmission key
/// is the recipient's, and the key pair is the one that the note gives. The memo is what follows
/// the first fifty-two bytes of the plaintext.
pub proof fn recovery_is_bound_to_the_note<V: DomainVersion, O: ShieldedOutput<580>>(
    domain: &NoteEncryptionDomain<V>,
    pk_d: DiversifiedTransmissionKey,
    esk: EphemeralSecretKey,
    output: &O,
    expected: &Note,
    epk: EphemeralKeyBytes,
    enc: &[u8; 580],
    r: Option<[u8; 512]>,
)
    requires
        call_ensures(O::ephemeral_key, (output,), epk),
        call_ensures(O::enc_ciphertext, (output,), enc),
        call_ensures(
            recover_output_bound_with_pkd_esk::<V, O>,
            (domain, pk_d, esk, output, expected),
            r,
        ),
    ensures
        ({
            let key = hash::blake2b(
                seq![
                    0x5au8, 0x63, 0x61, 0x73, 0x68, 0x5f, 0x4f, 0x72, 0x63, 0x68, 0x61, 0x72, 0x64,
                    0x4b, 0x44, 0x46,
                ],
                pallas::pallas_mul(esk@, pk_d@) + epk.0@,
                32,
            );
            let ciphertext = enc@.subrange(0, 564);
            let tag = enc@.subrange(564, 580);
            let plaintext = aead::apply_keystream(key, bytes::zeros(12), ciphertext);
            let n = expected@;
            let note_esk = crate::note::esk_of(n.rseed, n.rho);
            &&& r is Some <==> {
                &&& aead::aead_verifies(key, bytes::zeros(12), Seq::empty(), ciphertext, tag)
                &&& domain@.rho == n.rho
                &&& domain@.accepted == n.version
                &&& n.version == NoteVersion::V2 ==> plaintext[0] == 0x02
                &&& n.version == NoteVersion::V3 ==> plaintext[0] == 0x03
                &&& plaintext.subrange(1, 12) == n.recipient.d
                &&& plaintext.subrange(12, 20) == bytes::le_bytes(n.value as nat, 8)
                &&& plaintext.subrange(20, 52) == n.rseed
                &&& pk_d@ == n.recipient.pk_d
                &&& esk@ == note_esk
                &&& epk.0@ == pallas::pallas_mul(note_esk, keys::diversify_hash(n.recipient.d))
            }
            &&& r is Some ==> r->0@ == plaintext.subrange(52, 564)
        }),
{
    expected.lengths();
    outcomes::lemma_symmetric_key(pallas::pallas_mul(esk@, pk_d@), epk.0@);
    let key = keys::kdf_orchard_spec(pallas::pallas_mul(esk@, pk_d@), epk.0@);
    let plaintext = aead::apply_keystream(key, bytes::zeros(12), enc@.subrange(0, 564));
    note_encryption::lemma_compact_plaintext(plaintext, expected@);
    bytes::lemma_le_bytes_of_le_nat(plaintext.subrange(12, 20));
    bytes::lemma_le_nat_of_le_bytes_u64(expected@.value, 8);
}

/// Recovery with the outgoing cipher key finds nothing where the outgoing ciphertext is not
/// authentic under that key, or where a half of its plaintext is not a valid key. Else it gives
/// what the two halves give.
pub proof fn recovery_with_ock_is_recovery_with_its_keys<
    V: DomainVersion,
    O: ShieldedOutput<580>,
>(
    domain: &NoteEncryptionDomain<V>,
    ock: &OutgoingCipherKey,
    output: &O,
    out: &[u8; 80],
    expected: &Note,
    pk_d_bytes: [u8; 32],
    esk_bytes: [u8; 32],
    pk_d: Option<DiversifiedTransmissionKey>,
    esk: Option<EphemeralSecretKey>,
    with_keys: Option<[u8; 512]>,
    r: Option<[u8; 512]>,
)
    requires
        ({
            let op = aead::apply_keystream(ock.0@, bytes::zeros(12), out@.subrange(0, 64));
            pk_d_bytes@ == op.subrange(0, 32) && esk_bytes@ == op.subrange(32, 64)
        }),
        call_ensures(DiversifiedTransmissionKey::from_bytes, (&pk_d_bytes,), pk_d),
        call_ensures(EphemeralSecretKey::from_bytes, (&esk_bytes,), esk),
        pk_d is Some && esk is Some ==> call_ensures(
            recover_output_bound_with_pkd_esk::<V, O>,
            (domain, pk_d->0, esk->0, output, expected),
            with_keys,
        ),
        call_ensures(
            recover_output_bound_with_ock::<V, O>,
            (domain, ock, output, out, expected),
            r,
        ),
    ensures
        ({
            let authentic = aead::aead_verifies(
                ock.0@,
                bytes::zeros(12),
                Seq::empty(),
                out@.subrange(0, 64),
                out@.subrange(64, 80),
            );
            &&& r is Some <==> authentic && pk_d is Some && esk is Some && with_keys is Some
            &&& r is Some ==> r->0@ == with_keys->0@
        }),
{
}

/// Recovery with the outgoing viewing key is recovery with the hash, personalized
/// `Zcash_Orchardock`, of that key, the value commitment, the output's commitment and its ephemeral
/// key, every byte of each as it was given.
pub proof fn recovery_with_ovk_is_recovery_with_its_ock<
    V: DomainVersion,
    O: ShieldedOutput<580>,
>(
    domain: &NoteEncryptionDomain<V>,
    ovk: &OutgoingViewingKey,
    ovk_bytes: &[u8; 32],
    output: &O,
    cv: &ValueCommitment,
    cv_bytes: [u8; 32],
    cmx: [u8; 32],
    epk: EphemeralKeyBytes,
    out: &[u8; 80],
    expected: &Note,
    ock: &OutgoingCipherKey,
    with_ock: Option<[u8; 512]>,
    r: Option<[u8; 512]>,
)
    requires
        call_ensures(OutgoingViewingKey::as_bytes, (ovk,), ovk_bytes),
        call_ensures(ValueCommitment::to_bytes, (cv,), cv_bytes),
        call_ensures(O::cmstar_bytes, (output,), cmx),
        call_ensures(O::ephemeral_key, (output,), epk),
        ock.0@ == hash::blake2b(
            seq![
                0x5au8, 0x63, 0x61, 0x73, 0x68, 0x5f, 0x4f, 0x72, 0x63, 0x68, 0x61, 0x72, 0x64,
                0x6f, 0x63, 0x6b,
            ],
            ovk_bytes@ + cv_bytes@ + cmx@ + epk.0@,
            32,
        ),
        call_ensures(
            recover_output_bound_with_ock::<V, O>,
            (domain, ock, output, out, expected),
            with_ock,
        ),
        call_ensures(
            recover_output_bound_with_ovk::<V, O>,
            (domain, ovk, output, cv, out, expected),
            r,
        ),
    ensures
        r is Some <==> with_ock is Some,
        r is Some ==> r->0@ == with_ock->0@,
{
    lemma_outgoing_cipher_key(ovk_bytes@, cv_bytes@, cmx@, epk.0@);
}

/// A plaintext binds to a note exactly where the domain has the note's rho and accepts its version,
/// the transmission key is the recipient's, and the plaintext's lead byte, diversifier, value and
/// seed are the note's. A key pair agrees exactly where both halves are the derived ones.
pub proof fn bindings_are_exact<P: DomainPolicy>(
    domain: &NoteEncryptionDomain<P>,
    plaintext: &NotePlaintextBytes,
    pk_d: &DiversifiedTransmissionKey,
    expected: &Note,
    esk: &EphemeralSecretKey,
    epk: &EphemeralKeyBytes,
    derived_esk: &EphemeralSecretKey,
    derived_epk: &EphemeralPublicKey,
    bound: bool,
    agrees: bool,
)
    requires
        call_ensures(binds_to_note::<P>, (domain, plaintext, pk_d, expected), bound),
        call_ensures(ephemeral_key_agrees, (esk, epk, derived_esk, derived_epk), agrees),
    ensures
        bound <==> {
            &&& domain@.rho == expected@.rho
            &&& domain@.accepted == expected@.version
            &&& expected@.version == NoteVersion::V2 ==> plaintext.0@[0] == 0x02
            &&& expected@.version == NoteVersion::V3 ==> plaintext.0@[0] == 0x03
            &&& plaintext.0@.subrange(1, 12) == expected@.recipient.d
            &&& plaintext.0@.subrange(12, 20) == bytes::le_bytes(expected@.value as nat, 8)
            &&& plaintext.0@.subrange(20, 52) == expected@.rseed
            &&& pk_d@ == expected@.recipient.pk_d
        },
        agrees <==> esk@ == derived_esk@ && epk.0@ == derived_epk@,
{
    expected.lengths();
    note_encryption::lemma_compact_plaintext(plaintext.0@, expected@);
    bytes::lemma_le_bytes_of_le_nat(plaintext.0@.subrange(12, 20));
    bytes::lemma_le_nat_of_le_bytes_u64(expected@.value, 8);
}

// Batches.

/// Each lane of a batch is what the calls on that lane alone give, and is empty exactly where its
/// ephemeral key is not valid.
pub proof fn batches_are_their_lanes<P: DomainPolicy>(
    ivk: &PreparedIncomingViewingKey,
    ephemeral_keys: &Vec<EphemeralKeyBytes>,
    prepared: Vec<(Option<PreparedEphemeralPublicKey>, EphemeralKeyBytes)>,
    epks: &Vec<Option<PreparedEphemeralPublicKey>>,
    secrets: Vec<Option<SharedSecret>>,
    items: &Vec<(Option<SharedSecret>, EphemeralKeyBytes)>,
    symmetric_keys: Vec<Option<[u8; 32]>>,
    i: int,
    epk: Option<EphemeralPublicKey>,
    one: PreparedEphemeralPublicKey,
    secret: SharedSecret,
    key: [u8; 32],
)
    requires
        0 <= i < ephemeral_keys@.len(),
        epks@.len() == prepared@.len(),
        epks@[i] == prepared@[i].0,
        items@.len() == secrets@.len(),
        items@[i] == (secrets@[i], prepared@[i].1),
        call_ensures(NoteEncryptionDomain::<P>::batch_epk, (ephemeral_keys,), prepared),
        call_ensures(NoteEncryptionDomain::<P>::batch_ka_agree_dec, (ivk, epks), secrets),
        call_ensures(NoteEncryptionDomain::<P>::batch_kdf, (items,), symmetric_keys),
        call_ensures(NoteEncryptionDomain::<P>::epk, (&ephemeral_keys@[i],), epk),
        epk is Some ==> {
            &&& call_ensures(NoteEncryptionDomain::<P>::prepare_epk, (epk->0,), one)
            &&& call_ensures(NoteEncryptionDomain::<P>::ka_agree_dec, (ivk, &one), secret)
            &&& call_ensures(NoteEncryptionDomain::<P>::kdf, (secret, &ephemeral_keys@[i]), key)
        },
    ensures
        prepared@.len() == ephemeral_keys@.len(),
        secrets@.len() == ephemeral_keys@.len(),
        symmetric_keys@.len() == ephemeral_keys@.len(),
        prepared@[i].1.0@ == ephemeral_keys@[i].0@,
        prepared@[i].0 is Some <==> epk is Some,
        secrets@[i] is Some <==> epk is Some,
        symmetric_keys@[i] is Some <==> epk is Some,
        epk is Some ==> {
            &&& prepared@[i].0->0@ == one@
            &&& secrets@[i]->0@ == secret@
            &&& symmetric_keys@[i]->0@ == key@
        },
{
    assert(note_encryption::is_prepared_lane(ephemeral_keys@[i], prepared@[i]));
    assert(note_encryption::is_agreed_lane(ivk@, epks@[i], secrets@[i]));
    assert(note_encryption::is_kdf_lane(items@[i], symmetric_keys@[i]));
}

/// A lane of a batch depends on that lane alone, wherever its key or secret comes from: a secret is
/// the viewing key's multiple of the lane's key, and a symmetric key the hash of the lane's secret
/// and ephemeral key. A lane without a key or a secret has none.
pub proof fn lanes_stand_alone<P: DomainPolicy>(
    ivk: &PreparedIncomingViewingKey,
    epks: &Vec<Option<PreparedEphemeralPublicKey>>,
    secrets: Vec<Option<SharedSecret>>,
    items: &Vec<(Option<SharedSecret>, EphemeralKeyBytes)>,
    symmetric_keys: Vec<Option<[u8; 32]>>,
    i: int,
    j: int,
)
    requires
        0 <= i < epks@.len(),
        0 <= j < items@.len(),
        call_ensures(NoteEncryptionDomain::<P>::batch_ka_agree_dec, (ivk, epks), secrets),
        call_ensures(NoteEncryptionDomain::<P>::batch_kdf, (items,), symmetric_keys),
    ensures
        secrets@.len() == epks@.len(),
        secrets@[i] is Some <==> epks@[i] is Some,
        epks@[i] is Some ==> secrets@[i]->0@ == pallas::pallas_mul(ivk@, epks@[i]->0@),
        symmetric_keys@.len() == items@.len(),
        symmetric_keys@[j] is Some <==> items@[j].0 is Some,
        items@[j].0 is Some ==> symmetric_keys@[j]->0@ == hash::blake2b(
            seq![
                0x5au8, 0x63, 0x61, 0x73, 0x68, 0x5f, 0x4f, 0x72, 0x63, 0x68, 0x61, 0x72, 0x64,
                0x4b, 0x44, 0x46,
            ],
            items@[j].0->0@ + items@[j].1.0@,
            32,
        ),
{
    assert(note_encryption::is_agreed_lane(ivk@, epks@[i], secrets@[i]));
    assert(note_encryption::is_kdf_lane(items@[j], symmetric_keys@[j]));
    if items@[j].0 is Some {
        outcomes::lemma_symmetric_key(items@[j].0->0@, items@[j].1.0@);
    }
}

// Outputs.

/// The parts of an output that are read from an action are the action's.
pub proof fn outputs_are_their_actions<T>(
    action: &Action<T>,
    partial: &pczt::Action,
    note: &TransmittedNoteCiphertext,
    cmx: &ExtractedNoteCommitment,
    epk: [EphemeralKeyBytes; 2],
    cmstar: [[u8; 32]; 2],
    enc: (&[u8; 580], &[u8; 580]),
)
    requires
        call_ensures(Action::<T>::encrypted_note, (action,), note),
        call_ensures(Action::<T>::cmx, (action,), cmx),
        call_ensures(<Action<T> as ShieldedOutput<580>>::ephemeral_key, (action,), epk[0]),
        call_ensures(<Action<T> as ShieldedOutput<580>>::cmstar_bytes, (action,), cmstar[0]),
        call_ensures(<Action<T> as ShieldedOutput<580>>::enc_ciphertext, (action,), enc.0),
        call_ensures(<pczt::Action as ShieldedOutput<580>>::ephemeral_key, (partial,), epk[1]),
        call_ensures(<pczt::Action as ShieldedOutput<580>>::cmstar_bytes, (partial,), cmstar[1]),
        call_ensures(<pczt::Action as ShieldedOutput<580>>::enc_ciphertext, (partial,), enc.1),
    ensures
        epk[0].0@ == note.epk_bytes@,
        cmstar[0]@ == cmx@,
        enc.0@ == note.enc_ciphertext@,
        epk[1].0@ == partial.output.encrypted_note.epk_bytes@,
        cmstar[1]@ == partial.output.cmx@,
        enc.1@ == partial.output.encrypted_note.enc_ciphertext@,
{
    assert(note@ == action@.encrypted_note);
}

/// A compact action keeps the parts that it is made from, and made from an action it has the
/// action's nullifier, commitment and ephemeral key, and the first fifty-two bytes of its encrypted
/// note plaintext.
pub proof fn compact_actions_keep_their_parts<T>(
    action: &Action<T>,
    nf: &Nullifier,
    cmx: &ExtractedNoteCommitment,
    note: &TransmittedNoteCiphertext,
    compact: CompactAction,
    other_nf: Nullifier,
    other_cmx: ExtractedNoteCommitment,
    other_epk: EphemeralKeyBytes,
    other_enc: [u8; 52],
    made: CompactAction,
    which: CompactAction,
    got_nf: Nullifier,
    got_cmx: ExtractedNoteCommitment,
    got_rho: Rho,
    got_epk: EphemeralKeyBytes,
    got_cmstar: [u8; 32],
    got_enc: &[u8; 52],
)
    requires
        call_ensures(Action::<T>::nullifier, (action,), nf),
        call_ensures(Action::<T>::cmx, (action,), cmx),
        call_ensures(Action::<T>::encrypted_note, (action,), note),
        call_ensures(<CompactAction as From<&Action<T>>>::from, (action,), compact),
        call_ensures(
            CompactAction::from_parts,
            (other_nf, other_cmx, other_epk, other_enc),
            made,
        ),
        which == compact || which == made,
        call_ensures(CompactAction::nullifier, (&which,), got_nf),
        call_ensures(CompactAction::cmx, (&which,), got_cmx),
        call_ensures(CompactAction::rho, (&which,), got_rho),
        call_ensures(<CompactAction as ShieldedOutput<52>>::ephemeral_key, (&which,), got_epk),
        call_ensures(<CompactAction as ShieldedOutput<52>>::cmstar_bytes, (&which,), got_cmstar),
        call_ensures(<CompactAction as ShieldedOutput<52>>::enc_ciphertext, (&which,), got_enc),
    ensures
        got_rho@ == got_nf@,
        got_cmstar@ == got_cmx@,
        which == compact ==> {
            &&& got_nf@ == nf@
            &&& got_cmx@ == cmx@
            &&& got_epk.0@ == note.epk_bytes@
            &&& got_enc@ == note.enc_ciphertext@.subrange(0, 52)
        },
        which == made ==> {
            &&& got_nf@ == other_nf@
            &&& got_cmx@ == other_cmx@
            &&& got_epk.0@ == other_epk.0@
            &&& got_enc@ == other_enc@
        },
{
    assert(note@ == action@.encrypted_note);
}

// Encryption.

/// An encrypted note plaintext is the plaintext sealed, without associated data and under the nonce
/// of zeros, with the hash of what the ephemeral secret key shares with the recipient and of the
/// ephemeral public key. An encrypted outgoing plaintext is the outgoing plaintext sealed with the
/// outgoing cipher key.
pub proof fn ciphertexts_are_sealed_plaintexts<P: DomainPolicy>(
    note: &Note,
    esk: &EphemeralSecretKey,
    memo: &[u8; 512],
    ock: &OutgoingCipherKey,
    plaintext: NotePlaintextBytes,
    op: OutPlaintextBytes,
    epk: EphemeralPublicKey,
    enc: [u8; 580],
    out: [u8; 80],
)
    requires
        call_ensures(NoteEncryptionDomain::<P>::note_plaintext_bytes, (note, memo), plaintext),
        call_ensures(NoteEncryptionDomain::<P>::outgoing_plaintext_bytes, (note, esk), op),
        call_ensures(NoteEncryptionDomain::<P>::ka_derive_public, (note, esk), epk),
        call_ensures(NoteEncryptionDomain::<P>::encrypt_note_plaintext, (note, esk, memo), enc),
        call_ensures(NoteEncryptionDomain::<P>::encrypt_outgoing_plaintext, (ock, note, esk), out),
    ensures
        enc@ == aead::aead_seal(
            hash::blake2b(
                seq![
                    0x5au8, 0x63, 0x61, 0x73, 0x68, 0x5f, 0x4f, 0x72, 0x63, 0x68, 0x61, 0x72, 0x64,
                    0x4b, 0x44, 0x46,
                ],
                pallas::pallas_mul(esk@, note@.recipient.pk_d) + epk@,
                32,
            ),
            bytes::zeros(12),
            Seq::empty(),
            plaintext.0@,
        ),
        out@ == aead::aead_seal(ock.0@, bytes::zeros(12), Seq::empty(), op.0@),
{
    outcomes::lemma_symmetric_key(pallas::pallas_mul(esk@, note@.recipient.pk_d), epk@);
}

/// A sender who encrypted a note with the note's own ephemeral key recovers the memo from the
/// output, by the keys, by the outgoing cipher key and by the outgoing viewing key, in a domain
/// with the note's rho and version.
pub proof fn senders_recover_what_they_encrypted<V: DomainVersion, O: ShieldedOutput<580>>(
    note: &Note,
    esk: EphemeralSecretKey,
    memo: &[u8; 512],
    pk_d: DiversifiedTransmissionKey,
    ovk: &OutgoingViewingKey,
    cv: &ValueCommitment,
    ock: OutgoingCipherKey,
    epk: EphemeralPublicKey,
    enc: [u8; 580],
    out: [u8; 80],
    output: &O,
    output_epk: EphemeralKeyBytes,
    output_cmx: [u8; 32],
    output_enc: &[u8; 580],
    domain: &NoteEncryptionDomain<V>,
    by_keys: Option<[u8; 512]>,
    by_ock: Option<[u8; 512]>,
    by_ovk: Option<[u8; 512]>,
)
    requires
        call_ensures(
            NoteEncryptionDomain::<V>::derive_esk,
            (note,),
            Some::<EphemeralSecretKey>(esk),
        ),
        call_ensures(NoteEncryptionDomain::<V>::get_pk_d, (note,), pk_d),
        call_ensures(NoteEncryptionDomain::<V>::ka_derive_public, (note, &esk), epk),
        call_ensures(NoteEncryptionDomain::<V>::encrypt_note_plaintext, (note, &esk, memo), enc),
        call_ensures(
            NoteEncryptionDomain::<V>::encrypt_outgoing_plaintext,
            (&ock, note, &esk),
            out,
        ),
        call_ensures(O::ephemeral_key, (output,), output_epk),
        call_ensures(O::cmstar_bytes, (output,), output_cmx),
        call_ensures(O::enc_ciphertext, (output,), output_enc),
        call_ensures(
            NoteEncryptionDomain::<V>::derive_ock,
            (ovk, cv, &output_cmx, &output_epk),
            ock,
        ),
        output_epk.0@ == epk@,
        output_enc@ == enc@,
        domain@.rho == note@.rho,
        domain@.accepted == note@.version,
        call_ensures(
            recover_output_bound_with_pkd_esk::<V, O>,
            (domain, pk_d, esk, output, note),
            by_keys,
        ),
        call_ensures(
            recover_output_bound_with_ock::<V, O>,
            (domain, &ock, output, &out, note),
            by_ock,
        ),
        call_ensures(
            recover_output_bound_with_ovk::<V, O>,
            (domain, ovk, output, cv, &out, note),
            by_ovk,
        ),
    ensures
        by_keys is Some && by_keys->0@ == memo@,
        by_ock is Some && by_ock->0@ == memo@,
        by_ovk is Some && by_ovk->0@ == memo@,
{
    let memo_by_keys = note_encryption::recovered_memo(
        domain@,
        note@.recipient.pk_d,
        esk@,
        output.parts(),
        note@,
    );
    assert(memo_by_keys == Some(memo@));
    assert(note_encryption::recovered_memo_with_ock(
        domain@,
        ock.0@,
        output.parts(),
        out@,
        note@,
    ) == memo_by_keys);
}

/// A fake compact action is made exactly where the seed gives an ephemeral secret key other than
/// zero and the V2 note with the given parts has a commitment. It then has the given nullifier, and
/// that note's commitment, ephemeral key and sealed plaintext, with a memo of zeros, and whatever
/// outgoing viewing key is given, it is the same.
pub proof fn fake_actions_are_made_for_their_note(
    rseed: [u8; 32],
    nf: Nullifier,
    recipient: Address,
    value: NoteValue,
    ovk: Option<OutgoingViewingKey>,
    r: Result<(CompactAction, Note), FakeActionError>,
)
    requires
        call_ensures(fake_compact_action, (rseed, nf, recipient, value, ovk), r),
    ensures
        ({
            let n = NoteView {
                recipient: recipient@,
                value: value.raw,
                rho: nf@,
                rseed: rseed@,
                version: NoteVersion::V2,
            };
            let esk = crate::note::esk_of(rseed@, nf@);
            let epk = pallas::pallas_mul(esk, keys::diversify_hash(recipient@.d));
            let key = hash::blake2b(
                seq![
                    0x5au8, 0x63, 0x61, 0x73, 0x68, 0x5f, 0x4f, 0x72, 0x63, 0x68, 0x61, 0x72, 0x64,
                    0x4b, 0x44, 0x46,
                ],
                pallas::pallas_mul(esk, recipient@.pk_d) + epk,
                32,
            );
            let plaintext = seq![0x02u8] + recipient@.d + bytes::le_bytes(value.raw as nat, 8)
                + rseed@ + bytes::zeros(512);
            &&& r is Ok <==> esk != pallas::identity() && n.commitment() is Some
            &&& r is Err ==> (r->Err_0 == FakeActionError::SeedRejected <==> esk
                == pallas::identity())
            &&& r matches Ok((action, note)) ==> {
                &&& note@ == n
                &&& action@.nf == nf@
                &&& action@.cmx == pallas::extract_p(n.commitment()->0)
                &&& action@.epk == epk
                &&& action@.enc == aead::aead_seal(
                    key,
                    bytes::zeros(12),
                    Seq::empty(),
                    plaintext,
                ).subrange(0, 52)
            }
        }),
{
    let esk = crate::note::esk_of(rseed@, nf@);
    let epk = pallas::pallas_mul(esk, keys::diversify_hash(recipient@.d));
    outcomes::lemma_symmetric_key(pallas::pallas_mul(esk, recipient@.pk_d), epk);
    let n = NoteView {
        recipient: recipient@,
        value: value.raw,
        rho: nf@,
        rseed: rseed@,
        version: NoteVersion::V2,
    };
    assert(note_encryption::note_plaintext(n, bytes::zeros(512)) =~= seq![0x02u8] + recipient@.d
        + bytes::le_bytes(value.raw as nat, 8) + rseed@ + bytes::zeros(512));
}

/// Where its tag verifies, a ciphertext opens to its bytes under the mask that a plaintext of zeros
/// is sealed to, byte by byte, and else to nothing. The first bytes of a note's ciphertext are
/// unmasked to the first bytes of what the whole opens to.
pub proof fn opening_takes_off_the_mask(key: Seq<u8>, enc: Seq<u8>, out: Seq<u8>, i: int)
    requires
        enc.len() == 580,
        out.len() == 80,
    ensures
        ({
            let zeros = bytes::zeros(12);
            let mask = aead::aead_seal(key, zeros, Seq::empty(), bytes::zeros(564)).take(564);
            let note = note_encryption::open_note(key, enc);
            let outgoing = note_encryption::open_outgoing(key, out);
            let compact = note_encryption::open_compact(key, enc.subrange(0, 52));
            &&& note is Some <==> aead::aead_verifies(
                key,
                zeros,
                Seq::empty(),
                enc.subrange(0, 564),
                enc.subrange(564, 580),
            )
            &&& outgoing is Some <==> aead::aead_verifies(
                key,
                zeros,
                Seq::empty(),
                out.subrange(0, 64),
                out.subrange(64, 80),
            )
            &&& note is Some ==> note->0.len() == 564 && compact == note->0.subrange(0, 52)
            &&& note is Some && 0 <= i < 564 ==> note->0[i] == enc[i] ^ mask[i]
            &&& outgoing is Some ==> outgoing->0.len() == 64
            &&& outgoing is Some && 0 <= i < 64 ==> outgoing->0[i] == out[i] ^ mask[i]
            &&& compact.len() == 52
            &&& 0 <= i < 52 ==> compact[i] == enc[i] ^ mask[i]
        }),
{
    let compact = note_encryption::open_compact(key, enc.subrange(0, 52));
    let note = note_encryption::open_note(key, enc);
    if note is Some {
        assert(compact =~= note->0.subrange(0, 52));
    }
}

} // verus!
