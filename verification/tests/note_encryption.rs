//! Encryption, trial decryption and recovery of outputs, with the trial decryption of
//! `zcash_note_encryption` run on the library's domains.

use chacha20poly1305::aead::AeadInPlace;
use chacha20poly1305::{ChaCha20Poly1305, KeyInit};
use group::ff::{Field, PrimeField};
use group::{Group, GroupEncoding};
use pasta_curves::pallas;
use rand::rngs::OsRng;
use rand::RngCore;
use subtle::{Choice, ConstantTimeEq};
use zcash_note_encryption::{
    batch, try_compact_note_decryption, try_note_decryption, try_output_recovery_with_ock,
    try_output_recovery_with_ovk, try_output_recovery_with_pkd_esk, BatchDomain, Domain,
    NoteEncryption,
};

use orchard_note_encryption::action::Action;
use orchard_note_encryption::address::Address;
use orchard_note_encryption::keys::{
    DiversifiedTransmissionKey, Diversifier, EphemeralPublicKey, EphemeralSecretKey,
    FullViewingKey, OutgoingViewingKey, PreparedEphemeralPublicKey, PreparedIncomingViewingKey,
    Scope, SharedSecret, VerificationKey,
};
use orchard_note_encryption::note::{
    ExtractedNoteCommitment, Note, NoteVersion, Nullifier, RandomSeed, Rho,
    TransmittedNoteCiphertext,
};
use orchard_note_encryption::note_encryption::testing::fake_compact_action;
use orchard_note_encryption::note_encryption::{
    binds_to_note, ephemeral_key_agrees, plaintext_fields, prf_ock_orchard,
    recover_output_bound_with_ock,
    recover_output_bound_with_ovk, recover_output_bound_with_pkd_esk, BundleDomain, CompactAction,
    DomainPolicy, DomainVersion, EphemeralKeyBytes, IronwoodDomain, IronwoodVersion,
    NoteEncryptionDomain, NotePlaintextBytes, OrchardDomain, OrchardVersion, OutPlaintextBytes,
    OutgoingCipherKey, ShieldedOutput, COMPACT_NOTE_SIZE, ENC_CIPHERTEXT_SIZE,
    NOTE_PLAINTEXT_SIZE, OUT_CIPHERTEXT_SIZE, OUT_PLAINTEXT_SIZE,
};
use orchard_note_encryption::value::{
    NoteValue, ValueCommitTrapdoor, ValueCommitment, ValueSum,
};

// The library's domains as domains of `zcash_note_encryption`.

struct Dom<P>(NoteEncryptionDomain<P>);

#[derive(Clone, Copy)]
struct Esk(EphemeralSecretKey);

impl ConstantTimeEq for Esk {
    fn ct_eq(&self, other: &Self) -> Choice {
        self.0.to_bytes().ct_eq(&other.0.to_bytes())
    }
}

#[derive(PartialEq, Eq)]
struct CmxBytes([u8; 32]);

impl From<&ExtractedNoteCommitment> for CmxBytes {
    fn from(cmx: &ExtractedNoteCommitment) -> Self {
        CmxBytes(cmx.to_bytes())
    }
}

impl<P: DomainPolicy> Domain for Dom<P> {
    type EphemeralSecretKey = Esk;
    type EphemeralPublicKey = EphemeralPublicKey;
    type PreparedEphemeralPublicKey = PreparedEphemeralPublicKey;
    type SharedSecret = SharedSecret;
    type SymmetricKey = [u8; 32];
    type Note = Note;
    type Recipient = Address;
    type DiversifiedTransmissionKey = DiversifiedTransmissionKey;
    type IncomingViewingKey = PreparedIncomingViewingKey;
    type OutgoingViewingKey = OutgoingViewingKey;
    type ValueCommitment = ValueCommitment;
    type ExtractedCommitment = ExtractedNoteCommitment;
    type ExtractedCommitmentBytes = CmxBytes;
    type Memo = [u8; 512];

    fn derive_esk(note: &Note) -> Option<Esk> {
        NoteEncryptionDomain::<P>::derive_esk(note).map(Esk)
    }

    fn get_pk_d(note: &Note) -> DiversifiedTransmissionKey {
        NoteEncryptionDomain::<P>::get_pk_d(note)
    }

    fn prepare_epk(epk: EphemeralPublicKey) -> PreparedEphemeralPublicKey {
        NoteEncryptionDomain::<P>::prepare_epk(epk)
    }

    fn ka_derive_public(note: &Note, esk: &Esk) -> EphemeralPublicKey {
        NoteEncryptionDomain::<P>::ka_derive_public(note, &esk.0)
    }

    fn ka_agree_enc(esk: &Esk, pk_d: &DiversifiedTransmissionKey) -> SharedSecret {
        NoteEncryptionDomain::<P>::ka_agree_enc(&esk.0, pk_d)
    }

    fn ka_agree_dec(
        ivk: &PreparedIncomingViewingKey,
        epk: &PreparedEphemeralPublicKey,
    ) -> SharedSecret {
        NoteEncryptionDomain::<P>::ka_agree_dec(ivk, epk)
    }

    fn kdf(
        secret: SharedSecret,
        ephemeral_key: &zcash_note_encryption::EphemeralKeyBytes,
    ) -> [u8; 32] {
        NoteEncryptionDomain::<P>::kdf(secret, &EphemeralKeyBytes(ephemeral_key.0))
    }

    fn note_plaintext_bytes(
        note: &Note,
        memo: &[u8; 512],
    ) -> zcash_note_encryption::NotePlaintextBytes {
        let np = NoteEncryptionDomain::<P>::note_plaintext_bytes(note, memo);
        zcash_note_encryption::NotePlaintextBytes(np.0)
    }

    fn derive_ock(
        ovk: &OutgoingViewingKey,
        cv: &ValueCommitment,
        cmstar_bytes: &CmxBytes,
        ephemeral_key: &zcash_note_encryption::EphemeralKeyBytes,
    ) -> zcash_note_encryption::OutgoingCipherKey {
        let epk = EphemeralKeyBytes(ephemeral_key.0);
        let ock = NoteEncryptionDomain::<P>::derive_ock(ovk, cv, &cmstar_bytes.0, &epk);
        zcash_note_encryption::OutgoingCipherKey(ock.0)
    }

    fn outgoing_plaintext_bytes(
        note: &Note,
        esk: &Esk,
    ) -> zcash_note_encryption::OutPlaintextBytes {
        let op = NoteEncryptionDomain::<P>::outgoing_plaintext_bytes(note, &esk.0);
        zcash_note_encryption::OutPlaintextBytes(op.0)
    }

    fn epk_bytes(epk: &EphemeralPublicKey) -> zcash_note_encryption::EphemeralKeyBytes {
        zcash_note_encryption::EphemeralKeyBytes(NoteEncryptionDomain::<P>::epk_bytes(epk).0)
    }

    fn epk(ephemeral_key: &zcash_note_encryption::EphemeralKeyBytes) -> Option<EphemeralPublicKey> {
        NoteEncryptionDomain::<P>::epk(&EphemeralKeyBytes(ephemeral_key.0))
    }

    fn cmstar(note: &Note) -> ExtractedNoteCommitment {
        NoteEncryptionDomain::<P>::cmstar(note)
    }

    fn parse_note_plaintext_without_memo_ivk(
        &self,
        ivk: &PreparedIncomingViewingKey,
        plaintext: &[u8],
    ) -> Option<(Note, Address)> {
        self.0.parse_note_plaintext_without_memo_ivk(ivk, plaintext)
    }

    fn parse_note_plaintext_without_memo_ovk(
        &self,
        pk_d: &DiversifiedTransmissionKey,
        plaintext: &zcash_note_encryption::NotePlaintextBytes,
    ) -> Option<(Note, Address)> {
        let np = NotePlaintextBytes(plaintext.0);
        self.0.parse_note_plaintext_without_memo_ovk(pk_d, &np)
    }

    fn extract_memo(&self, plaintext: &zcash_note_encryption::NotePlaintextBytes) -> [u8; 512] {
        self.0.extract_memo(&NotePlaintextBytes(plaintext.0))
    }

    fn extract_pk_d(
        out_plaintext: &zcash_note_encryption::OutPlaintextBytes,
    ) -> Option<DiversifiedTransmissionKey> {
        NoteEncryptionDomain::<P>::extract_pk_d(&OutPlaintextBytes(out_plaintext.0))
    }

    fn extract_esk(out_plaintext: &zcash_note_encryption::OutPlaintextBytes) -> Option<Esk> {
        NoteEncryptionDomain::<P>::extract_esk(&OutPlaintextBytes(out_plaintext.0)).map(Esk)
    }
}

impl<P: DomainPolicy> BatchDomain for Dom<P> {
    fn batch_kdf<'a>(
        items: impl Iterator<
            Item = (Option<SharedSecret>, &'a zcash_note_encryption::EphemeralKeyBytes),
        >,
    ) -> Vec<Option<[u8; 32]>> {
        let items: Vec<(Option<SharedSecret>, EphemeralKeyBytes)> =
            items.map(|(secret, epk)| (secret, EphemeralKeyBytes(epk.0))).collect();
        NoteEncryptionDomain::<P>::batch_kdf(&items)
    }

    fn batch_epk(
        ephemeral_keys: impl Iterator<Item = zcash_note_encryption::EphemeralKeyBytes>,
    ) -> Vec<(Option<PreparedEphemeralPublicKey>, zcash_note_encryption::EphemeralKeyBytes)> {
        let keys: Vec<EphemeralKeyBytes> =
            ephemeral_keys.map(|key| EphemeralKeyBytes(key.0)).collect();
        NoteEncryptionDomain::<P>::batch_epk(&keys)
            .into_iter()
            .map(|(epk, key)| (epk, zcash_note_encryption::EphemeralKeyBytes(key.0)))
            .collect()
    }

    fn batch_ka_agree_dec<'a>(
        ivk: &PreparedIncomingViewingKey,
        epks: impl Iterator<Item = Option<&'a PreparedEphemeralPublicKey>>,
    ) -> Vec<Option<SharedSecret>>
    where
        PreparedEphemeralPublicKey: 'a,
    {
        let epks: Vec<Option<PreparedEphemeralPublicKey>> = epks.map(|epk| epk.copied()).collect();
        NoteEncryptionDomain::<P>::batch_ka_agree_dec(ivk, &epks)
    }
}

#[derive(Clone)]
struct Full(Action<()>);

impl<P: DomainPolicy> zcash_note_encryption::ShieldedOutput<Dom<P>, 580> for Full {
    fn ephemeral_key(&self) -> zcash_note_encryption::EphemeralKeyBytes {
        zcash_note_encryption::EphemeralKeyBytes(self.0.ephemeral_key().0)
    }

    fn cmstar_bytes(&self) -> CmxBytes {
        CmxBytes(self.0.cmstar_bytes())
    }

    fn enc_ciphertext(&self) -> &[u8; 580] {
        self.0.enc_ciphertext()
    }
}

#[derive(Clone)]
struct Compact(CompactAction);

impl<P: DomainPolicy> zcash_note_encryption::ShieldedOutput<Dom<P>, 52> for Compact {
    fn ephemeral_key(&self) -> zcash_note_encryption::EphemeralKeyBytes {
        zcash_note_encryption::EphemeralKeyBytes(self.0.ephemeral_key().0)
    }

    fn cmstar_bytes(&self) -> CmxBytes {
        CmxBytes(self.0.cmstar_bytes())
    }

    fn enc_ciphertext(&self) -> &[u8; 52] {
        self.0.enc_ciphertext()
    }
}

// Random keys, notes and outputs.

fn random_point() -> [u8; 32] {
    (pallas::Point::generator() * pallas::Scalar::random(OsRng)).to_bytes()
}

fn random_fvk() -> FullViewingKey {
    let mut bytes = [0u8; 96];
    bytes[..32].copy_from_slice(&random_point());
    bytes[31] &= 0x7f;
    bytes[32..64].copy_from_slice(&pallas::Base::random(OsRng).to_repr());
    bytes[64..].copy_from_slice(&pallas::Scalar::random(OsRng).to_repr());
    FullViewingKey::from_bytes(&bytes).unwrap()
}

fn random_ovk() -> OutgoingViewingKey {
    let mut bytes = [0u8; 32];
    OsRng.fill_bytes(&mut bytes);
    OutgoingViewingKey::from_bytes(bytes)
}

fn address_at(fvk: &FullViewingKey, index: u32, scope: Scope) -> Address {
    let mut d = [0u8; 11];
    d[..4].copy_from_slice(&index.to_le_bytes());
    fvk.to_ivk(scope).address(Diversifier::from_bytes(d)).unwrap()
}

fn dummy_nullifier() -> Nullifier {
    Nullifier::from_bytes(&pallas::Base::random(OsRng).to_repr()).unwrap()
}

fn dummy_verification_key() -> VerificationKey {
    VerificationKey::from_bytes(&random_point()).unwrap()
}

fn random_seed(rho: &Rho) -> RandomSeed {
    let mut bytes = [0u8; 32];
    OsRng.fill_bytes(&mut bytes);
    RandomSeed::from_bytes(bytes, rho).unwrap()
}

fn new_note(recipient: Address, value: NoteValue, rho: Rho, version: NoteVersion) -> Note {
    Note::from_parts(recipient, value, rho, random_seed(&rho), version).unwrap()
}

fn zero_trapdoor() -> ValueCommitTrapdoor {
    ValueCommitTrapdoor::from_bytes(&[0u8; 32]).unwrap()
}

fn cmx_of(note: &Note) -> ExtractedNoteCommitment {
    ExtractedNoteCommitment::from_commitment(&note.commitment())
}

fn v3_encrypted_action() -> (Full, PreparedIncomingViewingKey, Note, Address, [u8; 512]) {
    let fvk = random_fvk();
    let ivk = fvk.to_ivk(Scope::External);
    let recipient = address_at(&fvk, 0, Scope::External);
    let nf_old = dummy_nullifier();
    let rho = Rho::from_nf_old(nf_old);
    let note = new_note(recipient, NoteValue::from_raw(5), rho, NoteVersion::V3);
    let memo = [7u8; 512];
    let cv_net = ValueCommitment::derive(ValueSum { raw: 5 }, &zero_trapdoor());
    let cmx = cmx_of(&note);
    let encryptor = NoteEncryption::<Dom<IronwoodVersion>>::new(Some(random_ovk()), note, memo);
    let encrypted_note = TransmittedNoteCiphertext {
        epk_bytes: IronwoodDomain::epk_bytes(encryptor.epk()).0,
        enc_ciphertext: encryptor.encrypt_note_plaintext(),
        out_ciphertext: encryptor.encrypt_outgoing_plaintext(&cv_net, &cmx, &mut OsRng),
    };
    let action =
        Action::from_parts(nf_old, dummy_verification_key(), cmx, encrypted_note, cv_net, ())
            .expect("a random verification key is unlikely to be the identity");
    (Full(action), ivk, note, recipient, memo)
}

#[test]
fn domains_accept_only_their_note_plaintext_versions() {
    let fvk = random_fvk();
    let recipient = address_at(&fvk, 0, Scope::External);
    let rho = Rho::from_nf_old(dummy_nullifier());
    let memo = [0u8; 512];

    let note_v2 = new_note(recipient, NoteValue::from_raw(5), rho, NoteVersion::V2);
    let note_v3 = new_note(recipient, NoteValue::from_raw(5), rho, NoteVersion::V3);
    let orchard_domain = OrchardDomain::from_rho(rho);
    let ironwood_domain = IronwoodDomain::from_rho(rho);

    let np_v2 = OrchardDomain::note_plaintext_bytes(&note_v2, &memo);
    let np_v3 = IronwoodDomain::note_plaintext_bytes(&note_v3, &memo);
    let pk_d = recipient.pk_d();

    assert_eq!(
        orchard_domain
            .parse_note_plaintext_without_memo_ovk(pk_d, &np_v2)
            .map(|(note, _)| note),
        Some(note_v2)
    );
    assert_eq!(
        ironwood_domain
            .parse_note_plaintext_without_memo_ovk(pk_d, &np_v3)
            .map(|(note, _)| note),
        Some(note_v3)
    );
    assert!(orchard_domain
        .parse_note_plaintext_without_memo_ovk(pk_d, &np_v3)
        .is_none());
    assert!(ironwood_domain
        .parse_note_plaintext_without_memo_ovk(pk_d, &np_v2)
        .is_none());
}

#[test]
fn ironwood_domain_decrypts_v3_encrypted_outputs() {
    let (action, ivk, note, recipient, memo) = v3_encrypted_action();
    let domain = Dom(IronwoodDomain::for_action(&action.0));

    assert_eq!(try_note_decryption(&domain, &ivk, &action), Some((note, recipient, memo)));
}

#[test]
fn orchard_domain_rejects_v3_encrypted_outputs() {
    let (action, ivk, _, _, _) = v3_encrypted_action();
    let domain = Dom(OrchardDomain::for_action(&action.0));

    assert!(try_note_decryption(&domain, &ivk, &action).is_none());
}

#[test]
fn ironwood_domain_decrypts_v3_compact_outputs() {
    let (action, ivk, note, recipient, _) = v3_encrypted_action();
    let domain = Dom(IronwoodDomain::for_action(&action.0));
    let compact = Compact(CompactAction::from(&action.0));

    assert_eq!(try_compact_note_decryption(&domain, &ivk, &compact), Some((note, recipient)));
}

struct FullAction {
    fvk: FullViewingKey,
    action: Full,
    note: Note,
    recipient: Address,
    memo: [u8; 512],
    ovk: OutgoingViewingKey,
    cv_net: ValueCommitment,
    out_ct: [u8; 80],
    epk: EphemeralKeyBytes,
    ock: OutgoingCipherKey,
}

fn full_v3_action() -> FullAction {
    let fvk = random_fvk();
    let ovk = random_ovk();
    let recipient = address_at(&fvk, 0, Scope::External);
    let nf_old = dummy_nullifier();
    let rho = Rho::from_nf_old(nf_old);
    let note = new_note(recipient, NoteValue::from_raw(5), rho, NoteVersion::V3);
    let memo = [0u8; 512];
    let cv_net = ValueCommitment::derive(ValueSum { raw: 5 }, &zero_trapdoor());
    let cmx = cmx_of(&note);
    let encryptor = NoteEncryption::<Dom<IronwoodVersion>>::new(Some(ovk), note, memo);
    let epk = IronwoodDomain::epk_bytes(encryptor.epk());
    let enc_ct = encryptor.encrypt_note_plaintext();
    let out_ct = encryptor.encrypt_outgoing_plaintext(&cv_net, &cmx, &mut OsRng);
    let encrypted_note = TransmittedNoteCiphertext {
        epk_bytes: epk.0,
        enc_ciphertext: enc_ct,
        out_ciphertext: out_ct,
    };
    let action =
        Action::from_parts(nf_old, dummy_verification_key(), cmx, encrypted_note, cv_net, ())
            .unwrap();
    let ock = prf_ock_orchard(&ovk, &cv_net, &cmx.to_bytes(), &epk);
    FullAction {
        fvk,
        action: Full(action),
        note,
        recipient,
        memo,
        ovk,
        cv_net,
        out_ct,
        epk,
        ock,
    }
}

#[test]
fn all_recovery_paths_accept() {
    let fa = full_v3_action();
    let action = &fa.action.0;
    let rho = Rho::from_nf_old(*action.nullifier());
    let (note, cm) = Note::from_parts_with_commitment(
        fa.recipient,
        fa.note.value(),
        rho,
        *fa.note.rseed(),
        NoteVersion::V3,
    )
    .unwrap();
    assert_eq!(ExtractedNoteCommitment::from_commitment(&cm), *action.cmx());

    let domain = IronwoodDomain::for_action(action);
    let pk_d = IronwoodDomain::get_pk_d(&fa.note);
    let esk = IronwoodDomain::derive_esk(&fa.note).unwrap();
    let by_keys = recover_output_bound_with_pkd_esk(&domain, pk_d, esk, action, &note);
    let by_ock = recover_output_bound_with_ock(&domain, &fa.ock, action, &fa.out_ct, &note);
    let by_ovk =
        recover_output_bound_with_ovk(&domain, &fa.ovk, action, &fa.cv_net, &fa.out_ct, &note);
    assert_eq!(by_keys, Some(fa.memo));
    assert_eq!(by_ock, Some(fa.memo));
    assert_eq!(by_ovk, Some(fa.memo));
}

#[test]
fn deduped_recovery_accepts_valid_and_matches_upstream() {
    let fa = full_v3_action();
    let domain = IronwoodDomain::for_action(&fa.action.0);

    let memo = recover_output_bound_with_ovk(
        &domain, &fa.ovk, &fa.action.0, &fa.cv_net, &fa.out_ct, &fa.note,
    );
    assert_eq!(memo, Some(fa.memo));

    // The recovery that computes the commitment anew agrees.
    let upstream = try_output_recovery_with_ovk(
        &Dom(domain), &fa.ovk, &fa.action, &fa.cv_net, &fa.out_ct,
    );
    let (u_note, u_to, u_memo) = upstream.expect("stock recovery accepts valid action");
    assert_eq!(u_note, fa.note);
    assert_eq!(u_to, fa.recipient);
    assert_eq!(u_memo, fa.memo);
}

#[test]
fn every_upstream_recovery_agrees() {
    let fa = full_v3_action();
    let domain = Dom(IronwoodDomain::for_action(&fa.action.0));
    let pk_d = IronwoodDomain::get_pk_d(&fa.note);
    let esk = Esk(IronwoodDomain::derive_esk(&fa.note).unwrap());
    let expected = Some((fa.note, fa.recipient, fa.memo));
    assert_eq!(try_output_recovery_with_pkd_esk(&domain, pk_d, esk, &fa.action), expected);
    let ock = zcash_note_encryption::OutgoingCipherKey(fa.ock.0);
    assert_eq!(try_output_recovery_with_ock(&domain, &ock, &fa.action, &fa.out_ct), expected);
}

#[test]
fn deduped_recovery_rejects_tampered_ciphertext() {
    let mut fa = full_v3_action();
    let domain = IronwoodDomain::for_action(&fa.action.0);
    let pk_d = IronwoodDomain::get_pk_d(&fa.note);
    let esk = IronwoodDomain::derive_esk(&fa.note).unwrap();

    // Flip a byte in the note ciphertext -> AEAD authentication fails.
    let mut tampered = fa.action.0.encrypted_note().clone();
    tampered.enc_ciphertext[0] ^= 0x01;
    fa.action = Full(
        Action::from_parts(
            *fa.action.0.nullifier(),
            dummy_verification_key(),
            *fa.action.0.cmx(),
            tampered,
            fa.cv_net.clone(),
            (),
        )
        .unwrap(),
    );

    let out = recover_output_bound_with_pkd_esk(&domain, pk_d, esk, &fa.action.0, &fa.note);
    assert_eq!(out, None, "tampered ciphertext must be rejected");
}

#[test]
fn tampered_outgoing_ciphertext_is_rejected() {
    let fa = full_v3_action();
    let domain = IronwoodDomain::for_action(&fa.action.0);
    let mut out_ct = fa.out_ct;
    out_ct[79] ^= 0x01;
    let by_ock = recover_output_bound_with_ock(&domain, &fa.ock, &fa.action.0, &out_ct, &fa.note);
    assert_eq!(by_ock, None);

    let other = random_ovk();
    let by_ovk = recover_output_bound_with_ovk(
        &domain, &other, &fa.action.0, &fa.cv_net, &fa.out_ct, &fa.note,
    );
    assert_eq!(by_ovk, None);
}

#[test]
fn deduped_recovery_rejects_wrong_expected_note_fields() {
    let fa = full_v3_action();
    let domain = IronwoodDomain::for_action(&fa.action.0);

    // Bind against a note with a DIFFERENT value than the ciphertext encodes. The plaintext
    // decrypts fine, but the field comparison must reject it.
    let rho = Rho::from_nf_old(*fa.action.0.nullifier());
    let wrong_note = Note::from_parts(
        fa.recipient,
        NoteValue::from_raw(999),
        rho,
        fa.note.rseed().clone(),
        NoteVersion::V3,
    )
    .unwrap();

    let out = recover_output_bound_with_ovk(
        &domain,
        &fa.ovk,
        &fa.action.0,
        &fa.cv_net,
        &fa.out_ct,
        &wrong_note,
    );
    assert_eq!(out, None, "recovery bound to a mismatched note must be rejected");
}

#[test]
fn recovery_rejects_every_other_field() {
    let fa = full_v3_action();
    let domain = IronwoodDomain::for_action(&fa.action.0);
    let rho = fa.note.rho();
    let value = fa.note.value();
    let rseed = *fa.note.rseed();
    let other_diversifier = address_at(&fa.fvk, 1, Scope::External);
    let other_key = Address::from_parts(
        fa.recipient.diversifier(),
        *address_at(&random_fvk(), 0, Scope::External).pk_d(),
    );
    let others = [
        Note::from_parts(other_diversifier, value, rho, rseed, NoteVersion::V3).unwrap(),
        Note::from_parts(other_key, value, rho, rseed, NoteVersion::V3).unwrap(),
        Note::from_parts(fa.recipient, value, rho, random_seed(&rho), NoteVersion::V3).unwrap(),
        Note::from_parts(fa.recipient, value, rho, rseed, NoteVersion::V2).unwrap(),
    ];
    for other in others {
        let out = recover_output_bound_with_ock(
            &domain, &fa.ock, &fa.action.0, &fa.out_ct, &other,
        );
        assert_eq!(out, None);
    }
}

#[test]
fn recovery_rejects_other_keys() {
    let fa = full_v3_action();
    let domain = IronwoodDomain::for_action(&fa.action.0);
    let pk_d = IronwoodDomain::get_pk_d(&fa.note);
    let esk = IronwoodDomain::derive_esk(&fa.note).unwrap();
    let other_esk =
        EphemeralSecretKey::from_bytes(&pallas::Scalar::random(OsRng).to_repr()).unwrap();
    let other_pk_d = *address_at(&random_fvk(), 0, Scope::External).pk_d();
    let action = &fa.action.0;
    let out = recover_output_bound_with_pkd_esk(&domain, pk_d, other_esk, action, &fa.note);
    assert_eq!(out, None);
    let out = recover_output_bound_with_pkd_esk(&domain, other_pk_d, esk, action, &fa.note);
    assert_eq!(out, None);
}

#[test]
fn recovery_rejects_an_ephemeral_key_that_the_note_does_not_give() {
    // The sender encrypts under a key pair that does not come from the note.
    let fa = full_v3_action();
    let esk = EphemeralSecretKey::from_bytes(&pallas::Scalar::random(OsRng).to_repr()).unwrap();
    let epk = IronwoodDomain::epk_bytes(&IronwoodDomain::ka_derive_public(&fa.note, &esk));
    let encrypted_note = TransmittedNoteCiphertext {
        epk_bytes: epk.0,
        enc_ciphertext: IronwoodDomain::encrypt_note_plaintext(&fa.note, &esk, &fa.memo),
        out_ciphertext: fa.out_ct,
    };
    let action = Action::from_parts(
        *fa.action.0.nullifier(),
        dummy_verification_key(),
        *fa.action.0.cmx(),
        encrypted_note,
        fa.cv_net,
        (),
    )
    .unwrap();
    let domain = IronwoodDomain::for_action(&action);
    let pk_d = IronwoodDomain::get_pk_d(&fa.note);
    let out = recover_output_bound_with_pkd_esk(&domain, pk_d, esk, &action, &fa.note);
    assert_eq!(out, None);
}

#[test]
fn deduped_verify_note_commitment_rejects_wrong_cmx() {
    let fa = full_v3_action();
    let rho = Rho::from_nf_old(*fa.action.0.nullifier());
    let (_note, cm) = Note::from_parts_with_commitment(
        fa.recipient,
        fa.note.value(),
        rho,
        fa.note.rseed().clone(),
        NoteVersion::V3,
    )
    .unwrap();
    let cmx = ExtractedNoteCommitment::from_commitment(&cm);

    // Correct action cmx accepts.
    assert_eq!(cmx, *fa.action.0.cmx());

    // A different cmx (simulating a tampered action) is rejected.
    let wrong_note = new_note(fa.recipient, NoteValue::from_raw(7), rho, NoteVersion::V3);
    let wrong_cmx = cmx_of(&wrong_note);
    assert_ne!(cmx, wrong_cmx, "tampered cmx must not match");
}

#[test]
fn deduped_recovery_rejects_wrong_rho_domain() {
    // `rho` is the single commitment input that is not present in the plaintext: a note whose rho
    // differs from the domain's is rejected though every field of the plaintext matches.
    let fa = full_v3_action();
    let domain = IronwoodDomain::for_action(&fa.action.0);
    let pk_d = IronwoodDomain::get_pk_d(&fa.note);
    let esk = IronwoodDomain::derive_esk(&fa.note).unwrap();

    let other_rho = Rho::from_nf_old(dummy_nullifier());
    let wrong_rho_note = Note::from_parts(
        fa.recipient,
        fa.note.value(),
        other_rho,
        fa.note.rseed().clone(),
        NoteVersion::V3,
    )
    .unwrap();
    assert_ne!(domain.rho(), wrong_rho_note.rho());

    let out =
        recover_output_bound_with_pkd_esk(&domain, pk_d, esk, &fa.action.0, &wrong_rho_note);
    assert_eq!(out, None, "recovery must reject a note whose rho != domain.rho");
}

#[test]
fn deduped_recovery_rejects_wrong_domain_version_policy() {
    // The accepted version is a property of the domain, not of the expected note.
    let fa = full_v3_action();
    let orchard_domain = OrchardDomain::for_action(&fa.action.0);
    let pk_d = IronwoodDomain::get_pk_d(&fa.note);
    let esk = IronwoodDomain::derive_esk(&fa.note).unwrap();

    let out =
        recover_output_bound_with_pkd_esk(&orchard_domain, pk_d, esk, &fa.action.0, &fa.note);
    assert_eq!(out, None, "V2 domain policy must reject a V3 note plaintext (lead byte 0x03)");
}

/// Encrypts a compact output of the domain's note plaintext version to `recipient`, using a fresh
/// ephemeral key.
fn encrypted_compact_action<V: DomainVersion>(recipient: Address) -> CompactAction {
    let nf_old = dummy_nullifier();
    let rho = Rho::from_nf_old(nf_old);
    let note = new_note(recipient, NoteValue::from_raw(42), rho, V::NOTE_VERSION);
    let encryptor = NoteEncryption::<Dom<V>>::new(None, note, [0u8; 512]);
    let ephemeral_key = NoteEncryptionDomain::<V>::epk_bytes(encryptor.epk());
    let enc_ciphertext = encryptor.encrypt_note_plaintext();
    CompactAction::from_parts(
        nf_old,
        cmx_of(&note),
        ephemeral_key,
        enc_ciphertext.as_ref()[..52].try_into().unwrap(),
    )
}

/// The batched trial-decryption pipeline must produce exactly the per-item results, over hits on
/// multiple viewing keys, misses, and an undecodable ephemeral key.
fn check_batched_compact_decryption_matches_per_item<V: DomainVersion>() {
    // Two accounts with external and internal scope each, plus a foreign account whose outputs must
    // not decrypt.
    let our_fvk = random_fvk();
    let other_fvk = random_fvk();
    let foreign_fvk = random_fvk();
    let ivks: Vec<PreparedIncomingViewingKey> = [
        (&our_fvk, Scope::External),
        (&our_fvk, Scope::Internal),
        (&other_fvk, Scope::External),
        (&other_fvk, Scope::Internal),
    ]
    .into_iter()
    .map(|(fvk, scope)| fvk.to_ivk(scope))
    .collect();

    let mut actions = vec![
        encrypted_compact_action::<V>(address_at(&our_fvk, 0u32, Scope::External)),
        encrypted_compact_action::<V>(address_at(&our_fvk, 0u32, Scope::Internal)),
        encrypted_compact_action::<V>(address_at(&other_fvk, 0u32, Scope::External)),
    ];
    for i in 0..5u32 {
        actions.push(encrypted_compact_action::<V>(address_at(&foreign_fvk, i, Scope::External)));
    }
    // An ephemeral key that decodes to the identity is rejected during preparation; its lane must
    // pass through as `None`.
    actions.push(CompactAction::from_parts(
        dummy_nullifier(),
        actions[0].cmx(),
        EphemeralKeyBytes([0u8; 32]),
        [0u8; 52],
    ));

    let items: Vec<(Dom<V>, Compact)> = actions
        .iter()
        .map(|a| (Dom(NoteEncryptionDomain::<V>::for_compact_action(a)), Compact(a.clone())))
        .collect();
    let batched = batch::try_compact_note_decryption(&ivks, &items);

    let per_item: Vec<Option<((Note, Address), usize)>> = actions
        .iter()
        .map(|a| {
            let domain = Dom(NoteEncryptionDomain::<V>::for_compact_action(a));
            ivks.iter().enumerate().find_map(|(i, ivk)| {
                try_compact_note_decryption(&domain, ivk, &Compact(a.clone())).map(|r| (r, i))
            })
        })
        .collect();

    assert_eq!(batched, per_item);

    // The interesting lanes actually decrypted (guards against both paths failing identically).
    assert_eq!(batched[0].as_ref().map(|(_, i)| *i), Some(0));
    assert_eq!(batched[1].as_ref().map(|(_, i)| *i), Some(1));
    assert_eq!(batched[2].as_ref().map(|(_, i)| *i), Some(2));
    assert!(batched[3..].iter().all(Option::is_none));
}

#[test]
fn batched_compact_decryption_matches_per_item_orchard() {
    check_batched_compact_decryption_matches_per_item::<OrchardVersion>();
}

#[test]
fn batched_compact_decryption_matches_per_item_ironwood() {
    check_batched_compact_decryption_matches_per_item::<IronwoodVersion>();
}

/// The batched agreement must produce byte-identical shared secrets to the per-item path, for keys
/// that were prepared together and one by one, on hit and miss lanes alike.
#[test]
fn batched_agreement_matches_per_item() {
    let our_fvk = random_fvk();
    let foreign_fvk = random_fvk();
    let ivks: Vec<PreparedIncomingViewingKey> = [
        (&our_fvk, Scope::External),
        (&our_fvk, Scope::Internal),
        (&foreign_fvk, Scope::External),
    ]
    .into_iter()
    .map(|(fvk, scope)| fvk.to_ivk(scope))
    .collect();

    // Real ephemeral keys from real encryptions, plus an undecodable lane.
    let mut keys: Vec<EphemeralKeyBytes> = (0..12u32)
        .map(|i| {
            encrypted_compact_action::<OrchardVersion>(address_at(&our_fvk, i, Scope::External))
                .ephemeral_key()
        })
        .collect();
    keys.push(EphemeralKeyBytes([0u8; 32]));

    let batch_prepared = OrchardDomain::batch_epk(&keys);
    // The undecodable lane passes through preparation as `None`.
    assert!(batch_prepared.last().unwrap().0.is_none());
    assert!(batch_prepared[..12].iter().all(|(p, _)| p.is_some()));

    let single_prepared: Vec<Option<PreparedEphemeralPublicKey>> = keys
        .iter()
        .map(|key| OrchardDomain::epk(key).map(OrchardDomain::prepare_epk))
        .collect();

    for ivk in &ivks {
        let expected: Vec<Option<[u8; 32]>> = keys
            .iter()
            .map(|key| {
                OrchardDomain::epk(key)
                    .map(OrchardDomain::prepare_epk)
                    .map(|epk| OrchardDomain::ka_agree_dec(ivk, &epk).to_bytes())
            })
            .collect();

        let batched: Vec<Option<[u8; 32]>> = <Dom<OrchardVersion> as BatchDomain>::batch_ka_agree_dec(
            ivk,
            batch_prepared.iter().map(|(p, _)| p.as_ref()),
        )
        .into_iter()
        .map(|s| s.map(|s| s.to_bytes()))
        .collect();
        assert_eq!(batched, expected);

        let batched_single: Vec<Option<[u8; 32]>> =
            <Dom<OrchardVersion> as BatchDomain>::batch_ka_agree_dec(
                ivk,
                single_prepared.iter().map(|p| p.as_ref()),
            )
            .into_iter()
            .map(|s| s.map(|s| s.to_bytes()))
            .collect();
        assert_eq!(batched_single, expected);
    }
}

#[test]
fn batched_keys_match_per_item() {
    let fvk = random_fvk();
    let ivk = fvk.to_ivk(Scope::External);
    let a = encrypted_compact_action::<OrchardVersion>(address_at(&fvk, 0, Scope::External));
    let epk = OrchardDomain::prepare_epk(OrchardDomain::epk(&a.ephemeral_key()).unwrap());
    let secret = OrchardDomain::ka_agree_dec(&ivk, &epk);
    let items = vec![(None, a.ephemeral_key()), (Some(secret), a.ephemeral_key())];
    let keys = OrchardDomain::batch_kdf(&items);
    assert_eq!(keys, vec![None, Some(OrchardDomain::kdf(secret, &a.ephemeral_key()))]);
}

#[test]
fn encryption_is_that_of_the_encryption_context() {
    let fvk = random_fvk();
    let ovk = random_ovk();
    let recipient = address_at(&fvk, 3, Scope::Internal);
    let rho = Rho::from_nf_old(dummy_nullifier());
    let note = new_note(recipient, NoteValue::from_raw(u64::MAX), rho, NoteVersion::V2);
    let memo = [9u8; 512];
    let cv_net = ValueCommitment::derive(ValueSum { raw: -5 }, &zero_trapdoor());
    let cmx = cmx_of(&note);
    let esk = EphemeralSecretKey::from_bytes(&pallas::Scalar::random(OsRng).to_repr()).unwrap();
    let ne = NoteEncryption::<Dom<OrchardVersion>>::new_with_esk(Esk(esk), Some(ovk), note, memo);
    let epk = OrchardDomain::epk_bytes(ne.epk());
    assert_eq!(
        ne.encrypt_note_plaintext(),
        OrchardDomain::encrypt_note_plaintext(&note, &esk, &memo)
    );
    let ock = OrchardDomain::derive_ock(&ovk, &cv_net, &cmx.to_bytes(), &epk);
    assert_eq!(
        ne.encrypt_outgoing_plaintext(&cv_net, &cmx, &mut OsRng),
        OrchardDomain::encrypt_outgoing_plaintext(&ock, &note, &esk)
    );
    // The version is the note's, whatever the domain accepts.
    assert_eq!(IronwoodDomain::note_plaintext_bytes(&note, &memo).0[0], 0x02);
}

#[test]
fn sender_and_recipient_share_a_secret() {
    let fvk = random_fvk();
    let recipient = address_at(&fvk, 8, Scope::External);
    let rho = Rho::from_nf_old(dummy_nullifier());
    let note = new_note(recipient, NoteValue::from_raw(1), rho, NoteVersion::V2);
    let esk = OrchardDomain::derive_esk(&note).unwrap();
    let epk = OrchardDomain::ka_derive_public(&note, &esk);
    let sent = OrchardDomain::ka_agree_enc(&esk, recipient.pk_d());
    let received = OrchardDomain::ka_agree_dec(
        &fvk.to_ivk(Scope::External),
        &OrchardDomain::prepare_epk(epk),
    );
    assert_eq!(sent.to_bytes(), received.to_bytes());
}

#[test]
fn note_plaintext_layout() {
    let fvk = random_fvk();
    let recipient = address_at(&fvk, 0x0102_0304, Scope::External);
    let rho = Rho::from_nf_old(dummy_nullifier());
    let note = new_note(recipient, NoteValue::from_raw(0x0102), rho, NoteVersion::V3);
    let mut memo = [0u8; 512];
    memo[0] = 0xf6;
    memo[511] = 0x11;
    let np = OrchardDomain::note_plaintext_bytes(&note, &memo);
    assert_eq!(np.0[0], 0x03);
    assert_eq!(np.0[1..12], [4, 3, 2, 1, 0, 0, 0, 0, 0, 0, 0]);
    assert_eq!(np.0[12..20], [2, 1, 0, 0, 0, 0, 0, 0]);
    assert_eq!(np.0[20..52], note.rseed().as_bytes()[..]);
    assert_eq!(np.0[52..], memo[..]);

    let domain = IronwoodDomain::from_rho(rho);
    assert_eq!(domain.extract_memo(&np), memo);
    let ivk = fvk.to_ivk(Scope::External);
    let by_ivk = domain.parse_note_plaintext_without_memo_ivk(&ivk, &np.0[..52]).unwrap();
    assert_eq!(by_ivk, (note, recipient));
    assert_eq!(by_ivk.0.rseed(), note.rseed());
    assert_eq!(by_ivk.0.version(), NoteVersion::V3);
    assert_eq!(by_ivk.0.value().inner(), 0x0102);
    // A plaintext of another version is refused however short it is.
    assert!(domain.parse_note_plaintext_without_memo_ivk(&ivk, &[0x02]).is_none());
    assert!(domain.parse_note_plaintext_without_memo_ivk(&ivk, &[]).is_none());
}

#[test]
fn outgoing_plaintext_layout() {
    let fvk = random_fvk();
    let recipient = address_at(&fvk, 0, Scope::External);
    let rho = Rho::from_nf_old(dummy_nullifier());
    let note = new_note(recipient, NoteValue::from_raw(3), rho, NoteVersion::V2);
    let esk = OrchardDomain::derive_esk(&note).unwrap();
    let op = OrchardDomain::outgoing_plaintext_bytes(&note, &esk);
    assert_eq!(op.0[..32], recipient.pk_d().to_bytes());
    assert_eq!(op.0[32..], esk.to_bytes());
    assert_eq!(OrchardDomain::extract_pk_d(&op), Some(*recipient.pk_d()));
    assert_eq!(OrchardDomain::extract_esk(&op).map(|esk| esk.to_bytes()), Some(esk.to_bytes()));

    assert!(OrchardDomain::extract_pk_d(&OutPlaintextBytes([0; 64])).is_none());
    assert!(OrchardDomain::extract_esk(&OutPlaintextBytes([0; 64])).is_none());
    assert!(OrchardDomain::extract_pk_d(&OutPlaintextBytes([0xff; 64])).is_none());
    assert!(OrchardDomain::extract_esk(&OutPlaintextBytes([0xff; 64])).is_none());
}

#[test]
fn keys_are_hashes() {
    let fa = full_v3_action();
    let mut input = fa.ovk.as_bytes().to_vec();
    input.extend_from_slice(&fa.cv_net.to_bytes());
    input.extend_from_slice(&fa.action.0.cmx().to_bytes());
    input.extend_from_slice(&fa.epk.0);
    let ock = blake2b_simd::Params::new()
        .hash_length(32)
        .personal(b"Zcash_Orchardock")
        .hash(&input);
    assert_eq!(fa.ock.0, ock.as_bytes());

    let esk = IronwoodDomain::derive_esk(&fa.note).unwrap();
    let secret = IronwoodDomain::ka_agree_enc(&esk, fa.recipient.pk_d());
    let mut input = secret.to_bytes().to_vec();
    input.extend_from_slice(&fa.epk.0);
    let key = blake2b_simd::Params::new()
        .hash_length(32)
        .personal(b"Zcash_OrchardKDF")
        .hash(&input);
    assert_eq!(&IronwoodDomain::kdf(secret, &fa.epk)[..], key.as_bytes());
}

#[test]
fn bundle_domain_accepts_the_version_it_is_given() {
    let (action, ivk, note, recipient, memo) = v3_encrypted_action();
    let v3 = Dom(BundleDomain::for_action(&action.0, NoteVersion::V3));
    let v2 = Dom(BundleDomain::for_action(&action.0, NoteVersion::V2));
    assert_eq!(try_note_decryption(&v3, &ivk, &action), Some((note, recipient, memo)));
    assert_eq!(try_note_decryption(&v2, &ivk, &action), None);
    let np = NotePlaintextBytes([0x04; 564]);
    assert!(v3.0.parse_note_plaintext_without_memo_ovk(recipient.pk_d(), &np).is_none());
    assert!(v3.0.parse_note_plaintext_without_memo_ivk(&ivk, &[]).is_none());
}

#[test]
fn plaintext_binds_to_its_note_alone() {
    let fa = full_v3_action();
    let domain = IronwoodDomain::for_action(&fa.action.0);
    let pk_d = fa.recipient.pk_d();
    let np = IronwoodDomain::note_plaintext_bytes(&fa.note, &fa.memo);
    assert!(binds_to_note(&domain, &np, pk_d, &fa.note));
    for i in 0..52 {
        let mut other = np;
        other.0[i] ^= 0x80;
        assert!(!binds_to_note(&domain, &other, pk_d, &fa.note));
    }
    let mut other_memo = np;
    other_memo.0[52] ^= 0x80;
    assert!(binds_to_note(&domain, &other_memo, pk_d, &fa.note));
}

#[test]
fn key_pairs_agree_in_both_halves() {
    let fa = full_v3_action();
    let esk = IronwoodDomain::derive_esk(&fa.note).unwrap();
    let epk = IronwoodDomain::ka_derive_public(&fa.note, &esk);
    let other = EphemeralSecretKey::from_bytes(&pallas::Scalar::random(OsRng).to_repr()).unwrap();
    assert!(ephemeral_key_agrees(&esk, &fa.epk, &esk, &epk));
    assert!(!ephemeral_key_agrees(&other, &fa.epk, &esk, &epk));
    assert!(!ephemeral_key_agrees(&esk, &EphemeralKeyBytes([0; 32]), &esk, &epk));
}

#[test]
fn compact_action_keeps_what_light_clients_need() {
    let fa = full_v3_action();
    let action = &fa.action.0;
    let compact = CompactAction::from(action);
    assert_eq!(compact.nullifier(), *action.nullifier());
    assert_eq!(compact.cmx(), *action.cmx());
    assert_eq!(compact.rho(), action.rho());
    assert_eq!(compact.rho().to_bytes(), action.nullifier().to_bytes());
    assert_eq!(compact.ephemeral_key().0, action.encrypted_note().epk_bytes);
    assert_eq!(compact.enc_ciphertext()[..], action.encrypted_note().enc_ciphertext[..52]);
    assert_eq!(compact.cmstar_bytes(), action.cmx().to_bytes());
    assert_eq!(compact.debug_text(), "CompactAction");
    let domain = IronwoodDomain::for_compact_action(&compact);
    assert_eq!(domain.rho(), IronwoodDomain::for_action(action).rho());
    assert_eq!(domain.dynamic_usage(), 0);
    assert_eq!(domain.dynamic_usage_bounds(), (0, Some(0)));
}

#[test]
fn ephemeral_keys_must_be_points_other_than_the_identity() {
    assert!(OrchardDomain::epk(&EphemeralKeyBytes([0; 32])).is_none());
    assert!(OrchardDomain::epk(&EphemeralKeyBytes([0xff; 32])).is_none());
    let point = random_point();
    let epk = OrchardDomain::epk(&EphemeralKeyBytes(point)).unwrap();
    assert_eq!(OrchardDomain::epk_bytes(&epk).0, point);
}

#[test]
fn sizes_are_those_of_the_encryption_crate() {
    assert_eq!(COMPACT_NOTE_SIZE, zcash_note_encryption::COMPACT_NOTE_SIZE);
    assert_eq!(NOTE_PLAINTEXT_SIZE, zcash_note_encryption::NOTE_PLAINTEXT_SIZE);
    assert_eq!(ENC_CIPHERTEXT_SIZE, zcash_note_encryption::ENC_CIPHERTEXT_SIZE);
    assert_eq!(OUT_PLAINTEXT_SIZE, zcash_note_encryption::OUT_PLAINTEXT_SIZE);
    assert_eq!(OUT_CIPHERTEXT_SIZE, zcash_note_encryption::OUT_CIPHERTEXT_SIZE);
}

#[test]
fn plaintext_fields_are_split_by_position() {
    let plaintext: Vec<u8> = (0..52).collect();
    let fields = plaintext_fields(&plaintext);
    assert_eq!(*fields.diversifier.as_array(), [1, 2, 3, 4, 5, 6, 7, 8, 9, 10, 11]);
    assert_eq!(fields.value.inner(), 0x1312_1110_0f0e_0d0c);
    assert_eq!(fields.rseed[..], plaintext[20..]);
}

#[test]
fn domains_tell_versions_by_the_lead_byte() {
    let rho = Rho::from_nf_old(dummy_nullifier());
    let orchard = OrchardDomain::from_rho(rho);
    let ironwood = IronwoodDomain::from_rho(rho);
    assert_eq!(orchard.note_version(&[0x02]), Some(NoteVersion::V2));
    assert_eq!(orchard.note_version(&[0x03]), None);
    assert_eq!(orchard.note_version(&[]), None);
    assert_eq!(ironwood.note_version(&[0x03, 0x02]), Some(NoteVersion::V3));
    assert_eq!(ironwood.note_version(&[0x02]), None);
    assert_eq!(NoteVersion::from_lead_byte(0x01), None);
    assert_eq!(NoteVersion::from_lead_byte(NoteVersion::V3.lead_byte()), Some(NoteVersion::V3));
}

#[test]
fn viewing_key_reads_a_fake_compact_action() {
    let fvk = random_fvk();
    let recipient = address_at(&fvk, 2, Scope::External);
    let mut rseed = [0u8; 32];
    OsRng.fill_bytes(&mut rseed);
    let value = NoteValue::from_raw(17);
    let (action, note) =
        fake_compact_action(rseed, dummy_nullifier(), recipient, value, Some(random_ovk()))
            .unwrap();
    let ivk = fvk.to_ivk(Scope::External);
    let orchard = Dom(OrchardDomain::for_compact_action(&action));
    let ironwood = Dom(IronwoodDomain::for_compact_action(&action));
    let read = try_compact_note_decryption(&orchard, &ivk, &Compact(action));
    assert_eq!(read, Some((note, recipient)));
    assert_eq!(read.map(|(note, _)| *note.rseed().as_bytes()), Some(rseed));
    assert_eq!(try_compact_note_decryption(&ironwood, &ivk, &Compact(action)), None);
    let stranger = random_fvk().to_ivk(Scope::External);
    assert_eq!(try_compact_note_decryption(&orchard, &stranger, &Compact(action)), None);
}

#[test]
fn zeros_seal_to_the_mask_of_every_plaintext() {
    // Sealing under one key and nonce masks each byte by its position alone.
    let fa = full_v3_action();
    let esk = IronwoodDomain::derive_esk(&fa.note).unwrap();
    let enc = IronwoodDomain::encrypt_note_plaintext(&fa.note, &esk, &[0x55; 512]);
    let np = IronwoodDomain::note_plaintext_bytes(&fa.note, &[0x55; 512]);
    let key = IronwoodDomain::kdf(
        IronwoodDomain::ka_agree_enc(&esk, fa.recipient.pk_d()),
        &fa.epk,
    );
    for len in [1, 52, 564] {
        let mut mask = vec![0u8; len];
        ChaCha20Poly1305::new((&key).into())
            .encrypt_in_place_detached((&[0u8; 12]).into(), &[], &mut mask)
            .unwrap();
        for i in 0..len {
            assert_eq!(enc[i] ^ mask[i], np.0[i]);
        }
    }
}

#[test]
fn recovery_without_a_note_refuses_another_commitment() {
    // Bound recovery leaves the commitment to the check of the note; the recovery that computes it
    // agrees with it only where the note was validated.
    let fa = full_v3_action();
    let other = new_note(fa.recipient, NoteValue::from_raw(6), fa.note.rho(), NoteVersion::V3);
    let action = Action::from_parts(
        *fa.action.0.nullifier(),
        dummy_verification_key(),
        cmx_of(&other),
        *fa.action.0.encrypted_note(),
        fa.cv_net,
        (),
    )
    .unwrap();
    let domain = IronwoodDomain::for_action(&action);
    let pk_d = IronwoodDomain::get_pk_d(&fa.note);
    let esk = IronwoodDomain::derive_esk(&fa.note).unwrap();
    let bound = recover_output_bound_with_pkd_esk(&domain, pk_d, esk, &action, &fa.note);
    assert_eq!(bound, Some(fa.memo));
    let bound = recover_output_bound_with_pkd_esk(&domain, pk_d, esk, &action, &other);
    assert_eq!(bound, None);
    let unbound = try_output_recovery_with_pkd_esk(&Dom(domain), pk_d, Esk(esk), &Full(action));
    assert_eq!(unbound, None);
}

#[test]
fn whole_and_compact_outputs_read_alike() {
    let (action, ivk, note, recipient, memo) = v3_encrypted_action();
    let domain = Dom(IronwoodDomain::for_action(&action.0));
    let compact = Compact(CompactAction::from(&action.0));
    assert_eq!(try_note_decryption(&domain, &ivk, &action), Some((note, recipient, memo)));
    assert_eq!(try_compact_note_decryption(&domain, &ivk, &compact), Some((note, recipient)));

    // The compact form carries no tag: it reads the same where the whole is no longer authentic.
    let mut tampered = *action.0.encrypted_note();
    tampered.enc_ciphertext[579] ^= 0x01;
    let action = Action::from_parts(
        *action.0.nullifier(),
        dummy_verification_key(),
        *action.0.cmx(),
        tampered,
        *action.0.cv_net(),
        (),
    )
    .unwrap();
    let compact = Compact(CompactAction::from(&action));
    assert_eq!(try_note_decryption(&domain, &ivk, &Full(action)), None);
    assert_eq!(try_compact_note_decryption(&domain, &ivk, &compact), Some((note, recipient)));
}

#[test]
fn domains_of_one_action_recover_one_note() {
    let fa = full_v3_action();
    let action = &fa.action.0;
    let pk_d = IronwoodDomain::get_pk_d(&fa.note);
    let esk = IronwoodDomain::derive_esk(&fa.note).unwrap();
    let domains = [
        IronwoodDomain::for_action(action),
        IronwoodDomain::for_compact_action(&CompactAction::from(action)),
        IronwoodDomain::from_rho(fa.note.rho()),
    ];
    for domain in domains {
        let memo = recover_output_bound_with_pkd_esk(&domain, pk_d, esk, action, &fa.note);
        assert_eq!(memo, Some(fa.memo));
        assert_eq!(domain.rho(), fa.note.rho());
    }
    let elsewhere = IronwoodDomain::from_rho(Rho::from_nf_old(dummy_nullifier()));
    let memo = recover_output_bound_with_pkd_esk(&elsewhere, pk_d, esk, action, &fa.note);
    assert_eq!(memo, None);
}
