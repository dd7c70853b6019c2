//! The checks on partially created bundles, and the formulas that they rest on.

use group::ff::{Field, PrimeField};
use group::{Curve, Group, GroupEncoding};
use pasta_curves::arithmetic::{CurveAffine, CurveExt};
use pasta_curves::pallas;
use rand::rngs::OsRng;
use rand::RngCore;

use orchard_note_encryption::address::Address;
use orchard_note_encryption::keys::{
    Diversifier, EphemeralSecretKey, FullViewingKey, Scope, SpendAuthRandomizer,
    SpendValidatingKey, VerificationKey,
};
use orchard_note_encryption::note::{
    ExtractedNoteCommitment, Note, NoteVersion, Nullifier, RandomSeed, Rho,
    TransmittedNoteCiphertext,
};
use orchard_note_encryption::note_encryption::testing::{fake_compact_action, FakeActionError};
use orchard_note_encryption::note_encryption::{
    recover_output_bound_with_ovk, IronwoodDomain, OrchardDomain, ShieldedOutput,
};
use orchard_note_encryption::pczt::verify::{
    check_cmx, check_cv_net, check_nullifier, check_owned, check_rk, Callback, NoProgress,
    VerifyError,
};
use orchard_note_encryption::pczt::{Action, Bundle, Flags, Output, Spend};
use orchard_note_encryption::value::{
    NoteValue, ValueCommitTrapdoor, ValueCommitment, ValueSum,
};

fn random_point() -> [u8; 32] {
    (pallas::Point::generator() * pallas::Scalar::random(OsRng)).to_bytes()
}

fn random_fvk_bytes() -> [u8; 96] {
    let mut bytes = [0u8; 96];
    bytes[..32].copy_from_slice(&random_point());
    bytes[31] &= 0x7f;
    bytes[32..64].copy_from_slice(&pallas::Base::random(OsRng).to_repr());
    bytes[64..].copy_from_slice(&pallas::Scalar::random(OsRng).to_repr());
    bytes
}

fn random_fvk() -> FullViewingKey {
    FullViewingKey::from_bytes(&random_fvk_bytes()).unwrap()
}

fn address_at(fvk: &FullViewingKey, index: u8, scope: Scope) -> Address {
    fvk.to_ivk(scope).address(Diversifier::from_bytes([index; 11])).unwrap()
}

fn random_nullifier() -> Nullifier {
    Nullifier::from_bytes(&pallas::Base::random(OsRng).to_repr()).unwrap()
}

fn random_seed(rho: &Rho) -> RandomSeed {
    let mut bytes = [0u8; 32];
    OsRng.fill_bytes(&mut bytes);
    RandomSeed::from_bytes(bytes, rho).unwrap()
}

fn random_scalar() -> [u8; 32] {
    pallas::Scalar::random(OsRng).to_repr()
}

/// A spend of a note that `fvk` owns in `scope`, every field set and consistent.
fn valid_spend(fvk: &FullViewingKey, scope: Scope, value: u64) -> Spend {
    let recipient = address_at(fvk, 1, scope);
    let rho = Rho::from_nf_old(random_nullifier());
    let rseed = random_seed(&rho);
    let value = NoteValue::from_raw(value);
    let note = Note::from_parts(recipient, value, rho, rseed, NoteVersion::V3).unwrap();
    let alpha = SpendAuthRandomizer::from_bytes(&random_scalar()).unwrap();
    Spend {
        nullifier: note.nullifier(fvk),
        rk: SpendValidatingKey::from_fvk(fvk).randomize(&alpha),
        recipient: Some(recipient),
        value: Some(value),
        rho: Some(rho),
        rseed: Some(rseed),
        note_version: NoteVersion::V3,
        fvk: Some(*fvk),
        alpha: Some(alpha),
    }
}

/// An output of the same action as `spend`, every field set and consistent.
fn valid_output(spend: &Spend, recipient: Address, value: u64) -> Output {
    let rho = Rho::from_nf_old(spend.nullifier);
    let rseed = random_seed(&rho);
    let value = NoteValue::from_raw(value);
    let note = Note::from_parts(recipient, value, rho, rseed, NoteVersion::V3).unwrap();
    Output {
        cmx: ExtractedNoteCommitment::from_commitment(&note.commitment()),
        note_version: NoteVersion::V3,
        encrypted_note: TransmittedNoteCiphertext {
            epk_bytes: [0; 32],
            enc_ciphertext: [0; 580],
            out_ciphertext: [0; 80],
        },
        recipient: Some(recipient),
        value: Some(value),
        rseed: Some(rseed),
    }
}

fn valid_action(fvk: &FullViewingKey, to: Address) -> Action {
    let spend = valid_spend(fvk, Scope::External, 9);
    let output = valid_output(&spend, to, 5);
    let rcv = ValueCommitTrapdoor::from_bytes(&random_scalar()).unwrap();
    Action {
        spend,
        output,
        cv_net: ValueCommitment::derive(ValueSum { raw: 4 }, &rcv),
        rcv: Some(rcv),
    }
}

#[test]
fn nullifier_accepted_in_either_scope() {
    let fvk = random_fvk();
    for scope in [Scope::External, Scope::Internal] {
        let spend = valid_spend(&fvk, scope, 7);
        assert_eq!(spend.verify_nullifier(None), Ok(()));
        assert_eq!(spend.verify_nullifier(Some(&fvk)), Ok(()));
        let recipient = spend.recipient.unwrap();
        assert_eq!(fvk.scope_for_address(&recipient), Some(scope));
        assert_eq!(fvk.scope_classifier().scope_for_address(&recipient), Some(scope));
    }
}

#[test]
fn nullifier_missing_fields_are_reported_in_order() {
    let fvk = random_fvk();
    let mut spend = valid_spend(&fvk, Scope::External, 7);
    spend.rseed = None;
    assert_eq!(spend.verify_nullifier(None), Err(VerifyError::MissingRandomSeed));
    spend.rho = None;
    assert_eq!(spend.verify_nullifier(None), Err(VerifyError::MissingRho));
    spend.value = None;
    assert_eq!(spend.verify_nullifier(None), Err(VerifyError::MissingValue));
    spend.recipient = None;
    assert_eq!(spend.verify_nullifier(None), Err(VerifyError::MissingRecipient));
    spend.fvk = None;
    assert_eq!(spend.verify_nullifier(None), Err(VerifyError::MissingFullViewingKey));
    assert_eq!(spend.verify_nullifier(Some(&fvk)), Err(VerifyError::MissingRecipient));
}

#[test]
fn nullifier_must_be_that_of_the_note() {
    let fvk = random_fvk();
    let spend = valid_spend(&fvk, Scope::External, 7);
    let other = Spend { nullifier: random_nullifier(), ..spend };
    assert_eq!(other.verify_nullifier(None), Err(VerifyError::InvalidNullifier));
    let other = Spend { value: Some(NoteValue::from_raw(8)), ..spend };
    assert_eq!(other.verify_nullifier(None), Err(VerifyError::InvalidNullifier));
}

#[test]
fn nullifier_key_must_own_the_note() {
    let fvk = random_fvk();
    let spend = valid_spend(&fvk, Scope::External, 7);
    let stranger = random_fvk();
    let other = Spend { fvk: Some(stranger), ..spend };
    assert_eq!(other.verify_nullifier(None), Err(VerifyError::WrongFvkForNote));
    let other = Spend { fvk: None, ..spend };
    assert_eq!(other.verify_nullifier(Some(&fvk)), Ok(()));
    assert_eq!(other.verify_nullifier(Some(&stranger)), Err(VerifyError::WrongFvkForNote));
}

#[test]
fn expected_key_is_checked_unless_the_note_is_a_dummy() {
    let fvk = random_fvk();
    let device = random_fvk();
    let classifier = device.scope_classifier();

    let real = valid_spend(&fvk, Scope::External, 7);
    let mismatch = Err(VerifyError::MismatchedFullViewingKey);
    assert_eq!(real.verify_nullifier(Some(&device)), mismatch);
    assert_eq!(real.verify_rk(Some(&device)), mismatch);
    let unknown = Spend { value: None, ..real };
    assert_eq!(unknown.verify_rk(Some(&device)), mismatch);

    let dummy = valid_spend(&fvk, Scope::External, 0);
    assert_eq!(dummy.verify_nullifier(Some(&device)), Ok(()));
    assert_eq!(
        dummy.verify_nullifier_with_classifier(Some(&device), Some(&classifier)),
        Ok(())
    );
    assert_eq!(dummy.verify_rk(Some(&device)), Ok(()));
}

#[test]
fn dummy_note_needs_its_own_key() {
    let fvk = random_fvk();
    let classifier = fvk.scope_classifier();
    let missing = Err(VerifyError::MissingFullViewingKey);
    let dummy = Spend { fvk: None, ..valid_spend(&fvk, Scope::External, 0) };
    assert_eq!(dummy.verify_nullifier(Some(&fvk)), missing);
    assert_eq!(dummy.verify_nullifier_with_classifier(Some(&fvk), Some(&classifier)), missing);
    assert_eq!(dummy.verify_rk(Some(&fvk)), missing);
    assert_eq!(dummy.verify_nullifier(None), missing);
    assert_eq!(dummy.verify_rk(None), missing);

    // A note that is not known to be a dummy is validated under the expected key.
    let real = Spend { fvk: None, ..valid_spend(&fvk, Scope::External, 1) };
    assert_eq!(real.verify_nullifier(Some(&fvk)), Ok(()));
    assert_eq!(real.verify_rk(Some(&fvk)), Ok(()));
    let unknown = Spend { value: None, ..dummy };
    assert_eq!(unknown.verify_rk(Some(&fvk)), Ok(()));
}

#[test]
fn classifier_for_the_expected_key_keeps_the_verdict() {
    let fvk = random_fvk();
    let classifier = fvk.scope_classifier();
    let stranger = random_fvk();
    let owned = valid_spend(&fvk, Scope::Internal, 7);
    let foreign = Spend { fvk: Some(fvk), ..valid_spend(&stranger, Scope::External, 7) };
    let forged = Spend { nullifier: random_nullifier(), ..owned };
    for spend in [owned, foreign, forged] {
        assert_eq!(
            spend.verify_nullifier_with_classifier(Some(&fvk), Some(&classifier)),
            spend.verify_nullifier(Some(&fvk))
        );
    }
    // A classifier for another key is consulted where the key is the expected one, and only there.
    let wrong = stranger.scope_classifier();
    assert_eq!(
        owned.verify_nullifier_with_classifier(Some(&fvk), Some(&wrong)),
        Err(VerifyError::WrongFvkForNote)
    );
    assert_eq!(owned.verify_nullifier_with_classifier(None, Some(&wrong)), Ok(()));
}

#[test]
fn progress_is_reported_between_the_steps() {
    let fvk = random_fvk();
    let stranger = random_fvk();
    let owned = valid_spend(&fvk, Scope::External, 7);
    let forged = Spend { nullifier: random_nullifier(), ..owned };
    let foreign = Spend { fvk: Some(stranger), ..owned };
    let incomplete = Spend { rseed: None, ..owned };
    for (spend, verdict, count) in [
        (owned, Ok(()), 2),
        (forged, Err(VerifyError::InvalidNullifier), 2),
        (foreign, Err(VerifyError::WrongFvkForNote), 1),
        (incomplete, Err(VerifyError::MissingRandomSeed), 0),
    ] {
        let mut calls = 0;
        let mut counter = Callback::new(|| calls += 1);
        assert_eq!(spend.verify_nullifier_with_progress(None, None, &mut counter), verdict);
        assert_eq!(calls, count);
        // Where no key is expected, a classifier changes nothing.
        let other = stranger.scope_classifier();
        let mut calls = 0;
        let mut counter = Callback::new(|| calls += 1);
        let result = spend.verify_nullifier_with_progress(None, Some(&other), &mut counter);
        assert_eq!(result, verdict);
        assert_eq!(calls, count);
        let mut nobody = NoProgress::new();
        assert_eq!(spend.verify_nullifier_with_progress(None, None, &mut nobody), verdict);
    }
}

#[test]
fn rk_must_be_the_randomized_key() {
    let fvk = random_fvk();
    let spend = valid_spend(&fvk, Scope::External, 7);
    assert_eq!(spend.verify_rk(None), Ok(()));
    assert_eq!(spend.verify_rk(Some(&fvk)), Ok(()));
    let other = Spend { rk: VerificationKey::from_bytes(&random_point()).unwrap(), ..spend };
    assert_eq!(other.verify_rk(None), Err(VerifyError::InvalidRandomizedVerificationKey));
    let other = Spend { alpha: None, ..spend };
    assert_eq!(other.verify_rk(None), Err(VerifyError::MissingSpendAuthRandomizer));
    let other = Spend { alpha: None, fvk: None, ..spend };
    assert_eq!(other.verify_rk(None), Err(VerifyError::MissingFullViewingKey));
}

#[test]
fn value_commitment_must_match() {
    let fvk = random_fvk();
    let action = valid_action(&fvk, address_at(&fvk, 1, Scope::External));
    assert_eq!(action.verify_cv_net(), Ok(()));

    let mut other = action;
    other.output.value = Some(NoteValue::from_raw(6));
    assert_eq!(other.verify_cv_net(), Err(VerifyError::InvalidValueCommitment));
    let mut other = action;
    other.rcv = None;
    assert_eq!(other.verify_cv_net(), Err(VerifyError::MissingValueCommitTrapdoor));
    other.output.value = None;
    assert_eq!(other.verify_cv_net(), Err(VerifyError::MissingValue));
    let mut other = action;
    other.spend.value = None;
    assert_eq!(other.verify_cv_net(), Err(VerifyError::MissingValue));

    // The net value is what is spent less what is created, and may be negative.
    let rcv = action.rcv.unwrap();
    let mut outward = action;
    outward.spend.value = Some(NoteValue::from_raw(0));
    outward.output.value = Some(NoteValue::from_raw(u64::MAX));
    let raw = -(u64::MAX as i128);
    outward.cv_net = ValueCommitment::derive(ValueSum { raw }, &rcv);
    assert_eq!(outward.verify_cv_net(), Ok(()));
}

#[test]
fn note_commitment_must_match() {
    let fvk = random_fvk();
    let spend = valid_spend(&fvk, Scope::External, 7);
    let output = valid_output(&spend, address_at(&fvk, 2, Scope::Internal), 7);
    let note = output.verify_note_commitment(&spend).unwrap();
    assert_eq!(note.rho().to_bytes(), spend.nullifier.to_bytes());
    assert_eq!(note.recipient(), output.recipient.unwrap());
    assert_eq!(note.value(), output.value.unwrap());
    assert_eq!(*note.rseed(), output.rseed.unwrap());
    assert_eq!(note.version(), NoteVersion::V3);
    assert_eq!(ExtractedNoteCommitment::from_commitment(&note.commitment()), output.cmx);

    let refused = |output: Output, spend: &Spend| output.verify_note_commitment(spend).unwrap_err();
    let other = Output { value: Some(NoteValue::from_raw(8)), ..output };
    assert_eq!(refused(other, &spend), VerifyError::InvalidExtractedNoteCommitment);
    let elsewhere = valid_spend(&fvk, Scope::External, 7);
    assert_eq!(refused(output, &elsewhere), VerifyError::InvalidExtractedNoteCommitment);
    let mut missing = Output { rseed: None, ..output };
    assert_eq!(refused(missing, &spend), VerifyError::MissingRandomSeed);
    missing.value = None;
    assert_eq!(refused(missing, &spend), VerifyError::MissingValue);
    missing.recipient = None;
    assert_eq!(refused(missing, &spend), VerifyError::MissingRecipient);
}

#[test]
fn restriction_holds_of_every_action() {
    let fvk = random_fvk();
    let home = address_at(&fvk, 1, Scope::External);
    let away = address_at(&fvk, 2, Scope::External);
    let stays = valid_action(&fvk, home);
    let leaves = valid_action(&fvk, away);
    let mut unknown = stays;
    unknown.output.recipient = None;
    let mut unknown_source = leaves;
    unknown_source.spend.recipient = None;

    let bundle = |actions: Vec<Action>, cross_address: bool| Bundle {
        actions,
        flags: Flags { cross_address },
    };
    let verdict = |actions: Vec<Action>| bundle(actions, false).verify_cross_address_restriction();
    assert_eq!(verdict(vec![]), Ok(()));
    assert_eq!(verdict(vec![stays, stays]), Ok(()));
    let disallowed = Err(VerifyError::DisallowedCrossAddressTransfer);
    let missing = Err(VerifyError::MissingRecipient);
    assert_eq!(verdict(vec![stays, leaves]), disallowed);
    assert_eq!(verdict(vec![stays, unknown, leaves]), missing);
    assert_eq!(verdict(vec![leaves, unknown]), disallowed);
    assert_eq!(verdict(vec![unknown_source]), missing);
    let permitted = bundle(vec![leaves, unknown, unknown_source], true);
    assert_eq!(permitted.verify_cross_address_restriction(), Ok(()));
}

#[test]
fn same_transmission_key_at_another_base_is_another_receiver() {
    let fvk = random_fvk();
    let home = address_at(&fvk, 1, Scope::External);
    let mixed = Address::from_parts(Diversifier::from_bytes([2; 11]), *home.pk_d());
    assert!(home.same_expanded_receiver(&home));
    assert!(!home.same_expanded_receiver(&mixed));
    assert!(!home.same_expanded_receiver(&address_at(&random_fvk(), 1, Scope::External)));
}

#[test]
fn verified_note_recovers_the_output() {
    let fvk = random_fvk();
    let ovk = orchard_note_encryption::keys::OutgoingViewingKey::from_bytes([3; 32]);
    let mut action = valid_action(&fvk, address_at(&fvk, 4, Scope::External));
    let note = action.output.verify_note_commitment(&action.spend).unwrap();
    let esk = IronwoodDomain::derive_esk(&note).unwrap();
    let epk = IronwoodDomain::epk_bytes(&IronwoodDomain::ka_derive_public(&note, &esk));
    let memo = [0xf6; 512];
    let cmx = action.output.cmx.to_bytes();
    let ock = IronwoodDomain::derive_ock(&ovk, &action.cv_net, &cmx, &epk);
    let out_ciphertext = IronwoodDomain::encrypt_outgoing_plaintext(&ock, &note, &esk);
    action.output.encrypted_note = TransmittedNoteCiphertext {
        epk_bytes: epk.0,
        enc_ciphertext: IronwoodDomain::encrypt_note_plaintext(&note, &esk, &memo),
        out_ciphertext,
    };
    assert_eq!(action.ephemeral_key().0, epk.0);
    assert_eq!(action.cmstar_bytes(), cmx);
    let domain = IronwoodDomain::for_pczt_action(&action);
    assert_eq!(domain.rho(), note.rho());
    let recovered = recover_output_bound_with_ovk(
        &domain, &ovk, &action, &action.cv_net, &out_ciphertext, &note,
    );
    assert_eq!(recovered, Some(memo));
    let other = ValueCommitment::from_bytes(&random_point()).unwrap();
    let recovered =
        recover_output_bound_with_ovk(&domain, &ovk, &action, &other, &out_ciphertext, &note);
    assert_eq!(recovered, None);
}

#[test]
fn derived_values_are_compared_exactly() {
    assert_eq!(check_owned(Some(Scope::Internal)), Ok(()));
    assert_eq!(check_owned(None), Err(VerifyError::WrongFvkForNote));
    let (a, b) = (random_nullifier(), random_nullifier());
    assert_eq!(check_nullifier(&a, &a), Ok(()));
    assert_eq!(check_nullifier(&a, &b), Err(VerifyError::InvalidNullifier));
    let a = VerificationKey::from_bytes(&random_point()).unwrap();
    let b = VerificationKey::from_bytes(&random_point()).unwrap();
    assert_eq!(check_rk(&a, &a), Ok(()));
    assert_eq!(check_rk(&a, &b), Err(VerifyError::InvalidRandomizedVerificationKey));
    let a = ValueCommitment::from_bytes(&random_point()).unwrap();
    let b = ValueCommitment::from_bytes(&random_point()).unwrap();
    assert_eq!(check_cv_net(&a, &a), Ok(()));
    assert_eq!(check_cv_net(&a, &b), Err(VerifyError::InvalidValueCommitment));
    let a = ExtractedNoteCommitment::from_bytes(&random_nullifier().to_bytes()).unwrap();
    let b = ExtractedNoteCommitment::from_bytes(&random_nullifier().to_bytes()).unwrap();
    assert_eq!(check_cmx(&a, &a), Ok(()));
    assert_eq!(check_cmx(&a, &b), Err(VerifyError::InvalidExtractedNoteCommitment));
}

#[test]
fn errors_say_what_is_wrong() {
    let texts = [
        (
            VerifyError::DisallowedCrossAddressTransfer,
            "an action outputs to a different expanded receiver than it spends from, but the \
             bundle disables cross-address transfers",
        ),
        (VerifyError::InvalidExtractedNoteCommitment, "output note doesn't match `cmx`"),
        (VerifyError::InvalidNullifier, "spent note doesn't match `nullifier`"),
        (VerifyError::InvalidOutputNote, "invalid output note"),
        (
            VerifyError::InvalidRandomizedVerificationKey,
            "spend's `fvk` and `alpha` do not match `rk`",
        ),
        (VerifyError::InvalidSpendNote, "invalid spent note"),
        (
            VerifyError::InvalidValueCommitment,
            "`cv_net` doesn't match the note values and `rcv`",
        ),
        (
            VerifyError::MismatchedFullViewingKey,
            "Provided full viewing key doesn't match the `fvk` field",
        ),
        (VerifyError::MissingFullViewingKey, "`fvk` missing for dummy note"),
        (VerifyError::MissingRandomSeed, "`rseed` missing for `nullifier` verification"),
        (VerifyError::MissingRecipient, "`recipient` missing for verification"),
        (VerifyError::MissingRho, "`rho` missing for `nullifier` verification"),
        (VerifyError::MissingSpendAuthRandomizer, "`alpha` missing for `rk` verification"),
        (VerifyError::MissingValue, "`value` missing"),
        (VerifyError::MissingValueCommitTrapdoor, "`rcv` missing for `cv_net` verification"),
        (VerifyError::WrongFvkForNote, "`fvk` does not own the action's spent note"),
    ];
    for (error, text) in texts {
        assert_eq!(error.to_string(), text);
    }
}

// The formulas, held against the outside crates.

fn base(bytes: [u8; 32]) -> pallas::Base {
    pallas::Base::from_repr(bytes).unwrap()
}

fn scalar(bytes: [u8; 32]) -> pallas::Scalar {
    pallas::Scalar::from_repr(bytes).unwrap()
}

fn point(bytes: [u8; 32]) -> pallas::Point {
    pallas::Point::from_bytes(&bytes).unwrap()
}

fn x_of(p: pallas::Point) -> [u8; 32] {
    p.to_affine().coordinates().map(|c| *c.x()).unwrap().to_repr()
}

fn expand(key: &[u8], tag: u8, t: &[u8]) -> [u8; 64] {
    let mut input = key.to_vec();
    input.push(tag);
    input.extend_from_slice(t);
    let hash = blake2b_simd::Params::new()
        .hash_length(64)
        .personal(b"Zcash_ExpandSeed")
        .hash(&input);
    *hash.as_array()
}

fn to_scalar(bytes: [u8; 64]) -> pallas::Scalar {
    group::ff::FromUniformBytes::from_uniform_bytes(&bytes)
}

fn to_base(bytes: [u8; 64]) -> pallas::Base {
    group::ff::FromUniformBytes::from_uniform_bytes(&bytes)
}

fn bits(bytes: &[u8], n: usize) -> Vec<bool> {
    (0..n).map(|i| (bytes[i / 8] >> (i % 8)) & 1 == 1).collect()
}

#[test]
fn value_commitment_formula() {
    let zero = ValueCommitTrapdoor::from_bytes(&[0; 32]).unwrap();
    assert_eq!(ValueCommitment::derive(ValueSum { raw: 0 }, &zero).to_bytes(), [0; 32]);

    let hasher = pallas::Point::hash_to_curve("z.cash:Orchard-cv");
    let (v, r) = (hasher(b"v"), hasher(b"r"));
    assert_eq!(ValueCommitment::derive(ValueSum { raw: 1 }, &zero).to_bytes(), v.to_bytes());
    let most = ValueSum { raw: u64::MAX as i128 };
    let expected = v * pallas::Scalar::from(u64::MAX);
    assert_eq!(ValueCommitment::derive(most, &zero).to_bytes(), expected.to_bytes());
    let raw = random_scalar();
    let rcv = ValueCommitTrapdoor::from_bytes(&raw).unwrap();
    let expected = v * -pallas::Scalar::from(5) + r * scalar(raw);
    assert_eq!(
        ValueCommitment::derive(ValueSum { raw: -5 }, &rcv).to_bytes(),
        expected.to_bytes()
    );
    let difference = NoteValue::from_raw(2).minus(NoteValue::from_raw(7));
    assert_eq!(difference, ValueSum { raw: -5 });
    assert!(ValueCommitTrapdoor::from_bytes(&[0xff; 32]).is_none());
    assert!(ValueCommitment::from_bytes(&[0xff; 32]).is_none());
}

#[test]
fn note_formulas() {
    let bytes = random_fvk_bytes();
    let fvk = FullViewingKey::from_bytes(&bytes).unwrap();
    let d = [5u8; 11];
    let recipient = fvk.to_ivk(Scope::External).address(Diversifier::from_bytes(d)).unwrap();
    let rho = Rho::from_nf_old(random_nullifier());
    let rseed = random_seed(&rho);
    let value = NoteValue::from_raw(0x0102_0304_0506_0708);
    let note = Note::from_parts(recipient, value, rho, rseed, NoteVersion::V2).unwrap();

    let g_d = pallas::Point::hash_to_curve("z.cash:Orchard-gd")(&d);
    assert_eq!(recipient.g_d(), g_d.to_bytes());
    let rho_bytes = rho.to_bytes();
    let psi = to_base(expand(rseed.as_bytes(), 0x09, &rho_bytes));
    let rcm = to_scalar(expand(rseed.as_bytes(), 0x05, &rho_bytes));
    let esk = to_scalar(expand(rseed.as_bytes(), 0x04, &rho_bytes));
    assert_eq!(note.esk().unwrap().to_bytes(), esk.to_repr());
    let epk = OrchardDomain::ka_derive_public(&note, &note.esk().unwrap());
    assert_eq!(epk.to_bytes(), (g_d * esk).to_bytes());

    let mut msg = bits(&g_d.to_bytes(), 256);
    msg.extend(bits(&recipient.pk_d().to_bytes(), 256));
    msg.extend(bits(&[8, 7, 6, 5, 4, 3, 2, 1], 64));
    msg.extend(bits(&rho_bytes, 255));
    msg.extend(bits(&psi.to_repr(), 255));
    let cm = sinsemilla::CommitDomain::new("z.cash:Orchard-NoteCommit")
        .commit(msg.into_iter(), &rcm)
        .unwrap();
    let cmx = OrchardDomain::cmstar(&note);
    assert_eq!(cmx.to_bytes(), x_of(cm));
    assert_eq!(OrchardDomain::cmstar(&note), ExtractedNoteCommitment::from_commitment(&note.commitment()));

    let nk = base(bytes[32..64].try_into().unwrap());
    let prf_nf = halo2_poseidon::Hash::<
        _,
        halo2_poseidon::P128Pow5T3,
        halo2_poseidon::ConstantLength<2>,
        3,
        2,
    >::init()
    .hash([nk, base(rho_bytes)]);
    let k = pallas::Point::hash_to_curve("z.cash:Orchard")(b"K");
    let nf = k * scalar((prf_nf + psi).to_repr()) + cm;
    assert_eq!(note.nullifier(&fvk).to_bytes(), x_of(nf));
}

#[test]
fn viewing_key_formulas() {
    let bytes = random_fvk_bytes();
    let fvk = FullViewingKey::from_bytes(&bytes).unwrap();
    let (ak, nk, rivk) = (&bytes[..32], &bytes[32..64], &bytes[64..]);
    let mut msg = bits(ak, 255);
    msg.extend(bits(nk, 255));
    let commit = |r: &pallas::Scalar| {
        sinsemilla::CommitDomain::new("z.cash:Orchard-CommitIvk")
            .short_commit(msg.iter().copied(), r)
            .unwrap()
            .to_repr()
    };
    let external = scalar(rivk.try_into().unwrap());
    let internal = to_scalar(expand(rivk, 0x83, &bytes[..64]));
    assert_eq!(fvk.to_ivk(Scope::External).raw_scalar(), commit(&external));
    assert_eq!(fvk.to_ivk(Scope::Internal).raw_scalar(), commit(&internal));

    let recipient = address_at(&fvk, 3, Scope::Internal);
    let g_d = pallas::Point::hash_to_curve("z.cash:Orchard-gd")(&[3; 11]);
    let pk_d = g_d * scalar(commit(&internal));
    assert_eq!(recipient.pk_d().to_bytes(), pk_d.to_bytes());
    assert_eq!(fvk.scope_for_address(&recipient), Some(Scope::Internal));
    assert_eq!(random_fvk().scope_for_address(&recipient), None);

    let alpha = random_scalar();
    let rk = SpendValidatingKey::from_fvk(&fvk)
        .randomize(&SpendAuthRandomizer::from_bytes(&alpha).unwrap());
    let g = pallas::Point::hash_to_curve("z.cash:Orchard")(b"G");
    assert_eq!(rk.to_bytes(), (point(ak.try_into().unwrap()) + g * scalar(alpha)).to_bytes());
}

#[test]
fn viewing_keys_are_validated() {
    let bytes = random_fvk_bytes();
    assert!(FullViewingKey::from_bytes(&bytes).is_some());
    let mut bad = bytes;
    bad[31] |= 0x80;
    assert!(FullViewingKey::from_bytes(&bad).is_none());
    let mut bad = bytes;
    bad[..32].fill(0);
    assert!(FullViewingKey::from_bytes(&bad).is_none());
    let mut bad = bytes;
    bad[32..64].fill(0xff);
    assert!(FullViewingKey::from_bytes(&bad).is_none());
    let mut bad = bytes;
    bad[64..].fill(0xff);
    assert!(FullViewingKey::from_bytes(&bad).is_none());
    assert!(EphemeralSecretKey::from_bytes(&[0; 32]).is_none());
    assert!(Nullifier::from_bytes(&[0xff; 32]).is_none());
    assert!(ExtractedNoteCommitment::from_bytes(&[0xff; 32]).is_none());
}

#[test]
fn fake_action_pays_the_recipient() {
    let fvk = random_fvk();
    let recipient = address_at(&fvk, 6, Scope::External);
    let nf_old = random_nullifier();
    let value = NoteValue::from_raw(12);
    let mut rseed = [0u8; 32];
    OsRng.fill_bytes(&mut rseed);
    let (action, note) = fake_compact_action(rseed, nf_old, recipient, value, None).unwrap();
    assert_eq!(action.nullifier(), nf_old);
    assert_eq!(action.cmx(), OrchardDomain::cmstar(&note));
    assert_eq!(note.recipient(), recipient);
    assert_eq!(note.value(), value);
    assert_eq!(note.version(), NoteVersion::V2);
    assert_eq!(note.rho(), action.rho());
    assert_eq!(*note.rseed().as_bytes(), rseed);
    let esk = OrchardDomain::derive_esk(&note).unwrap();
    let enc = OrchardDomain::encrypt_note_plaintext(&note, &esk, &[0; 512]);
    assert_eq!(action.enc_ciphertext()[..], enc[..52]);
    assert_ne!(FakeActionError::SeedRejected, FakeActionError::InvalidNote);
}
