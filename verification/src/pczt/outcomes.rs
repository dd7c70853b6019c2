//! What the checks on a partially created bundle decide, stated of the calls themselves.
//!
//! A law here takes the arguments of a call and what the call returned, and says for every input
//! what was accepted and what was refused, and why.

use vstd::prelude::*;

use crate::address::{Address, AddressView};
use crate::bytes;
use crate::keys;
use crate::keys::{FullViewingKey, FullViewingKeyView, Scope, ScopeClassifier, VerificationKey};
use crate::note::{
    ExtractedNoteCommitment, Note, NoteView, Nullifier, RandomSeed, Rho,
    TransmittedNoteCiphertext,
};
use crate::pczt::verify;
use crate::pczt::verify::{
    check_cmx, check_cv_net, check_nullifier, check_owned, check_rk, Callback, Progress,
    VerifyError,
};
use crate::pczt::{Action, Bundle, Flags, Output, Spend};
use crate::primitives::pallas;
use crate::primitives::redpallas;
use crate::value::{NoteValue, ValueCommitTrapdoor, ValueCommitment, ValueSum};

verus! {

/// The key under which a spend is validated. It is the spend's own where no other key is expected,
/// or the note is a dummy note, of value zero. It is the expected one where the spend has none and
/// the note is not a dummy note. Else there is none: it is missing where the spend has no key and
/// none is expected or the note is a dummy note, and mismatched where the two keys differ.
pub proof fn key_of_a_spend(
    spend: Spend,
    expected: Option<FullViewingKeyView>,
    key: FullViewingKeyView,
)
    ensures
        ({
            let dummy = spend.value is Some && spend.value->0.raw == 0;
            &&& spend.validating_key(expected) == Ok::<_, VerifyError>(key) <==> {
                ||| spend.fvk is Some && spend.fvk->0@ == key && (expected is None || expected
                    == Some(key) || dummy)
                ||| spend.fvk is None && expected == Some(key) && !dummy
            }
            &&& spend.validating_key(expected) == Err::<FullViewingKeyView, _>(
                VerifyError::MissingFullViewingKey,
            ) <==> spend.fvk is None && (expected is None || dummy)
            &&& spend.validating_key(expected) == Err::<FullViewingKeyView, _>(
                VerifyError::MismatchedFullViewingKey,
            ) <==> spend.fvk is Some && expected is Some && !dummy && spend.fvk->0@ != expected->0
        }),
{
}

/// The scope in which a key has an address: external where the external viewing key's multiple of
/// the address's base is its transmission key, else internal where the internal one's is.
pub proof fn scope_of_an_address(key: FullViewingKeyView, recipient: AddressView)
    ensures
        ({
            let external = pallas::pallas_mul(
                key.ivk_in(Scope::External)->0,
                keys::diversify_hash(recipient.d),
            ) == recipient.pk_d;
            let internal = pallas::pallas_mul(
                key.ivk_in(Scope::Internal)->0,
                keys::diversify_hash(recipient.d),
            ) == recipient.pk_d;
            &&& key.scope_of(recipient) == Some(Scope::External) <==> external
            &&& key.scope_of(recipient) == Some(Scope::Internal) <==> !external && internal
            &&& key.scope_of(recipient) is None <==> !external && !internal
        }),
{
}

/// Where a spend has all the fields of its note and a key under which it is validated, its
/// nullifier is judged on the note that has exactly these fields, of whichever version. It is
/// accepted exactly where that note has a commitment, the key has the note's address in either
/// scope, and the nullifier is the note's under that key. Each refusal says which of these, in this
/// order, fails.
pub proof fn nullifier_is_judged_on_the_note(
    spend: &Spend,
    expected: Option<&FullViewingKey>,
    expected_view: Option<FullViewingKeyView>,
    key: FullViewingKeyView,
    recipient: Address,
    value: NoteValue,
    rho: Rho,
    rseed: RandomSeed,
    r: Result<(), VerifyError>,
)
    requires
        spend.recipient == Some(recipient),
        spend.value == Some(value),
        spend.rho == Some(rho),
        spend.rseed == Some(rseed),
        expected is Some <==> expected_view is Some,
        expected is Some ==> expected_view->0 == expected->0@,
        spend.validating_key(expected_view) == Ok::<_, VerifyError>(key),
        call_ensures(Spend::verify_nullifier, (spend, expected), r),
    ensures
        ({
            let note = NoteView {
                recipient: recipient@,
                value: value.raw,
                rho: rho@,
                rseed: rseed@,
                version: spend.note_version,
            };
            let owned = key.scope_of(recipient@) is Some;
            let same = note.nullifier(key.nk) == spend.nullifier@;
            &&& r is Ok <==> note.commitment() is Some && owned && same
            &&& r == Err::<(), _>(VerifyError::InvalidSpendNote) <==> note.commitment() is None
            &&& r == Err::<(), _>(VerifyError::WrongFvkForNote) <==> note.commitment() is Some
                && !owned
            &&& r == Err::<(), _>(VerifyError::InvalidNullifier) <==> note.commitment() is Some
                && owned && !same
        }),
{
}

/// A nullifier is not judged where a key or a field is missing. The first that is missing is named:
/// the key, then the recipient, the value, rho and the seed.
pub proof fn nullifier_needs_a_key_and_all_fields(
    spend: &Spend,
    expected: Option<&FullViewingKey>,
    expected_view: Option<FullViewingKeyView>,
    r: Result<(), VerifyError>,
)
    requires
        expected is Some <==> expected_view is Some,
        expected is Some ==> expected_view->0 == expected->0@,
        call_ensures(Spend::verify_nullifier, (spend, expected), r),
    ensures
        ({
            let key = spend.validating_key(expected_view);
            &&& key is Err ==> r == Err::<(), _>(key->Err_0)
            &&& r == Err::<(), _>(VerifyError::MissingRecipient) <==> key is Ok
                && spend.recipient is None
            &&& r == Err::<(), _>(VerifyError::MissingValue) <==> key is Ok && spend.recipient
                is Some && spend.value is None
            &&& r == Err::<(), _>(VerifyError::MissingRho) <==> key is Ok && spend.recipient is Some
                && spend.value is Some && spend.rho is None
            &&& r == Err::<(), _>(VerifyError::MissingRandomSeed) <==> key is Ok && spend.recipient
                is Some && spend.value is Some && spend.rho is Some && spend.rseed is None
        }),
{
}

/// A classifier decides who owns the note only where the spend is validated under the expected key,
/// and then in place of that key: by the multiples of the address's base by its two viewing keys.
/// Otherwise the verdict is the one without a classifier, and so it is in every case where the
/// classifier was made from the expected key.
pub proof fn classifier_decides_for_the_expected_key(
    spend: &Spend,
    expected: Option<&FullViewingKey>,
    expected_view: Option<FullViewingKeyView>,
    classifier: &ScopeClassifier,
    from_expected: ScopeClassifier,
    scope: Option<Scope>,
    plain: Result<(), VerifyError>,
    without: Result<(), VerifyError>,
    with: Result<(), VerifyError>,
    with_from_expected: Result<(), VerifyError>,
)
    requires
        expected is Some <==> expected_view is Some,
        expected is Some ==> expected_view->0 == expected->0@,
        call_ensures(Spend::verify_nullifier, (spend, expected), plain),
        call_ensures(Spend::verify_nullifier_with_classifier, (spend, expected, None), without),
        call_ensures(
            Spend::verify_nullifier_with_classifier,
            (spend, expected, Some(classifier)),
            with,
        ),
        spend.recipient is Some ==> call_ensures(
            ScopeClassifier::scope_for_address,
            (classifier, &spend.recipient->0),
            scope,
        ),
        expected is Some ==> {
            &&& call_ensures(FullViewingKey::scope_classifier, (expected->0,), from_expected)
            &&& call_ensures(
                Spend::verify_nullifier_with_classifier,
                (spend, expected, Some(&from_expected)),
                with_from_expected,
            )
        },
    ensures
        without == plain,
        expected is Some ==> with_from_expected == plain,
        ({
            let key = spend.validating_key(expected_view);
            let consulted = expected is Some && key == Ok::<_, VerifyError>(expected->0@);
            &&& !consulted ==> with == plain
            &&& consulted && scope is None && spend.recipient is Some ==> with is Err
            &&& consulted && scope is Some && spend.recipient is Some && plain
                != Err::<(), _>(VerifyError::WrongFvkForNote) ==> with == plain
            &&& consulted && scope is None && spend.spent_note() is Ok ==> with == Err::<(), _>(
                VerifyError::WrongFvkForNote,
            )
            &&& consulted && scope is Some && spend.spent_note() is Ok ==> (with is Ok
                <==> spend.spent_note()->Ok_0.nullifier(expected->0@.nk) == spend.nullifier@)
        }),
{
}

/// The note that a spend's fields describe has exactly these fields, and is there where all of them
/// are set and its commitment has a value.
pub proof fn note_of_a_spend(spend: Spend, note: NoteView)
    ensures
        spend.spent_note() == Ok::<_, VerifyError>(note) <==> {
            &&& spend.recipient is Some && note.recipient == spend.recipient->0@
            &&& spend.value is Some && note.value == spend.value->0.raw
            &&& spend.rho is Some && note.rho == spend.rho->0@
            &&& spend.rseed is Some && note.rseed == spend.rseed->0@
            &&& note.version == spend.note_version
            &&& note.commitment() is Some
        },
{
}

/// Reporting progress changes no verdict. A verification that stops before the note is built
/// reports nothing, one that finds that the key does not own the note reports once, and every other
/// reports twice.
pub proof fn progress_changes_no_verdict<P: Progress>(
    spend: &Spend,
    expected: Option<&FullViewingKey>,
    classifier: Option<&ScopeClassifier>,
    progress: &mut P,
    r: Result<(), VerifyError>,
    quiet: Result<(), VerifyError>,
)
    requires
        call_ensures(
            Spend::verify_nullifier_with_progress::<P>,
            (spend, expected, classifier, progress),
            r,
        ),
        call_ensures(
            Spend::verify_nullifier_with_classifier,
            (spend, expected, classifier),
            quiet,
        ),
    ensures
        r == quiet,
        r is Ok || r == Err::<(), _>(VerifyError::InvalidNullifier) <==> final(progress).reports()
            == old(progress).reports() + 2,
        r == Err::<(), _>(VerifyError::WrongFvkForNote) <==> final(progress).reports() == old(
            progress,
        ).reports() + 1,
        final(progress).reports() >= old(progress).reports(),
        final(progress).reports() <= old(progress).reports() + 2,
{
}

/// A randomized verification key is accepted exactly where there is a key under which the spend is
/// validated and a randomizer, and the claimed key is that key's `ak` plus the randomizer's
/// multiple of the basepoint, whatever the value and whatever key is expected.
pub proof fn rk_is_accepted_where_it_is_the_randomized_key(
    spend: &Spend,
    expected: Option<&FullViewingKey>,
    r: Result<(), VerifyError>,
)
    requires
        call_ensures(Spend::verify_rk, (spend, expected), r),
    ensures
        ({
            let dummy = spend.value is Some && spend.value->0.raw == 0;
            let alpha = spend.alpha->0@;
            let blind = pallas::pallas_mul(alpha, redpallas::spend_auth_basepoint());
            let own_is_it = spend.fvk is Some && (expected is None || expected->0@ == spend.fvk->0@
                || dummy);
            let expected_is_it = spend.fvk is None && expected is Some && !dummy;
            let matches_own = spend.rk@ == pallas::pallas_add(spend.fvk->0@.ak, blind);
            let matches_expected = spend.rk@ == pallas::pallas_add(expected->0@.ak, blind);
            &&& r is Ok <==> spend.alpha is Some && (own_is_it && matches_own || expected_is_it
                && matches_expected)
            &&& r == Err::<(), _>(VerifyError::MissingSpendAuthRandomizer) <==> (own_is_it
                || expected_is_it) && spend.alpha is None
            &&& r == Err::<(), _>(VerifyError::InvalidRandomizedVerificationKey) <==> spend.alpha
                is Some && (own_is_it && !matches_own || expected_is_it && !matches_expected)
            &&& r == Err::<(), _>(VerifyError::MissingFullViewingKey) <==> spend.fvk is None && (
            expected is None || dummy)
            &&& r == Err::<(), _>(VerifyError::MismatchedFullViewingKey) <==> spend.fvk is Some
                && expected is Some && !dummy && spend.fvk->0@ != expected->0@
        }),
{
}

/// Two spends that are accepted under one key and one randomizer have one randomized key, however
/// else they differ.
pub proof fn one_key_and_randomizer_give_one_rk(
    a: &Spend,
    b: &Spend,
    fvk: &FullViewingKey,
    ra: Result<(), VerifyError>,
    rb: Result<(), VerifyError>,
)
    requires
        a.fvk is Some ==> a.fvk->0@ == fvk@,
        b.fvk is Some ==> b.fvk->0@ == fvk@,
        a.alpha is Some && b.alpha is Some && a.alpha->0@ == b.alpha->0@,
        call_ensures(Spend::verify_rk, (a, Some(fvk)), ra),
        call_ensures(Spend::verify_rk, (b, Some(fvk)), rb),
        ra is Ok && rb is Ok,
    ensures
        a.rk@ == b.rk@,
{
    rk_is_accepted_where_it_is_the_randomized_key(a, Some(fvk), ra);
    rk_is_accepted_where_it_is_the_randomized_key(b, Some(fvk), rb);
}

/// A value commitment is accepted exactly where both values and the trapdoor are set and it
/// commits, with that trapdoor, to the integer by which the spent value exceeds the created one,
/// which is negative where it falls short.
pub proof fn cv_net_is_accepted_where_it_commits_to_the_difference(
    action: &Action,
    r: Result<(), VerifyError>,
)
    requires
        call_ensures(Action::verify_cv_net, (action,), r),
    ensures
        ({
            let spent = action.spend.value->0.raw as int;
            let created = action.output.value->0.raw as int;
            let net = (spent - created) % (pallas::scalar_modulus() as int);
            let commitment = pallas::pallas_add(
                pallas::pallas_mul(
                    bytes::le_bytes(net as nat, 32),
                    pallas::pallas_hash_to_curve("z.cash:Orchard-cv"@, seq![0x76u8]),
                ),
                pallas::pallas_mul(
                    action.rcv->0@,
                    pallas::pallas_hash_to_curve("z.cash:Orchard-cv"@, seq![0x72u8]),
                ),
            );
            let values = action.spend.value is Some && action.output.value is Some;
            &&& r is Ok <==> values && action.rcv is Some && action.cv_net@ == commitment
            &&& r == Err::<(), _>(VerifyError::InvalidValueCommitment) <==> values && action.rcv
                is Some && action.cv_net@ != commitment
            &&& r == Err::<(), _>(VerifyError::MissingValueCommitTrapdoor) <==> values && action.rcv
                is None
            &&& r == Err::<(), _>(VerifyError::MissingValue) <==> !values
        }),
{
}

/// The commitment that is derived from the difference of the values is accepted, and no other is.
pub proof fn derived_cv_net_is_accepted(
    action: &Action,
    spent: NoteValue,
    created: NoteValue,
    rcv: ValueCommitTrapdoor,
    difference: ValueSum,
    derived: ValueCommitment,
    r: Result<(), VerifyError>,
)
    requires
        action.spend.value == Some(spent),
        action.output.value == Some(created),
        action.rcv == Some(rcv),
        call_ensures(NoteValue::minus, (&spent, created), difference),
        call_ensures(ValueCommitment::derive, (difference, &rcv), derived),
        call_ensures(Action::verify_cv_net, (action,), r),
    ensures
        difference.raw as int == spent.raw as int - created.raw as int,
        r is Ok <==> action.cv_net@ == derived@,
{
}

/// An output's commitment is accepted exactly where the recipient, the value and the seed are set,
/// the note with these fields, of the output's version and with the spend's nullifier for its rho,
/// has a commitment, and what is extracted from that commitment is the claimed one. The note that
/// is handed back is this note. Each refusal says which of these, in this order, fails.
pub proof fn cmx_is_accepted_where_it_is_extracted_from_the_note(
    output: &Output,
    spend: &Spend,
    r: Result<Note, VerifyError>,
)
    requires
        call_ensures(Output::verify_note_commitment, (output, spend), r),
    ensures
        ({
            let note = NoteView {
                recipient: output.recipient->0@,
                value: output.value->0.raw,
                rho: spend.nullifier@,
                rseed: output.rseed->0@,
                version: output.note_version,
            };
            let set = output.recipient is Some && output.value is Some && output.rseed is Some;
            let same = output.cmx@ == pallas::extract_p(note.commitment()->0);
            &&& r is Ok <==> set && note.commitment() is Some && same
            &&& r is Ok ==> r->Ok_0@ == note
            &&& r is Err ==> {
                let e = r->Err_0;
                &&& e == VerifyError::InvalidExtractedNoteCommitment <==> set && note.commitment()
                    is Some && !same
                &&& e == VerifyError::InvalidOutputNote <==> set && note.commitment() is None
                &&& e == VerifyError::MissingRecipient <==> output.recipient is None
                &&& e == VerifyError::MissingValue <==> output.recipient is Some && output.value
                    is None
                &&& e == VerifyError::MissingRandomSeed <==> output.recipient is Some
                    && output.value is Some && output.rseed is None
            }
        }),
{
}

/// Where a bundle that disables cross-address transfers is accepted, every action has both its
/// recipients set, and they have the same base and the same transmission key. Every such bundle is
/// accepted, and so is every bundle that permits cross-address transfers.
pub proof fn restricted_bundles_stay_at_their_addresses(
    bundle: &Bundle,
    r: Result<(), VerifyError>,
)
    requires
        call_ensures(Bundle::verify_cross_address_restriction, (bundle,), r),
    ensures
        bundle.flags.cross_address ==> r is Ok,
        !bundle.flags.cross_address ==> (r is Ok <==> forall|i: int|
            0 <= i < bundle.actions@.len() ==> {
                let action = #[trigger] bundle.actions@[i];
                &&& action.spend.recipient is Some
                &&& action.output.recipient is Some
                &&& keys::diversify_hash(action.spend.recipient->0@.d) == keys::diversify_hash(
                    action.output.recipient->0@.d,
                )
                &&& action.spend.recipient->0@.pk_d == action.output.recipient->0@.pk_d
            }),
{
    assert forall|i: int| 0 <= i < bundle.actions@.len() implies (verify::restriction_breach(
        #[trigger] bundle.actions@[i],
    ) is None <==> {
        let action = bundle.actions@[i];
        &&& action.spend.recipient is Some
        &&& action.output.recipient is Some
        &&& keys::diversify_hash(action.spend.recipient->0@.d) == keys::diversify_hash(
            action.output.recipient->0@.d,
        )
        &&& action.spend.recipient->0@.pk_d == action.output.recipient->0@.pk_d
    }) by {}
}

/// Where a bundle is refused, it disables cross-address transfers, and the error is that of its
/// first action at fault: a recipient is missing there, or both are set and differ.
pub proof fn refusal_is_of_the_first_action_at_fault(bundle: &Bundle, e: VerifyError)
    requires
        call_ensures(
            Bundle::verify_cross_address_restriction,
            (bundle,),
            Err::<(), VerifyError>(e),
        ),
    ensures
        !bundle.flags.cross_address,
        exists|i: int|
            {
                &&& 0 <= i < bundle.actions@.len()
                &&& ({
                    let action = #[trigger] bundle.actions@[i];
                    let set = action.spend.recipient is Some && action.output.recipient is Some;
                    let same = keys::diversify_hash(action.spend.recipient->0@.d)
                        == keys::diversify_hash(action.output.recipient->0@.d)
                        && action.spend.recipient->0@.pk_d == action.output.recipient->0@.pk_d;
                    &&& e == VerifyError::MissingRecipient && !set || e
                        == VerifyError::DisallowedCrossAddressTransfer && set && !same
                    &&& forall|j: int|
                        0 <= j < i ==> {
                            let before = #[trigger] bundle.actions@[j];
                            &&& before.spend.recipient is Some
                            &&& before.output.recipient is Some
                            &&& keys::diversify_hash(before.spend.recipient->0@.d)
                                == keys::diversify_hash(before.output.recipient->0@.d)
                            &&& before.spend.recipient->0@.pk_d == before.output.recipient->0@.pk_d
                        }
                })
            },
{
    let i = choose|i: int|
        {
            &&& 0 <= i < bundle.actions@.len()
            &&& verify::restriction_breach(#[trigger] bundle.actions@[i]) == Some(e)
            &&& forall|j: int|
                0 <= j < i ==> verify::restriction_breach(#[trigger] bundle.actions@[j]) is None
        };
    let action = bundle.actions@[i];
    assert(verify::restriction_breach(action) == Some(e));
}

/// The comparisons with derived values accept exactly the equal ones, and a scope is owned exactly
/// where there is one.
pub proof fn comparisons_accept_what_is_equal(
    nf: [Nullifier; 2],
    rk: [VerificationKey; 2],
    cv: [ValueCommitment; 2],
    cmx: [ExtractedNoteCommitment; 2],
    scope: Option<Scope>,
    r: [Result<(), VerifyError>; 5],
)
    requires
        call_ensures(check_nullifier, (&nf[0], &nf[1]), r[0]),
        call_ensures(check_rk, (&rk[0], &rk[1]), r[1]),
        call_ensures(check_cv_net, (&cv[0], &cv[1]), r[2]),
        call_ensures(check_cmx, (&cmx[0], &cmx[1]), r[3]),
        call_ensures(check_owned, (scope,), r[4]),
    ensures
        r[0] is Ok <==> nf[0]@ == nf[1]@,
        r[1] is Ok <==> rk[0]@ == rk[1]@,
        r[2] is Ok <==> cv[0]@ == cv[1]@,
        r[3] is Ok <==> cmx[0]@ == cmx[1]@,
        r[4] is Ok <==> scope is Some,
        r[0] is Err ==> r[0]->Err_0 == VerifyError::InvalidNullifier,
        r[1] is Err ==> r[1]->Err_0 == VerifyError::InvalidRandomizedVerificationKey,
        r[2] is Err ==> r[2]->Err_0 == VerifyError::InvalidValueCommitment,
        r[3] is Err ==> r[3]->Err_0 == VerifyError::InvalidExtractedNoteCommitment,
        r[4] is Err ==> r[4]->Err_0 == VerifyError::WrongFvkForNote,
{
}

/// Each report to a callback calls its function, in the state in which it can be called, and leaves
/// it the same function. Making a callback calls nothing yet, and keeps the function that it is
/// given.
pub proof fn reports_call_the_function<F: FnMut()>(
    f: F,
    made: Callback<F>,
    callback: &mut Callback<F>,
)
    requires
        call_ensures(Callback::<F>::new, (f,), made),
        call_ensures(<Callback<F> as Progress>::report, (callback,), ()),
    ensures
        made.function() == f,
        made.reports() == 0,
        made.listens() == call_requires(f, ()),
        call_ensures(old(callback).function(), (), ()),
        final(callback).function() == old(callback).function(),
        final(callback).reports() == old(callback).reports() + 1,
{
}

/// What is read from a partially created action is what it holds.
pub proof fn accessors_read_the_fields(
    flags: &Flags,
    action: &Action,
    output: &Output,
    enabled: bool,
    got_spend: &Spend,
    got_output: &Output,
    cmx: &ExtractedNoteCommitment,
    note: &TransmittedNoteCiphertext,
)
    requires
        call_ensures(Flags::cross_address_enabled, (flags,), enabled),
        call_ensures(Action::spend, (action,), got_spend),
        call_ensures(Action::output, (action,), got_output),
        call_ensures(Output::cmx, (output,), cmx),
        call_ensures(Output::encrypted_note, (output,), note),
    ensures
        enabled == flags.cross_address,
        *got_spend == action.spend,
        *got_output == action.output,
        cmx@ == output.cmx@,
        note@ == output.encrypted_note@,
{
}

} // verus!
