//! What holds of the checks on a partially created bundle.

use vstd::prelude::*;

use crate::keys::{FullViewingKeyView, ScopeClassifier};
use crate::note::NoteView;
use crate::pczt::{Action, Output, Spend};
use crate::pczt::verify;
use crate::pczt::verify::VerifyError;

verus! {

/// A classifier for the expected key changes neither the verdict on a nullifier nor the number of
/// steps that are reported, whichever key the spend is validated under.
pub proof fn classifier_keeps_verdict(
    spend: Spend,
    expected: FullViewingKeyView,
    classifier: ScopeClassifier,
)
    requires
        classifier.classifies_for(expected),
    ensures
        spend.nullifier_verdict(Some(expected), Some(classifier)) == spend.nullifier_verdict(
            Some(expected),
            None,
        ),
        spend.nullifier_reports(Some(expected), Some(classifier)) == spend.nullifier_reports(
            Some(expected),
            None,
        ),
{
}

/// Where no key is expected, or the spend is validated under another key than the expected one, no
/// classifier is consulted.
pub proof fn classifier_is_for_expected_key(
    spend: Spend,
    expected: Option<FullViewingKeyView>,
    classifier: ScopeClassifier,
)
    requires
        expected is Some ==> spend.validating_key(expected) != Ok::<_, VerifyError>(expected->0),
    ensures
        spend.nullifier_verdict(expected, Some(classifier)) == spend.nullifier_verdict(
            expected,
            None,
        ),
        spend.nullifier_reports(expected, Some(classifier)) == spend.nullifier_reports(
            expected,
            None,
        ),
{
}

/// A dummy spend, of value zero, is judged under its own key, whatever key is expected, and where
/// it has none, it is refused.
pub proof fn dummy_spend_ignores_expected_key(spend: Spend, expected: FullViewingKeyView)
    requires
        spend.is_dummy(),
    ensures
        spend.fvk is None ==> spend.nullifier_verdict(Some(expected), None) == Err::<(), _>(
            VerifyError::MissingFullViewingKey,
        ) && spend.rk_verdict(Some(expected)) == Err::<(), _>(VerifyError::MissingFullViewingKey),
        spend.nullifier_verdict(Some(expected), None) == spend.nullifier_verdict(None, None),
        spend.rk_verdict(Some(expected)) == spend.rk_verdict(None),
{
}

/// A spend that is not known to be a dummy, and whose own key is not the expected one, is refused
/// by both checks.
pub proof fn other_key_is_refused(
    spend: Spend,
    expected: FullViewingKeyView,
    classifier: Option<ScopeClassifier>,
)
    requires
        !spend.is_dummy(),
        spend.fvk is Some,
        spend.fvk->0@ != expected,
    ensures
        spend.nullifier_verdict(Some(expected), classifier) == Err::<(), _>(
            VerifyError::MismatchedFullViewingKey,
        ),
        spend.rk_verdict(Some(expected)) == Err::<(), _>(VerifyError::MismatchedFullViewingKey),
{
}

/// A nullifier that is accepted without a classifier is that of the note that the spend describes,
/// under a key that has the note's address.
pub proof fn accepted_nullifier_is_of_owned_note(spend: Spend, expected: Option<FullViewingKeyView>)
    requires
        spend.nullifier_verdict(expected, None) is Ok,
    ensures
        spend.validating_key(expected) is Ok,
        spend.spent_note() is Ok,
        ({
            let fvk = spend.validating_key(expected)->Ok_0;
            let note = spend.spent_note()->Ok_0;
            &&& fvk.scope_of(note.recipient) is Some
            &&& note.nullifier(fvk.nk) == spend.nullifier@
        }),
{
}

/// The note that the check of an output's commitment hands back has that commitment, is made
/// unique by the nullifier of the same action's spend, and has the version that the output claims.
pub proof fn verified_note_is_committed_to(output: Output, spend: Spend, note: NoteView)
    requires
        output.commitment_verdict(spend) == Ok::<_, VerifyError>(note),
    ensures
        note.commitment() is Some,
        note.cmx() == output.cmx@,
        note.rho == spend.nullifier@,
        note.version == output.note_version,
        output.recipient is Some && note.recipient == output.recipient->0@,
        output.value is Some && note.value == output.value->0.raw,
        output.rseed is Some && note.rseed == output.rseed->0@,
{
}

/// An action whose output goes to the address that it spends from keeps the restriction to one
/// address.
pub proof fn same_address_keeps_restriction(action: Action)
    requires
        action.spend.recipient is Some,
        action.output.recipient is Some,
        action.spend.recipient->0@ == action.output.recipient->0@,
    ensures
        verify::restriction_breach(action) is None,
{
}

} // verus!
