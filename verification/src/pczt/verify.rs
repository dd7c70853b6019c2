//! The checks that a signer makes on a partially created bundle.

use vstd::prelude::*;

use crate::address::AddressView;
use crate::bytes::bytes_eq;
use crate::keys;
use crate::keys::{
    FullViewingKey, FullViewingKeyView, Scope, ScopeClassifier, SpendValidatingKey,
    VerificationKey,
};
use crate::note::{ExtractedNoteCommitment, Note, NoteView, Nullifier, Rho};
use crate::pczt::{Action, Bundle, Output, Spend};
use crate::value;
use crate::value::ValueCommitment;

verus! {

/// Errors that can occur while verifying a partially created bundle.
#[derive(Clone, Copy, PartialEq, Eq, Structural, Debug)]
#[non_exhaustive]
pub enum VerifyError {
    /// An action's output is addressed differently than its spent note, but the bundle's pool
    /// restriction disables cross-address transfers.
    DisallowedCrossAddressTransfer,
    /// The output note's components do not produce the expected `cmx`.
    InvalidExtractedNoteCommitment,
    /// The spent note's components do not produce the expected `nullifier`.
    InvalidNullifier,
    /// The output note's components do not produce a valid note commitment.
    InvalidOutputNote,
    /// The Spend's FVK and `alpha` do not produce the expected `rk`.
    InvalidRandomizedVerificationKey,
    /// The spent note's components do not produce a valid note commitment.
    InvalidSpendNote,
    /// The action's `cv_net` does not match the provided note values and `rcv`.
    InvalidValueCommitment,
    /// The spend or output's `fvk` field does not match the provided FVK.
    MismatchedFullViewingKey,
    /// Dummy notes must have their `fvk` field set in order to be verified.
    MissingFullViewingKey,
    /// `nullifier` verification requires `rseed` to be set.
    MissingRandomSeed,
    /// Verification requires `recipient` to be set.
    MissingRecipient,
    /// `nullifier` verification requires `rho` to be set.
    MissingRho,
    /// `rk` verification requires `alpha` to be set.
    MissingSpendAuthRandomizer,
    /// Verification requires all `value` fields to be set.
    MissingValue,
    /// `cv_net` verification requires `rcv` to be set.
    MissingValueCommitTrapdoor,
    /// The provided `fvk` does not own the spent note.
    WrongFvkForNote,
}

impl VerifyError {
    /// What this error says to a reader.
    pub open spec fn text(self) -> Seq<char> {
        match self {
            VerifyError::DisallowedCrossAddressTransfer =>
                "an action outputs to a different expanded receiver than it spends from, but the bundle disables cross-address transfers"@,
            VerifyError::InvalidExtractedNoteCommitment => "output note doesn't match `cmx`"@,
            VerifyError::InvalidNullifier => "spent note doesn't match `nullifier`"@,
            VerifyError::InvalidOutputNote => "invalid output note"@,
            VerifyError::InvalidRandomizedVerificationKey =>
                "spend's `fvk` and `alpha` do not match `rk`"@,
            VerifyError::InvalidSpendNote => "invalid spent note"@,
            VerifyError::InvalidValueCommitment =>
                "`cv_net` doesn't match the note values and `rcv`"@,
            VerifyError::MismatchedFullViewingKey =>
                "Provided full viewing key doesn't match the `fvk` field"@,
            VerifyError::MissingFullViewingKey => "`fvk` missing for dummy note"@,
            VerifyError::MissingRandomSeed => "`rseed` missing for `nullifier` verification"@,
            VerifyError::MissingRecipient => "`recipient` missing for verification"@,
            VerifyError::MissingRho => "`rho` missing for `nullifier` verification"@,
            VerifyError::MissingSpendAuthRandomizer => "`alpha` missing for `rk` verification"@,
            VerifyError::MissingValue => "`value` missing"@,
            VerifyError::MissingValueCommitTrapdoor => "`rcv` missing for `cv_net` verification"@,
            VerifyError::WrongFvkForNote => "`fvk` does not own the action's spent note"@,
        }
    }

    /// What this error says to a reader.
    pub fn to_string(&self) -> (r: String)
        ensures
            r@ == self.text(),
    {
        let text: &str = match self {
            VerifyError::DisallowedCrossAddressTransfer =>
                "an action outputs to a different expanded receiver than it spends from, but the bundle disables cross-address transfers",
            VerifyError::InvalidExtractedNoteCommitment => "output note doesn't match `cmx`",
            VerifyError::InvalidNullifier => "spent note doesn't match `nullifier`",
            VerifyError::InvalidOutputNote => "invalid output note",
            VerifyError::InvalidRandomizedVerificationKey =>
                "spend's `fvk` and `alpha` do not match `rk`",
            VerifyError::InvalidSpendNote => "invalid spent note",
            VerifyError::InvalidValueCommitment =>
                "`cv_net` doesn't match the note values and `rcv`",
            VerifyError::MismatchedFullViewingKey =>
                "Provided full viewing key doesn't match the `fvk` field",
            VerifyError::MissingFullViewingKey => "`fvk` missing for dummy note",
            VerifyError::MissingRandomSeed => "`rseed` missing for `nullifier` verification",
            VerifyError::MissingRecipient => "`recipient` missing for verification",
            VerifyError::MissingRho => "`rho` missing for `nullifier` verification",
            VerifyError::MissingSpendAuthRandomizer => "`alpha` missing for `rk` verification",
            VerifyError::MissingValue => "`value` missing",
            VerifyError::MissingValueCommitTrapdoor => "`rcv` missing for `cv_net` verification",
            VerifyError::WrongFvkForNote => "`fvk` does not own the action's spent note",
        };
        text.to_string()
    }
}

/// Whoever is told how far a long verification has come.
pub trait Progress {
    /// The number of reports so far.
    spec fn reports(&self) -> nat;

    /// Whether reports can be made.
    spec fn listens(&self) -> bool;

    /// Takes one report.
    fn report(&mut self)
        requires
            old(self).listens(),
        ensures
            final(self).listens(),
            final(self).reports() == old(self).reports() + 1,
    ;
}

/// Nobody: takes reports and does nothing.
pub struct NoProgress {
    count: Ghost<nat>,
}

impl NoProgress {
    /// Nobody, with no report so far.
    pub fn new() -> (r: Self)
        ensures
            r.reports() == 0,
    {
        NoProgress { count: Ghost(0) }
    }
}

impl Progress for NoProgress {
    closed spec fn reports(&self) -> nat {
        self.count@
    }

    open spec fn listens(&self) -> bool {
        true
    }

    fn report(&mut self) {
        self.count = Ghost(self.count@ + 1);
    }
}

/// A function that is called at each report.
pub struct Callback<F: FnMut()> {
    f: F,
    count: Ghost<nat>,
}

impl<F: FnMut()> Callback<F> {
    /// The function that is called.
    pub closed spec fn function(&self) -> F {
        self.f
    }

    /// The function `f`, with no report so far.
    pub fn new(f: F) -> (r: Self)
        ensures
            r.function() == f,
            r.reports() == 0,
            r.listens() == call_requires(f, ()),
    {
        Callback { f, count: Ghost(0) }
    }
}

impl<F: FnMut()> Progress for Callback<F> {
    closed spec fn reports(&self) -> nat {
        self.count@
    }

    closed spec fn listens(&self) -> bool {
        call_requires(self.f, ())
    }

    fn report(&mut self)
        ensures
            call_ensures(old(self).function(), (), ()),
            final(self).function() == old(self).function(),
    {
        (self.f)();
        self.count = Ghost(self.count@ + 1);
    }
}

impl Spend {
    /// Whether the note that is spent is known to be a dummy note, of value zero.
    pub open spec fn is_dummy(self) -> bool {
        self.value is Some && self.value->0.raw == 0
    }

    /// The full viewing key under which this spend is validated: its own, where it equals the
    /// expected one, where no key is expected, or where the note is a dummy note; and the expected
    /// one, where this spend has none and the note is not a dummy note. No key but its own
    /// validates a dummy note.
    pub open spec fn validating_key(self, expected: Option<FullViewingKeyView>) -> Result<
        FullViewingKeyView,
        VerifyError,
    > {
        match (expected, self.fvk) {
            (Some(expected), Some(fvk)) => if fvk@ == expected || self.is_dummy() {
                Ok(fvk@)
            } else {
                Err(VerifyError::MismatchedFullViewingKey)
            },
            (Some(expected), None) => if self.is_dummy() {
                Err(VerifyError::MissingFullViewingKey)
            } else {
                Ok(expected)
            },
            (None, Some(fvk)) => Ok(fvk@),
            (None, None) => Err(VerifyError::MissingFullViewingKey),
        }
    }

    /// The note that this spend's fields describe.
    pub open spec fn spent_note(self) -> Result<NoteView, VerifyError> {
        match (self.recipient, self.value, self.rho, self.rseed) {
            (None, _, _, _) => Err(VerifyError::MissingRecipient),
            (_, None, _, _) => Err(VerifyError::MissingValue),
            (_, _, None, _) => Err(VerifyError::MissingRho),
            (_, _, _, None) => Err(VerifyError::MissingRandomSeed),
            (Some(recipient), Some(value), Some(rho), Some(rseed)) => {
                let note = NoteView {
                    recipient: recipient@,
                    value: value.raw,
                    rho: rho@,
                    rseed: rseed@,
                    version: self.note_version,
                };
                if note.commitment() is Some {
                    Ok(note)
                } else {
                    Err(VerifyError::InvalidSpendNote)
                }
            },
        }
    }

    /// The verdict on this spend's nullifier.
    pub open spec fn nullifier_verdict(
        self,
        expected: Option<FullViewingKeyView>,
        classifier: Option<ScopeClassifier>,
    ) -> Result<(), VerifyError> {
        match (self.validating_key(expected), self.spent_note()) {
            (Err(e), _) => Err(e),
            (_, Err(e)) => Err(e),
            (Ok(fvk), Ok(note)) => if owner_scope(fvk, expected, classifier, note.recipient)
                is None {
                Err(VerifyError::WrongFvkForNote)
            } else if note.nullifier(fvk.nk) != self.nullifier@ {
                Err(VerifyError::InvalidNullifier)
            } else {
                Ok(())
            },
        }
    }

    /// The number of steps that verifying this spend's nullifier reports: one once the note is
    /// built, and one more once its owner is known.
    pub open spec fn nullifier_reports(
        self,
        expected: Option<FullViewingKeyView>,
        classifier: Option<ScopeClassifier>,
    ) -> nat {
        match (self.validating_key(expected), self.spent_note()) {
            (Ok(fvk), Ok(note)) => if owner_scope(fvk, expected, classifier, note.recipient)
                is None {
                1
            } else {
                2
            },
            _ => 0,
        }
    }

    /// The verdict on this spend's randomized verification key.
    pub open spec fn rk_verdict(self, expected: Option<FullViewingKeyView>) -> Result<
        (),
        VerifyError,
    > {
        match (self.validating_key(expected), self.alpha) {
            (Err(e), _) => Err(e),
            (_, None) => Err(VerifyError::MissingSpendAuthRandomizer),
            (Ok(fvk), Some(alpha)) => if keys::randomized_key(fvk.ak, alpha@) == self.rk@ {
                Ok(())
            } else {
                Err(VerifyError::InvalidRandomizedVerificationKey)
            },
        }
    }
}

/// The scope in which the key under which a spend is validated has the address of the note: what
/// the classifier says, where that key is the expected one, and else what the key itself says.
pub open spec fn owner_scope(
    fvk: FullViewingKeyView,
    expected: Option<FullViewingKeyView>,
    classifier: Option<ScopeClassifier>,
    address: AddressView,
) -> Option<Scope> {
    match (classifier, expected) {
        (Some(classifier), Some(expected)) if fvk == expected => keys::scope_of_ivks(
            classifier.external(),
            classifier.internal(),
            address,
        ),
        _ => fvk.scope_of(address),
    }
}

/// The parts of a key that may be given.
pub open spec fn view_of(fvk: Option<&FullViewingKey>) -> Option<FullViewingKeyView> {
    match fvk {
        Some(fvk) => Some(fvk@),
        None => None,
    }
}

/// The classifier that may be given.
pub open spec fn classifier_of(classifier: Option<&ScopeClassifier>) -> Option<ScopeClassifier> {
    match classifier {
        Some(classifier) => Some(*classifier),
        None => None,
    }
}

impl Spend {
    /// Returns the [`FullViewingKey`] to use when validating this note.
    ///
    /// Handles dummy notes when the `value` field is set.
    fn fvk_for_validation<'a>(&'a self, expected_fvk: Option<&'a FullViewingKey>) -> (r: Result<
        &'a FullViewingKey,
        VerifyError,
    >)
        ensures
            match r {
                Ok(fvk) => self.validating_key(view_of(expected_fvk)) == Ok::<_, VerifyError>(fvk@),
                Err(e) => self.validating_key(view_of(expected_fvk)) == Err::<
                    FullViewingKeyView,
                    _,
                >(e),
            },
    {
        match (expected_fvk, self.fvk.as_ref(), self.value.as_ref()) {
            (Some(expected_fvk), Some(fvk), _) if *fvk == *expected_fvk => Ok(fvk),
            // The expected key is ignored where the spent note is a dummy note.
            (Some(_), Some(fvk), Some(value)) if value.inner() == 0 => Ok(fvk),
            (Some(_), Some(_), _) => Err(VerifyError::MismatchedFullViewingKey),
            (Some(_), None, Some(value)) if value.inner() == 0 => {
                Err(VerifyError::MissingFullViewingKey)
            },
            (Some(expected_fvk), None, _) => Ok(expected_fvk),
            (None, Some(fvk), _) => Ok(fvk),
            (None, None, _) => Err(VerifyError::MissingFullViewingKey),
        }
    }

    /// Verifies that the `nullifier` field is consistent with the note fields.
    ///
    /// Requires that the following optional fields are set:
    /// - `recipient`
    /// - `value`
    /// - `rho`
    /// - `rseed`
    ///
    /// In addition, at least one of the `fvk` field or `expected_fvk` must be provided, and for a
    /// dummy note the `fvk` field.
    ///
    /// The provided [`FullViewingKey`] is ignored if the spent note is a dummy note.
    /// Otherwise, it will be checked against the `fvk` field (if both are set).
    pub fn verify_nullifier(&self, expected_fvk: Option<&FullViewingKey>) -> (r: Result<
        (),
        VerifyError,
    >)
        ensures
            r == self.nullifier_verdict(view_of(expected_fvk), None),
    {
        self.verify_nullifier_with_classifier(expected_fvk, None)
    }

    /// Like [`Spend::verify_nullifier`], but reuses a cached [`ScopeClassifier`] for the check that
    /// the key owns the note, so that no incoming viewing key is computed for each action.
    ///
    /// The classifier is used only where the key under which the spend is validated is the expected
    /// one. A dummy spend is validated under its own key, which a classifier for the expected key
    /// knows nothing of.
    pub fn verify_nullifier_with_classifier(
        &self,
        expected_fvk: Option<&FullViewingKey>,
        classifier: Option<&ScopeClassifier>,
    ) -> (r: Result<(), VerifyError>)
        ensures
            r == self.nullifier_verdict(view_of(expected_fvk), classifier_of(classifier)),
    {
        let mut nobody = NoProgress::new();
        self.verify_nullifier_with_progress(expected_fvk, classifier, &mut nobody)
    }

    /// [`Spend::verify_nullifier_with_classifier`], reporting to `progress` between its three
    /// expensive steps (the spent note's commitment, the check that the key owns the note, and the
    /// nullifier derivation), for a caller on a slow device that must show progress while it runs.
    /// The checks are unchanged.
    pub fn verify_nullifier_with_progress<P: Progress>(
        &self,
        expected_fvk: Option<&FullViewingKey>,
        classifier: Option<&ScopeClassifier>,
        progress: &mut P,
    ) -> (r: Result<(), VerifyError>)
        requires
            old(progress).listens(),
        ensures
            r == self.nullifier_verdict(view_of(expected_fvk), classifier_of(classifier)),
            final(progress).reports() == old(progress).reports() + self.nullifier_reports(
                view_of(expected_fvk),
                classifier_of(classifier),
            ),
    {
        let fvk = match self.fvk_for_validation(expected_fvk) {
            Ok(fvk) => fvk,
            Err(e) => return Err(e),
        };

        // The commitment is computed once: building the note needs it, and so does the nullifier.
        let recipient = match self.recipient {
            Some(recipient) => recipient,
            None => return Err(VerifyError::MissingRecipient),
        };
        let value = match self.value {
            Some(value) => value,
            None => return Err(VerifyError::MissingValue),
        };
        let rho = match self.rho {
            Some(rho) => rho,
            None => return Err(VerifyError::MissingRho),
        };
        let rseed = match self.rseed {
            Some(rseed) => rseed,
            None => return Err(VerifyError::MissingRandomSeed),
        };
        let (note, cm_old) = match Note::from_parts_with_commitment(
            recipient,
            value,
            rho,
            rseed,
            self.note_version,
        ) {
            Some(built) => built,
            None => return Err(VerifyError::InvalidSpendNote),
        };
        progress.report();

        // The nullifier only depends on `nk` within the key, so the check that the key owns the
        // note is a separate one.
        let scope = match (classifier, expected_fvk) {
            (Some(classifier), Some(expected)) if *fvk == *expected => {
                classifier.scope_for_address(&note.recipient())
            },
            _ => fvk.scope_for_address(&note.recipient()),
        };
        match check_owned(scope) {
            Ok(()) => {},
            Err(e) => return Err(e),
        }
        progress.report();

        check_nullifier(&self.nullifier, &note.nullifier_with_commitment(fvk, &cm_old))
    }

    /// Verifies that the `rk` field is consistent with the given FVK.
    ///
    /// Requires that the following optional fields are set:
    /// - `alpha`
    ///
    /// The provided [`FullViewingKey`] is ignored if the spent note is a dummy note
    /// (which can only be determined if the `value` field is set). Otherwise, it will be
    /// checked against the `fvk` field (if set).
    pub fn verify_rk(&self, expected_fvk: Option<&FullViewingKey>) -> (r: Result<(), VerifyError>)
        ensures
            r == self.rk_verdict(view_of(expected_fvk)),
    {
        let fvk = match self.fvk_for_validation(expected_fvk) {
            Ok(fvk) => fvk,
            Err(e) => return Err(e),
        };
        let ak = SpendValidatingKey::from_fvk(fvk);
        match self.alpha.as_ref() {
            Some(alpha) => check_rk(&self.rk, &ak.randomize(alpha)),
            None => Err(VerifyError::MissingSpendAuthRandomizer),
        }
    }
}

/// Whether a key owns a note, given the scope, if any, in which it has the note's address.
pub fn check_owned(scope: Option<Scope>) -> (r: Result<(), VerifyError>)
    ensures
        r == if scope is Some {
            Ok(())
        } else {
            Err(VerifyError::WrongFvkForNote)
        },
{
    match scope {
        Some(_) => Ok(()),
        None => Err(VerifyError::WrongFvkForNote),
    }
}

/// Holds a nullifier against the one that was derived from the note.
pub fn check_nullifier(nullifier: &Nullifier, derived: &Nullifier) -> (r: Result<(), VerifyError>)
    ensures
        r == if derived@ == nullifier@ {
            Ok(())
        } else {
            Err(VerifyError::InvalidNullifier)
        },
{
    if *derived == *nullifier {
        Ok(())
    } else {
        Err(VerifyError::InvalidNullifier)
    }
}

/// Holds a randomized verification key against the one that was derived from the viewing key.
pub fn check_rk(rk: &VerificationKey, derived: &VerificationKey) -> (r: Result<(), VerifyError>)
    ensures
        r == if derived@ == rk@ {
            Ok(())
        } else {
            Err(VerifyError::InvalidRandomizedVerificationKey)
        },
{
    if *derived == *rk {
        Ok(())
    } else {
        Err(VerifyError::InvalidRandomizedVerificationKey)
    }
}

impl Action {
    /// The verdict on this action's value commitment.
    pub open spec fn cv_net_verdict(self) -> Result<(), VerifyError> {
        match (self.spend.value, self.output.value, self.rcv) {
            (Some(spend_value), Some(output_value), Some(rcv)) => if value::value_commitment(
                spend_value.raw - output_value.raw,
                rcv@,
            ) == self.cv_net@ {
                Ok(())
            } else {
                Err(VerifyError::InvalidValueCommitment)
            },
            (Some(_), Some(_), None) => Err(VerifyError::MissingValueCommitTrapdoor),
            _ => Err(VerifyError::MissingValue),
        }
    }

    /// Verifies that the `cv_net` field is consistent with the note fields.
    ///
    /// Requires that the following optional fields are set:
    /// - `spend.value`
    /// - `output.value`
    /// - `rcv`
    pub fn verify_cv_net(&self) -> (r: Result<(), VerifyError>)
        ensures
            r == self.cv_net_verdict(),
    {
        let spend_value = match self.spend().value {
            Some(value) => value,
            None => return Err(VerifyError::MissingValue),
        };
        let output_value = match self.output().value {
            Some(value) => value,
            None => return Err(VerifyError::MissingValue),
        };
        let rcv = match self.rcv.as_ref() {
            Some(rcv) => rcv,
            None => return Err(VerifyError::MissingValueCommitTrapdoor),
        };

        let cv_net = ValueCommitment::derive(spend_value.minus(output_value), rcv);
        check_cv_net(&self.cv_net, &cv_net)
    }
}

/// Holds a value commitment against the one that was derived from the values and the trapdoor.
pub fn check_cv_net(cv_net: &ValueCommitment, derived: &ValueCommitment) -> (r: Result<
    (),
    VerifyError,
>)
    ensures
        r == if derived@ == cv_net@ {
            Ok(())
        } else {
            Err(VerifyError::InvalidValueCommitment)
        },
{
    if bytes_eq(&derived.to_bytes(), &cv_net.to_bytes()) {
        Ok(())
    } else {
        Err(VerifyError::InvalidValueCommitment)
    }
}

impl Output {
    /// The note that this output's fields and the spend of the same action describe.
    pub open spec fn created_note(self, spend: Spend) -> Result<NoteView, VerifyError> {
        match (self.recipient, self.value, self.rseed) {
            (None, _, _) => Err(VerifyError::MissingRecipient),
            (_, None, _) => Err(VerifyError::MissingValue),
            (_, _, None) => Err(VerifyError::MissingRandomSeed),
            (Some(recipient), Some(value), Some(rseed)) => {
                let note = NoteView {
                    recipient: recipient@,
                    value: value.raw,
                    rho: spend.nullifier@,
                    rseed: rseed@,
                    version: self.note_version,
                };
                if note.commitment() is Some {
                    Ok(note)
                } else {
                    Err(VerifyError::InvalidOutputNote)
                }
            },
        }
    }

    /// The verdict on this output's extracted note commitment, with the note where it is accepted.
    pub open spec fn commitment_verdict(self, spend: Spend) -> Result<NoteView, VerifyError> {
        match self.created_note(spend) {
            Ok(note) => if note.cmx() == self.cmx@ {
                Ok(note)
            } else {
                Err(VerifyError::InvalidExtractedNoteCommitment)
            },
            Err(e) => Err(e),
        }
    }

    /// Verifies that the `cmx` field is consistent with the note fields.
    ///
    /// Requires that the following optional fields are set:
    /// - `recipient`
    /// - `value`
    /// - `rseed`
    ///
    /// `spend` must be the Spend from the same Orchard action.
    ///
    /// Returns the note whose commitment was found to be `cmx`, so that the caller can bind what it
    /// recovers from the ciphertext to it.
    pub fn verify_note_commitment(&self, spend: &Spend) -> (r: Result<Note, VerifyError>)
        ensures
            match r {
                Ok(note) => self.commitment_verdict(*spend) == Ok::<_, VerifyError>(note@)
                    && note@.is_valid(),
                Err(e) => self.commitment_verdict(*spend) == Err::<NoteView, _>(e),
            },
    {
        // The commitment is computed once: building the note needs it, and so does the comparison.
        let recipient = match self.recipient {
            Some(recipient) => recipient,
            None => return Err(VerifyError::MissingRecipient),
        };
        let value = match self.value {
            Some(value) => value,
            None => return Err(VerifyError::MissingValue),
        };
        let rseed = match self.rseed {
            Some(rseed) => rseed,
            None => return Err(VerifyError::MissingRandomSeed),
        };
        let (note, cm) = match Note::from_parts_with_commitment(
            recipient,
            value,
            Rho::from_nf_old(spend.nullifier),
            rseed,
            self.note_version,
        ) {
            Some(built) => built,
            None => return Err(VerifyError::InvalidOutputNote),
        };

        match check_cmx(&self.cmx, &ExtractedNoteCommitment::from_commitment(&cm)) {
            Ok(()) => Ok(note),
            Err(e) => Err(e),
        }
    }
}

/// Holds an extracted note commitment against the one that was derived from the note.
pub fn check_cmx(cmx: &ExtractedNoteCommitment, derived: &ExtractedNoteCommitment) -> (r: Result<
    (),
    VerifyError,
>)
    ensures
        r == if derived@ == cmx@ {
            Ok(())
        } else {
            Err(VerifyError::InvalidExtractedNoteCommitment)
        },
{
    if *derived == *cmx {
        Ok(())
    } else {
        Err(VerifyError::InvalidExtractedNoteCommitment)
    }
}

/// How an action breaks the restriction to one address, if it does.
pub open spec fn restriction_breach(action: Action) -> Option<VerifyError> {
    match (action.spend.recipient, action.output.recipient) {
        (Some(from), Some(to)) => if from@.same_expanded_receiver(to@) {
            None
        } else {
            Some(VerifyError::DisallowedCrossAddressTransfer)
        },
        _ => Some(VerifyError::MissingRecipient),
    }
}

impl Bundle {
    /// If this bundle disables cross-address transfers, verifies that every action's
    /// output is addressed to the same expanded receiver (`(g_d, pk_d)`) as its spent
    /// note. This is a no-op for bundles that permit cross-address transfers.
    ///
    /// When the restriction applies, it requires `spend.recipient` and `output.recipient`
    /// to be set on every action. Signers should always call this before signing. The error is
    /// that of the first action that breaks the restriction.
    pub fn verify_cross_address_restriction(&self) -> (r: Result<(), VerifyError>)
        ensures
            r is Ok <==> self.flags.cross_address || forall|i: int|
                0 <= i < self.actions@.len() ==> restriction_breach(#[trigger] self.actions@[i])
                    is None,
            r matches Err(e) ==> exists|i: int|
                {
                    &&& 0 <= i < self.actions@.len()
                    &&& restriction_breach(#[trigger] self.actions@[i]) == Some(e)
                    &&& forall|j: int|
                        0 <= j < i ==> restriction_breach(#[trigger] self.actions@[j]) is None
                },
    {
        if !self.flags.cross_address_enabled() {
            let mut i: usize = 0;
            while i < self.actions.len()
                invariant
                    i <= self.actions@.len(),
                    !self.flags.cross_address,
                    forall|j: int|
                        0 <= j < i ==> restriction_breach(#[trigger] self.actions@[j]) is None,
                decreases self.actions@.len() - i,
            {
                let action = &self.actions[i];
                assert(*action == self.actions@[i as int]);
                let spend_recipient = match action.spend.recipient {
                    Some(recipient) => recipient,
                    None => return Err(VerifyError::MissingRecipient),
                };
                let output_recipient = match action.output.recipient {
                    Some(recipient) => recipient,
                    None => return Err(VerifyError::MissingRecipient),
                };
                if !spend_recipient.same_expanded_receiver(&output_recipient) {
                    return Err(VerifyError::DisallowedCrossAddressTransfer);
                }
                i = i + 1;
            }
        }
        Ok(())
    }
}

} // verus!
