//! Partially created bundles: what the parties to a transaction pass on to each other until it is
//! complete.

use vstd::prelude::*;

use crate::address::Address;
use crate::keys::{FullViewingKey, SpendAuthRandomizer, VerificationKey};
use crate::note::{
    ExtractedNoteCommitment, NoteVersion, Nullifier, RandomSeed, Rho, TransmittedNoteCiphertext,
};
use crate::value::{NoteValue, ValueCommitTrapdoor, ValueCommitment};

pub mod laws;
pub mod outcomes;
pub mod verify;

verus! {

/// What a bundle permits.
#[derive(Clone, Copy, PartialEq, Eq, Structural, Debug)]
pub struct Flags {
    /// Whether an action may create a note for another address than the one it spends from.
    pub cross_address: bool,
}

impl Flags {
    /// Whether an action may create a note for another address than the one it spends from.
    pub fn cross_address_enabled(&self) -> (r: bool)
        ensures
            r == self.cross_address,
    {
        self.cross_address
    }
}

/// A partially created bundle.
#[derive(Clone, Debug)]
pub struct Bundle {
    /// The actions of the bundle.
    pub actions: Vec<Action>,
    /// What the bundle permits.
    pub flags: Flags,
}

/// A partially created action.
#[derive(Clone, Copy, Debug)]
pub struct Action {
    /// The note that is spent.
    pub spend: Spend,
    /// The note that is created.
    pub output: Output,
    /// The commitment to the net value.
    pub cv_net: ValueCommitment,
    /// The trapdoor of `cv_net`.
    pub rcv: Option<ValueCommitTrapdoor>,
}

impl Action {
    /// The note that is spent.
    pub fn spend(&self) -> (r: &Spend)
        ensures
            *r == self.spend,
    {
        &self.spend
    }

    /// The note that is created.
    pub fn output(&self) -> (r: &Output)
        ensures
            *r == self.output,
    {
        &self.output
    }
}

/// The spending side of a partially created action.
#[derive(Clone, Copy, Debug)]
pub struct Spend {
    /// The nullifier of the note that is spent.
    pub nullifier: Nullifier,
    /// The key that validates the spend's authorization.
    pub rk: VerificationKey,
    /// The address of the note.
    pub recipient: Option<Address>,
    /// The value of the note.
    pub value: Option<NoteValue>,
    /// What makes the note unique.
    pub rho: Option<Rho>,
    /// The random seed of the note.
    pub rseed: Option<RandomSeed>,
    /// The version of the note.
    pub note_version: NoteVersion,
    /// The full viewing key that owns the note.
    pub fvk: Option<FullViewingKey>,
    /// The randomizer of `rk`.
    pub alpha: Option<SpendAuthRandomizer>,
}

/// The creating side of a partially created action.
#[derive(Clone, Copy, Debug)]
pub struct Output {
    /// The extracted commitment to the note that is created.
    pub cmx: ExtractedNoteCommitment,
    /// The version of the note.
    pub note_version: NoteVersion,
    /// The note, in encrypted form.
    pub encrypted_note: TransmittedNoteCiphertext,
    /// The address of the note.
    pub recipient: Option<Address>,
    /// The value of the note.
    pub value: Option<NoteValue>,
    /// The random seed of the note.
    pub rseed: Option<RandomSeed>,
}

impl Output {
    /// The extracted commitment to the note that is created.
    pub fn cmx(&self) -> (r: &ExtractedNoteCommitment)
        ensures
            *r == self.cmx,
    {
        &self.cmx
    }

    /// The note that is created, in encrypted form.
    pub fn encrypted_note(&self) -> (r: &TransmittedNoteCiphertext)
        ensures
            *r == self.encrypted_note,
    {
        &self.encrypted_note
    }
}

} // verus!
