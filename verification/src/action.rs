//! Actions: each spends one note and creates another.

use vstd::prelude::*;

use crate::bytes::bytes_eq;
use crate::keys::VerificationKey;
use crate::note::{
    CiphertextView, ExtractedNoteCommitment, Nullifier, Rho, TransmittedNoteCiphertext,
};
use crate::primitives::pallas;
use crate::value::ValueCommitment;

verus! {

/// What an action is made of, apart from what authorizes it.
pub struct ActionView {
    /// The encoding of the nullifier of the note that is spent.
    pub nf: Seq<u8>,
    /// The encoding of the key that validates the spend's authorization.
    pub rk: Seq<u8>,
    /// The encoding of the extracted commitment to the note that is created.
    pub cmx: Seq<u8>,
    /// The note that is created, in encrypted form.
    pub encrypted_note: CiphertextView,
    /// The encoding of the commitment to the net value.
    pub cv_net: Seq<u8>,
}

/// An action: it spends one note and creates another.
#[derive(Clone, Debug)]
pub struct Action<T> {
    nf: Nullifier,
    rk: VerificationKey,
    cmx: ExtractedNoteCommitment,
    encrypted_note: TransmittedNoteCiphertext,
    cv_net: ValueCommitment,
    authorization: T,
}

impl<T> View for Action<T> {
    type V = ActionView;

    closed spec fn view(&self) -> ActionView {
        ActionView {
            nf: self.nf@,
            rk: self.rk@,
            cmx: self.cmx@,
            encrypted_note: self.encrypted_note@,
            cv_net: self.cv_net@,
        }
    }
}

impl<T> Action<T> {
    /// What authorizes this action.
    pub closed spec fn auth(self) -> T {
        self.authorization
    }

    /// The parts of an action's encrypted note have their lengths.
    pub proof fn lengths(&self)
        ensures
            self@.encrypted_note.has_lengths(),
    {
    }

    /// The action with the given parts, where `rk` is not the identity.
    pub fn from_parts(
        nf: Nullifier,
        rk: VerificationKey,
        cmx: ExtractedNoteCommitment,
        encrypted_note: TransmittedNoteCiphertext,
        cv_net: ValueCommitment,
        authorization: T,
    ) -> (r: Option<Self>)
        ensures
            r is Some <==> rk@ != pallas::identity(),
            r is Some ==> r->0.auth() == authorization && r->0@ == (ActionView {
                nf: nf@,
                rk: rk@,
                cmx: cmx@,
                encrypted_note: encrypted_note@,
                cv_net: cv_net@,
            }),
    {
        let zero: [u8; 32] = [0u8; 32];
        assert(zero@ =~= pallas::identity());
        if bytes_eq(&rk.to_bytes(), &zero) {
            None
        } else {
            Some(Action { nf, rk, cmx, encrypted_note, cv_net, authorization })
        }
    }

    /// The nullifier of the note that is spent.
    pub fn nullifier(&self) -> (r: &Nullifier)
        ensures
            r@ == self@.nf,
    {
        &self.nf
    }

    /// The key that validates the spend's authorization.
    pub fn rk(&self) -> (r: &VerificationKey)
        ensures
            r@ == self@.rk,
    {
        &self.rk
    }

    /// The extracted commitment to the note that is created.
    pub fn cmx(&self) -> (r: &ExtractedNoteCommitment)
        ensures
            r@ == self@.cmx,
    {
        &self.cmx
    }

    /// The note that is created, in encrypted form.
    pub fn encrypted_note(&self) -> (r: &TransmittedNoteCiphertext)
        ensures
            r@ == self@.encrypted_note,
    {
        &self.encrypted_note
    }

    /// The commitment to the net value.
    pub fn cv_net(&self) -> (r: &ValueCommitment)
        ensures
            r@ == self@.cv_net,
    {
        &self.cv_net
    }

    /// What authorizes this action.
    pub fn authorization(&self) -> (r: &T)
        ensures
            *r == self.auth(),
    {
        &self.authorization
    }

    /// What makes the note that is created unique: the nullifier of the note that is spent.
    pub fn rho(&self) -> (r: Rho)
        ensures
            r@ == self@.nf,
    {
        Rho::from_nf_old(self.nf)
    }
}

} // verus!
