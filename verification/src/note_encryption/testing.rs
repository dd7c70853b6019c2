//! Utilities for constructing test data.

use vstd::prelude::*;

use crate::address::Address;
use crate::bytes;
use crate::bytes::take_array;
use crate::keys::OutgoingViewingKey;
use crate::note::{Note, NoteVersion, NoteView, Nullifier, RandomSeed, Rho};
use crate::note_encryption;
use crate::note_encryption::laws;
use crate::note_encryption::{
    CompactAction, CompactActionView, DomainView, OrchardDomain, ShieldedOutput,
};
use crate::primitives::pallas;
use crate::value::NoteValue;

verus! {

/// Why a random seed gives no fake action.
#[derive(Clone, Copy, PartialEq, Eq, Structural, Debug)]
pub enum FakeActionError {
    /// The seed gives zero for the ephemeral secret key: another one is to be drawn.
    SeedRejected,
    /// The note commitment has no value.
    InvalidNote,
}

/// Creates a fake `CompactAction` paying the given recipient the specified value, from a random
/// seed that was drawn for it. The memo is all zeros, and as a compact action carries no outgoing
/// ciphertext, the outgoing viewing key leaves no trace in it. Whoever holds a viewing key of the
/// recipient reads the new note from the action in the Orchard domain, and in no other.
///
/// Returns the `CompactAction` and the new note.
pub fn fake_compact_action(
    rseed: [u8; 32],
    nf_old: Nullifier,
    recipient: Address,
    value: NoteValue,
    _ovk: Option<OutgoingViewingKey>,
) -> (r: Result<(CompactAction, Note), FakeActionError>)
    ensures
        ({
            let parts = NoteView {
                recipient: recipient@,
                value: value.raw,
                rho: nf_old@,
                rseed: rseed@,
                version: NoteVersion::V2,
            };
            match r {
                Ok((action, note)) => {
                    &&& note_encryption::is_constructible(parts)
                    &&& note@ == parts
                    &&& action@ == (CompactActionView {
                        nf: nf_old@,
                        cmx: parts.cmx(),
                        epk: parts.epk(),
                        enc: note_encryption::sealed_note(
                            parts,
                            parts.esk(),
                            bytes::zeros(512),
                        ).subrange(0, 52),
                    })
                    &&& forall|ivk: Seq<u8>, domain: DomainView|
                        pallas::is_scalar(ivk) && pallas::pallas_mul(ivk, recipient@.g_d())
                            == recipient@.pk_d && domain.rho == nf_old@
                            ==> #[trigger] note_encryption::compact_note(
                            domain,
                            ivk,
                            action.parts(),
                        ) == if domain.accepted == NoteVersion::V2 {
                            Some(parts)
                        } else {
                            None
                        }
                },
                Err(FakeActionError::SeedRejected) => parts.esk() == pallas::identity(),
                Err(FakeActionError::InvalidNote) => parts.esk() != pallas::identity()
                    && parts.commitment() is None,
            }
        }),
{
    let rho = Rho::from_nf_old(nf_old);
    let rseed = match RandomSeed::from_bytes(rseed, &rho) {
        Some(rseed) => rseed,
        None => return Err(FakeActionError::SeedRejected),
    };
    let note = match Note::from_parts(recipient, value, rho, rseed, NoteVersion::V2) {
        Some(note) => note,
        None => return Err(FakeActionError::InvalidNote),
    };
    let esk = match OrchardDomain::derive_esk(&note) {
        Some(esk) => esk,
        None => return Err(FakeActionError::SeedRejected),
    };
    let memo: [u8; 512] = [0u8; 512];
    assert(memo@ =~= bytes::zeros(512));
    let cmx = OrchardDomain::cmstar(&note);
    let ephemeral_key = OrchardDomain::epk_bytes(&OrchardDomain::ka_derive_public(&note, &esk));
    let enc_ciphertext = OrchardDomain::encrypt_note_plaintext(&note, &esk, &memo);
    let action = CompactAction::from_parts(
        nf_old,
        cmx,
        ephemeral_key,
        take_array(&enc_ciphertext, 0),
    );
    proof {
        note.lengths();
        assert forall|ivk: Seq<u8>, domain: DomainView|
            pallas::is_scalar(ivk) && pallas::pallas_mul(ivk, recipient@.g_d()) == recipient@.pk_d
                && domain.rho == nf_old@ implies #[trigger] note_encryption::compact_note(
            domain,
            ivk,
            action.parts(),
        ) == if domain.accepted == NoteVersion::V2 {
            Some(note@)
        } else {
            None
        } by {
            laws::viewing_key_reads_compact_output(note@, ivk, action.parts(), domain);
        }
    }
    Ok((action, note))
}

} // verus!
