//! What holds between encryption, parsing and recovery.

use vstd::prelude::*;

use crate::action::Action;
use crate::bytes;
use crate::keys;
use crate::keys::{PreparedEphemeralPublicKey, SharedSecret};
use crate::note::NoteView;
use crate::note_encryption;
use crate::note_encryption::{
    CompactAction, DomainView, EphemeralKeyBytes, OutputView, ShieldedOutput,
};
use crate::pczt;
use crate::pczt::verify::VerifyError;
use crate::primitives::pallas;

verus! {

/// A domain that accepts a note's version parses the note's plaintext as that note, and finds the
/// memo behind it.
pub proof fn plaintext_parses_as_its_note(note: NoteView, memo: Seq<u8>)
    requires
        note.has_lengths(),
        note_encryption::is_constructible(note),
        memo.len() == 512,
    ensures
        ({
            let domain = DomainView { rho: note.rho, accepted: note.version };
            let plaintext = note_encryption::note_plaintext(note, memo);
            &&& note_encryption::parsed_note(domain, plaintext, note.recipient.pk_d) == Some(note)
            &&& plaintext.subrange(52, 564) == memo
        }),
{
    let plaintext = note_encryption::note_plaintext(note, memo);
    bytes::lemma_le_bytes_len(note.value as nat, 8);
    assert(plaintext.subrange(0, 52) =~= note_encryption::compact_plaintext(note));
    assert(plaintext.subrange(52, 564) =~= memo);
    note_encryption::lemma_compact_plaintext(plaintext, note);
}

/// Whoever holds a viewing key of a note's recipient parses the note's plaintext, with or without
/// its memo, as that note.
pub proof fn viewing_key_parses_plaintext(note: NoteView, memo: Seq<u8>, ivk: Seq<u8>)
    requires
        note.has_lengths(),
        note_encryption::is_constructible(note),
        pallas::pallas_mul(ivk, note.recipient.g_d()) == note.recipient.pk_d,
    ensures
        ({
            let domain = DomainView { rho: note.rho, accepted: note.version };
            let plaintext = note_encryption::note_plaintext(note, memo);
            let pk_d = pallas::pallas_mul(ivk, keys::diversify_hash(plaintext.subrange(1, 12)));
            note_encryption::parsed_note(domain, plaintext, pk_d) == Some(note)
        }),
{
    let plaintext = note_encryption::note_plaintext(note, memo);
    bytes::lemma_le_bytes_len(note.value as nat, 8);
    assert(plaintext.subrange(0, 52) =~= note_encryption::compact_plaintext(note));
    note_encryption::lemma_compact_plaintext(plaintext, note);
}

/// A domain that accepts another version than a note's parses the note's plaintext as no note.
pub proof fn other_version_is_not_parsed(
    note: NoteView,
    memo: Seq<u8>,
    domain: DomainView,
    pk_d: Seq<u8>,
)
    requires
        domain.accepted != note.version,
    ensures
        note_encryption::parsed_note(domain, note_encryption::note_plaintext(note, memo), pk_d)
            is None,
{
    assert(note_encryption::note_plaintext(note, memo)[0] == note.version.lead());
}

/// No plaintext is parsed by two domains that accept different versions.
pub proof fn versions_are_disjoint(
    a: DomainView,
    b: DomainView,
    plaintext: Seq<u8>,
    pk_d_a: Seq<u8>,
    pk_d_b: Seq<u8>,
)
    requires
        a.accepted != b.accepted,
    ensures
        note_encryption::parsed_note(a, plaintext, pk_d_a) is None || note_encryption::parsed_note(
            b,
            plaintext,
            pk_d_b,
        ) is None,
{
}

/// Recovery that is bound to a note accepts a decrypted plaintext exactly where parsing it gives
/// that note and the key pair is the one that the note gives. So holding the fields against the
/// note accepts what parsing the note anew, and with it computing its commitment, would accept.
pub proof fn bound_recovery_is_parsing(
    domain: DomainView,
    pk_d: Seq<u8>,
    esk: Seq<u8>,
    output: OutputView,
    expected: NoteView,
    plaintext: Seq<u8>,
)
    requires
        expected.is_valid(),
        keys::is_nonzero_scalar(esk),
        plaintext.len() == 564,
        note_encryption::open_note(
            keys::kdf_orchard_spec(pallas::pallas_mul(esk, pk_d), output.epk),
            output.enc,
        ) == Some(plaintext),
    ensures
        note_encryption::recovered_memo(domain, pk_d, esk, output, expected) is Some <==> {
            &&& note_encryption::parsed_note(domain, plaintext, pk_d) == Some(expected)
            &&& esk == expected.esk()
            &&& output.epk == expected.epk()
        },
        note_encryption::recovered_memo(domain, pk_d, esk, output, expected) is Some
            ==> note_encryption::recovered_memo(domain, pk_d, esk, output, expected) == Some(
            plaintext.subrange(52, 564),
        ),
{
    note_encryption::lemma_compact_plaintext(plaintext, expected);
    let described = note_encryption::described_note(
        domain.rho,
        plaintext,
        domain.accepted,
        pk_d,
    );
    if note_encryption::parsed_note(domain, plaintext, pk_d) == Some(expected) {
        let value = plaintext.subrange(12, 20);
        bytes::lemma_le_nat_fits_u64(value);
        assert(described == expected);
    }
}

/// Under one pair of keys, an output is recovered for one note in each domain: the notes for which
/// two domains recover it agree in memo, address, value, random seed and version, and each has the
/// rho of its domain.
pub proof fn recovery_binds_one_note_per_domain(
    domain_a: DomainView,
    domain_b: DomainView,
    pk_d: Seq<u8>,
    esk: Seq<u8>,
    output: OutputView,
    a: NoteView,
    b: NoteView,
    memo_a: Seq<u8>,
    memo_b: Seq<u8>,
)
    requires
        a.has_lengths(),
        b.has_lengths(),
        note_encryption::recovered_memo(domain_a, pk_d, esk, output, a) == Some(memo_a),
        note_encryption::recovered_memo(domain_b, pk_d, esk, output, b) == Some(memo_b),
    ensures
        memo_a == memo_b,
        a.recipient == b.recipient,
        a.value == b.value,
        a.rseed == b.rseed,
        a.version == b.version,
        a.rho == domain_a.rho,
        b.rho == domain_b.rho,
{
    let plaintext = note_encryption::open_note(
        keys::kdf_orchard_spec(pallas::pallas_mul(esk, pk_d), output.epk),
        output.enc,
    )->0;
    note_encryption::lemma_compact_plaintext(plaintext, a);
    note_encryption::lemma_compact_plaintext(plaintext, b);
}

/// An output is recovered for one note only: recovery that is bound to another note, be it another
/// in its address, its value, its rho, its random seed or its version, finds nothing.
pub proof fn recovery_binds_one_note(
    domain: DomainView,
    pk_d: Seq<u8>,
    esk: Seq<u8>,
    output: OutputView,
    a: NoteView,
    b: NoteView,
)
    requires
        a.has_lengths(),
        b.has_lengths(),
        note_encryption::recovered_memo(domain, pk_d, esk, output, a) is Some,
        note_encryption::recovered_memo(domain, pk_d, esk, output, b) is Some,
    ensures
        a == b,
{
    let memo_a = note_encryption::recovered_memo(domain, pk_d, esk, output, a)->0;
    let memo_b = note_encryption::recovered_memo(domain, pk_d, esk, output, b)->0;
    recovery_binds_one_note_per_domain(domain, domain, pk_d, esk, output, a, b, memo_a, memo_b);
}

/// Where an output's note was verified against the action's commitment, and recovery that is bound
/// to that note succeeds for the action, the ciphertext opens to a plaintext that parses as that
/// note, and the note's commitment is the action's.
pub proof fn recovered_note_is_committed_to(
    action: pczt::Action,
    domain: DomainView,
    pk_d: Seq<u8>,
    esk: Seq<u8>,
    expected: NoteView,
)
    requires
        expected.is_valid(),
        keys::is_nonzero_scalar(esk),
        action.output.commitment_verdict(action.spend) == Ok::<_, VerifyError>(expected),
        note_encryption::recovered_memo(domain, pk_d, esk, action.parts(), expected) is Some,
    ensures
        domain.rho == action.spend.nullifier@,
        expected.cmx() == action.parts().cmstar,
        ({
            let plaintext = note_encryption::open_note(
                keys::kdf_orchard_spec(pallas::pallas_mul(esk, pk_d), action.parts().epk),
                action.parts().enc,
            );
            &&& plaintext is Some
            &&& note_encryption::parsed_note(domain, plaintext->0, pk_d) == Some(expected)
        }),
{
    let plaintext = note_encryption::open_note(
        keys::kdf_orchard_spec(pallas::pallas_mul(esk, pk_d), action.parts().epk),
        action.parts().enc,
    )->0;
    bound_recovery_is_parsing(domain, pk_d, esk, action.parts(), expected, plaintext);
}

/// A sender recovers the memo of an output that was sealed for a note under the key pair that the
/// note gives: from the two keys, and from the outgoing cipher key, and so from the outgoing
/// viewing key where that derives the cipher key.
pub proof fn sender_recovers_what_was_sealed(
    note: NoteView,
    memo: Seq<u8>,
    ock: Seq<u8>,
    output: OutputView,
    out: Seq<u8>,
)
    requires
        note.is_valid(),
        memo.len() == 512,
        keys::is_nonzero_scalar(note.esk()),
        output.epk == note.epk(),
        note_encryption::open_note(
            keys::kdf_orchard_spec(
                pallas::pallas_mul(note.esk(), note.recipient.pk_d),
                note.epk(),
            ),
            output.enc,
        ) == Some(note_encryption::note_plaintext(note, memo)),
        note_encryption::open_outgoing(ock, out) == Some(note.recipient.pk_d + note.esk()),
    ensures
        ({
            let domain = DomainView { rho: note.rho, accepted: note.version };
            &&& note_encryption::recovered_memo(
                domain,
                note.recipient.pk_d,
                note.esk(),
                output,
                note,
            ) == Some(memo)
            &&& note_encryption::recovered_memo_with_ock(domain, ock, output, out, note) == Some(
                memo,
            )
        }),
{
    let plaintext = note_encryption::note_plaintext(note, memo);
    bytes::lemma_le_bytes_len(note.value as nat, 8);
    assert(plaintext.subrange(0, 52) =~= note_encryption::compact_plaintext(note));
    assert(plaintext.subrange(52, 564) =~= memo);
    let op = note.recipient.pk_d + note.esk();
    assert(op.subrange(0, 32) =~= note.recipient.pk_d);
    assert(op.subrange(32, 64) =~= note.esk());
}

/// The note and memo that a sender recovers from an output without a note to hold it against: the
/// note is parsed from the plaintext, its commitment is computed and must be the output's, and the
/// key pair must be the one that the note gives.
pub open spec fn unbound_recovery(
    domain: DomainView,
    pk_d: Seq<u8>,
    esk: Seq<u8>,
    output: OutputView,
) -> Option<(NoteView, Seq<u8>)> {
    match note_encryption::open_note(
        keys::kdf_orchard_spec(pallas::pallas_mul(esk, pk_d), output.epk),
        output.enc,
    ) {
        Some(plaintext) => match note_encryption::parsed_note(domain, plaintext, pk_d) {
            Some(note) => if plaintext.len() == 564 && esk == note.esk()
                && note_encryption::is_note_of(note, output) {
                Some((note, plaintext.subrange(52, 564)))
            } else {
                None
            },
            None => None,
        },
        None => None,
    }
}

/// The note and memo that a sender recovers from an output with the outgoing cipher key, without a
/// note to hold it against.
pub open spec fn unbound_recovery_with_ock(
    domain: DomainView,
    ock: Seq<u8>,
    output: OutputView,
    out: Seq<u8>,
) -> Option<(NoteView, Seq<u8>)> {
    match note_encryption::open_outgoing(ock, out) {
        Some(op) => match (
            note_encryption::extracted_pk_d(op),
            note_encryption::extracted_esk(op),
        ) {
            (Some(pk_d), Some(esk)) => unbound_recovery(domain, pk_d, esk, output),
            _ => None,
        },
        None => None,
    }
}

/// Where a note was validated against an output's commitment, recovery that is bound to it gives a
/// memo exactly where recovery that parses the note anew, and computes its commitment, gives that
/// note and that memo.
pub proof fn bound_recovery_is_unbound_recovery(
    domain: DomainView,
    pk_d: Seq<u8>,
    esk: Seq<u8>,
    output: OutputView,
    expected: NoteView,
    memo: Seq<u8>,
)
    requires
        expected.is_valid(),
        expected.cmx() == output.cmstar,
        keys::is_nonzero_scalar(esk),
    ensures
        note_encryption::recovered_memo(domain, pk_d, esk, output, expected) == Some(memo)
            <==> unbound_recovery(domain, pk_d, esk, output) == Some((expected, memo)),
{
    let opened = note_encryption::open_note(
        keys::kdf_orchard_spec(pallas::pallas_mul(esk, pk_d), output.epk),
        output.enc,
    );
    if opened is Some && opened->0.len() == 564 {
        bound_recovery_is_parsing(domain, pk_d, esk, output, expected, opened->0);
    }
}

/// The same holds of recovery with the outgoing cipher key, and so with the outgoing viewing key
/// that derives it.
pub proof fn bound_recovery_with_ock_is_unbound_recovery(
    domain: DomainView,
    ock: Seq<u8>,
    output: OutputView,
    out: Seq<u8>,
    expected: NoteView,
    memo: Seq<u8>,
)
    requires
        expected.is_valid(),
        expected.cmx() == output.cmstar,
    ensures
        note_encryption::recovered_memo_with_ock(domain, ock, output, out, expected) == Some(memo)
            <==> unbound_recovery_with_ock(domain, ock, output, out) == Some((expected, memo)),
{
    let opened = note_encryption::open_outgoing(ock, out);
    if opened is Some {
        let pk_d = note_encryption::extracted_pk_d(opened->0);
        let esk = note_encryption::extracted_esk(opened->0);
        if pk_d is Some && esk is Some {
            bound_recovery_is_unbound_recovery(domain, pk_d->0, esk->0, output, expected, memo);
        }
    }
}

/// Preparing a batch of ephemeral keys, agreeing with the prepared keys and deriving symmetric keys
/// gives in each lane the key that the viewing key tries on that ephemeral key alone, and nothing
/// where the ephemeral key is not valid. So an output is read with its lane's key exactly as it is
/// read alone.
pub proof fn batch_is_per_item(
    ivk: Seq<u8>,
    ephemeral_keys: Seq<EphemeralKeyBytes>,
    prepared: Seq<(Option<PreparedEphemeralPublicKey>, EphemeralKeyBytes)>,
    secrets: Seq<Option<SharedSecret>>,
    derived: Seq<Option<[u8; 32]>>,
    i: int,
)
    requires
        0 <= i < ephemeral_keys.len(),
        prepared.len() == ephemeral_keys.len(),
        secrets.len() == ephemeral_keys.len(),
        derived.len() == ephemeral_keys.len(),
        note_encryption::is_prepared_lane(ephemeral_keys[i], prepared[i]),
        note_encryption::is_agreed_lane(ivk, prepared[i].0, secrets[i]),
        note_encryption::is_kdf_lane((secrets[i], prepared[i].1), derived[i]),
    ensures
        key_of(derived[i]) == note_encryption::trial_key(ivk, ephemeral_keys[i].0@),
        forall|domain: DomainView, output: OutputView|
            output.epk == ephemeral_keys[i].0@ ==> #[trigger] note_encryption::compact_note_under(
                domain,
                ivk,
                key_of(derived[i]),
                output,
            ) == note_encryption::compact_note(domain, ivk, output),
{
}

/// The bytes of a symmetric key that a lane may have.
pub open spec fn key_of(lane: Option<[u8; 32]>) -> Option<Seq<u8>> {
    match lane {
        Some(key) => Some(key@),
        None => None,
    }
}

/// Whoever holds a viewing key of a note's recipient reads the note from the compact form of an
/// output that was sealed for it, in a domain that accepts the note's version, and nothing in a
/// domain that accepts another.
pub proof fn viewing_key_reads_compact_output(
    note: NoteView,
    ivk: Seq<u8>,
    output: OutputView,
    domain: DomainView,
)
    requires
        note.has_lengths(),
        note_encryption::is_constructible(note),
        pallas::pallas_mul(ivk, note.recipient.g_d()) == note.recipient.pk_d,
        domain.rho == note.rho,
        note_encryption::is_note_of(note, output),
        note_encryption::trial_key(ivk, output.epk) is Some,
        note_encryption::open_compact(
            note_encryption::trial_key(ivk, output.epk)->0,
            output.enc,
        ) == note_encryption::compact_plaintext(note),
    ensures
        note_encryption::compact_note(domain, ivk, output) == if domain.accepted == note.version {
            Some(note)
        } else {
            None
        },
{
    let memo = Seq::<u8>::empty();
    assert(note_encryption::note_plaintext(note, memo) =~= note_encryption::compact_plaintext(
        note,
    ));
    if domain.accepted == note.version {
        viewing_key_parses_plaintext(note, memo, ivk);
        assert(domain == DomainView { rho: note.rho, accepted: note.version });
    } else {
        let plaintext = note_encryption::compact_plaintext(note);
        let pk_d = pallas::pallas_mul(ivk, keys::diversify_hash(plaintext.subrange(1, 12)));
        other_version_is_not_parsed(note, memo, domain, pk_d);
    }
}

/// What the first of several viewing keys, from the one at `from` on, reads from the compact form
/// of an output with its symmetric key, and which one that is.
pub open spec fn first_reading(
    domain: DomainView,
    ivks: Seq<Seq<u8>>,
    symmetric_keys: Seq<Option<Seq<u8>>>,
    output: OutputView,
    from: int,
) -> Option<(NoteView, int)>
    decreases ivks.len() - from,
{
    if from >= ivks.len() {
        None
    } else {
        match note_encryption::compact_note_under(
            domain,
            ivks[from],
            symmetric_keys[from],
            output,
        ) {
            Some(note) => Some((note, from)),
            None => first_reading(domain, ivks, symmetric_keys, output, from + 1),
        }
    }
}

/// Reading an output with the symmetric keys of a batch finds the first viewing key that reads it
/// alone, and what that one reads, and nothing where none reads it.
pub proof fn batched_reading_is_per_item(
    domain: DomainView,
    ivks: Seq<Seq<u8>>,
    symmetric_keys: Seq<Option<Seq<u8>>>,
    output: OutputView,
    from: int,
)
    requires
        0 <= from <= ivks.len(),
        forall|i: int|
            0 <= i < ivks.len() ==> #[trigger] symmetric_keys[i] == note_encryption::trial_key(
                ivks[i],
                output.epk,
            ),
    ensures
        match first_reading(domain, ivks, symmetric_keys, output, from) {
            Some((note, i)) => {
                &&& from <= i < ivks.len()
                &&& note_encryption::compact_note(domain, ivks[i], output) == Some(note)
                &&& forall|j: int|
                    from <= j < i ==> note_encryption::compact_note(
                        domain,
                        #[trigger] ivks[j],
                        output,
                    ) is None
            },
            None => forall|j: int|
                from <= j < ivks.len() ==> note_encryption::compact_note(
                    domain,
                    #[trigger] ivks[j],
                    output,
                ) is None,
        },
    decreases ivks.len() - from,
{
    if from < ivks.len() {
        assert(symmetric_keys[from] == note_encryption::trial_key(ivks[from], output.epk));
        batched_reading_is_per_item(domain, ivks, symmetric_keys, output, from + 1);
    }
}

/// Whoever holds a viewing key of a note's recipient reads the note and the memo from an output
/// that was sealed for it, in a domain that accepts the note's version, and nothing in a domain
/// that accepts another.
pub proof fn viewing_key_reads_whole_output(
    note: NoteView,
    memo: Seq<u8>,
    ivk: Seq<u8>,
    output: OutputView,
    domain: DomainView,
)
    requires
        note.has_lengths(),
        memo.len() == 512,
        note_encryption::is_constructible(note),
        pallas::pallas_mul(ivk, note.recipient.g_d()) == note.recipient.pk_d,
        domain.rho == note.rho,
        note_encryption::is_note_of(note, output),
        note_encryption::trial_key(ivk, output.epk) is Some,
        note_encryption::open_note(
            note_encryption::trial_key(ivk, output.epk)->0,
            output.enc,
        ) == Some(note_encryption::note_plaintext(note, memo)),
    ensures
        note_encryption::whole_note(domain, ivk, output) == if domain.accepted == note.version {
            Some((note, memo))
        } else {
            None
        },
{
    let plaintext = note_encryption::note_plaintext(note, memo);
    if domain.accepted == note.version {
        viewing_key_parses_plaintext(note, memo, ivk);
        plaintext_parses_as_its_note(note, memo);
        assert(domain == DomainView { rho: note.rho, accepted: note.version });
    } else {
        let pk_d = pallas::pallas_mul(ivk, keys::diversify_hash(plaintext.subrange(1, 12)));
        other_version_is_not_parsed(note, memo, domain, pk_d);
    }
}

/// A domain and a viewing key that read a note from an action read the same note from the action's
/// compact form. Where the action's ciphertext is authentic, what they read from the compact form
/// they also read from the action.
pub proof fn compact_form_reads_as_the_action<T>(
    action: Action<T>,
    compact: CompactAction,
    domain: DomainView,
    ivk: Seq<u8>,
)
    requires
        compact@ == note_encryption::compact_form(action@),
    ensures
        ({
            let whole = note_encryption::whole_note(domain, ivk, action.parts());
            let read = note_encryption::compact_note(domain, ivk, compact.parts());
            &&& whole matches Some((note, memo)) ==> read == Some(note)
            &&& whole is None ==> {
                ||| read is None
                ||| note_encryption::open_note(
                    note_encryption::trial_key(ivk, action.parts().epk)->0,
                    action.parts().enc,
                ) is None
            }
        }),
{
    action.lengths();
    let enc = action.parts().enc;
    let key = note_encryption::trial_key(ivk, action.parts().epk)->0;
    if note_encryption::open_note(key, enc) is Some {
        let plaintext = note_encryption::open_note(key, enc)->0;
        let head = note_encryption::open_compact(key, enc.subrange(0, 52));
        assert(head =~= plaintext.subrange(0, 52));
        assert(head.subrange(1, 12) =~= plaintext.subrange(1, 12));
        assert(head.subrange(12, 20) =~= plaintext.subrange(12, 20));
        assert(head.subrange(20, 52) =~= plaintext.subrange(20, 52));
        assert(note_encryption::note_read(domain, ivk, head, compact.parts())
            == note_encryption::note_read(domain, ivk, plaintext, action.parts()));
    }
}

} // verus!
