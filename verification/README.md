# orchard_note_encryption

In-band secret distribution for Orchard and Ironwood bundles, and the checks that a signer makes on
a partially created bundle, in Rust that Verus verifies.

- `src/note_encryption.rs`: note encryption domains, note plaintexts, compact actions, batches, and
  recovery of an output that is bound to a note which was validated before. Laws in
  `src/note_encryption/laws.rs`.
- `src/pczt/verify.rs`: the checks on nullifiers, randomized keys, value commitments, note
  commitments and addresses. Laws in `src/pczt/laws.rs`.
- `src/note.rs`, `src/keys.rs`, `src/address.rs`, `src/value.rs`, `src/action.rs`: the types that
  these work on, each held by its byte encodings.
- `src/primitives/`: the calls into the crates that compute on curves, hashes and ciphers. Their
  contracts are believed, not proved; the doc comment of each says what is believed.
- `app/`: the traits of `zcash_note_encryption`, `memuse` and std on the library's types, and
  whatever draws random numbers.

Points and field elements are strings of 32 bytes in contracts. What the curve, the hashes and the
cipher compute on them is named, not defined: a contract such as that of
`recover_output_bound_with_ovk` says which names, applied to which bytes, decide the outcome.
