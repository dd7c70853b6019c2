//! The cryptographic primitives that the protocol is built from, over byte encodings.
//!
//! Where a function hands its arguments to an outside crate, what it claims of that crate is
//! believed, not proved, and stands in its contract and doc comment.

pub mod aead;
pub mod hash;
pub mod pallas;
pub mod prf;
pub mod redpallas;
pub mod sinsemilla_commit;
pub mod timing;
