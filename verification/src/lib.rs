//! In-band secret distribution for Orchard bundles, and the checks that a signer makes on a
//! partially created Orchard bundle.

pub mod action;
pub mod address;
pub mod bytes;
pub mod keys;
pub mod note;
pub mod note_encryption;
pub mod outcomes;
pub mod pczt;
pub mod primitives;
pub mod value;
