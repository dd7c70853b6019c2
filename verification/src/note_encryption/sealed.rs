//! What keeps the set of note encryption domains closed.

use vstd::prelude::*;

verus! {

/// Marker trait that prevents external `DomainVersion` implementations.
pub trait Sealed {

}

} // verus!
