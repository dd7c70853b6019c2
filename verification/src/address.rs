//! Payment addresses.

use vstd::prelude::*;

use crate::bytes::bytes_eq;
use crate::keys;
use crate::keys::{DiversifiedTransmissionKey, Diversifier};
use crate::primitives::pallas;

verus! {

/// What an address is made of.
pub struct AddressView {
    /// The diversifier.
    pub d: Seq<u8>,
    /// The encoding of the transmission key.
    pub pk_d: Seq<u8>,
}

impl AddressView {
    /// The base of the address: the point that its diversifier stands for.
    pub open spec fn g_d(self) -> Seq<u8> {
        keys::diversify_hash(self.d)
    }

    /// Whether the parts have the lengths of an address's parts.
    pub open spec fn has_lengths(self) -> bool {
        self.d.len() == 11 && self.pk_d.len() == 32
    }

    /// Whether two addresses expand to the same base and transmission key.
    pub open spec fn same_expanded_receiver(self, other: AddressView) -> bool {
        self.g_d() == other.g_d() && self.pk_d == other.pk_d
    }
}

/// A payment address.
#[derive(Clone, Copy, Eq, Debug)]
pub struct Address {
    d: Diversifier,
    pk_d: DiversifiedTransmissionKey,
}

impl View for Address {
    type V = AddressView;

    closed spec fn view(&self) -> AddressView {
        AddressView { d: self.d@, pk_d: self.pk_d@ }
    }
}

impl PartialEq for Address {
    fn eq(&self, other: &Self) -> (r: bool) {
        self.d == other.d && self.pk_d == other.pk_d
    }
}

impl vstd::std_specs::cmp::PartialEqSpecImpl for Address {
    open spec fn obeys_eq_spec() -> bool {
        true
    }

    open spec fn eq_spec(&self, other: &Self) -> bool {
        self@ == other@
    }
}

impl Address {
    /// The parts of an address have their lengths.
    pub proof fn lengths(&self)
        ensures
            self@.has_lengths(),
    {
        self.d.lengths();
        self.pk_d.lengths();
    }

    /// The address with the given diversifier and transmission key.
    pub fn from_parts(d: Diversifier, pk_d: DiversifiedTransmissionKey) -> (r: Self)
        ensures
            r@ == (AddressView { d: d@, pk_d: pk_d@ }),
    {
        Address { d, pk_d }
    }

    /// The diversifier of this address.
    pub fn diversifier(&self) -> (r: Diversifier)
        ensures
            r@ == self@.d,
    {
        self.d
    }

    /// The transmission key of this address.
    pub fn pk_d(&self) -> (r: &DiversifiedTransmissionKey)
        ensures
            r@ == self@.pk_d,
    {
        &self.pk_d
    }

    /// The base of this address: the point that its diversifier stands for.
    pub fn g_d(&self) -> (r: [u8; 32])
        ensures
            r@ == self@.g_d(),
            pallas::pallas_is_point(r@),
    {
        self.d.g_d()
    }

    /// Whether this address and `other` expand to the same base and transmission key.
    pub fn same_expanded_receiver(&self, other: &Address) -> (r: bool)
        ensures
            r == self@.same_expanded_receiver(other@),
    {
        let g_d = self.g_d();
        let other_g_d = other.g_d();
        bytes_eq(&g_d, &other_g_d) && self.pk_d == other.pk_d
    }
}

} // verus!
