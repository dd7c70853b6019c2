//! Note values, their sums, and commitments to them.

use vstd::prelude::*;

use crate::bytes;
use crate::bytes::{bytes_eq, u64_from_le, u64_to_le};
use crate::primitives::pallas;
use crate::primitives::pallas::{
    hash_to_curve, point_add, point_is_valid, point_mul, scalar_from_u64, scalar_is_canonical,
    scalar_neg,
};

verus! {

/// The value of a note, in zatoshis.
#[derive(Clone, Copy, PartialEq, Eq, Structural, Debug)]
pub struct NoteValue {
    /// The number of zatoshis.
    pub raw: u64,
}

impl NoteValue {
    /// The value of `raw` zatoshis.
    pub fn from_raw(raw: u64) -> (r: Self)
        ensures
            r.raw == raw,
    {
        NoteValue { raw }
    }

    /// The number of zatoshis.
    pub fn inner(&self) -> (r: u64)
        ensures
            r == self.raw,
    {
        self.raw
    }

    /// Reads a value from its little-endian encoding.
    pub fn from_bytes(bytes: &[u8; 8]) -> (r: Self)
        ensures
            r.raw as nat == bytes::le_nat(bytes@),
    {
        NoteValue { raw: u64_from_le(bytes) }
    }

    /// The little-endian encoding of this value.
    pub fn to_bytes(&self) -> (r: [u8; 8])
        ensures
            r@ == bytes::le_bytes(self.raw as nat, 8),
    {
        u64_to_le(self.raw)
    }

    /// What is left of this value after `other` has been taken from it.
    pub fn minus(&self, other: NoteValue) -> (r: ValueSum)
        ensures
            r.raw as int == self.raw - other.raw,
    {
        ValueSum { raw: (self.raw as i128) - (other.raw as i128) }
    }
}

/// A difference of note values.
#[derive(Clone, Copy, PartialEq, Eq, Structural, Debug)]
pub struct ValueSum {
    /// The number of zatoshis.
    pub raw: i128,
}

/// The scalar that stands for the integer `v`.
pub open spec fn scalar_of(v: int) -> Seq<u8> {
    bytes::le_bytes((v % (pallas::scalar_modulus() as int)) as nat, 32)
}

/// The encoding of the commitment to the value `v` with the trapdoor `rcv`: the multiple of the
/// value base by `v` plus the multiple of the randomness base by `rcv`.
pub open spec fn value_commitment(v: int, rcv: Seq<u8>) -> Seq<u8> {
    pallas::pallas_add(
        pallas::pallas_mul(
            scalar_of(v),
            pallas::pallas_hash_to_curve("z.cash:Orchard-cv"@, seq![0x76u8]),
        ),
        pallas::pallas_mul(rcv, pallas::pallas_hash_to_curve("z.cash:Orchard-cv"@, seq![0x72u8])),
    )
}

/// The trapdoor of a value commitment: a scalar.
#[derive(Clone, Copy, Debug)]
pub struct ValueCommitTrapdoor {
    bytes: [u8; 32],
}

impl View for ValueCommitTrapdoor {
    type V = Seq<u8>;

    closed spec fn view(&self) -> Seq<u8> {
        self.bytes@
    }
}

impl ValueCommitTrapdoor {
    #[verifier::type_invariant]
    spec fn is_valid(self) -> bool {
        pallas::is_scalar(self.bytes@)
    }

    /// Parses the encoding of a scalar.
    pub fn from_bytes(bytes: &[u8; 32]) -> (r: Option<Self>)
        ensures
            r is Some <==> pallas::is_scalar(bytes@),
            r is Some ==> r->0@ == bytes@,
    {
        if scalar_is_canonical(bytes) {
            Some(ValueCommitTrapdoor { bytes: *bytes })
        } else {
            None
        }
    }
}

/// A commitment to a value: a point, held by its encoding.
#[derive(Clone, Copy, Eq, Debug)]
pub struct ValueCommitment {
    bytes: [u8; 32],
}

impl View for ValueCommitment {
    type V = Seq<u8>;

    closed spec fn view(&self) -> Seq<u8> {
        self.bytes@
    }
}

impl PartialEq for ValueCommitment {
    fn eq(&self, other: &Self) -> (r: bool) {
        bytes_eq(&self.bytes, &other.bytes)
    }
}

impl vstd::std_specs::cmp::PartialEqSpecImpl for ValueCommitment {
    open spec fn obeys_eq_spec() -> bool {
        true
    }

    open spec fn eq_spec(&self, other: &Self) -> bool {
        self@ == other@
    }
}

impl ValueCommitment {
    /// Parses the encoding of a point.
    pub fn from_bytes(bytes: &[u8; 32]) -> (r: Option<Self>)
        ensures
            r is Some <==> pallas::pallas_is_point(bytes@),
            r is Some ==> r->0@ == bytes@,
    {
        if point_is_valid(bytes) {
            Some(ValueCommitment { bytes: *bytes })
        } else {
            None
        }
    }

    /// The encoding of this commitment.
    pub fn to_bytes(&self) -> (r: [u8; 32])
        ensures
            r@ == self@,
    {
        self.bytes
    }

    /// Commits to `value` with the trapdoor `rcv`. The magnitude of the value must fit 64 bits.
    pub fn derive(value: ValueSum, rcv: &ValueCommitTrapdoor) -> (r: Self)
        requires
            -0xffff_ffff_ffff_ffff <= value.raw <= 0xffff_ffff_ffff_ffff,
        ensures
            r@ == value_commitment(value.raw as int, rcv@),
    {
        proof {
            use_type_invariant(rcv);
            reveal_strlit("z.cash:Orchard-cv");
        }
        let v: [u8; 32] = if value.raw < 0 {
            let magnitude: u64 = (-value.raw) as u64;
            let positive = scalar_from_u64(magnitude);
            proof {
                bytes::lemma_le_nat_of_le_bytes_u64(magnitude, 32);
            }
            scalar_neg(&positive)
        } else {
            scalar_from_u64(value.raw as u64)
        };
        assert(v@ == scalar_of(value.raw as int));
        let value_tag: [u8; 1] = [0x76];
        let randomness_tag: [u8; 1] = [0x72];
        assert(value_tag@ =~= seq![0x76u8]);
        assert(randomness_tag@ =~= seq![0x72u8]);
        let value_base = hash_to_curve("z.cash:Orchard-cv", &value_tag);
        let randomness_base = hash_to_curve("z.cash:Orchard-cv", &randomness_tag);
        ValueCommitment {
            bytes: point_add(&point_mul(&v, &value_base), &point_mul(&rcv.bytes, &randomness_base)),
        }
    }
}

} // verus!
