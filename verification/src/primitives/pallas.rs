//! The Pallas curve and its two fields.
//!
//! Points and field elements are held by their 32-byte encodings. An encoding is canonical, so two
//! values are equal exactly when their encodings are.

use group::ff::{FromUniformBytes, PrimeField};
use group::{Curve, GroupEncoding};
use pasta_curves::arithmetic::{Coordinates, CurveAffine, CurveExt};
use pasta_curves::glv::{Decomposed, Table};
use pasta_curves::pallas;
use vstd::prelude::*;

use crate::bytes;
use crate::bytes::u64_to_le;

verus! {

/// The order of the base field.
pub open spec fn base_modulus() -> nat {
    0x40000000000000000000000000000000224698fc094cf91b992d30ed00000001nat
}

/// The order of the scalar field, which is the order of the group.
pub open spec fn scalar_modulus() -> nat {
    0x40000000000000000000000000000000224698fc0994a8dd8c46eb2100000001nat
}

/// Whether `b` is the encoding of a base field element.
pub open spec fn is_base(b: Seq<u8>) -> bool {
    b.len() == 32 && bytes::le_nat(b) < base_modulus()
}

/// Whether `b` is the encoding of a scalar.
pub open spec fn is_scalar(b: Seq<u8>) -> bool {
    b.len() == 32 && bytes::le_nat(b) < scalar_modulus()
}

/// The encoding of the group's identity, and of zero in either field.
pub open spec fn identity() -> Seq<u8> {
    bytes::zeros(32)
}

/// Whether `bytes` is the encoding of a point of the curve, the identity included: what
/// `<pallas::Point as GroupEncoding>::from_bytes` decides.
pub uninterp spec fn pallas_is_point(bytes: Seq<u8>) -> bool;

/// The encoding of `[scalar] point`.
pub uninterp spec fn pallas_mul(scalar: Seq<u8>, point: Seq<u8>) -> Seq<u8>;

/// The encoding of `p + q`.
pub uninterp spec fn pallas_add(p: Seq<u8>, q: Seq<u8>) -> Seq<u8>;

/// The encoding of the point to which `pallas::Point::hash_to_curve` maps `msg` under the domain
/// prefix `domain`.
pub uninterp spec fn pallas_hash_to_curve(domain: Seq<char>, msg: Seq<u8>) -> Seq<u8>;

/// The encoding of the affine x-coordinate of `point`, where it is not the identity.
pub uninterp spec fn pallas_x(point: Seq<u8>) -> Seq<u8>;

/// The encoding of the base field element that is extracted from a point: its x-coordinate, and
/// zero for the identity.
pub open spec fn extract_p(point: Seq<u8>) -> Seq<u8> {
    if point == identity() {
        identity()
    } else {
        pallas_x(point)
    }
}

/// `<pallas::Point as GroupEncoding>::from_bytes`, for whether it succeeds. Claimed: the answer
/// depends on the bytes alone.
#[verifier::external_body]
pub(crate) fn point_is_valid(bytes: &[u8; 32]) -> (r: bool)
    ensures
        r == pallas_is_point(bytes@),
{
    bool::from(pallas::Point::from_bytes(bytes).is_some())
}

/// `pallas::Point * pallas::Scalar`. Claimed: the product is a point that depends on the two
/// factors alone. Scalars commute, as in any group: multiplying the product by `t` gives what
/// multiplying `[t] point` by `scalar` gives. The group has prime order, so that a multiple is the
/// identity only where the scalar is zero or the point is the identity: this holds of the product,
/// and of the multiples of the product.
#[verifier::external_body]
pub(crate) fn point_mul(scalar: &[u8; 32], point: &[u8; 32]) -> (r: [u8; 32])
    requires
        is_scalar(scalar@),
        pallas_is_point(point@),
    ensures
        r@ == pallas_mul(scalar@, point@),
        pallas_is_point(r@),
        forall|t: Seq<u8>|
            is_scalar(t) ==> #[trigger] pallas_mul(t, r@) == pallas_mul(
                scalar@,
                pallas_mul(t, point@),
            ),
        r@ == identity() <==> scalar@ == identity() || point@ == identity(),
        forall|t: Seq<u8>|
            is_scalar(t) ==> (#[trigger] pallas_mul(t, r@) == identity() <==> t == identity()
                || r@ == identity()),
{
    let k = pallas::Scalar::from_repr(*scalar).unwrap();
    let p = pallas::Point::from_bytes(point).unwrap();
    (p * k).to_bytes()
}

/// `glv::Table::batch`, then `glv::Table::mul_decomposed` of each table by one
/// `glv::Decomposed`. Claimed: each product is the one that the group's own multiplication gives.
#[verifier::external_body]
pub(crate) fn point_mul_batch(scalar: &[u8; 32], points: &Vec<[u8; 32]>) -> (r: Vec<[u8; 32]>)
    requires
        is_scalar(scalar@),
        forall|i: int| 0 <= i < points@.len() ==> pallas_is_point((#[trigger] points@[i])@),
    ensures
        r@.len() == points@.len(),
        forall|i: int|
            0 <= i < points@.len() ==> (#[trigger] r@[i])@ == pallas_mul(scalar@, points@[i]@)
                && pallas_is_point(r@[i]@),
{
    let k = Decomposed::<pallas::Point>::new(&pallas::Scalar::from_repr(*scalar).unwrap());
    let points: Vec<pallas::Point> =
        points.iter().map(|p| pallas::Point::from_bytes(p).unwrap()).collect();
    Table::batch(&points).iter().map(|t| t.mul_decomposed(&k).to_bytes()).collect()
}

/// `pallas::Point + pallas::Point`. Claimed: the sum is a point that depends on the two summands
/// alone.
#[verifier::external_body]
pub(crate) fn point_add(p: &[u8; 32], q: &[u8; 32]) -> (r: [u8; 32])
    requires
        pallas_is_point(p@),
        pallas_is_point(q@),
    ensures
        r@ == pallas_add(p@, q@),
        pallas_is_point(r@),
{
    let p = pallas::Point::from_bytes(p).unwrap();
    let q = pallas::Point::from_bytes(q).unwrap();
    (p + q).to_bytes()
}

/// `<pallas::Point as CurveExt>::hash_to_curve`. Claimed: the result is a point that depends on
/// the domain prefix and the message alone. The prefix must encode in fewer than 228 bytes, which
/// 32 characters do.
#[verifier::external_body]
pub(crate) fn hash_to_curve(domain: &str, msg: &[u8]) -> (r: [u8; 32])
    requires
        domain@.len() <= 32,
    ensures
        r@ == pallas_hash_to_curve(domain@, msg@),
        pallas_is_point(r@),
{
    pallas::Point::hash_to_curve(domain)(msg).to_bytes()
}

/// `CurveAffine::coordinates`, for the x-coordinate. Claimed: every point but the identity has one,
/// a base field element that depends on the point alone.
#[verifier::external_body]
pub(crate) fn x_coordinate(point: &[u8; 32]) -> (r: Option<[u8; 32]>)
    requires
        pallas_is_point(point@),
    ensures
        r is Some <==> point@ != identity(),
        r is Some ==> r->0@ == pallas_x(point@) && is_base(r->0@),
{
    let p = pallas::Point::from_bytes(point).unwrap().to_affine();
    Option::from(p.coordinates()).map(|c: Coordinates<_>| c.x().to_repr())
}

/// Extracts a base field element from a point.
pub(crate) fn point_x(point: &[u8; 32]) -> (r: [u8; 32])
    requires
        pallas_is_point(point@),
    ensures
        r@ == extract_p(point@),
        is_base(r@),
{
    match x_coordinate(point) {
        Some(x) => x,
        None => {
            let zero: [u8; 32] = [0u8; 32];
            assert(zero@ =~= identity());
            proof {
                bytes::lemma_le_nat_of_zeros(32);
            }
            zero
        },
    }
}

/// `<pallas::Base as PrimeField>::from_repr`, for whether it succeeds. Claimed: it accepts the
/// little-endian encodings of the integers below the modulus.
#[verifier::external_body]
pub(crate) fn base_is_canonical(bytes: &[u8; 32]) -> (r: bool)
    ensures
        r == is_base(bytes@),
{
    bool::from(pallas::Base::from_repr(*bytes).is_some())
}

/// `<pallas::Scalar as PrimeField>::from_repr`, for whether it succeeds. Claimed: it accepts the
/// little-endian encodings of the integers below the modulus.
#[verifier::external_body]
pub(crate) fn scalar_is_canonical(bytes: &[u8; 32]) -> (r: bool)
    ensures
        r == is_scalar(bytes@),
{
    bool::from(pallas::Scalar::from_repr(*bytes).is_some())
}

/// `<pallas::Base as FromUniformBytes<64>>::from_uniform_bytes`. Claimed: it reduces the
/// little-endian integer modulo the field's order.
#[verifier::external_body]
pub(crate) fn base_from_uniform(bytes: &[u8; 64]) -> (r: [u8; 32])
    ensures
        r@ == bytes::le_bytes(bytes::le_nat(bytes@) % base_modulus(), 32),
        is_base(r@),
{
    pallas::Base::from_uniform_bytes(bytes).to_repr()
}

/// `<pallas::Scalar as FromUniformBytes<64>>::from_uniform_bytes`. Claimed: it reduces the
/// little-endian integer modulo the field's order.
#[verifier::external_body]
pub(crate) fn scalar_from_uniform(bytes: &[u8; 64]) -> (r: [u8; 32])
    ensures
        r@ == bytes::le_bytes(bytes::le_nat(bytes@) % scalar_modulus(), 32),
        is_scalar(r@),
{
    pallas::Scalar::from_uniform_bytes(bytes).to_repr()
}

/// `pallas::Base + pallas::Base`. Claimed: it adds modulo the field's order.
#[verifier::external_body]
pub(crate) fn base_add(a: &[u8; 32], b: &[u8; 32]) -> (r: [u8; 32])
    requires
        is_base(a@),
        is_base(b@),
    ensures
        r@ == bytes::le_bytes((bytes::le_nat(a@) + bytes::le_nat(b@)) % base_modulus(), 32),
        is_base(r@),
{
    let a = pallas::Base::from_repr(*a).unwrap();
    let b = pallas::Base::from_repr(*b).unwrap();
    (a + b).to_repr()
}

/// The scalar that a 64-bit integer stands for: every such integer is below the modulus.
pub fn scalar_from_u64(v: u64) -> (r: [u8; 32])
    ensures
        r@ == bytes::le_bytes(v as nat, 32),
        is_scalar(r@),
{
    let b = u64_to_le(v);
    let r: [u8; 32] = [
        b[0], b[1], b[2], b[3], b[4], b[5], b[6], b[7], 0, 0, 0, 0, 0, 0, 0, 0, 0, 0, 0, 0, 0, 0, 0,
        0, 0, 0, 0, 0, 0, 0, 0, 0,
    ];
    proof {
        assert(r@ =~= b@ + bytes::zeros(24));
        bytes::lemma_le_nat_of_le_bytes_u64(v, 8);
        bytes::lemma_le_nat_ignores_trailing_zeros(b@, 24);
        bytes::lemma_le_bytes_of_le_nat(r@);
    }
    r
}

/// `-pallas::Scalar`. Claimed: it negates modulo the field's order.
#[verifier::external_body]
pub(crate) fn scalar_neg(a: &[u8; 32]) -> (r: [u8; 32])
    requires
        is_scalar(a@),
    ensures
        r@ == bytes::le_bytes(
            ((scalar_modulus() - bytes::le_nat(a@)) as nat) % scalar_modulus(),
            32,
        ),
        is_scalar(r@),
{
    (-pallas::Scalar::from_repr(*a).unwrap()).to_repr()
}

} // verus!
