//! Points of the curve, as the `ark` crates read, add and write them.

use crate::error::Error;
use ark_bn254::G1Affine;
use vstd::prelude::*;

verus! {

/// A point of the first group of the curve BN254, held as `ark_bn254` holds
/// it. Nothing of what is inside is read here: a point is read from bytes,
/// added to another and written to bytes by the functions below.
#[verifier::external_body]
pub struct Point {
    inner: G1Affine,
}

/// The point that `deserialize_compressed` reads from the bytes, or nothing
/// where it reports an error.
pub uninterp spec fn parsed_point(data: Seq<u8>) -> Option<Point>;

/// The bytes that `serialize_compressed` writes for a point, or nothing
/// where it reports an error.
pub uninterp spec fn point_bytes(point: Point) -> Option<Seq<u8>>;

/// The sum of two points, brought back to affine form.
pub uninterp spec fn point_sum(a: Point, b: Point) -> Point;

/// The canonical bytes of the point at infinity: an encoded `x` of zero with
/// the flag for infinity set in the last byte.
pub open spec fn infinity_bytes() -> Seq<u8> {
    Seq::new(32, |i: int| if i == 31 { 0x40u8 } else { 0u8 })
}

/// Calls `CanonicalDeserialize::deserialize_compressed` for a point of the
/// curve, which validates the point. The answer depends on the bytes alone
/// and is named `parsed_point`.
#[verifier::external_body]
pub(crate) fn deserialize(data: &[u8]) -> (r: Result<Point, Error>)
    ensures
        match parsed_point(data@) {
            Some(point) => r == Ok::<Point, Error>(point),
            None => r == Err::<Point, Error>(Error::DeserializeError),
        },
{
    ark_serialize::CanonicalDeserialize::deserialize_compressed(data).map(
        |inner| Point { inner },
    ).map_err(|_e| Error::DeserializeError)
}

/// Calls `CanonicalSerialize::serialize_compressed` for a point of the
/// curve. The answer depends on the point alone and is named `point_bytes`.
/// The form is canonical: what is written is read back as the same point.
/// Every `Point` was read from bytes and validated, is the point at infinity,
/// or is a sum of such points.
#[verifier::external_body]
pub(crate) fn serialize(point: &Point) -> (r: Result<Vec<u8>, Error>)
    ensures
        match point_bytes(*point) {
            Some(bytes) => r matches Ok(v) && v@ == bytes && parsed_point(v@) == Some(*point),
            None => r == Err::<Vec<u8>, Error>(Error::SerializeError),
        },
{
    let mut res = Vec::new();
    ark_serialize::CanonicalSerialize::serialize_compressed(&point.inner, &mut res).map(
        |_v| res,
    ).map_err(|_e| Error::SerializeError)
}

/// Calls `AffineRepr::zero`: the point at infinity. Its canonical bytes are
/// those of infinity, and they are read as this point.
#[verifier::external_body]
pub(crate) fn zero_point() -> (r: Point)
    ensures
        parsed_point(infinity_bytes()) == Some(r),
        point_bytes(r) == Some(infinity_bytes()),
{
    Point { inner: ark_ec::AffineRepr::zero() }
}

/// Adds two points with the curve's `+` and brings the sum back to affine
/// form. The answer depends on the two points alone and is named
/// `point_sum`.
#[verifier::external_body]
pub(crate) fn add_points(a: Point, b: Point) -> (r: Point)
    ensures
        r == point_sum(a, b),
{
    Point { inner: (a.inner + b.inner).into() }
}

} // verus!
