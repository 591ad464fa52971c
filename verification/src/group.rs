//! Points of the curve in which amounts are encrypted, and the scalars that
//! multiply them.
//!
//! The arithmetic is the curve library's. A point is known here by its
//! canonical encoding of 48 bytes, a scalar by its encoding of 32 bytes, and
//! every operation is stated as a function of those encodings.

use vstd::prelude::*;
use crate::hexcode::hex_of_bytes;
use concordium_base::common::{base16_decode_string, to_bytes};
use concordium_base::curve_arithmetic::Curve;
use concordium_base::dodis_yampolskiy_prf::SecretKey;
use pairing::bls12_381::{Fr, G1};

verus! {

#[verifier::external_type_specification]
#[verifier::external_body]
pub struct ExG1(G1);

#[verifier::external_type_specification]
#[verifier::external_body]
pub struct ExFr(Fr);

/// The number of bytes in the encoding of a point.
pub const POINT_LENGTH: usize = 48;

/// The canonical encoding of a point.
pub uninterp spec fn point_encoding(p: G1) -> Seq<u8>;

/// The canonical encoding of a scalar.
pub uninterp spec fn scalar_encoding(s: Fr) -> Seq<u8>;

/// The encoding of the sum of the points encoded by `a` and `b`.
pub uninterp spec fn encoded_sum(a: Seq<u8>, b: Seq<u8>) -> Seq<u8>;

/// The encoding of the point encoded by `a` less the point encoded by `b`.
pub uninterp spec fn encoded_difference(a: Seq<u8>, b: Seq<u8>) -> Seq<u8>;

/// The encoding of the point encoded by `a`, multiplied by the scalar
/// encoded by `s`.
pub uninterp spec fn encoded_product(a: Seq<u8>, s: Seq<u8>) -> Seq<u8>;

/// The encoding of the inverse of the sum of the scalar encoded by `key` and
/// `index`, where that sum is not zero.
pub uninterp spec fn encoded_prf_exponent(key: Seq<u8>, index: u8) -> Option<Seq<u8>>;

/// The encoding of the scalar that hexadecimal text holds, if it holds one.
pub uninterp spec fn hex_scalar(text: Seq<char>) -> Option<Seq<u8>>;

/// The encoding of the neutral point: the flags for a compressed point at
/// infinity, and zeros.
pub open spec fn identity_encoding() -> Seq<u8> {
    Seq::new(
        48,
        |i: int|
            if i == 0 {
                0xc0u8
            } else {
                0u8
            },
    )
}

/// A point of the curve.
#[derive(Clone, Copy, Debug)]
pub struct Point {
    inner: G1,
}

/// A scalar of the curve's field.
#[derive(Clone, Copy, Debug)]
pub struct Scalar {
    inner: Fr,
}

impl View for Point {
    type V = Seq<u8>;

    closed spec fn view(&self) -> Seq<u8> {
        point_encoding(self.inner)
    }
}

impl View for Scalar {
    type V = Seq<u8>;

    closed spec fn view(&self) -> Seq<u8> {
        scalar_encoding(self.inner)
    }
}

/// `to_bytes` on a point: its compressed encoding, which has 48 bytes and is
/// the same for every representation of the same point.
#[verifier::external_body]
fn point_bytes(p: &G1) -> (bytes: Vec<u8>)
    ensures
        bytes@ == point_encoding(*p),
        bytes@.len() == 48,
{
    to_bytes(p)
}

/// `to_bytes` on a scalar: its encoding, which has 32 bytes, and which
/// `base16_decode_string` reads back from its hexadecimal text as the same
/// scalar.
#[verifier::external_body]
fn scalar_bytes(s: &Fr) -> (bytes: Vec<u8>)
    ensures
        bytes@ == scalar_encoding(*s),
        bytes@.len() == 32,
        hex_scalar(hex_of_bytes(bytes@)) == Some(bytes@),
{
    to_bytes(s)
}

/// `Curve::zero_point`: the neutral point, whose encoding is the flag byte
/// `0xc0` followed by zeros.
#[verifier::external_body]
fn neutral_point() -> (p: G1)
    ensures
        point_encoding(p) == identity_encoding(),
{
    <G1 as Curve>::zero_point()
}

/// `Curve::plus_point`: the sum, which as a point depends only on the two
/// points added.
#[verifier::external_body]
fn point_sum(a: &G1, b: &G1) -> (p: G1)
    ensures
        point_encoding(p) == encoded_sum(point_encoding(*a), point_encoding(*b)),
{
    a.plus_point(b)
}

/// `Curve::minus_point`: the difference, which as a point depends only on
/// the two points.
#[verifier::external_body]
fn point_difference(a: &G1, b: &G1) -> (p: G1)
    ensures
        point_encoding(p) == encoded_difference(point_encoding(*a), point_encoding(*b)),
{
    a.minus_point(b)
}

/// `Curve::mul_by_scalar`: the multiple, which as a point depends only on
/// the point and the scalar.
#[verifier::external_body]
fn point_product(a: &G1, s: &Fr) -> (p: G1)
    ensures
        point_encoding(p) == encoded_product(point_encoding(*a), scalar_encoding(*s)),
{
    a.mul_by_scalar(s)
}

/// `SecretKey::prf_exponent`: the inverse of key plus index, or nothing when
/// that sum is zero; it depends only on the key and the index.
#[verifier::external_body]
fn prf_exponent_of(key: &Fr, index: u8) -> (exponent: Option<Fr>)
    ensures
        match exponent {
            Some(e) => encoded_prf_exponent(scalar_encoding(*key), index) == Some(
                scalar_encoding(e),
            ),
            None => encoded_prf_exponent(scalar_encoding(*key), index) is None,
        },
{
    SecretKey::<G1>::new(*key).prf_exponent(index).ok()
}

/// `base16_decode_string` for a scalar: the scalar that the hexadecimal
/// text holds, which depends only on the text; nothing when the text holds
/// none.
#[verifier::external_body]
fn scalar_of_hex(text: &str) -> (r: Option<Fr>)
    ensures
        match r {
            Some(scalar) => hex_scalar(text@) == Some(scalar_encoding(scalar)),
            None => hex_scalar(text@) is None,
        },
{
    base16_decode_string::<Fr>(text).ok()
}

impl Point {
    /// The point that the curve library holds as `inner`.
    pub fn new(inner: G1) -> (p: Point)
        ensures
            p@ == point_encoding(inner),
    {
        Point { inner }
    }

    /// The neutral point.
    pub fn neutral() -> (p: Point)
        ensures
            p@ == identity_encoding(),
    {
        Point { inner: neutral_point() }
    }

    /// The point as the curve library holds it.
    pub fn inner(&self) -> (inner: G1)
        ensures
            point_encoding(inner) == self@,
    {
        self.inner
    }

    /// The canonical encoding of the point.
    pub fn encoding(&self) -> (bytes: Vec<u8>)
        ensures
            bytes@ == self@,
            bytes@.len() == 48,
    {
        point_bytes(&self.inner)
    }

    /// The sum of two points.
    pub fn plus(&self, other: &Point) -> (p: Point)
        ensures
            p@ == encoded_sum(self@, other@),
    {
        Point { inner: point_sum(&self.inner, &other.inner) }
    }

    /// This point less `other`.
    pub fn minus(&self, other: &Point) -> (p: Point)
        ensures
            p@ == encoded_difference(self@, other@),
    {
        Point { inner: point_difference(&self.inner, &other.inner) }
    }

    /// This point multiplied by `scalar`.
    pub fn times(&self, scalar: &Scalar) -> (p: Point)
        ensures
            p@ == encoded_product(self@, scalar@),
    {
        Point { inner: point_product(&self.inner, &scalar.inner) }
    }
}

impl Scalar {
    /// The scalar that the curve library holds as `inner`.
    pub fn new(inner: Fr) -> (s: Scalar)
        ensures
            s@ == scalar_encoding(inner),
    {
        Scalar { inner }
    }

    /// Reads a scalar from hexadecimal text. There is none when the text
    /// does not hold a scalar.
    pub fn from_hex(text: &str) -> (r: Option<Scalar>)
        ensures
            match r {
                Some(scalar) => hex_scalar(text@) == Some(scalar@),
                None => hex_scalar(text@) is None,
            },
    {
        match scalar_of_hex(text) {
            Some(inner) => Some(Scalar { inner }),
            None => None,
        }
    }

    /// The encoding of the scalar, which is read back from its hexadecimal
    /// text as the same scalar.
    pub fn encoding(&self) -> (bytes: Vec<u8>)
        ensures
            bytes@ == self@,
            bytes@.len() == 32,
            hex_scalar(hex_of_bytes(bytes@)) == Some(bytes@),
    {
        scalar_bytes(&self.inner)
    }

    /// The scalar as the curve library holds it.
    pub fn inner(&self) -> (inner: Fr)
        ensures
            scalar_encoding(inner) == self@,
    {
        self.inner
    }

    /// The exponent that a key gives for the credential with number `index`:
    /// the inverse of key plus index. There is none when that sum is zero.
    pub fn prf_exponent(&self, index: u8) -> (exponent: Option<Scalar>)
        ensures
            match exponent {
                Some(e) => encoded_prf_exponent(self@, index) == Some(e@),
                None => encoded_prf_exponent(self@, index) is None,
            },
    {
        match prf_exponent_of(&self.inner, index) {
            Some(e) => Some(Scalar { inner: e }),
            None => None,
        }
    }
}

} // verus!
