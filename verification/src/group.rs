//! Group elements and scalars as the library holds them: by their canonical
//! 32-byte encodings.

use vstd::prelude::*;

use crate::curve::{
    base_point, base_point_encoding, decodes, is_point_encoding, multiply, point_sum,
    random_point, same_point, scalar_hash, scalar_product, sha512_scalar, sum,
};
use crate::error::Error;
use crate::text::{hex_encode, hex_of};

verus! {

/// An element of the Ristretto group, held as its compressed encoding. Every
/// value of this type holds bytes that decompress: a `Point` can only be made
/// by `Point::decompress`, by one of the two generator functions, or by
/// arithmetic on other points.
#[derive(Clone, Copy, Debug, PartialEq, Eq)]
pub struct Point {
    bytes: [u8; 32],
}

/// A scalar modulo the group order, held as 32 little-endian bytes.
#[derive(Clone, Copy, Debug, PartialEq, Eq)]
pub struct Scalar {
    bytes: [u8; 32],
}

impl View for Point {
    type V = Seq<u8>;

    /// The compressed encoding.
    closed spec fn view(&self) -> Seq<u8> {
        self.bytes@
    }
}

impl View for Scalar {
    type V = Seq<u8>;

    /// The little-endian bytes.
    closed spec fn view(&self) -> Seq<u8> {
        self.bytes@
    }
}

impl Point {
    #[verifier::type_invariant]
    spec fn decompresses(self) -> bool {
        is_point_encoding(self.bytes@)
    }

    /// Reads a compressed point. Succeeds exactly on the canonical encodings
    /// of group elements; every other byte array is an `InvalidEncoding`.
    pub fn decompress(bytes: [u8; 32]) -> (res: Result<Point, Error>)
        ensures
            res.is_ok() <==> is_point_encoding(bytes@),
            res matches Ok(p) ==> p@ == bytes@,
            res matches Err(e) ==> e == Error::InvalidEncoding,
    {
        if decodes(&bytes) {
            Ok(Point { bytes })
        } else {
            Err(Error::InvalidEncoding)
        }
    }

    /// The compressed encoding of this point, which always decompresses.
    pub fn compress(&self) -> (out: [u8; 32])
        ensures
            out@ == self@,
            is_point_encoding(out@),
    {
        proof {
            use_type_invariant(self);
        }
        self.bytes
    }

    /// The compressed encoding in lower-case hexadecimal: 64 digits.
    pub fn to_hex(&self) -> (out: String)
        ensures
            out@ == hex_of(self@),
            out@.len() == 64,
    {
        hex_encode(&self.bytes)
    }

    /// The product `k * self`.
    pub fn scale(&self, k: &Scalar) -> (out: Point)
        ensures
            out@ == scalar_product(k@, self@),
            is_point_encoding(out@),
    {
        proof {
            use_type_invariant(self);
        }
        Point { bytes: multiply(&k.bytes, &self.bytes) }
    }

    /// The sum `self + other`.
    pub fn plus(&self, other: &Point) -> (out: Point)
        ensures
            out@ == point_sum(self@, other@),
            is_point_encoding(out@),
    {
        proof {
            use_type_invariant(self);
            use_type_invariant(other);
        }
        Point { bytes: sum(&self.bytes, &other.bytes) }
    }

    /// Whether two points are the same group element. The comparison is made
    /// on the decompressed points; since the encoding is canonical, it holds
    /// exactly when the encodings agree.
    pub fn same_as(&self, other: &Point) -> (eq: bool)
        ensures
            eq == (self@ == other@),
    {
        proof {
            use_type_invariant(self);
            use_type_invariant(other);
        }
        same_point(&self.bytes, &other.bytes)
    }
}

impl Scalar {
    /// The little-endian bytes of this scalar.
    pub fn to_bytes(&self) -> (out: [u8; 32])
        ensures
            out@ == self@,
    {
        self.bytes
    }
}

/// The fixed public generator `g`: the Ristretto base point, the same for
/// every caller.
pub fn base_generator() -> (g: Point)
    ensures
        g@ == base_point_encoding(),
        is_point_encoding(g@),
{
    Point { bytes: base_point() }
}

/// A generator `h` drawn uniformly at random from the group, so that nobody
/// knows its discrete logarithm with respect to `g`. The bytes come from the
/// operating system's generator; where the system cannot supply them, there
/// is no generator and the result is `None`. Two calls may differ: all that
/// is known of a generator that comes back is that it is a group element.
pub fn random_generator() -> (out: Option<Point>)
    ensures
        out matches Some(h) ==> is_point_encoding(h@),
{
    match random_point() {
        Some(bytes) => Some(Point { bytes }),
        None => None,
    }
}

/// Derives a scalar from a byte string of any length, the empty one included.
pub fn hash_to_scalar(bytes: &[u8]) -> (s: Scalar)
    ensures
        s@ == scalar_hash(bytes@),
{
    Scalar { bytes: sha512_scalar(bytes) }
}

} // verus!
