//! The calls into `curve25519-dalek`, and the names under which the rest of
//! the library speaks of their results.
//!
//! Nothing in this file is proved. Group elements and scalars cross this
//! boundary as their 32-byte encodings, so that the contracts above it are
//! stated over plain byte sequences.

use vstd::prelude::*;

verus! {

/// The 32-byte little-endian encoding of the scalar that
/// `Scalar::hash_from_bytes::<Sha512>` derives from `input`: the SHA-512
/// digest of `input`, read as a 512-bit integer and reduced modulo the group
/// order.
pub uninterp spec fn scalar_hash(input: Seq<u8>) -> Seq<u8>;

/// Whether `CompressedRistretto::decompress` accepts `bytes`, that is, whether
/// `bytes` is the canonical encoding of an element of the Ristretto group.
pub uninterp spec fn is_point_encoding(bytes: Seq<u8>) -> bool;

/// The encoding of `scalar * point`, for the scalar that `scalar` stands for
/// modulo the group order and the group element that `point` encodes.
pub uninterp spec fn scalar_product(scalar: Seq<u8>, point: Seq<u8>) -> Seq<u8>;

/// The encoding of the sum of the group elements that `a` and `b` encode.
pub uninterp spec fn point_sum(a: Seq<u8>, b: Seq<u8>) -> Seq<u8>;

/// The compressed encoding of the Ristretto base point, as
/// `constants::RISTRETTO_BASEPOINT_COMPRESSED` gives it.
pub open spec fn base_point_encoding() -> Seq<u8> {
    seq![
        0xe2u8, 0xf2u8, 0xaeu8, 0x0au8, 0x6au8, 0xbcu8, 0x4eu8, 0x71u8,
        0xa8u8, 0x84u8, 0xa9u8, 0x61u8, 0xc5u8, 0x00u8, 0x51u8, 0x5fu8,
        0x58u8, 0xe3u8, 0x0bu8, 0x6au8, 0xa5u8, 0x82u8, 0xddu8, 0x8du8,
        0xb6u8, 0xa6u8, 0x59u8, 0x45u8, 0xe0u8, 0x8du8, 0x2du8, 0x76u8,
    ]
}

/// Calls `Scalar::hash_from_bytes::<Sha512>` and hands back the scalar's
/// bytes. The contract only names the result: the same input always gives the
/// same scalar.
#[verifier::external_body]
pub(crate) fn sha512_scalar(input: &[u8]) -> (out: [u8; 32])
    ensures
        out@ == scalar_hash(input@),
{
    curve25519_dalek::scalar::Scalar::hash_from_bytes::<sha2::Sha512>(input).to_bytes()
}

/// Calls `CompressedRistretto::decompress` and reports whether it returned a
/// point. The contract names the answer.
#[verifier::external_body]
pub(crate) fn decodes(bytes: &[u8; 32]) -> (ok: bool)
    ensures
        ok == is_point_encoding(bytes@),
{
    curve25519_dalek::ristretto::CompressedRistretto::from_slice(bytes).decompress().is_some()
}

/// Multiplies a decompressed point by a scalar (`Scalar * RistrettoPoint`) and
/// compresses the product. The scalar is read with
/// `Scalar::from_bytes_mod_order`, which accepts every byte array. The
/// contract names the product and claims that it is a canonical encoding, as
/// every output of `RistrettoPoint::compress` is. An encoding that does not
/// decompress is excluded, since the body would panic on it.
#[verifier::external_body]
pub(crate) fn multiply(scalar: &[u8; 32], point: &[u8; 32]) -> (out: [u8; 32])
    requires
        is_point_encoding(point@),
    ensures
        out@ == scalar_product(scalar@, point@),
        is_point_encoding(out@),
{
    let s = curve25519_dalek::scalar::Scalar::from_bytes_mod_order(*scalar);
    let p = curve25519_dalek::ristretto::CompressedRistretto::from_slice(point).decompress().unwrap();
    (s * p).compress().to_bytes()
}

/// Adds two decompressed points (`RistrettoPoint + RistrettoPoint`) and
/// compresses the sum. The contract names the sum and claims that it is a
/// canonical encoding. Encodings that do not decompress are excluded, since
/// the body would panic on them.
#[verifier::external_body]
pub(crate) fn sum(a: &[u8; 32], b: &[u8; 32]) -> (out: [u8; 32])
    requires
        is_point_encoding(a@),
        is_point_encoding(b@),
    ensures
        out@ == point_sum(a@, b@),
        is_point_encoding(out@),
{
    let p = curve25519_dalek::ristretto::CompressedRistretto::from_slice(a).decompress().unwrap();
    let q = curve25519_dalek::ristretto::CompressedRistretto::from_slice(b).decompress().unwrap();
    (p + q).compress().to_bytes()
}

/// Compares two decompressed points with `RistrettoPoint`'s `==`. The
/// Ristretto encoding is canonical: two points are equal if and only if their
/// encodings are, and that is what the contract claims. Encodings that do not
/// decompress are excluded, since the body would panic on them.
#[verifier::external_body]
pub(crate) fn same_point(a: &[u8; 32], b: &[u8; 32]) -> (eq: bool)
    requires
        is_point_encoding(a@),
        is_point_encoding(b@),
    ensures
        eq == (a@ == b@),
{
    let p = curve25519_dalek::ristretto::CompressedRistretto::from_slice(a).decompress().unwrap();
    let q = curve25519_dalek::ristretto::CompressedRistretto::from_slice(b).decompress().unwrap();
    p == q
}

/// Compresses `constants::RISTRETTO_BASEPOINT_POINT`. The contract claims that
/// the result is the crate's own `RISTRETTO_BASEPOINT_COMPRESSED`, and that
/// it is a canonical encoding.
#[verifier::external_body]
pub(crate) fn base_point() -> (out: [u8; 32])
    ensures
        out@ == base_point_encoding(),
        is_point_encoding(out@),
{
    curve25519_dalek::constants::RISTRETTO_BASEPOINT_POINT.compress().to_bytes()
}

/// Draws 64 bytes from the operating system's generator with
/// `RngCore::try_fill_bytes` on `rand_core::OsRng`, maps them to a point with
/// `RistrettoPoint::from_uniform_bytes` and compresses it. Where the system
/// cannot supply the bytes, the failure is handed back as `None`. Nothing is
/// claimed of when that happens, nor of which point comes back: only that a
/// point that does come back has a canonical encoding.
#[verifier::external_body]
pub(crate) fn random_point() -> (out: Option<[u8; 32]>)
    ensures
        out matches Some(bytes) ==> is_point_encoding(bytes@),
{
    let mut uniform = [0u8; 64];
    match rand_core::RngCore::try_fill_bytes(&mut rand_core::OsRng, &mut uniform) {
        Ok(()) => Some(
            curve25519_dalek::ristretto::RistrettoPoint::from_uniform_bytes(&uniform)
                .compress()
                .to_bytes(),
        ),
        Err(_) => None,
    }
}

} // verus!
