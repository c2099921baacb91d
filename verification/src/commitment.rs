//! Building a Pedersen commitment, and checking a disclosed message and
//! secret against a stored one.

use vstd::prelude::*;
use vstd::string::StringSliceAdditionalSpecFns;

use crate::curve::{base_point_encoding, is_point_encoding, point_sum, scalar_hash, scalar_product};
use crate::error::Error;
use crate::group::{base_generator, hash_to_scalar, random_generator, Point, Scalar};

verus! {

/// The identity under which a commitment is stored.
pub type AccountId = u64;

/// A reading of the host's clock.
pub type BlockNumber = u64;

/// The encoding of `m*g + r*h`.
pub open spec fn pedersen(m: Seq<u8>, r: Seq<u8>, g: Seq<u8>, h: Seq<u8>) -> Seq<u8> {
    point_sum(scalar_product(m, g), scalar_product(r, h))
}

/// The encoding of the payload that commits to `message` and `secret` under
/// the generators `g` and `h`: both strings are hashed to scalars first.
pub open spec fn payload_of(message: Seq<u8>, secret: Seq<u8>, g: Seq<u8>, h: Seq<u8>) -> Seq<u8> {
    pedersen(scalar_hash(message), scalar_hash(secret), g, h)
}

/// Computes the commitment to `message` and `secret` under the generators
/// `g` and `h`. Returns the payload `m*g + r*h` together with the two
/// scalars: `m`, hashed from the message, and `r`, hashed from the secret.
/// The scalars are the committer's witnesses and are never stored.
pub fn construct(message: &str, secret: &str, g: &Point, h: &Point) -> (out: (Point, Scalar, Scalar))
    ensures
        out.1@ == scalar_hash(message.spec_bytes()),
        out.2@ == scalar_hash(secret.spec_bytes()),
        out.0@ == pedersen(out.1@, out.2@, g@, h@),
        out.0@ == payload_of(message.spec_bytes(), secret.spec_bytes(), g@, h@),
        is_point_encoding(out.0@),
{
    let m = hash_to_scalar(message.as_bytes());
    let r = hash_to_scalar(secret.as_bytes());
    let gm = g.scale(&m);
    let hr = h.scale(&r);
    let payload = gm.plus(&hr);
    (payload, m, r)
}

/// What a committer keeps after committing: the generators, the payload to
/// publish, and the two scalars that open it.
#[derive(Clone, Copy, Debug, PartialEq, Eq)]
pub struct Opening {
    pub g: Point,
    pub h: Point,
    pub payload: Point,
    pub secret: Scalar,
    pub message: Scalar,
}

impl Opening {
    /// Commits to `message` and `secret` under the fixed base generator and a
    /// freshly drawn second generator. Where the operating system cannot
    /// supply the random bytes for that generator, nothing is committed and
    /// the result is `None`.
    pub fn new(message: &str, secret: &str) -> (out: Option<Opening>)
        ensures
            out matches Some(opening) ==> {
                &&& opening.g@ == base_point_encoding()
                &&& opening.message@ == scalar_hash(message.spec_bytes())
                &&& opening.secret@ == scalar_hash(secret.spec_bytes())
                &&& opening.payload@ == payload_of(
                    message.spec_bytes(),
                    secret.spec_bytes(),
                    opening.g@,
                    opening.h@,
                )
                &&& is_point_encoding(opening.g@)
                &&& is_point_encoding(opening.h@)
                &&& is_point_encoding(opening.payload@)
            },
    {
        let g = base_generator();
        let h = match random_generator() {
            Some(h) => h,
            None => {
                return None;
            },
        };
        let (payload, m, r) = construct(message, secret, &g, &h);
        Some(Opening { g, h, payload, secret: r, message: m })
    }
}

/// The record stored for one identity: the generators and the payload in
/// compressed form, the time of the commit, and the time of the last
/// successful reveal, if there was one.
#[derive(Clone, Copy, Debug, PartialEq, Eq)]
pub struct Commitment {
    pub point_g: [u8; 32],
    pub point_h: [u8; 32],
    pub payload: [u8; 32],
    pub committed_at: BlockNumber,
    pub revealed_at: Option<BlockNumber>,
}

impl Commitment {
    /// Whether the three stored byte arrays are canonical encodings of group
    /// elements, as they were when the commit was accepted.
    pub open spec fn well_formed(&self) -> bool {
        &&& is_point_encoding(self.point_g@)
        &&& is_point_encoding(self.point_h@)
        &&& is_point_encoding(self.payload@)
    }

    /// Whether `message` and `secret` open this commitment: whether the
    /// payload recomputed from them under the stored generators is the stored
    /// payload.
    pub open spec fn opens_to(&self, secret: Seq<u8>, message: Seq<u8>) -> bool {
        self.payload@ == payload_of(message, secret, self.point_g@, self.point_h@)
    }

    /// The outcome of checking `message` and `secret` against this
    /// commitment.
    pub open spec fn verdict(&self, secret: Seq<u8>, message: Seq<u8>) -> Result<(), Error> {
        if !self.well_formed() {
            Err(Error::CorruptEntry)
        } else if self.opens_to(secret, message) {
            Ok(())
        } else {
            Err(Error::UnableToReveal)
        }
    }

    /// Checks a disclosed `secret` and `message` against this commitment.
    ///
    /// The stored generators and payload are decompressed, the payload is
    /// recomputed as `m*g + r*h` from the hashed message and secret, and the
    /// two group elements are compared. A stored array that does not
    /// decompress is reported as `CorruptEntry`, a payload that differs as
    /// `UnableToReveal`.
    pub fn verify_commitment(self, secret: &Vec<u8>, message: &Vec<u8>) -> (res: Result<(), Error>)
        ensures
            res == self.verdict(secret@, message@),
            res.is_ok() <==> self.well_formed() && self.opens_to(secret@, message@),
    {
        let commitment_payload = match Point::decompress(self.payload) {
            Ok(p) => p,
            Err(_) => {
                return Err(Error::CorruptEntry);
            },
        };
        let commitment_g = match Point::decompress(self.point_g) {
            Ok(p) => p,
            Err(_) => {
                return Err(Error::CorruptEntry);
            },
        };
        let commitment_h = match Point::decompress(self.point_h) {
            Ok(p) => p,
            Err(_) => {
                return Err(Error::CorruptEntry);
            },
        };
        let r = hash_to_scalar(secret.as_slice());
        let m = hash_to_scalar(message.as_slice());
        let gm = commitment_g.scale(&m);
        let hr = commitment_h.scale(&r);
        let payload = gm.plus(&hr);
        if commitment_payload.same_as(&payload) {
            Ok(())
        } else {
            Err(Error::UnableToReveal)
        }
    }
}

/// Round trip: a well-formed entry whose payload was constructed from
/// `message` and `secret` under the entry's own generators is opened by that
/// message and that secret.
pub proof fn lemma_constructed_payload_verifies(
    entry: Commitment,
    message: Seq<u8>,
    secret: Seq<u8>,
)
    requires
        entry.well_formed(),
        entry.payload@ == payload_of(message, secret, entry.point_g@, entry.point_h@),
    ensures
        entry.verdict(secret, message) == Ok::<(), Error>(()),
{
}

/// An entry whose payload was constructed from `message` and `secret` under
/// the entry's own generators is opened by another message and secret
/// exactly when those give the same payload under the same generators.
/// Otherwise they are turned down as `UnableToReveal`. Whether two different
/// pairs can give the same payload is a matter of the hash and of the group,
/// and nothing is said of it here.
pub proof fn lemma_other_pair_opens_only_by_collision(
    entry: Commitment,
    message: Seq<u8>,
    secret: Seq<u8>,
    other_message: Seq<u8>,
    other_secret: Seq<u8>,
)
    requires
        entry.well_formed(),
        entry.payload@ == payload_of(message, secret, entry.point_g@, entry.point_h@),
    ensures
        entry.verdict(other_secret, other_message).is_ok() <==> payload_of(
            other_message,
            other_secret,
            entry.point_g@,
            entry.point_h@,
        ) == payload_of(message, secret, entry.point_g@, entry.point_h@),
        entry.verdict(other_secret, other_message).is_err() ==> entry.verdict(
            other_secret,
            other_message,
        ) == Err::<(), Error>(Error::UnableToReveal),
{
}

/// Binding, as far as it holds of every input: an entry whose payload was
/// constructed from `message` and `secret` under the entry's own generators
/// turns down, as `UnableToReveal`, every other message and secret that give
/// a different payload under those generators. Pairs that give the same
/// payload are left out, and there are such pairs: under a generator `h`
/// that is the identity of the group, the payload does not depend on the
/// secret at all.
pub proof fn lemma_other_payload_is_turned_down(
    entry: Commitment,
    message: Seq<u8>,
    secret: Seq<u8>,
    other_message: Seq<u8>,
    other_secret: Seq<u8>,
)
    requires
        entry.well_formed(),
        entry.payload@ == payload_of(message, secret, entry.point_g@, entry.point_h@),
        payload_of(other_message, other_secret, entry.point_g@, entry.point_h@) != payload_of(
            message,
            secret,
            entry.point_g@,
            entry.point_h@,
        ),
    ensures
        entry.verdict(other_secret, other_message) == Err::<(), Error>(Error::UnableToReveal),
{
}

} // verus!
