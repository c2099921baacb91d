//! The errors that the commit and reveal operations report.

use vstd::prelude::*;

verus! {

/// Why a commit or a reveal was turned down. No error leaves a stored
/// commitment changed.
#[derive(Clone, Copy, Debug, PartialEq, Eq, Structural)]
pub enum Error {
    /// The caller has no stored commitment.
    NoActiveCommitmentForOrigin,
    /// The disclosed message and secret do not open the stored commitment.
    UnableToReveal,
    /// The disclosed message is longer than the configured bound.
    CommitmentMessageIsTooLarge,
    /// A byte array handed to `commit` or to `Point::decompress` is not the
    /// canonical encoding of a group element.
    InvalidEncoding,
    /// A stored commitment holds bytes that are not the canonical encoding of
    /// a group element: the store was damaged after the commit.
    CorruptEntry,
}

} // verus!
