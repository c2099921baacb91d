//! A commit-reveal scheme built on Pedersen commitments over the Ristretto
//! group.
//!
//! A committer publishes `payload = m*g + r*h`, where `m` and `r` are scalars
//! hashed from a message and a secret, and later opens the commitment by
//! disclosing both strings. The group arithmetic is done by
//! `curve25519-dalek`; everything around it is verified here.

pub mod commitment;
pub mod curve;
pub mod error;
pub mod group;
pub mod laws;
pub mod pallet;
pub mod text;

pub use commitment::{construct, AccountId, BlockNumber, Commitment, Opening};
pub use error::Error;
pub use group::{base_generator, hash_to_scalar, random_generator, Point, Scalar};
pub use pallet::{settle_reveal, CommitmentState, Config, Event, Pallet};
