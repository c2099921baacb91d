//! The commit/reveal state machine: one stored commitment per identity.

use std::collections::HashMap;
use vstd::prelude::*;
use vstd::std_specs::hash::group_hash_axioms;

use crate::commitment::{AccountId, BlockNumber, Commitment};
use crate::curve::is_point_encoding;
use crate::error::Error;
use crate::group::Point;

verus! {

broadcast use group_hash_axioms;

/// The one setting of the state machine.
#[derive(Clone, Copy, Debug, PartialEq, Eq)]
pub struct Config {
    /// The longest message, in bytes, that a reveal may disclose.
    pub max_len_commit_message: u32,
}

/// Where an identity stands.
#[derive(Clone, Copy, Debug, PartialEq, Eq, Structural)]
pub enum CommitmentState {
    /// A commitment is stored and has not been revealed.
    CommitmentSecret,
    /// A commitment is stored and has been revealed.
    CommitmentRevealed,
    /// No commitment is stored.
    CommitmentNotFound,
}

/// What a successful operation tells the host to publish.
#[derive(Debug, PartialEq, Eq)]
pub enum Event {
    /// A commitment was opened.
    CommitmentRevealed { revealer: AccountId, revealed_at: BlockNumber, message: Vec<u8> },
}

/// The entry that an accepted commit stores.
pub open spec fn fresh_entry(
    now: BlockNumber,
    payload: [u8; 32],
    point_g: [u8; 32],
    point_h: [u8; 32],
) -> Commitment {
    Commitment { point_g, point_h, payload, committed_at: now, revealed_at: None }
}

/// Whether every stored entry holds canonical encodings.
pub open spec fn all_well_formed(store: Map<AccountId, Commitment>) -> bool {
    forall|who: AccountId| #[trigger] store.contains_key(who) ==> store[who].well_formed()
}

/// The state of `who` in `store`.
pub open spec fn state_in(store: Map<AccountId, Commitment>, who: AccountId) -> CommitmentState {
    if !store.contains_key(who) {
        CommitmentState::CommitmentNotFound
    } else if store[who].revealed_at.is_some() {
        CommitmentState::CommitmentRevealed
    } else {
        CommitmentState::CommitmentSecret
    }
}

/// The outcome of a commit: accepted exactly when all three byte arrays are
/// canonical encodings.
pub open spec fn commit_verdict(payload: [u8; 32], point_g: [u8; 32], point_h: [u8; 32]) -> Result<
    (),
    Error,
> {
    if fresh_entry(0, payload, point_g, point_h).well_formed() {
        Ok(())
    } else {
        Err(Error::InvalidEncoding)
    }
}

/// The store after a commit by `who`: an accepted commit replaces whatever
/// was stored for `who`, a rejected one changes nothing.
pub open spec fn after_commit(
    store: Map<AccountId, Commitment>,
    who: AccountId,
    now: BlockNumber,
    payload: [u8; 32],
    point_g: [u8; 32],
    point_h: [u8; 32],
) -> Map<AccountId, Commitment> {
    if commit_verdict(payload, point_g, point_h).is_ok() {
        store.insert(who, fresh_entry(now, payload, point_g, point_h))
    } else {
        store
    }
}

/// The outcome of a reveal by `who`. A missing entry is reported first, then
/// a message that is too long; only then is the commitment checked.
pub open spec fn reveal_verdict(
    store: Map<AccountId, Commitment>,
    max_len: u32,
    who: AccountId,
    message: Seq<u8>,
    secret: Seq<u8>,
) -> Result<(), Error> {
    if !store.contains_key(who) {
        Err(Error::NoActiveCommitmentForOrigin)
    } else if message.len() > max_len {
        Err(Error::CommitmentMessageIsTooLarge)
    } else {
        store[who].verdict(secret, message)
    }
}

/// The entry `entry` with its reveal time set to `now`; nothing else changes.
pub open spec fn revealed(entry: Commitment, now: BlockNumber) -> Commitment {
    Commitment { revealed_at: Some(now), ..entry }
}

/// The store after a reveal by `who`: a successful reveal stamps the entry
/// with `now`, a failed one changes nothing.
pub open spec fn after_reveal(
    store: Map<AccountId, Commitment>,
    max_len: u32,
    who: AccountId,
    now: BlockNumber,
    message: Seq<u8>,
    secret: Seq<u8>,
) -> Map<AccountId, Commitment> {
    if reveal_verdict(store, max_len, who, message, secret).is_ok() {
        store.insert(who, revealed(store[who], now))
    } else {
        store
    }
}

/// What a reveal does with the entry it found, once the disclosed message and
/// secret have been checked against it. After a check that passed, the entry
/// is stamped with `now` and the event to publish is made; after one that
/// failed, its error is handed on and there is no entry to write.
pub fn settle_reveal(
    entry: Commitment,
    revealer: AccountId,
    now: BlockNumber,
    message: Vec<u8>,
    checked: Result<(), Error>,
) -> (res: Result<(Commitment, Event), Error>)
    ensures
        match checked {
            Ok(()) => {
                &&& res matches Ok((stamped, event))
                &&& stamped == revealed(entry, now)
                &&& event matches Event::CommitmentRevealed { revealer: r, revealed_at: t, message: m }
                &&& r == revealer
                &&& t == now
                &&& m@ == message@
            },
            Err(e) => res == Err::<(Commitment, Event), Error>(e),
        },
{
    match checked {
        Ok(()) => {
            let stamped = Commitment {
                point_g: entry.point_g,
                point_h: entry.point_h,
                payload: entry.payload,
                committed_at: entry.committed_at,
                revealed_at: Some(now),
            };
            Ok((stamped, Event::CommitmentRevealed { revealer, revealed_at: now, message }))
        },
        Err(e) => Err(e),
    }
}

/// The commit/reveal state machine together with its store. The identity of
/// the caller and the reading of the clock come from the host with each
/// operation.
pub struct Pallet {
    commitments: HashMap<AccountId, Commitment>,
    config: Config,
}

impl View for Pallet {
    type V = Map<AccountId, Commitment>;

    /// The stored entries, by identity.
    closed spec fn view(&self) -> Map<AccountId, Commitment> {
        self.commitments@
    }
}

impl Pallet {
    #[verifier::type_invariant]
    spec fn entries_decode(self) -> bool {
        all_well_formed(self.commitments@)
    }

    /// The configuration that this state machine was made with.
    pub closed spec fn spec_config(&self) -> Config {
        self.config
    }

    /// An empty store under `config`.
    pub fn new(config: Config) -> (pallet: Pallet)
        ensures
            pallet@ == Map::<AccountId, Commitment>::empty(),
            pallet.spec_config() == config,
    {
        Pallet { commitments: HashMap::new(), config }
    }

    /// The configuration that this state machine was made with.
    #[verifier::when_used_as_spec(spec_config)]
    pub fn config(&self) -> (config: Config)
        ensures
            config == self.spec_config(),
    {
        self.config
    }

    /// Writes `entry` under `who`. The map is taken out of the store for the
    /// write and put back after it, so that the store holds well-formed
    /// entries at every moment.
    fn put(&mut self, who: AccountId, entry: Commitment)
        requires
            entry.well_formed(),
        ensures
            final(self)@ == old(self)@.insert(who, entry),
            final(self).spec_config() == old(self).spec_config(),
    {
        proof {
            use_type_invariant(&*self);
        }
        let mut entries: HashMap<AccountId, Commitment> = HashMap::new();
        std::mem::swap(&mut self.commitments, &mut entries);
        entries.insert(who, entry);
        std::mem::swap(&mut self.commitments, &mut entries);
    }

    /// The entry stored for `who`, if there is one. Every stored entry is
    /// well formed.
    pub fn commitments(&self, who: AccountId) -> (entry: Option<Commitment>)
        ensures
            entry.is_some() <==> self@.contains_key(who),
            entry matches Some(c) ==> c == self@[who] && c.well_formed(),
            all_well_formed(self@),
    {
        proof {
            use_type_invariant(self);
        }
        match self.commitments.get(&who) {
            Some(c) => Some(*c),
            None => None,
        }
    }

    /// The state of `who`.
    pub fn state(&self, who: AccountId) -> (state: CommitmentState)
        ensures
            state == state_in(self@, who),
    {
        match self.commitments.get(&who) {
            Some(c) => {
                if c.revealed_at.is_some() {
                    CommitmentState::CommitmentRevealed
                } else {
                    CommitmentState::CommitmentSecret
                }
            },
            None => CommitmentState::CommitmentNotFound,
        }
    }

    /// Stores a commitment for `commiter`, replacing whatever was stored for
    /// that identity, revealed or not. The commit is turned down, and the
    /// store left as it was, exactly when one of the three byte arrays is not
    /// the canonical encoding of a group element.
    pub fn commit(
        &mut self,
        commiter: AccountId,
        now: BlockNumber,
        payload: [u8; 32],
        point_g: [u8; 32],
        point_h: [u8; 32],
    ) -> (res: Result<(), Error>)
        ensures
            res == commit_verdict(payload, point_g, point_h),
            final(self)@ == after_commit(old(self)@, commiter, now, payload, point_g, point_h),
            final(self).spec_config() == old(self).spec_config(),
            res.is_ok() <==> is_point_encoding(payload@) && is_point_encoding(point_g@)
                && is_point_encoding(point_h@),
            res.is_ok() ==> final(self)@.contains_key(commiter) && final(self)@[commiter]
                == fresh_entry(now, payload, point_g, point_h) && state_in(final(self)@, commiter)
                == CommitmentState::CommitmentSecret,
            res.is_err() ==> res == Err::<(), Error>(Error::InvalidEncoding) && final(self)@ == old(
                self,
            )@,
    {
        proof {
            use_type_invariant(&*self);
        }
        if Point::decompress(payload).is_err() {
            return Err(Error::InvalidEncoding);
        }
        if Point::decompress(point_g).is_err() {
            return Err(Error::InvalidEncoding);
        }
        if Point::decompress(point_h).is_err() {
            return Err(Error::InvalidEncoding);
        }
        let commitment = Commitment {
            payload,
            point_g,
            point_h,
            committed_at: now,
            revealed_at: None,
        };
        self.put(commiter, commitment);
        Ok(())
    }

    /// Opens the commitment stored for `revealer`.
    ///
    /// Fails with `NoActiveCommitmentForOrigin` when nothing is stored for
    /// `revealer`, with `CommitmentMessageIsTooLarge` when the message is
    /// longer than the configured bound, and with `UnableToReveal` when
    /// message and secret do not open the stored commitment. A failed reveal
    /// changes nothing. A successful one stamps the entry with `now` and
    /// returns the event to publish; it succeeds again, with a new stamp, on
    /// an entry that was revealed before.
    pub fn reveal_and_verify(
        &mut self,
        revealer: AccountId,
        now: BlockNumber,
        message: Vec<u8>,
        secret: Vec<u8>,
    ) -> (res: Result<Event, Error>)
        ensures
            final(self).spec_config() == old(self).spec_config(),
            final(self)@ == after_reveal(
                old(self)@,
                old(self).spec_config().max_len_commit_message,
                revealer,
                now,
                message@,
                secret@,
            ),
            ({
                let max_len = old(self).spec_config().max_len_commit_message;
                let verdict = reveal_verdict(old(self)@, max_len, revealer, message@, secret@);
                match res {
                    Ok(event) => {
                        &&& verdict.is_ok()
                        &&& event matches Event::CommitmentRevealed {
                            revealer: r,
                            revealed_at: t,
                            message: m,
                        }
                        &&& r == revealer
                        &&& t == now
                        &&& m@ == message@
                        &&& final(self)@[revealer] == revealed(old(self)@[revealer], now)
                        &&& state_in(final(self)@, revealer) == CommitmentState::CommitmentRevealed
                    },
                    Err(e) => {
                        &&& verdict == Err::<(), Error>(e)
                        &&& e != Error::CorruptEntry
                        &&& e != Error::InvalidEncoding
                        &&& final(self)@ == old(self)@
                    },
                }
            }),
            !old(self)@.contains_key(revealer) ==> res == Err::<Event, Error>(
                Error::NoActiveCommitmentForOrigin,
            ),
            old(self)@.contains_key(revealer) && message@.len() > old(
                self,
            ).spec_config().max_len_commit_message ==> res == Err::<Event, Error>(
                Error::CommitmentMessageIsTooLarge,
            ),
            old(self)@.contains_key(revealer) && message@.len() <= old(
                self,
            ).spec_config().max_len_commit_message ==> (res.is_ok() <==> old(
                self,
            )@[revealer].opens_to(secret@, message@)) && (res.is_err() ==> res == Err::<
                Event,
                Error,
            >(Error::UnableToReveal)),
    {
        proof {
            use_type_invariant(&*self);
        }
        let commitment = match self.commitments.get(&revealer) {
            Some(c) => *c,
            None => {
                return Err(Error::NoActiveCommitmentForOrigin);
            },
        };
        if message.len() > self.config.max_len_commit_message as usize {
            return Err(Error::CommitmentMessageIsTooLarge);
        }
        let checked = commitment.verify_commitment(&secret, &message);
        match settle_reveal(commitment, revealer, now, message, checked) {
            Ok((stamped, event)) => {
                self.put(revealer, stamped);
                Ok(event)
            },
            Err(e) => Err(e),
        }
    }
}

} // verus!
