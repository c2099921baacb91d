//! Laws of the commit/reveal state machine, proved over its transition
//! functions.

use vstd::prelude::*;

use crate::commitment::{payload_of, AccountId, BlockNumber, Commitment};
use crate::error::Error;
use crate::pallet::{
    after_commit, after_reveal, all_well_formed, commit_verdict, fresh_entry, reveal_verdict,
    revealed, state_in, CommitmentState,
};

verus! {

/// A reveal that succeeded succeeds again with the same message and secret,
/// and the entry then carries the time of the later reveal. Nothing but the
/// reveal time differs from the entry as it was before the two reveals.
pub proof fn lemma_reveal_repeats(
    store: Map<AccountId, Commitment>,
    max_len: u32,
    who: AccountId,
    first: BlockNumber,
    second: BlockNumber,
    message: Seq<u8>,
    secret: Seq<u8>,
)
    requires
        reveal_verdict(store, max_len, who, message, secret).is_ok(),
    ensures
        ({
            let once = after_reveal(store, max_len, who, first, message, secret);
            let twice = after_reveal(once, max_len, who, second, message, secret);
            &&& once[who] == revealed(store[who], first)
            &&& reveal_verdict(once, max_len, who, message, secret).is_ok()
            &&& twice[who] == revealed(store[who], second)
            &&& twice[who].revealed_at == Some(second)
            &&& twice == after_reveal(store, max_len, who, second, message, secret)
        }),
{
    let once = after_reveal(store, max_len, who, first, message, secret);
    let twice = after_reveal(once, max_len, who, second, message, secret);
    assert(twice =~= after_reveal(store, max_len, who, second, message, secret));
}

/// After a successful reveal, a reveal with a message and a secret that do
/// not open the commitment is turned down as `UnableToReveal`, and the time
/// of the earlier reveal stays. The wrong message is within the length
/// bound: a longer one is turned down for its length.
pub proof fn lemma_wrong_reveal_keeps_stamp(
    store: Map<AccountId, Commitment>,
    max_len: u32,
    who: AccountId,
    first: BlockNumber,
    second: BlockNumber,
    message: Seq<u8>,
    secret: Seq<u8>,
    wrong_message: Seq<u8>,
    wrong_secret: Seq<u8>,
)
    requires
        reveal_verdict(store, max_len, who, message, secret).is_ok(),
        !store[who].opens_to(wrong_secret, wrong_message),
        wrong_message.len() <= max_len,
    ensures
        ({
            let once = after_reveal(store, max_len, who, first, message, secret);
            &&& reveal_verdict(once, max_len, who, wrong_message, wrong_secret) == Err::<(), Error>(
                Error::UnableToReveal,
            )
            &&& after_reveal(once, max_len, who, second, wrong_message, wrong_secret) == once
            &&& once[who].revealed_at == Some(first)
        }),
{
}

/// A failed reveal changes nothing, whatever the reason, and a reveal of any
/// outcome leaves the generators, the payload and the commit time of every
/// entry, and the whole entry of every other identity, as they were.
pub proof fn lemma_reveal_only_stamps(
    store: Map<AccountId, Commitment>,
    max_len: u32,
    who: AccountId,
    now: BlockNumber,
    message: Seq<u8>,
    secret: Seq<u8>,
    other: AccountId,
)
    ensures
        ({
            let next = after_reveal(store, max_len, who, now, message, secret);
            &&& reveal_verdict(store, max_len, who, message, secret).is_err() ==> next == store
            &&& next.contains_key(other) <==> store.contains_key(other)
            &&& other != who && store.contains_key(other) ==> next[other] == store[other]
            &&& store.contains_key(other) ==> {
                &&& next[other].payload == store[other].payload
                &&& next[other].point_g == store[other].point_g
                &&& next[other].point_h == store[other].point_h
                &&& next[other].committed_at == store[other].committed_at
            }
        }),
{
}

/// A revealed entry stays revealed under every further reveal, and a reveal
/// never creates an entry: only a commit leaves the revealed state or the
/// state without an entry.
pub proof fn lemma_revealed_is_terminal(
    store: Map<AccountId, Commitment>,
    max_len: u32,
    who: AccountId,
    now: BlockNumber,
    message: Seq<u8>,
    secret: Seq<u8>,
    other: AccountId,
)
    ensures
        ({
            let next = after_reveal(store, max_len, who, now, message, secret);
            &&& state_in(store, other) == CommitmentState::CommitmentRevealed ==> state_in(next, other)
                == CommitmentState::CommitmentRevealed
            &&& state_in(store, other) == CommitmentState::CommitmentNotFound ==> state_in(next, other)
                == CommitmentState::CommitmentNotFound
            &&& state_in(next, who) == CommitmentState::CommitmentRevealed <== reveal_verdict(
                store,
                max_len,
                who,
                message,
                secret,
            ).is_ok()
        }),
{
}

/// A reveal by an identity without a stored commitment is turned down as
/// `NoActiveCommitmentForOrigin`, whatever is disclosed; in particular every
/// reveal on an empty store is.
pub proof fn lemma_reveal_without_commit(
    store: Map<AccountId, Commitment>,
    max_len: u32,
    who: AccountId,
    now: BlockNumber,
    message: Seq<u8>,
    secret: Seq<u8>,
)
    requires
        !store.contains_key(who),
    ensures
        reveal_verdict(store, max_len, who, message, secret) == Err::<(), Error>(
            Error::NoActiveCommitmentForOrigin,
        ),
        after_reveal(store, max_len, who, now, message, secret) == store,
        reveal_verdict(Map::<AccountId, Commitment>::empty(), max_len, who, message, secret) == Err::<
            (),
            Error,
        >(Error::NoActiveCommitmentForOrigin),
{
}

/// The length bound is inclusive. A message of exactly the greatest length
/// goes on to verification, so that the reveal is decided by the commitment
/// alone; a message one byte longer is turned down for its length, whether
/// or not it would open the commitment.
pub proof fn lemma_length_boundary(
    store: Map<AccountId, Commitment>,
    max_len: u32,
    who: AccountId,
    message: Seq<u8>,
    secret: Seq<u8>,
)
    requires
        store.contains_key(who),
    ensures
        message.len() == max_len ==> reveal_verdict(store, max_len, who, message, secret)
            == store[who].verdict(secret, message),
        message.len() == max_len + 1 ==> reveal_verdict(store, max_len, who, message, secret) == Err::<
            (),
            Error,
        >(Error::CommitmentMessageIsTooLarge),
{
}

/// A commit with a byte array that is not a canonical encoding is turned down
/// as `InvalidEncoding` and creates no entry: the store is as it was.
pub proof fn lemma_bad_encoding_commits_nothing(
    store: Map<AccountId, Commitment>,
    who: AccountId,
    now: BlockNumber,
    payload: [u8; 32],
    point_g: [u8; 32],
    point_h: [u8; 32],
)
    requires
        !fresh_entry(now, payload, point_g, point_h).well_formed(),
    ensures
        commit_verdict(payload, point_g, point_h) == Err::<(), Error>(Error::InvalidEncoding),
        after_commit(store, who, now, payload, point_g, point_h) == store,
        state_in(after_commit(store, who, now, payload, point_g, point_h), who) == state_in(
            store,
            who,
        ),
{
}

/// An accepted commit puts its identity into the state with an unrevealed
/// commitment, whatever state it was in, and no commit touches the entry of
/// another identity.
pub proof fn lemma_commit_resets_one_identity(
    store: Map<AccountId, Commitment>,
    who: AccountId,
    now: BlockNumber,
    payload: [u8; 32],
    point_g: [u8; 32],
    point_h: [u8; 32],
    other: AccountId,
)
    ensures
        ({
            let next = after_commit(store, who, now, payload, point_g, point_h);
            &&& commit_verdict(payload, point_g, point_h).is_ok() ==> {
                &&& next[who] == fresh_entry(now, payload, point_g, point_h)
                &&& state_in(next, who) == CommitmentState::CommitmentSecret
            }
            &&& other != who ==> {
                &&& next.contains_key(other) <==> store.contains_key(other)
                &&& next[other] == store[other]
                &&& state_in(next, other) == state_in(store, other)
            }
        }),
{
}

/// A second accepted commit by the same identity discards the first: the
/// store is as if the first had never been made, and a later reveal is
/// decided by the second entry's generators and payload alone.
pub proof fn lemma_commit_overwrites(
    store: Map<AccountId, Commitment>,
    max_len: u32,
    who: AccountId,
    first_at: BlockNumber,
    first_payload: [u8; 32],
    first_g: [u8; 32],
    first_h: [u8; 32],
    second_at: BlockNumber,
    second_payload: [u8; 32],
    second_g: [u8; 32],
    second_h: [u8; 32],
    message: Seq<u8>,
    secret: Seq<u8>,
)
    requires
        commit_verdict(second_payload, second_g, second_h).is_ok(),
    ensures
        ({
            let once = after_commit(store, who, first_at, first_payload, first_g, first_h);
            let twice = after_commit(once, who, second_at, second_payload, second_g, second_h);
            let second = fresh_entry(second_at, second_payload, second_g, second_h);
            &&& twice == after_commit(store, who, second_at, second_payload, second_g, second_h)
            &&& twice[who] == second
            &&& state_in(twice, who) == CommitmentState::CommitmentSecret
            &&& message.len() <= max_len ==> reveal_verdict(twice, max_len, who, message, secret)
                == second.verdict(secret, message)
            &&& message.len() <= max_len ==> (reveal_verdict(
                twice,
                max_len,
                who,
                message,
                secret,
            ).is_ok() <==> second_payload@ == payload_of(message, secret, second_g@, second_h@))
        }),
{
    let once = after_commit(store, who, first_at, first_payload, first_g, first_h);
    let twice = after_commit(once, who, second_at, second_payload, second_g, second_h);
    assert(twice =~= after_commit(store, who, second_at, second_payload, second_g, second_h));
}

/// Commits and reveals keep every stored entry well formed, so that no
/// reveal on a store that was filled by commits meets a corrupt entry.
pub proof fn lemma_store_stays_well_formed(
    store: Map<AccountId, Commitment>,
    max_len: u32,
    who: AccountId,
    now: BlockNumber,
    payload: [u8; 32],
    point_g: [u8; 32],
    point_h: [u8; 32],
    message: Seq<u8>,
    secret: Seq<u8>,
)
    requires
        all_well_formed(store),
    ensures
        all_well_formed(after_commit(store, who, now, payload, point_g, point_h)),
        all_well_formed(after_reveal(store, max_len, who, now, message, secret)),
        reveal_verdict(store, max_len, who, message, secret) != Err::<(), Error>(
            Error::CorruptEntry,
        ),
{
}

} // verus!
