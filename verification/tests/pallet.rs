use pedersen_commitments::{
    settle_reveal, Commitment, CommitmentState, Config, Error, Event, Opening, Pallet,
};

/// A clock that stands still unless it is moved.
struct System {
    block: u64,
}

impl System {
    fn new() -> System {
        System { block: 0 }
    }

    fn block_number(&self) -> u64 {
        self.block
    }

    fn set_block_number(&mut self, block: u64) {
        self.block = block;
    }
}

fn new_pallet() -> Pallet {
    Pallet::new(Config { max_len_commit_message: 256 })
}

fn commit_opening(pallet: &mut Pallet, who: u64, now: u64, opening: &Opening) -> Result<(), Error> {
    pallet.commit(
        who,
        now,
        opening.payload.compress(),
        opening.g.compress(),
        opening.h.compress(),
    )
}

fn revealed_event(who: u64, at: u64, message: &str) -> Event {
    Event::CommitmentRevealed {
        revealer: who,
        revealed_at: at,
        message: message.as_bytes().to_vec(),
    }
}

#[test]
fn check_pallet_settings() {
    let system = System::new();
    let pallet = new_pallet();
    assert_eq!(system.block_number(), 0);

    let configs_max_len_msg = pallet.config().max_len_commit_message;
    assert_eq!(configs_max_len_msg, 256, "max lex: {}", configs_max_len_msg);

    assert!(pallet.commitments(0).is_none());
}

#[test]
fn commit_reveal_ok() {
    let system = System::new();
    let mut pallet = new_pallet();
    let caller = 0;

    let (message, secret) = ("commited_message", "secret");
    let commitment = Opening::new(message, secret).unwrap();

    let commit_call = pallet.commit(
        caller,
        system.block_number(),
        commitment.payload.compress(),
        commitment.g.compress(),
        commitment.h.compress(),
    );

    assert_eq!(commit_call, Ok(()));

    assert!(pallet.commitments(caller).is_some());

    let reveal_call = pallet.reveal_and_verify(
        caller,
        system.block_number(),
        message.to_string().into_bytes(),
        secret.to_string().into_bytes(),
    );

    assert!(reveal_call.is_ok());
    assert_eq!(
        pallet.commitments(caller).unwrap().revealed_at.unwrap(),
        system.block_number()
    );
}

#[test]
fn commit_reveal_nok() {
    let system = System::new();
    let mut pallet = new_pallet();
    let caller = 0;

    let (message, secret) = ("commited_message", "secret");
    let commitment = Opening::new(message, secret).unwrap();

    let commit_call = pallet.commit(
        caller,
        system.block_number(),
        commitment.payload.compress(),
        commitment.g.compress(),
        commitment.h.compress(),
    );

    assert_eq!(commit_call, Ok(()));

    // wrong message
    let reveal_call = pallet.reveal_and_verify(
        caller,
        system.block_number(),
        "different message".as_bytes().to_vec(),
        secret.to_string().into_bytes(),
    );

    assert_eq!(reveal_call, Err(Error::UnableToReveal));

    // wrong secret
    let reveal_call = pallet.reveal_and_verify(
        caller,
        system.block_number(),
        message.as_bytes().to_vec(),
        "different secret".as_bytes().to_vec(),
    );

    assert_eq!(reveal_call, Err(Error::UnableToReveal));
}

#[test]
fn message_len_exceeded() {
    let system = System::new();
    let mut pallet = new_pallet();
    let caller = 0;
    #[allow(non_snake_case)]
    let message_285_Chars = "Lorem ipsum dolor sit amet. Nam quis nulla. Integer malesuada. In in enim a arcu imperdiet malesuada. Sed vel lectus. Donec odio urna, tempus molestie, porttitor ut, iaculis quis, sem. Phasellus rhoncus. Aenean id metus id velit ullamcorper pulvinar. Vestibulum fermentum tortor id mi.";
    let secret = "secret";

    let commitment = Opening::new(message_285_Chars, secret).unwrap();

    let commit_call = pallet.commit(
        caller,
        system.block_number(),
        commitment.payload.compress(),
        commitment.g.compress(),
        commitment.h.compress(),
    );

    assert_eq!(commit_call, Ok(()));

    let reveal_call = pallet.reveal_and_verify(
        caller,
        system.block_number(),
        message_285_Chars.to_string().into_bytes(),
        secret.to_string().into_bytes(),
    );

    assert_eq!(reveal_call, Err(Error::CommitmentMessageIsTooLarge));
}

#[test]
fn test_no_active_commitment() {
    let system = System::new();
    let mut pallet = new_pallet();
    let caller = 0;

    let reveal_call_no_commitment = pallet.reveal_and_verify(
        caller,
        system.block_number(),
        "some_message".to_string().into_bytes(),
        "some_secret".to_string().into_bytes(),
    );

    assert_eq!(
        reveal_call_no_commitment,
        Err(Error::NoActiveCommitmentForOrigin)
    );
}

#[test]
fn commit_stores_the_entry_as_given() {
    let mut pallet = new_pallet();
    let opening = Opening::new("hello", "s3cret").unwrap();
    assert_eq!(commit_opening(&mut pallet, 3, 17, &opening), Ok(()));

    let entry = pallet.commitments(3).unwrap();
    assert_eq!(
        entry,
        Commitment {
            point_g: opening.g.compress(),
            point_h: opening.h.compress(),
            payload: opening.payload.compress(),
            committed_at: 17,
            revealed_at: None,
        }
    );
    assert!(pallet.commitments(4).is_none());
}

#[test]
fn states_follow_commit_and_reveal() {
    let mut pallet = new_pallet();
    assert_eq!(pallet.state(1), CommitmentState::CommitmentNotFound);

    let opening = Opening::new("hello", "s3cret").unwrap();
    assert_eq!(commit_opening(&mut pallet, 1, 1, &opening), Ok(()));
    assert_eq!(pallet.state(1), CommitmentState::CommitmentSecret);
    assert_eq!(pallet.state(2), CommitmentState::CommitmentNotFound);

    let failed = pallet.reveal_and_verify(1, 2, b"hello".to_vec(), b"secret".to_vec());
    assert_eq!(failed, Err(Error::UnableToReveal));
    assert_eq!(pallet.state(1), CommitmentState::CommitmentSecret);

    let done = pallet.reveal_and_verify(1, 3, b"hello".to_vec(), b"s3cret".to_vec());
    assert_eq!(done, Ok(revealed_event(1, 3, "hello")));
    assert_eq!(pallet.state(1), CommitmentState::CommitmentRevealed);

    assert_eq!(commit_opening(&mut pallet, 1, 4, &opening), Ok(()));
    assert_eq!(pallet.state(1), CommitmentState::CommitmentSecret);
    assert_eq!(pallet.commitments(1).unwrap().revealed_at, None);
    assert_eq!(pallet.commitments(1).unwrap().committed_at, 4);
}

#[test]
fn end_to_end_hello() {
    let mut system = System::new();
    let mut pallet = new_pallet();
    let who = 42;
    let opening = Opening::new("hello", "s3cret").unwrap();

    system.set_block_number(10);
    assert_eq!(commit_opening(&mut pallet, who, system.block_number(), &opening), Ok(()));
    let committed = pallet.commitments(who).unwrap();

    system.set_block_number(11);
    let wrong = pallet.reveal_and_verify(
        who,
        system.block_number(),
        b"hell0".to_vec(),
        b"s3cret".to_vec(),
    );
    assert_eq!(wrong, Err(Error::UnableToReveal));
    assert_eq!(pallet.commitments(who).unwrap(), committed);

    system.set_block_number(12);
    let right = pallet.reveal_and_verify(
        who,
        system.block_number(),
        b"hello".to_vec(),
        b"s3cret".to_vec(),
    );
    assert_eq!(right, Ok(revealed_event(who, 12, "hello")));
    let entry = pallet.commitments(who).unwrap();
    assert_eq!(entry.revealed_at, Some(12));
    assert_eq!(entry.committed_at, 10);
    assert_eq!(entry.payload, committed.payload);
    assert_eq!(entry.point_g, committed.point_g);
    assert_eq!(entry.point_h, committed.point_h);
}

#[test]
fn reveal_twice_moves_the_stamp() {
    let mut pallet = new_pallet();
    let opening = Opening::new("hello", "s3cret").unwrap();
    assert_eq!(commit_opening(&mut pallet, 5, 100, &opening), Ok(()));

    let first = pallet.reveal_and_verify(5, 101, b"hello".to_vec(), b"s3cret".to_vec());
    assert_eq!(first, Ok(revealed_event(5, 101, "hello")));
    assert_eq!(pallet.commitments(5).unwrap().revealed_at, Some(101));

    let second = pallet.reveal_and_verify(5, 105, b"hello".to_vec(), b"s3cret".to_vec());
    assert_eq!(second, Ok(revealed_event(5, 105, "hello")));
    assert_eq!(pallet.commitments(5).unwrap().revealed_at, Some(105));
}

#[test]
fn wrong_reveal_after_reveal_keeps_the_stamp() {
    let mut pallet = new_pallet();
    let opening = Opening::new("hello", "s3cret").unwrap();
    assert_eq!(commit_opening(&mut pallet, 5, 100, &opening), Ok(()));
    assert!(pallet
        .reveal_and_verify(5, 101, b"hello".to_vec(), b"s3cret".to_vec())
        .is_ok());
    let revealed = pallet.commitments(5).unwrap();

    let wrong = pallet.reveal_and_verify(5, 102, b"hello".to_vec(), b"other".to_vec());
    assert_eq!(wrong, Err(Error::UnableToReveal));
    assert_eq!(pallet.commitments(5).unwrap(), revealed);
    assert_eq!(pallet.commitments(5).unwrap().revealed_at, Some(101));
    assert_eq!(pallet.state(5), CommitmentState::CommitmentRevealed);
}

#[test]
fn reveal_by_another_identity_finds_nothing() {
    let mut pallet = new_pallet();
    let opening = Opening::new("hello", "s3cret").unwrap();
    assert_eq!(commit_opening(&mut pallet, 1, 0, &opening), Ok(()));

    let other = pallet.reveal_and_verify(2, 1, b"hello".to_vec(), b"s3cret".to_vec());
    assert_eq!(other, Err(Error::NoActiveCommitmentForOrigin));
    assert_eq!(pallet.commitments(1).unwrap().revealed_at, None);
    assert!(pallet.commitments(2).is_none());
}

#[test]
fn missing_entry_is_reported_before_length() {
    let mut pallet = new_pallet();
    let long = vec![b'a'; 257];
    let res = pallet.reveal_and_verify(9, 0, long, b"s".to_vec());
    assert_eq!(res, Err(Error::NoActiveCommitmentForOrigin));
}

#[test]
fn message_of_greatest_length_is_verified() {
    let mut pallet = new_pallet();
    let message = "m".repeat(256);
    let opening = Opening::new(&message, "secret").unwrap();
    assert_eq!(commit_opening(&mut pallet, 0, 0, &opening), Ok(()));

    let exact = pallet.reveal_and_verify(0, 1, message.clone().into_bytes(), b"secret".to_vec());
    assert_eq!(exact, Ok(revealed_event(0, 1, &message)));
    assert_eq!(pallet.commitments(0).unwrap().revealed_at, Some(1));

    // The same length with a wrong secret gets as far as the comparison.
    let wrong = pallet.reveal_and_verify(0, 2, message.into_bytes(), b"other".to_vec());
    assert_eq!(wrong, Err(Error::UnableToReveal));
}

#[test]
fn message_one_byte_too_long_is_rejected() {
    let mut pallet = new_pallet();
    let message = "m".repeat(257);
    let opening = Opening::new(&message, "secret").unwrap();
    assert_eq!(commit_opening(&mut pallet, 0, 0, &opening), Ok(()));
    let before = pallet.commitments(0).unwrap();

    let res = pallet.reveal_and_verify(0, 1, message.into_bytes(), b"secret".to_vec());
    assert_eq!(res, Err(Error::CommitmentMessageIsTooLarge));
    assert_eq!(pallet.commitments(0).unwrap(), before);
    assert_eq!(pallet.state(0), CommitmentState::CommitmentSecret);
}

#[test]
fn length_bound_follows_the_configuration() {
    let mut pallet = Pallet::new(Config { max_len_commit_message: 0 });
    let opening = Opening::new("", "secret").unwrap();
    assert_eq!(commit_opening(&mut pallet, 0, 0, &opening), Ok(()));

    let one = pallet.reveal_and_verify(0, 1, b"x".to_vec(), b"secret".to_vec());
    assert_eq!(one, Err(Error::CommitmentMessageIsTooLarge));
    let none = pallet.reveal_and_verify(0, 1, Vec::new(), b"secret".to_vec());
    assert_eq!(none, Ok(revealed_event(0, 1, "")));
}

#[test]
fn commit_rejects_bytes_that_are_no_point() {
    let mut pallet = new_pallet();
    let opening = Opening::new("hello", "s3cret").unwrap();
    let good = opening.payload.compress();
    let g = opening.g.compress();
    let h = opening.h.compress();
    let bad = [0xffu8; 32];

    assert_eq!(pallet.commit(0, 0, bad, g, h), Err(Error::InvalidEncoding));
    assert!(pallet.commitments(0).is_none());
    assert_eq!(pallet.commit(0, 0, good, bad, h), Err(Error::InvalidEncoding));
    assert!(pallet.commitments(0).is_none());
    assert_eq!(pallet.commit(0, 0, good, g, bad), Err(Error::InvalidEncoding));
    assert!(pallet.commitments(0).is_none());
    assert_eq!(pallet.state(0), CommitmentState::CommitmentNotFound);

    // A field element that is not reduced is no canonical encoding either.
    let mut unreduced = [0xffu8; 32];
    unreduced[0] = 0xed;
    unreduced[31] = 0x7f;
    assert_eq!(pallet.commit(0, 0, unreduced, g, h), Err(Error::InvalidEncoding));
    assert!(pallet.commitments(0).is_none());
}

#[test]
fn rejected_commit_keeps_the_earlier_entry() {
    let mut pallet = new_pallet();
    let opening = Opening::new("hello", "s3cret").unwrap();
    assert_eq!(commit_opening(&mut pallet, 0, 1, &opening), Ok(()));
    let before = pallet.commitments(0).unwrap();

    let res = pallet.commit(0, 2, [0xffu8; 32], opening.g.compress(), opening.h.compress());
    assert_eq!(res, Err(Error::InvalidEncoding));
    assert_eq!(pallet.commitments(0).unwrap(), before);
}

#[test]
fn second_commit_replaces_the_first() {
    let mut pallet = new_pallet();
    let first = Opening::new("first message", "first secret").unwrap();
    let second = Opening::new("second message", "second secret").unwrap();

    assert_eq!(commit_opening(&mut pallet, 8, 1, &first), Ok(()));
    assert_eq!(commit_opening(&mut pallet, 8, 2, &second), Ok(()));

    let entry = pallet.commitments(8).unwrap();
    assert_eq!(entry.payload, second.payload.compress());
    assert_eq!(entry.point_h, second.h.compress());
    assert_eq!(entry.committed_at, 2);

    let old = pallet.reveal_and_verify(
        8,
        3,
        b"first message".to_vec(),
        b"first secret".to_vec(),
    );
    assert_eq!(old, Err(Error::UnableToReveal));

    let new = pallet.reveal_and_verify(
        8,
        4,
        b"second message".to_vec(),
        b"second secret".to_vec(),
    );
    assert_eq!(new, Ok(revealed_event(8, 4, "second message")));
}

#[test]
fn commit_after_reveal_starts_over() {
    let mut pallet = new_pallet();
    let first = Opening::new("one", "a").unwrap();
    let second = Opening::new("two", "b").unwrap();
    assert_eq!(commit_opening(&mut pallet, 8, 1, &first), Ok(()));
    assert!(pallet.reveal_and_verify(8, 2, b"one".to_vec(), b"a".to_vec()).is_ok());
    assert_eq!(commit_opening(&mut pallet, 8, 3, &second), Ok(()));

    let entry = pallet.commitments(8).unwrap();
    assert_eq!(entry.revealed_at, None);
    assert_eq!(entry.committed_at, 3);
    assert_eq!(
        pallet.reveal_and_verify(8, 4, b"one".to_vec(), b"a".to_vec()),
        Err(Error::UnableToReveal)
    );
}

#[test]
fn identities_are_independent() {
    let mut pallet = new_pallet();
    let a = Opening::new("alpha", "x").unwrap();
    let b = Opening::new("beta", "y").unwrap();
    assert_eq!(commit_opening(&mut pallet, 1, 1, &a), Ok(()));
    assert_eq!(commit_opening(&mut pallet, 2, 1, &b), Ok(()));

    assert_eq!(
        pallet.reveal_and_verify(1, 2, b"beta".to_vec(), b"y".to_vec()),
        Err(Error::UnableToReveal)
    );
    assert_eq!(
        pallet.reveal_and_verify(2, 3, b"beta".to_vec(), b"y".to_vec()),
        Ok(revealed_event(2, 3, "beta"))
    );
    assert_eq!(pallet.state(1), CommitmentState::CommitmentSecret);
    assert_eq!(pallet.state(2), CommitmentState::CommitmentRevealed);
}

#[test]
fn settle_reveal_stamps_after_a_passed_check() {
    let entry = Commitment {
        point_g: [1u8; 32],
        point_h: [2u8; 32],
        payload: [3u8; 32],
        committed_at: 7,
        revealed_at: None,
    };
    let settled = settle_reveal(entry, 4, 9, b"hello".to_vec(), Ok(()));
    let stamped = Commitment {
        point_g: [1u8; 32],
        point_h: [2u8; 32],
        payload: [3u8; 32],
        committed_at: 7,
        revealed_at: Some(9),
    };
    assert_eq!(settled, Ok((stamped, revealed_event(4, 9, "hello"))));

    // An entry that was revealed before gets the new time.
    let again = settle_reveal(stamped, 4, 12, Vec::new(), Ok(()));
    assert_eq!(
        again,
        Ok((Commitment { revealed_at: Some(12), ..entry }, revealed_event(4, 12, "")))
    );
}

#[test]
fn settle_reveal_hands_on_the_error() {
    let entry = Commitment {
        point_g: [1u8; 32],
        point_h: [2u8; 32],
        payload: [3u8; 32],
        committed_at: 7,
        revealed_at: Some(8),
    };
    assert_eq!(
        settle_reveal(entry, 4, 9, b"hello".to_vec(), Err(Error::UnableToReveal)),
        Err(Error::UnableToReveal)
    );
    assert_eq!(
        settle_reveal(entry, 4, 9, b"hello".to_vec(), Err(Error::CorruptEntry)),
        Err(Error::CorruptEntry)
    );
}

#[test]
fn config_is_kept() {
    let pallet = Pallet::new(Config { max_len_commit_message: 7 });
    assert_eq!(pallet.config(), Config { max_len_commit_message: 7 });
    assert_eq!(pallet.config().max_len_commit_message, 7);
}
