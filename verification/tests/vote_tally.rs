use parent_finality::voting::{exceeds_two_thirds, Error, VoteTally};

fn key(n: u8) -> Vec<u8> {
    vec![n; 33]
}

fn hash(n: u8) -> Vec<u8> {
    vec![n; 32]
}

fn tally_of(weights: &[(u8, u64)], start: u64) -> VoteTally {
    let table = weights.iter().map(|(k, w)| (key(*k), *w)).collect();
    VoteTally::new(table, (start, hash(start as u8)))
}

#[test]
fn equivocation_is_detected() {
    let mut tally = tally_of(&[(1, 1)], 0);
    assert_eq!(tally.add_vote(key(1), 5, vec![0xa]), Ok(true));
    assert_eq!(
        tally.add_vote(key(1), 5, vec![0xb]),
        Err(Error::Equivocation(key(1), 5, vec![0xb], vec![0xa]))
    );
    // the refused vote left no trace
    assert_eq!(tally.vote_weight(5, &vec![0xb]), 0);
    assert_eq!(tally.vote_weight(5, &vec![0xa]), 1);
    // the same validator may vote for other hashes at other heights
    assert_eq!(tally.add_vote(key(1), 6, vec![0xb]), Ok(true));
}

#[test]
fn equivocation_names_the_earlier_hash_among_several() {
    let mut tally = tally_of(&[(1, 1), (2, 1), (3, 1), (4, 1)], 0);
    assert_eq!(tally.add_vote(key(1), 9, hash(1)), Ok(true));
    assert_eq!(tally.add_vote(key(2), 9, hash(2)), Ok(true));
    assert_eq!(tally.add_vote(key(3), 9, hash(3)), Ok(true));
    assert_eq!(
        tally.add_vote(key(2), 9, hash(3)),
        Err(Error::Equivocation(key(2), 9, hash(3), hash(2)))
    );
    assert_eq!(
        tally.add_vote(key(3), 9, hash(7)),
        Err(Error::Equivocation(key(3), 9, hash(7), hash(3)))
    );
    assert_eq!(tally.add_vote(key(4), 9, hash(3)), Ok(true));
    assert_eq!(tally.vote_weight(9, &hash(3)), 2);
}

#[test]
fn vote_of_unknown_validator_is_refused() {
    let mut tally = tally_of(&[(1, 1)], 0);
    assert!(tally.known_validator(&key(1)));
    assert!(!tally.known_validator(&key(2)));
    assert_eq!(
        tally.add_vote(key(2), 5, hash(5)),
        Err(Error::UnknownValidator(key(2)))
    );
    assert_eq!(tally.vote_weight(5, &hash(5)), 0);
}

#[test]
fn duplicate_vote_is_not_counted_twice() {
    let mut tally = tally_of(&[(1, 4), (2, 1)], 0);
    assert_eq!(tally.add_vote(key(1), 3, hash(3)), Ok(true));
    assert_eq!(tally.add_vote(key(1), 3, hash(3)), Ok(false));
    assert_eq!(tally.vote_weight(3, &hash(3)), 4);
    assert_eq!(tally.add_vote(key(2), 3, hash(3)), Ok(true));
    assert_eq!(tally.vote_weight(3, &hash(3)), 5);
}

#[test]
fn vote_below_the_chain_is_ignored() {
    let mut tally = tally_of(&[(1, 1)], 10);
    assert_eq!(tally.add_vote(key(1), 9, hash(9)), Ok(false));
    assert_eq!(tally.vote_weight(9, &hash(9)), 0);
    // ignored before the validator is looked at
    assert_eq!(tally.add_vote(key(2), 9, hash(9)), Ok(false));
    assert_eq!(tally.add_vote(key(1), 10, hash(10)), Ok(true));
    // a vote may run ahead of the chain
    assert_eq!(tally.add_vote(key(1), 99, hash(99)), Ok(true));
}

#[test]
fn add_block_extends_the_chain_by_one() {
    let mut tally = tally_of(&[(1, 1)], 10);
    assert!(tally.expects_block(11));
    assert!(!tally.expects_block(12));
    assert_eq!(
        tally.add_block(12, Some(hash(12))),
        Err(Error::UnexpectedBlock(11, 12))
    );
    assert_eq!(tally.add_block(10, None), Err(Error::UnexpectedBlock(11, 10)));
    assert_eq!(tally.add_block(11, Some(hash(11))), Ok(()));
    assert_eq!(tally.add_block(12, None), Ok(()));
    assert_eq!(
        tally.add_block(12, None),
        Err(Error::UnexpectedBlock(13, 12))
    );
    assert_eq!(tally.add_block(13, Some(hash(13))), Ok(()));
}

#[test]
fn add_block_at_the_last_height() {
    let mut tally = VoteTally::new(vec![(key(1), 1)], (u64::MAX, hash(1)));
    assert!(!tally.expects_block(0));
    assert_eq!(
        tally.add_block(0, None),
        Err(Error::UnexpectedBlock(u64::MAX, 0))
    );
}

#[test]
fn weights_are_summed() {
    let mut tally = tally_of(&[(1, 5), (2, 7), (3, 11)], 0);
    assert_eq!(tally.total_weight(), 23);
    assert_eq!(tally.vote_weight(1, &hash(1)), 0);
    tally.add_vote(key(1), 1, hash(1)).unwrap();
    tally.add_vote(key(3), 1, hash(1)).unwrap();
    tally.add_vote(key(2), 1, hash(2)).unwrap();
    assert_eq!(tally.vote_weight(1, &hash(1)), 16);
    assert_eq!(tally.vote_weight(1, &hash(2)), 7);
    assert_eq!(tally.vote_weight(2, &hash(1)), 0);
}

#[test]
fn weights_do_not_overflow() {
    let mut tally = tally_of(&[(1, u64::MAX), (2, u64::MAX), (3, u64::MAX)], 0);
    assert_eq!(tally.total_weight(), 3 * (u64::MAX as u128));
    tally.add_vote(key(1), 0, hash(0)).unwrap();
    tally.add_vote(key(2), 0, hash(0)).unwrap();
    assert_eq!(tally.vote_weight(0, &hash(0)), 2 * (u64::MAX as u128));
    // two thirds exactly is no quorum
    assert!(!tally.has_quorum(0, &hash(0)));
    assert_eq!(tally.find_quorum(), None);
    tally.add_vote(key(3), 0, hash(0)).unwrap();
    assert!(tally.has_quorum(0, &hash(0)));
}

#[test]
fn later_entry_of_a_key_counts() {
    let tally = VoteTally::new(vec![(key(1), 1), (key(2), 2), (key(1), 5)], (0, hash(0)));
    assert_eq!(tally.total_weight(), 7);
}

#[test]
fn two_thirds_is_strict() {
    assert!(!exceeds_two_thirds(0, 0));
    assert!(exceeds_two_thirds(1, 0));
    assert!(!exceeds_two_thirds(2, 3));
    assert!(exceeds_two_thirds(3, 3));
    assert!(!exceeds_two_thirds(2, 4));
    assert!(exceeds_two_thirds(3, 4));
    assert!(!exceeds_two_thirds(3, 5));
    assert!(exceeds_two_thirds(4, 5));
    assert!(!exceeds_two_thirds(66, 100));
    assert!(exceeds_two_thirds(67, 100));
    assert!(!exceeds_two_thirds(u128::MAX / 3 * 2, u128::MAX));
    assert!(exceeds_two_thirds(u128::MAX / 3 * 2 + 1, u128::MAX));
    assert!(exceeds_two_thirds(u128::MAX, u128::MAX));
}

#[test]
fn quorum_needs_more_than_two_thirds() {
    let mut tally = tally_of(&[(1, 1), (2, 1), (3, 1)], 10);
    tally.add_block(11, Some(hash(11))).unwrap();
    tally.add_block(12, None).unwrap();
    tally.add_block(13, Some(hash(13))).unwrap();
    assert_eq!(tally.find_quorum(), None);
    tally.add_vote(key(1), 13, hash(13)).unwrap();
    tally.add_vote(key(2), 13, hash(13)).unwrap();
    assert!(!tally.has_quorum(13, &hash(13)));
    assert_eq!(tally.find_quorum(), None);
    tally.add_vote(key(3), 13, hash(13)).unwrap();
    assert!(tally.has_quorum(13, &hash(13)));
    assert_eq!(tally.find_quorum(), Some((13, hash(13))));
}

#[test]
fn quorum_is_the_highest_and_passes_over_null_rounds() {
    let mut tally = tally_of(&[(1, 1), (2, 1), (3, 1), (4, 1)], 10);
    tally.add_block(11, Some(hash(11))).unwrap();
    tally.add_block(12, None).unwrap();
    tally.add_block(13, Some(hash(13))).unwrap();
    tally.add_block(14, Some(hash(14))).unwrap();
    for v in 1..=3u8 {
        tally.add_vote(key(v), 11, hash(11)).unwrap();
        tally.add_vote(key(v), 12, hash(12)).unwrap();
    }
    tally.add_vote(key(1), 14, hash(14)).unwrap();
    tally.add_vote(key(2), 14, hash(14)).unwrap();
    // at 12 the chain has a null round, at 14 too few voted
    assert_eq!(tally.find_quorum(), Some((11, hash(11))));
    for v in 1..=3u8 {
        tally.add_vote(key(v), 13, hash(13)).unwrap();
    }
    assert_eq!(tally.find_quorum(), Some((13, hash(13))));
    tally.add_vote(key(3), 14, hash(14)).unwrap();
    assert_eq!(tally.find_quorum(), Some((14, hash(14))));
}

#[test]
fn votes_for_another_hash_make_no_quorum() {
    let mut tally = tally_of(&[(1, 1), (2, 1), (3, 1)], 10);
    tally.add_block(11, Some(hash(11))).unwrap();
    for v in 1..=3u8 {
        tally.add_vote(key(v), 11, hash(99)).unwrap();
    }
    assert!(tally.has_quorum(11, &hash(99)));
    assert!(!tally.has_quorum(11, &hash(11)));
    assert_eq!(tally.find_quorum(), None);
}

#[test]
fn quorum_at_the_finalized_block_itself() {
    let mut tally = tally_of(&[(1, 1)], 10);
    tally.add_vote(key(1), 10, hash(10)).unwrap();
    assert_eq!(tally.find_quorum(), Some((10, hash(10))));
}

#[test]
fn new_power_table_reweighs_the_votes() {
    let mut tally = tally_of(&[(1, 1), (2, 1), (3, 1)], 10);
    tally.add_block(11, Some(hash(11))).unwrap();
    tally.add_vote(key(1), 11, hash(11)).unwrap();
    assert_eq!(tally.find_quorum(), None);
    tally.set_power_table(vec![(key(1), 10), (key(2), 1), (key(3), 1)]);
    assert_eq!(tally.total_weight(), 12);
    assert_eq!(tally.vote_weight(11, &hash(11)), 10);
    assert_eq!(tally.find_quorum(), Some((11, hash(11))));
    // a validator that left the table weighs nothing, and may not vote
    tally.set_power_table(vec![(key(2), 1), (key(3), 1)]);
    assert_eq!(tally.total_weight(), 2);
    assert_eq!(tally.vote_weight(11, &hash(11)), 0);
    assert_eq!(tally.find_quorum(), None);
    assert_eq!(
        tally.add_vote(key(1), 12, hash(12)),
        Err(Error::UnknownValidator(key(1)))
    );
}

#[test]
fn set_finalized_prunes_chain_and_votes() {
    let mut tally = tally_of(&[(1, 1), (2, 1), (3, 1)], 10);
    for h in 11..=15u64 {
        tally.add_block(h, Some(hash(h as u8))).unwrap();
    }
    for v in 1..=3u8 {
        tally.add_vote(key(v), 11, hash(11)).unwrap();
        tally.add_vote(key(v), 13, hash(13)).unwrap();
    }
    assert_eq!(tally.find_quorum(), Some((13, hash(13))));
    tally.set_finalized(12, hash(12));
    // votes from 12 on stay
    assert_eq!(tally.vote_weight(13, &hash(13)), 3);
    assert_eq!(tally.find_quorum(), Some((13, hash(13))));
    // votes below are gone, and new ones below are ignored
    assert_eq!(tally.vote_weight(11, &hash(11)), 0);
    assert_eq!(tally.add_vote(key(1), 11, hash(11)), Ok(false));
    // the chain still ends at 15
    assert_eq!(
        tally.add_block(17, None),
        Err(Error::UnexpectedBlock(16, 17))
    );
    tally.set_finalized(14, hash(77));
    assert_eq!(tally.vote_weight(13, &hash(13)), 0);
    assert_eq!(tally.find_quorum(), None);
    for v in 1..=3u8 {
        assert_eq!(tally.add_vote(key(v), 14, hash(77)), Ok(true));
    }
    // the finalized height holds the hash given
    assert_eq!(tally.find_quorum(), Some((14, hash(77))));
}

#[test]
fn set_finalized_above_the_chain_restarts_it() {
    let mut tally = tally_of(&[(1, 1)], 10);
    tally.add_block(11, None).unwrap();
    tally.set_finalized(50, hash(50));
    assert_eq!(tally.add_vote(key(1), 49, hash(49)), Ok(false));
    assert_eq!(
        tally.add_block(12, None),
        Err(Error::UnexpectedBlock(51, 12))
    );
    assert_eq!(tally.add_block(51, Some(hash(51))), Ok(()));
}
