use parent_finality::cache::NonSequentialInsert;
use parent_finality::finality::{
    Config, Error as ProviderError, IPCParentFinality, ParentViewPayload,
};
use parent_finality::provider::FinalityWithNull;
use parent_finality::store::CacheStore;
use parent_finality::sync::{
    exceed_cache_size_limit, fetch_range, finalized_chain_head, genesis_finality,
    launch_polling_syncer,
    next_sync_step, power_table_of, query_starting_comittee, query_starting_finality,
    retry_start, retry_step, starting_committee, starting_finality, sync_fetched,
    ParentFinalityStateQuery, QueryFailure, RetryState, StartingCommittee, StartingFinality,
    SyncError, SyncStep, Validator,
};
use parent_finality::topdown::{Toggle, TopdownClient, TopdownError};
use parent_finality::voting::{Error as TallyError, VoteTally};

fn config(delay: u64, max_cache: Option<u64>) -> Config {
    Config {
        chain_head_delay: delay,
        polling_interval: 10,
        exponential_back_off: 5,
        exponential_retry_limit: 3,
        max_proposal_range: Some(6),
        max_cache_blocks: max_cache,
        proposal_delay: Some(2),
    }
}

fn finality(h: u64) -> IPCParentFinality {
    IPCParentFinality { height: h, block_hash: vec![h as u8; 32] }
}

fn filled(h: u64) -> Option<ParentViewPayload> {
    Some((vec![h as u8; 32], vec![], vec![]))
}

fn provider(delay: u64, max_cache: Option<u64>, committed: Option<u64>) -> FinalityWithNull {
    FinalityWithNull::new(
        config(delay, max_cache),
        1,
        committed.map(finality),
        CacheStore::new(),
    )
}

fn client(committed: u64) -> TopdownClient {
    TopdownClient::new(
        provider(2, None, Some(committed)),
        VoteTally::new(vec![(vec![1; 33], 1)], (committed, vec![committed as u8; 32])),
    )
}

struct Ledger {
    finality: Result<Option<IPCParentFinality>, QueryFailure>,
    power: Result<Option<Vec<Validator>>, QueryFailure>,
}

impl ParentFinalityStateQuery for Ledger {
    fn get_latest_committed_finality(&self) -> Result<Option<IPCParentFinality>, QueryFailure> {
        self.finality.clone()
    }

    fn get_power_table(&self) -> Result<Option<Vec<Validator>>, QueryFailure> {
        self.power.clone()
    }
}

#[test]
fn starting_finality_waits_until_the_ledger_answers() {
    assert_eq!(starting_finality(Ok(None)), StartingFinality::Wait(5));
    assert_eq!(starting_finality(Err(QueryFailure)), StartingFinality::Wait(5));
    assert_eq!(starting_finality(Ok(Some(finality(0)))), StartingFinality::FromGenesis);
    assert_eq!(
        starting_finality(Ok(Some(finality(7)))),
        StartingFinality::Ready(finality(7))
    );
    assert_eq!(
        genesis_finality(55, vec![5; 32]),
        IPCParentFinality { height: 55, block_hash: vec![5; 32] }
    );
}

#[test]
fn starting_committee_waits_until_the_ledger_answers() {
    assert_eq!(starting_committee(Ok(None)), StartingCommittee::Wait(5));
    assert_eq!(starting_committee(Err(QueryFailure)), StartingCommittee::Wait(5));
    let validators = vec![
        Validator { public_key: vec![1; 33], power: 10 },
        Validator { public_key: vec![2; 33], power: 20 },
    ];
    assert_eq!(
        power_table_of(&validators),
        vec![(vec![1; 33], 10), (vec![2; 33], 20)]
    );
    assert_eq!(
        starting_committee(Ok(Some(validators))),
        StartingCommittee::Ready(vec![(vec![1; 33], 10), (vec![2; 33], 20)])
    );
    assert_eq!(starting_committee(Ok(Some(vec![]))), StartingCommittee::Ready(vec![]));
}

#[test]
fn ledger_is_asked_through_its_trait() {
    let not_ready = Ledger { finality: Ok(None), power: Err(QueryFailure) };
    assert_eq!(query_starting_finality(&not_ready), StartingFinality::Wait(5));
    assert_eq!(query_starting_comittee(&not_ready), StartingCommittee::Wait(5));
    let ready = Ledger {
        finality: Ok(Some(finality(9))),
        power: Ok(Some(vec![Validator { public_key: vec![3; 33], power: 4 }])),
    };
    assert_eq!(
        query_starting_finality(&ready),
        StartingFinality::Ready(finality(9))
    );
    assert_eq!(
        query_starting_comittee(&ready),
        StartingCommittee::Ready(vec![(vec![3; 33], 4)])
    );
    let fresh = Ledger { finality: Ok(Some(finality(0))), power: Ok(None) };
    assert_eq!(query_starting_finality(&fresh), StartingFinality::FromGenesis);
}

#[test]
fn launch_seeds_provider_and_tally() {
    let mut toggle = Toggle::enabled(client(0));
    let event = launch_polling_syncer(
        &mut toggle,
        finality(100),
        vec![(vec![7; 33], 3), (vec![8; 33], 4)],
    )
    .unwrap();
    assert_eq!(event.block_height, 100);
    assert_eq!(event.block_hash, "64".repeat(32));
    match toggle {
        Toggle::Enabled(mut c) => {
            assert_eq!(c.provider.last_committed_finality(), Some(finality(100)));
            assert_eq!(c.tally.total_weight(), 7);
            assert!(c.tally.known_validator(&vec![8; 33]));
            assert!(!c.tally.known_validator(&vec![1; 33]));
            assert_eq!(c.tally.add_vote(vec![7; 33], 99, vec![99; 32]), Ok(false));
            assert_eq!(
                c.tally.add_block(100, None),
                Err(TallyError::UnexpectedBlock(101, 100))
            );
        }
        Toggle::Disabled => panic!("client was switched on"),
    }
}

#[test]
fn launch_refuses_a_client_that_is_switched_off() {
    let mut toggle: Toggle<TopdownClient> = Toggle::disabled();
    assert!(!toggle.is_enabled());
    assert_eq!(
        launch_polling_syncer(&mut toggle, finality(100), vec![]),
        Err(TopdownError::NotEnabled)
    );
    assert!(Toggle::enabled(1u8).is_enabled());
}

#[test]
fn chain_head_is_set_back_by_the_delay() {
    assert_eq!(finalized_chain_head(&config(10, None), 9), None);
    assert_eq!(finalized_chain_head(&config(10, None), 10), Some(0));
    assert_eq!(finalized_chain_head(&config(10, None), 110), Some(100));
    assert_eq!(finalized_chain_head(&config(0, None), 110), Some(110));
}

#[test]
fn next_step_fetches_after_the_newest_known_height() {
    let mut p = provider(10, None, Some(100));
    // the cache is empty: start after the committed height
    assert_eq!(next_sync_step(&p, 200, true), SyncStep::Fetch(101));
    p.new_parent_view(101, filled(101)).unwrap();
    p.new_parent_view(102, None).unwrap();
    assert_eq!(next_sync_step(&p, 200, true), SyncStep::Fetch(103));
    // not caught up
    assert_eq!(next_sync_step(&p, 200, false), SyncStep::Idle);
    // the delayed head is reached
    assert_eq!(next_sync_step(&p, 112, true), SyncStep::Idle);
    assert_eq!(next_sync_step(&p, 111, true), SyncStep::Idle);
    assert_eq!(next_sync_step(&p, 113, true), SyncStep::Fetch(103));
    // the parent is shorter than the delay
    assert_eq!(next_sync_step(&p, 9, true), SyncStep::Idle);
}

#[test]
fn next_step_idles_without_any_known_height() {
    let p = provider(10, None, None);
    assert_eq!(next_sync_step(&p, 200, true), SyncStep::Idle);
}

#[test]
fn next_step_idles_while_the_cache_is_over_its_limit() {
    let mut p = provider(0, Some(2), Some(100));
    p.new_parent_view(101, None).unwrap();
    p.new_parent_view(102, None).unwrap();
    assert!(!exceed_cache_size_limit(&p));
    assert_eq!(next_sync_step(&p, 200, true), SyncStep::Fetch(103));
    p.new_parent_view(103, None).unwrap();
    assert!(exceed_cache_size_limit(&p));
    assert_eq!(next_sync_step(&p, 200, true), SyncStep::Idle);
    let default_limit = provider(0, None, Some(100));
    assert!(!exceed_cache_size_limit(&default_limit));
}

#[test]
fn fetched_views_reach_provider_and_tally() {
    let mut c = client(100);
    assert_eq!(sync_fetched(&mut c, 101, filled(101)), Ok(()));
    assert_eq!(sync_fetched(&mut c, 102, None), Ok(()));
    assert_eq!(c.provider.cached_blocks(), 2);
    assert_eq!(c.provider.block_hash_at_height(101), Some(vec![101; 32]));
    assert_eq!(c.provider.handle_null_block(102), Some(&None));
    assert!(c.tally.expects_block(103));
    c.tally.add_vote(vec![1; 33], 101, vec![101; 32]).unwrap();
    assert_eq!(c.tally.find_quorum(), Some((101, vec![101; 32])));
}

#[test]
fn refused_view_changes_neither_provider_nor_tally() {
    let mut c = client(100);
    sync_fetched(&mut c, 101, filled(101)).unwrap();
    // the provider refuses
    assert_eq!(
        sync_fetched(&mut c, 103, filled(103)),
        Err(SyncError::Provider(ProviderError::NonSequentialParentViewInsert(
            NonSequentialInsert { expected: 102, got: 103 }
        )))
    );
    assert_eq!(c.provider.cached_blocks(), 1);
    assert!(c.tally.expects_block(102));
    // the tally refuses: its chain is ahead of the cache
    c.tally.add_block(102, None).unwrap();
    assert_eq!(
        sync_fetched(&mut c, 102, filled(102)),
        Err(SyncError::Tally(TallyError::UnexpectedBlock(103, 102)))
    );
    assert_eq!(c.provider.cached_blocks(), 1);
    assert_eq!(c.provider.latest_height_in_cache(), Some(101));
    assert!(c.tally.expects_block(103));
}

#[test]
fn retries_double_the_wait() {
    let start = retry_start(&config(0, None));
    assert_eq!(start, RetryState { wait: 5, retries: 3 });
    let (sleep, s1) = retry_step(start).unwrap();
    assert_eq!(sleep, 5);
    assert_eq!(s1, RetryState { wait: 10, retries: 2 });
    let (sleep, s2) = retry_step(s1).unwrap();
    assert_eq!(sleep, 10);
    assert_eq!(s2, RetryState { wait: 20, retries: 1 });
    let (sleep, s3) = retry_step(s2).unwrap();
    assert_eq!(sleep, 20);
    assert_eq!(s3, RetryState { wait: 40, retries: 0 });
    assert_eq!(retry_step(s3), None);
    assert_eq!(
        retry_step(RetryState { wait: u64::MAX / 2 + 1, retries: 1 }),
        Some((u64::MAX / 2 + 1, RetryState { wait: u64::MAX, retries: 0 }))
    );
    assert_eq!(
        retry_step(RetryState { wait: u64::MAX / 2, retries: 9 }),
        Some((u64::MAX / 2, RetryState { wait: u64::MAX - 1, retries: 8 }))
    );
}

#[test]
fn fetch_range_is_bounded_by_batch_head_and_room() {
    let mut p = provider(10, Some(5), Some(100));
    // the delayed head is 190: the batch bounds the range
    assert_eq!(fetch_range(&p, 200, true, 3), Some((101, 103)));
    assert_eq!(fetch_range(&p, 200, true, 1), Some((101, 101)));
    assert_eq!(fetch_range(&p, 200, true, 0), None);
    assert_eq!(fetch_range(&p, 200, false, 3), None);
    // the cache has room for six views before it is over its limit of five
    assert_eq!(fetch_range(&p, 200, true, 50), Some((101, 106)));
    assert_eq!(fetch_range(&p, 200, true, u64::MAX), Some((101, 106)));
    // the delayed head bounds the range
    assert_eq!(fetch_range(&p, 112, true, 50), Some((101, 102)));
    assert_eq!(fetch_range(&p, 111, true, 50), Some((101, 101)));
    assert_eq!(fetch_range(&p, 110, true, 50), None);
    for h in 101..=104u64 {
        p.new_parent_view(h, None).unwrap();
    }
    assert_eq!(fetch_range(&p, 200, true, 50), Some((105, 106)));
    p.new_parent_view(105, None).unwrap();
    assert_eq!(fetch_range(&p, 200, true, 50), Some((106, 106)));
    p.new_parent_view(106, None).unwrap();
    assert_eq!(fetch_range(&p, 200, true, 50), None);
}
