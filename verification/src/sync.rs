//! The decisions of the parent syncer: where to start, what to fetch next,
//! how to take what was fetched, and how long to wait after a failure.

use crate::bytes::clone_bytes;
use crate::collections::hash_view;
use crate::finality::{Config, Error as ProviderError, IPCParentFinality, ParentViewPayload};
use crate::hexfmt::hex_text;
use crate::provider::{view_outcome, FinalityWithNull, ParentFinalityCommitted, ProviderView};
use crate::topdown::{Toggle, TopdownClient, TopdownError};
use crate::voting::{
    height_after, is_top, power_from, Error as TallyError, TallyView, ValidatorKey, Weight,
};
use crate::{BlockHash, BlockHeight};
use vstd::prelude::*;

verus! {

/// Seconds to wait before the ledger is asked again.
pub const QUERY_RETRY_SECONDS: u64 = 5;

/// A validator of the child subnet with its voting power.
#[derive(Clone, Debug, PartialEq, Eq)]
pub struct Validator {
    pub public_key: Vec<u8>,
    pub power: u64,
}

/// The ledger could not answer.
#[derive(Clone, Copy, Debug, PartialEq, Eq, Structural)]
pub struct QueryFailure;

/// Asks the ledger of the child for the parent finality.
///
/// The answers are `None` until the ledger has been initialized.
pub trait ParentFinalityStateQuery {
    /// The latest committed finality.
    fn get_latest_committed_finality(&self) -> Result<Option<IPCParentFinality>, QueryFailure>;

    /// The current validators with their voting powers.
    fn get_power_table(&self) -> Result<Option<Vec<Validator>>, QueryFailure>;
}

/// What to do with the ledger's answer on the committed finality.
#[derive(Debug, PartialEq, Eq)]
pub enum StartingFinality {
    /// The ledger is not ready: ask again after this many seconds.
    Wait(u64),
    /// Nothing was committed yet: start from the genesis epoch of the subnet
    /// on the parent.
    FromGenesis,
    /// Start from this finality.
    Ready(IPCParentFinality),
}

/// What to do with the ledger's answer on the power table.
#[derive(Debug, PartialEq, Eq)]
pub enum StartingCommittee {
    /// The ledger is not ready: ask again after this many seconds.
    Wait(u64),
    /// Start with these weights.
    Ready(Vec<(ValidatorKey, Weight)>),
}

/// Where the syncer starts, given the ledger's answer: nowhere yet if the
/// ledger is not ready or failed, from the genesis epoch if the committed
/// height is zero, else from the committed finality.
pub fn starting_finality(answer: Result<Option<IPCParentFinality>, QueryFailure>) -> (step:
    StartingFinality)
    ensures
        match answer {
            Ok(Some(f)) => if f.height == 0 {
                step == StartingFinality::FromGenesis
            } else {
                step == StartingFinality::Ready(f)
            },
            _ => step == StartingFinality::Wait(QUERY_RETRY_SECONDS),
        },
{
    match answer {
        Ok(Some(finality)) => {
            if finality.height == 0 {
                StartingFinality::FromGenesis
            } else {
                StartingFinality::Ready(finality)
            }
        },
        _ => StartingFinality::Wait(QUERY_RETRY_SECONDS),
    }
}

/// Asks the ledger once for the finality to start from.
pub fn query_starting_finality<T: ParentFinalityStateQuery>(query: &T) -> (step: StartingFinality)
    ensures
        step matches StartingFinality::Wait(secs) ==> secs == QUERY_RETRY_SECONDS,
        step matches StartingFinality::Ready(f) ==> f.height != 0,
{
    starting_finality(query.get_latest_committed_finality())
}

/// The finality of the genesis epoch, once its block hash was fetched.
pub fn genesis_finality(genesis_epoch: BlockHeight, block_hash: BlockHash) -> (f:
    IPCParentFinality)
    ensures
        f.height == genesis_epoch,
        f.block_hash == block_hash,
{
    IPCParentFinality { height: genesis_epoch, block_hash }
}

/// Each validator as a key with its weight, in the order given.
pub open spec fn spec_power_table_of(validators: Seq<Validator>) -> Seq<(Seq<u8>, u64)> {
    validators.map_values(|v: Validator| (v.public_key@, v.power))
}

/// The key and weight of each entry.
pub open spec fn entry_views(entries: Seq<(ValidatorKey, Weight)>) -> Seq<(Seq<u8>, u64)> {
    entries.map_values(|e: (ValidatorKey, Weight)| (e.0@, e.1))
}

/// The power table of `validators`: each key with its weight.
pub fn power_table_of(validators: &Vec<Validator>) -> (table: Vec<(ValidatorKey, Weight)>)
    ensures
        entry_views(table@) == spec_power_table_of(validators@),
{
    let mut table: Vec<(ValidatorKey, Weight)> = Vec::new();
    let mut i: usize = 0;
    while i < validators.len()
        invariant
            i <= validators.len(),
            entry_views(table@) == spec_power_table_of(validators@.take(i as int)),
        decreases validators.len() - i,
    {
        let ghost v = validators@[i as int];
        table.push((clone_bytes(&validators[i].public_key), validators[i].power));
        assert(validators@.take(i + 1) =~= validators@.take(i as int).push(v));
        assert(spec_power_table_of(validators@.take(i as int).push(v)) =~= spec_power_table_of(
            validators@.take(i as int),
        ).push((v.public_key@, v.power)));
        i = i + 1;
    }
    table
}

/// With what weights the syncer starts, given the ledger's answer: with none
/// yet if the ledger is not ready or failed.
pub fn starting_committee(answer: Result<Option<Vec<Validator>>, QueryFailure>) -> (step:
    StartingCommittee)
    ensures
        match answer {
            Ok(Some(validators)) => step matches StartingCommittee::Ready(table) && entry_views(
                table@,
            ) == spec_power_table_of(validators@),
            _ => step == StartingCommittee::Wait(QUERY_RETRY_SECONDS),
        },
{
    match answer {
        Ok(Some(validators)) => StartingCommittee::Ready(power_table_of(&validators)),
        _ => StartingCommittee::Wait(QUERY_RETRY_SECONDS),
    }
}

/// Asks the ledger once for the weights to start with.
pub fn query_starting_comittee<T: ParentFinalityStateQuery>(query: &T) -> (step:
    StartingCommittee)
    ensures
        step matches StartingCommittee::Wait(secs) ==> secs == QUERY_RETRY_SECONDS,
{
    starting_committee(query.get_power_table())
}

/// Seeds the client before the syncer runs: the provider commits `finality`,
/// the tally takes it as finalized and takes the weights of `power_table`.
/// A client that is switched off refuses.
pub fn launch_polling_syncer(
    view_provider: &mut Toggle<TopdownClient>,
    finality: IPCParentFinality,
    power_table: Vec<(ValidatorKey, Weight)>,
) -> (r: Result<ParentFinalityCommitted, TopdownError>)
    requires
        old(view_provider).wf(),
        finality.block_hash@.len() * 2 <= isize::MAX,
    ensures
        match *old(view_provider) {
            Toggle::Enabled(before) => {
                &&& r matches Ok(event) && event.block_height == finality.height
                    && event.block_hash@ == hex_text(finality.block_hash@)
                &&& *final(view_provider) matches Toggle::Enabled(after) && after.wf()
                    && after.provider@ == before.provider@.commit(finality@) && after.tally@ == (
                TallyView {
                    power: power_from(power_table@),
                    ..before.tally@.finalized(finality.height, finality.block_hash@)
                })
            },
            Toggle::Disabled => r == Err::<ParentFinalityCommitted, TopdownError>(
                TopdownError::NotEnabled,
            ) && *final(view_provider) == *old(view_provider),
        },
{
    let event = match view_provider.parent_finalized(finality) {
        Ok(event) => event,
        Err(e) => {
            return Err(e);
        },
    };
    match view_provider.update_power_table(power_table) {
        Ok(()) => Ok(event),
        Err(e) => Err(e),
    }
}

/// The newest parent height that the syncer may fetch: the head of the
/// parent set back by the configured delay. Nothing while the parent is
/// shorter than the delay.
pub fn finalized_chain_head(config: &Config, parent_chain_head: BlockHeight) -> (r: Option<
    BlockHeight,
>)
    ensures
        r == (if parent_chain_head < config.chain_head_delay {
            None
        } else {
            Some((parent_chain_head - config.chain_head_delay) as u64)
        }),
{
    if parent_chain_head < config.chain_head_delay {
        None
    } else {
        Some(parent_chain_head - config.chain_head_delay)
    }
}

/// Whether the cache holds more views than the configuration allows.
pub fn exceed_cache_size_limit(provider: &FinalityWithNull) -> (b: bool)
    requires
        provider.wf(),
    ensures
        b == (provider@.cache.size() > provider@.config.spec_max_cache_blocks()),
{
    provider.cached_blocks() > provider.config().max_cache_blocks()
}

/// What the syncer does at a tick.
#[derive(Clone, Copy, Debug, PartialEq, Eq, Structural)]
pub enum SyncStep {
    /// Nothing.
    Idle,
    /// Fetch the parent view of this height.
    Fetch(BlockHeight),
}

/// The step of a tick, as a function of what the syncer knows.
pub open spec fn spec_next_sync_step(v: ProviderView, parent_chain_head: BlockHeight, caught_up: bool) -> SyncStep {
    if !caught_up || parent_chain_head < v.config.chain_head_delay {
        SyncStep::Idle
    } else {
        match v.latest_height() {
            Some(latest) if latest < parent_chain_head - v.config.chain_head_delay
                && v.cache.size() <= v.config.spec_max_cache_blocks() => SyncStep::Fetch(
                (latest + 1) as u64,
            ),
            _ => SyncStep::Idle,
        }
    }
}

/// The step of a tick. The syncer idles while the child is not caught up,
/// while the parent is shorter than the delay, while the provider knows no
/// height, once it has reached the delayed head of the parent, and while the
/// cache is over its limit. Otherwise it fetches the height after the newest
/// one known: that of the cache, else the committed one.
pub fn next_sync_step(provider: &FinalityWithNull, parent_chain_head: BlockHeight, caught_up: bool) -> (step:
    SyncStep)
    requires
        provider.wf(),
    ensures
        step == spec_next_sync_step(provider@, parent_chain_head, caught_up),
{
    if !caught_up {
        return SyncStep::Idle;
    }
    let chain_head: u64 = match finalized_chain_head(provider.config(), parent_chain_head) {
        Some(h) => h,
        None => {
            return SyncStep::Idle;
        },
    };
    let latest: u64 = match provider.latest_height() {
        Some(h) => h,
        None => {
            return SyncStep::Idle;
        },
    };
    if latest >= chain_head {
        return SyncStep::Idle;
    }
    if exceed_cache_size_limit(provider) {
        return SyncStep::Idle;
    }
    SyncStep::Fetch(latest + 1)
}

/// The heights to fetch at a tick, as a function of what the syncer knows:
/// from the height of the step on, no more than `batch_bound` heights, none
/// above the delayed head of the parent, and no more than the cache has
/// room for before it is over its limit.
pub open spec fn spec_fetch_range(
    v: ProviderView,
    parent_chain_head: BlockHeight,
    caught_up: bool,
    batch_bound: u64,
) -> Option<(BlockHeight, BlockHeight)> {
    match spec_next_sync_step(v, parent_chain_head, caught_up) {
        SyncStep::Fetch(first) if batch_bound > 0 => {
            let head = parent_chain_head - v.config.chain_head_delay;
            let room = v.config.spec_max_cache_blocks() + 1 - v.cache.size();
            let by_batch = first + batch_bound - 1;
            let by_room = first + room - 1;
            let last = if by_batch <= by_room && by_batch <= head {
                by_batch
            } else if by_room <= head {
                by_room
            } else {
                head
            };
            Some((first, last as u64))
        },
        _ => None,
    }
}

/// The first and the last height to fetch at a tick, if there is any to
/// fetch: the heights after the newest one known, bounded by the batch, by
/// the delayed head of the parent and by the room left in the cache.
pub fn fetch_range(
    provider: &FinalityWithNull,
    parent_chain_head: BlockHeight,
    caught_up: bool,
    batch_bound: u64,
) -> (r: Option<(BlockHeight, BlockHeight)>)
    requires
        provider.wf(),
    ensures
        r == spec_fetch_range(provider@, parent_chain_head, caught_up, batch_bound),
        r matches Some((first, last)) ==> first <= last,
{
    let first: u64 = match next_sync_step(provider, parent_chain_head, caught_up) {
        SyncStep::Fetch(h) => h,
        SyncStep::Idle => {
            return None;
        },
    };
    if batch_bound == 0 {
        return None;
    }
    let head: u64 = parent_chain_head - provider.config().chain_head_delay;
    let room: u64 = provider.config().max_cache_blocks() - provider.cached_blocks();
    let mut last: u64 = head;
    if batch_bound - 1 < last - first {
        last = first + (batch_bound - 1);
    }
    if room < last - first {
        last = first + room;
    }
    Some((first, last))
}

/// Why a fetched view was not taken.
#[derive(Clone, Debug, PartialEq, Eq)]
pub enum SyncError {
    /// The provider refused the view.
    Provider(ProviderError),
    /// The tally refused the block.
    Tally(TallyError),
}

/// The hash of a fetched view; none for a null round.
pub open spec fn payload_hash(maybe_payload: Option<ParentViewPayload>) -> Option<Seq<u8>> {
    match maybe_payload {
        Some(p) => Some(p.0@),
        None => None,
    }
}

/// Takes the fetched view of `height`: the provider caches it, and the tally
/// extends its chain by the block hash, or by a null round. If either
/// refuses, neither is changed.
pub fn sync_fetched(
    client: &mut TopdownClient,
    height: BlockHeight,
    maybe_payload: Option<ParentViewPayload>,
) -> (r: Result<(), SyncError>)
    requires
        old(client).wf(),
    ensures
        final(client).wf(),
        r is Err ==> final(client).provider@ == old(client).provider@ && final(client).tally@
            == old(client).tally@,
        view_outcome(old(client).provider@, height, maybe_payload) matches Err(e) ==> r == Err::<
            (),
            SyncError,
        >(SyncError::Provider(e)),
        forall|top: u64|
            view_outcome(old(client).provider@, height, maybe_payload) is Ok && is_top(
                old(client).tally@.chain,
                top,
            ) && height != top + 1 ==> r == Err::<(), SyncError>(
                SyncError::Tally(TallyError::UnexpectedBlock(height_after(top), height)),
            ),
        view_outcome(old(client).provider@, height, maybe_payload) is Ok && (forall|top: u64|
            is_top(old(client).tally@.chain, top) ==> height == top + 1) ==> r is Ok,
        r is Ok ==> final(client).provider@ == (ProviderView {
            cache: old(client).provider@.cache.append(height, maybe_payload.deep_view()),
            ..old(client).provider@
        }),
        r is Ok ==> final(client).tally@ == (TallyView {
            chain: old(client).tally@.chain.insert(height, payload_hash(maybe_payload)),
            ..old(client).tally@
        }),
{
    if let Err(e) = client.provider.check_parent_view(height, &maybe_payload) {
        return Err(SyncError::Provider(e));
    }
    let block_hash: Option<BlockHash> = match &maybe_payload {
        Some(p) => Some(clone_bytes(&p.0)),
        None => None,
    };
    if let Err(e) = client.tally.add_block(height, block_hash) {
        return Err(SyncError::Tally(e));
    }
    let _ = client.provider.new_parent_view(height, maybe_payload);
    Ok(())
}

/// How a failed call of the parent is retried: the seconds to wait before
/// the next try, and the number of tries left.
#[derive(Clone, Copy, Debug, PartialEq, Eq, Structural)]
pub struct RetryState {
    pub wait: u64,
    pub retries: u64,
}

/// The retry state before the first failure: the configured first wait and
/// the configured number of retries.
pub fn retry_start(config: &Config) -> (state: RetryState)
    ensures
        state == (RetryState {
            wait: config.exponential_back_off,
            retries: config.exponential_retry_limit,
        }),
{
    RetryState { wait: config.exponential_back_off, retries: config.exponential_retry_limit }
}

/// Twice `wait`, or the largest number of seconds if that does not fit.
pub open spec fn doubled(wait: u64) -> u64 {
    if 2 * wait <= u64::MAX {
        (2 * wait) as u64
    } else {
        u64::MAX
    }
}

/// What follows a failure: nothing if no retry is left, so that the failure
/// is handed up; else the seconds to sleep now, and the state for the
/// failure after, with the wait doubled and one retry less.
pub fn retry_step(state: RetryState) -> (r: Option<(u64, RetryState)>)
    ensures
        r == (if state.retries == 0 {
            None
        } else {
            Some(
                (
                    state.wait,
                    RetryState { wait: doubled(state.wait), retries: (state.retries - 1) as u64 },
                ),
            )
        }),
{
    if state.retries == 0 {
        return None;
    }
    let next_wait: u64 = if state.wait > u64::MAX / 2 {
        u64::MAX
    } else {
        state.wait * 2
    };
    Some((state.wait, RetryState { wait: next_wait, retries: state.retries - 1 }))
}

} // verus!
