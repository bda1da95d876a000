//! The finality provider: the window of parent views (filled or null) since
//! the last committed finality, and the choice and validation of proposals
//! under the delay policy.

use crate::bytes::{bytes_eq, clone_bytes, lemma_bytes_deep_view};
use crate::cache::{SequentialKeyCache, Window};
use crate::finality::{
    clone_changes, clone_entry, clone_msgs, ensure_sequential, is_sequential, Config, Error,
    EnvelopeView, FinalityView, IPCParentFinality, IpcEnvelope, ParentViewPayload, PayloadView,
    StakingChangeRequest, StakingChangeView,
};
use crate::hexfmt::{hex_encode, hex_text};
use crate::store::CacheStore;
use crate::BlockHash;
use crate::BlockHeight;
use vstd::prelude::*;

verus! {

/// What the provider knows, as a mathematical value.
pub struct ProviderView {
    pub config: Config,
    pub genesis_epoch: BlockHeight,
    /// The parent views by height; `None` marks a null round.
    pub cache: Window<Option<PayloadView>>,
    pub committed: Option<FinalityView>,
}

/// Whether the window holds a block (not a null round) at `height`.
pub open spec fn is_filled(w: Window<Option<PayloadView>>, height: BlockHeight) -> bool {
    w.get(height) matches Some(Some(_))
}

/// The highest filled height at or below `height` in the window.
pub open spec fn first_non_null(w: Window<Option<PayloadView>>, height: int) -> Option<
    BlockHeight,
>
    decreases height - w.lower + 1,
{
    if w.values.len() == 0 || height < w.lower {
        None
    } else if height <= u64::MAX && is_filled(w, height as u64) {
        Some(height as u64)
    } else {
        first_non_null(w, height - 1)
    }
}

/// The block hash that the window holds at `height`.
pub open spec fn cached_hash(w: Window<Option<PayloadView>>, height: BlockHeight) -> Option<
    Seq<u8>,
> {
    match w.get(height) {
        Some(Some(p)) => Some(p.0),
        _ => None,
    }
}

/// The validator changes of the filled heights above `from` and up to `to`,
/// in the order of the heights.
pub open spec fn changes_between(w: Window<Option<PayloadView>>, from: int, to: int) -> Seq<
    StakingChangeView,
>
    decreases to - from,
{
    if to <= from {
        Seq::empty()
    } else {
        changes_between(w, from, to - 1) + (if 0 <= to <= u64::MAX {
            match w.get(to as u64) {
                Some(Some(p)) => p.1,
                _ => Seq::empty(),
            }
        } else {
            Seq::empty()
        })
    }
}

/// The cross-messages of the filled heights above `from` and up to `to`, in
/// the order of the heights.
pub open spec fn msgs_between(w: Window<Option<PayloadView>>, from: int, to: int) -> Seq<
    EnvelopeView,
>
    decreases to - from,
{
    if to <= from {
        Seq::empty()
    } else {
        msgs_between(w, from, to - 1) + (if 0 <= to <= u64::MAX {
            match w.get(to as u64) {
                Some(Some(p)) => p.2,
                _ => Seq::empty(),
            }
        } else {
            Seq::empty()
        })
    }
}

/// The height from which the search for a proposal starts: the committed
/// height plus the proposal range, but not above the top of the cache.
pub open spec fn proposal_candidate(v: ProviderView) -> int {
    match (v.cache.upper_bound(), v.committed) {
        (Some(latest), Some(c)) => {
            let limit = c.height + v.config.spec_max_proposal_range();
            if limit < latest {
                limit
            } else {
                latest as int
            }
        },
        _ => 0,
    }
}

impl ProviderView {
    /// The block hash known for `height`: that of the committed finality at
    /// its own height, else that of the cached block.
    pub open spec fn block_hash_at(self, height: BlockHeight) -> Option<Seq<u8>> {
        match self.committed {
            Some(c) if c.height == height => Some(c.block_hash),
            _ => cached_hash(self.cache, height),
        }
    }

    /// The newest height known: the top of the cache, else the committed one.
    pub open spec fn latest_height(self) -> Option<BlockHeight> {
        match self.cache.upper_bound() {
            Some(h) => Some(h),
            None => match self.committed {
                Some(c) => Some(c.height),
                None => None,
            },
        }
    }

    /// The height to propose next under the delay policy.
    pub open spec fn proposal_height(self) -> Option<BlockHeight> {
        match (self.cache.upper_bound(), self.committed) {
            (Some(latest), Some(c)) => {
                match first_non_null(self.cache, proposal_candidate(self)) {
                    Some(newest) if newest >= self.config.spec_proposal_delay() => {
                        match first_non_null(
                            self.cache,
                            newest - self.config.spec_proposal_delay(),
                        ) {
                            Some(delayed) if delayed != c.height => Some(delayed),
                            _ => None,
                        }
                    },
                    _ => None,
                }
            },
            _ => None,
        }
    }

    /// The finality to propose next: the proposal height with its hash.
    pub open spec fn next_proposal(self) -> Option<FinalityView> {
        match self.proposal_height() {
            Some(h) => match cached_hash(self.cache, h) {
                Some(hash) => Some(FinalityView { height: h, block_hash: hash }),
                None => None,
            },
            None => None,
        }
    }

    /// Whether the height of `p` lies above the committed height and within
    /// the cache.
    pub open spec fn height_acceptable(self, p: FinalityView) -> bool {
        &&& self.committed matches Some(c) && c.height < p.height
        &&& self.cache.upper_bound() matches Some(latest) && p.height <= latest
    }

    /// Whether `p` may be voted for: its height is acceptable and its hash is
    /// the one known at that height.
    pub open spec fn accepts_proposal(self, p: FinalityView) -> bool {
        &&& self.height_acceptable(p)
        &&& self.block_hash_at(p.height) == Some(p.block_hash)
    }

    /// The state after `finality` was committed: the cache keeps the heights
    /// from that of `finality` on.
    pub open spec fn commit(self, finality: FinalityView) -> Self {
        ProviderView {
            cache: self.cache.remove_below(finality.height),
            committed: Some(finality),
            ..self
        }
    }
}

/// What becomes of a new parent view: items that are not sequential are
/// refused first, then a height that does not follow the cache.
pub open spec fn view_outcome(
    v: ProviderView,
    height: BlockHeight,
    maybe_payload: Option<ParentViewPayload>,
) -> Result<(), Error> {
    if maybe_payload matches Some(p) && !(is_sequential(p.2@) && is_sequential(p.1@)) {
        Err(Error::NotSequential)
    } else if !v.cache.accepts(height) {
        Err(
            Error::NonSequentialParentViewInsert(
                crate::cache::NonSequentialInsert { expected: v.cache.expected_key(), got: height },
            ),
        )
    } else {
        Ok(())
    }
}

/// The event that tells of a committed finality; the hash in hexadecimal.
#[derive(Clone, Debug, PartialEq, Eq)]
pub struct ParentFinalityCommitted {
    pub block_height: BlockHeight,
    pub block_hash: String,
}

/// Finality provider that can handle null blocks.
#[derive(Clone, Debug)]
pub struct FinalityWithNull {
    config: Config,
    genesis_epoch: BlockHeight,
    /// The parent views, as fetched from the parent chain.
    cached_data: SequentialKeyCache<Option<ParentViewPayload>>,
    /// The committed finality: the starting point of the cache.
    last_committed_finality: Option<IPCParentFinality>,
    /// The mirror of `cached_data` that outlives a restart.
    cache_store: CacheStore<Option<ParentViewPayload>>,
}

impl View for FinalityWithNull {
    type V = ProviderView;

    closed spec fn view(&self) -> ProviderView {
        ProviderView {
            config: self.config,
            genesis_epoch: self.genesis_epoch,
            cache: self.cached_data@,
            committed: self.last_committed_finality.deep_view(),
        }
    }
}

/// Above the top of the window nothing is filled, so the search may start
/// at the top.
pub proof fn lemma_first_non_null_above_top(w: Window<Option<PayloadView>>, height: int)
    requires
        w.wf(),
        w.upper_bound() matches Some(top) && top <= height <= u64::MAX,
    ensures
        first_non_null(w, height) == first_non_null(w, w.upper_bound().unwrap() as int),
    decreases height - w.lower + 1,
{
    if height > w.upper_bound().unwrap() {
        lemma_first_non_null_above_top(w, height - 1);
    }
}

/// What the search returns is a filled height of the window, not above where
/// the search began, and no filled height lies between the two.
pub proof fn lemma_first_non_null_found(w: Window<Option<PayloadView>>, height: int)
    requires
        w.wf(),
    ensures
        match first_non_null(w, height) {
            Some(h) => h <= height && is_filled(w, h) && forall|k: BlockHeight|
                h < k <= height ==> !is_filled(w, k),
            None => forall|k: BlockHeight| k <= height ==> !is_filled(w, k),
        },
    decreases height - w.lower + 1,
{
    if w.values.len() > 0 && w.lower <= height && !(height <= u64::MAX && is_filled(
        w,
        height as u64,
    )) {
        lemma_first_non_null_found(w, height - 1);
    }
}

/// A proposal that the provider makes above its committed height is one
/// that it accepts itself.
pub proof fn lemma_proposal_is_accepted(v: ProviderView, p: FinalityView)
    requires
        v.cache.wf(),
        v.next_proposal() == Some(p),
        v.committed matches Some(c) && c.height < p.height,
    ensures
        v.accepts_proposal(p),
{
    let delay = v.config.spec_proposal_delay();
    let candidate = proposal_candidate(v);
    lemma_first_non_null_found(v.cache, candidate);
    let newest = first_non_null(v.cache, candidate).unwrap();
    lemma_first_non_null_found(v.cache, newest - delay);
}

/// While the cache holds no height below the committed one, as after a
/// commit, every proposal lies above the committed height.
pub proof fn lemma_proposal_above_committed(v: ProviderView, p: FinalityView)
    requires
        v.cache.wf(),
        v.next_proposal() == Some(p),
        v.committed matches Some(c) && (v.cache.lower_bound() matches Some(l) ==> c.height <= l),
    ensures
        v.committed matches Some(c) && c.height < p.height,
        v.accepts_proposal(p),
{
    let delay = v.config.spec_proposal_delay();
    let candidate = proposal_candidate(v);
    lemma_first_non_null_found(v.cache, candidate);
    let newest = first_non_null(v.cache, candidate).unwrap();
    lemma_first_non_null_found(v.cache, newest - delay);
}

/// After a commit that does not go back, the committed height is at least
/// the one before, the cache holds no height below the new one, and the
/// heights from the new one on are kept.
pub proof fn lemma_commit_is_monotone(v: ProviderView, finality: FinalityView, k: BlockHeight)
    requires
        v.cache.wf(),
        v.committed matches Some(prev) ==> prev.height <= finality.height,
    ensures
        v.commit(finality).cache.wf(),
        v.commit(finality).committed == Some(finality),
        v.committed matches Some(prev) ==> v.commit(finality).committed.unwrap().height
            >= prev.height,
        k < finality.height ==> v.commit(finality).cache.get(k) is None,
        k >= finality.height ==> v.commit(finality).cache.get(k) == v.cache.get(k),
{
}

impl FinalityWithNull {
    /// The invariant of the provider: cache and mirror are well formed and
    /// hold the same window.
    pub closed spec fn wf(&self) -> bool {
        &&& self.cached_data.wf()
        &&& self.cache_store.wf()
        &&& self.cached_data@ == self.cache_store@
    }

    /// The window of a well-formed provider is well formed, and the mirror
    /// holds the same.
    pub proof fn lemma_wf(&self)
        requires
            self.wf(),
        ensures
            self@.cache.wf(),
            self.spec_cache_store()@ == self@.cache,
            self.spec_cache_store().wf(),
    {
    }

    /// The mirror that the provider owns.
    pub closed spec fn spec_cache_store(&self) -> CacheStore<Option<ParentViewPayload>> {
        self.cache_store
    }

    /// A provider over `cache_store`. The cache is filled from the mirror, so
    /// that after a restart both hold what the mirror kept.
    pub fn new(
        config: Config,
        genesis_epoch: BlockHeight,
        committed_finality: Option<IPCParentFinality>,
        cache_store: CacheStore<Option<ParentViewPayload>>,
    ) -> (provider: Self)
        requires
            cache_store.wf(),
        ensures
            provider.wf(),
            provider@ == (ProviderView {
                config,
                genesis_epoch,
                cache: cache_store@,
                committed: committed_finality.deep_view(),
            }),
    {
        proof {
            cache_store.lemma_wf_window();
        }
        let mut cache: SequentialKeyCache<Option<ParentViewPayload>> =
            SequentialKeyCache::sequential();
        let n: usize = cache_store.size();
        if n > 0 {
            let lower: u64 = cache_store.lower_bound().unwrap();
            let mut i: usize = 0;
            while i < n
                invariant
                    i <= n,
                    n == cache_store@.size(),
                    cache_store.wf(),
                    cache_store@.wf(),
                    cache_store@.lower == lower,
                    cache.wf(),
                    i == 0 ==> cache@ == Window::<Option<PayloadView>>::empty(),
                    i > 0 ==> cache@ == (Window {
                        lower,
                        values: cache_store@.values.subrange(0, i as int),
                    }),
                decreases n - i,
            {
                let key: u64 = lower + i as u64;
                let entry = cache_store.get_value(key);
                match entry {
                    Some(e) => {
                        let copy = clone_entry(e);
                        let _ = cache.append(key, copy);
                        assert(cache@.values =~= cache_store@.values.subrange(0, i + 1));
                    },
                    None => {},
                }
                i = i + 1;
            }
            assert(cache@.values =~= cache_store@.values);
        } else {
            assert(cache_store@.values =~= Seq::empty());
        }
        FinalityWithNull {
            config,
            genesis_epoch,
            cached_data: cache,
            last_committed_finality: committed_finality,
            cache_store,
        }
    }

    /// The height at which the child subnet was created on the parent.
    pub fn genesis_epoch(&self) -> (h: BlockHeight)
        ensures
            h == self@.genesis_epoch,
    {
        self.genesis_epoch
    }

    /// The delay policy.
    pub fn config(&self) -> (c: &Config)
        ensures
            *c == self@.config,
    {
        &self.config
    }

    /// The mirror, for whoever writes it to disk.
    pub fn cache_store(&self) -> (s: &CacheStore<Option<ParentViewPayload>>)
        ensures
            *s == self.spec_cache_store(),
    {
        &self.cache_store
    }

    /// The committed finality.
    pub fn last_committed_finality(&self) -> (f: Option<IPCParentFinality>)
        ensures
            f.deep_view() == self@.committed,
    {
        match &self.last_committed_finality {
            Some(f) => Some(f.duplicate()),
            None => None,
        }
    }

    /// Number of parent views cached.
    pub fn cached_blocks(&self) -> (n: BlockHeight)
        requires
            self.wf(),
        ensures
            n == self@.cache.size(),
    {
        self.cached_data.size() as u64
    }

    /// The newest height in the cache.
    pub fn latest_height_in_cache(&self) -> (r: Option<BlockHeight>)
        requires
            self.wf(),
        ensures
            r == self@.cache.upper_bound(),
    {
        self.cached_data.upper_bound()
    }

    /// The newest height known to the provider: that of the cache, else
    /// that of the committed finality.
    pub fn latest_height(&self) -> (r: Option<BlockHeight>)
        requires
            self.wf(),
        ensures
            r == self@.latest_height(),
    {
        match self.latest_height_in_cache() {
            Some(h) => Some(h),
            None => match &self.last_committed_finality {
                Some(p) => Some(p.height),
                None => None,
            },
        }
    }

    /// The entry of `height`: nothing if the height is not cached, else the
    /// payload or the mark of a null round.
    pub fn handle_null_block(&self, height: BlockHeight) -> (r: Option<
        &Option<ParentViewPayload>,
    >)
        requires
            self.wf(),
        ensures
            r.deep_view() == self@.cache.get(height),
    {
        self.cached_data.get_value(height)
    }

    /// The payload cached at `height`, if a block is cached there.
    pub fn get_at_height(&self, height: BlockHeight) -> (r: Option<&ParentViewPayload>)
        requires
            self.wf(),
        ensures
            r.deep_view() == (match self@.cache.get(height) {
                Some(Some(p)) => Some(p),
                _ => None,
            }),
    {
        match self.cached_data.get_value(height) {
            Some(Some(p)) => Some(p),
            _ => None,
        }
    }

    /// The validator changes of `height`: none for a null round, nothing if
    /// the height is not cached.
    pub fn validator_changes(&self, height: BlockHeight) -> (r: Option<Vec<StakingChangeRequest>>)
        requires
            self.wf(),
        ensures
            r.deep_view() == (match self@.cache.get(height) {
                Some(Some(p)) => Some(p.1),
                Some(None) => Some(Seq::<StakingChangeView>::empty()),
                None => None,
            }),
    {
        match self.handle_null_block(height) {
            Some(Some(p)) => Some(clone_changes(&p.1)),
            Some(None) => {
                let none: Vec<StakingChangeRequest> = Vec::new();
                Some(none)
            },
            None => None,
        }
    }

    /// The cross-messages of `height`: none for a null round, nothing if the
    /// height is not cached.
    pub fn top_down_msgs(&self, height: BlockHeight) -> (r: Option<Vec<IpcEnvelope>>)
        requires
            self.wf(),
        ensures
            r.deep_view() == (match self@.cache.get(height) {
                Some(Some(p)) => Some(p.2),
                Some(None) => Some(Seq::<EnvelopeView>::empty()),
                None => None,
            }),
    {
        match self.handle_null_block(height) {
            Some(Some(p)) => Some(clone_msgs(&p.2)),
            Some(None) => {
                let none: Vec<IpcEnvelope> = Vec::new();
                Some(none)
            },
            None => None,
        }
    }

    /// The block hash known for `height`: that of the committed finality at
    /// its own height, else that of the cached block.
    pub fn block_hash_at_height(&self, height: BlockHeight) -> (r: Option<BlockHash>)
        requires
            self.wf(),
        ensures
            r.deep_view() == self@.block_hash_at(height),
    {
        if let Some(f) = &self.last_committed_finality {
            if f.height == height {
                return Some(clone_bytes(&f.block_hash));
            }
        }
        match self.get_at_height(height) {
            Some(p) => Some(clone_bytes(&p.0)),
            None => None,
        }
    }

    /// The highest cached height at or below `height` that holds a block.
    pub fn first_non_null_block(&self, height: BlockHeight) -> (r: Option<BlockHeight>)
        requires
            self.wf(),
        ensures
            r == first_non_null(self@.cache, height as int),
    {
        let lower: u64 = match self.cached_data.lower_bound() {
            Some(l) => l,
            None => {
                return None;
            },
        };
        if height < lower {
            return None;
        }
        let upper: u64 = match self.cached_data.upper_bound() {
            Some(u) => u,
            None => {
                return None;
            },
        };
        let mut h: u64 = if height < upper {
            height
        } else {
            upper
        };
        proof {
            if height >= upper {
                lemma_first_non_null_above_top(self@.cache, height as int);
            }
        }
        loop
            invariant
                self.wf(),
                self@.cache.lower_bound() == Some(lower),
                self@.cache.upper_bound() == Some(upper),
                lower <= h <= upper,
                first_non_null(self@.cache, height as int) == first_non_null(self@.cache, h as int),
            decreases h - lower,
        {
            if let Some(Some(_)) = self.cached_data.get_value(h) {
                return Some(h);
            }
            if h == lower {
                return None;
            }
            h = h - 1;
        }
    }

    /// The height to propose next: the newest filled height within the
    /// proposal range, set back by the proposal delay to a filled height;
    /// nothing if that is the committed height itself.
    pub fn propose_next_height(&self) -> (r: Option<BlockHeight>)
        requires
            self.wf(),
        ensures
            r == self@.proposal_height(),
    {
        let latest_height: u64 = match self.latest_height_in_cache() {
            Some(h) => h,
            None => {
                return None;
            },
        };
        let last_committed_height: u64 = match &self.last_committed_finality {
            Some(f) => f.height,
            None => {
                return None;
            },
        };
        let range: u64 = self.config.max_proposal_range();
        let candidate_height: u64 = if range < u64::MAX - last_committed_height
            && last_committed_height + range < latest_height {
            last_committed_height + range
        } else {
            latest_height
        };
        let first_non_null_height: u64 = match self.first_non_null_block(candidate_height) {
            Some(h) => h,
            None => {
                return None;
            },
        };
        let delay: u64 = self.config.proposal_delay();
        if first_non_null_height < delay {
            return None;
        }
        match self.first_non_null_block(first_non_null_height - delay) {
            Some(proposal_height) => {
                if last_committed_height == proposal_height {
                    None
                } else {
                    Some(proposal_height)
                }
            },
            None => None,
        }
    }

    /// The finality to propose next, if there is one.
    pub fn next_proposal(&self) -> (r: Option<IPCParentFinality>)
        requires
            self.wf(),
        ensures
            r.deep_view() == self@.next_proposal(),
    {
        let height: u64 = match self.propose_next_height() {
            Some(h) => h,
            None => {
                return None;
            },
        };
        proof {
            lemma_first_non_null_found(
                self@.cache,
                first_non_null(self@.cache, proposal_candidate(self@)).unwrap()
                    - self@.config.spec_proposal_delay(),
            );
        }
        match self.block_hash_at_height(height) {
            Some(block_hash) => {
                proof {
                    lemma_bytes_deep_view(block_hash);
                }
                Some(IPCParentFinality { height, block_hash })
            },
            None => None,
        }
    }

    /// Whether the height of `proposal` is above the committed height and
    /// within the cache.
    pub fn check_height(&self, proposal: &IPCParentFinality) -> (ok: bool)
        requires
            self.wf(),
        ensures
            ok == self@.height_acceptable(proposal@),
    {
        let last_committed_finality = match &self.last_committed_finality {
            Some(f) => f,
            None => {
                return false;
            },
        };
        if last_committed_finality.height >= proposal.height {
            return false;
        }
        match self.latest_height_in_cache() {
            Some(latest_height) => latest_height >= proposal.height,
            None => false,
        }
    }

    /// Whether the hash of `proposal` is the one known at its height.
    pub fn check_block_hash(&self, proposal: &IPCParentFinality) -> (ok: bool)
        requires
            self.wf(),
        ensures
            ok == (self@.block_hash_at(proposal.height) == Some(proposal.block_hash@)),
    {
        match self.block_hash_at_height(proposal.height) {
            Some(block_hash) => {
                proof {
                    lemma_bytes_deep_view(block_hash);
                }
                bytes_eq(&block_hash, &proposal.block_hash)
            },
            None => false,
        }
    }

    /// Whether `proposal` may be voted for.
    pub fn check_proposal(&self, proposal: &IPCParentFinality) -> (ok: bool)
        requires
            self.wf(),
        ensures
            ok == self@.accepts_proposal(proposal@),
    {
        if !self.check_height(proposal) {
            return false;
        }
        self.check_block_hash(proposal)
    }

    /// Commits `finality`: evicts the cached heights below it (its own
    /// height stays, for execution that comes later), makes it the committed
    /// finality, and returns the event that tells of it. `previous_finality`
    /// is what the caller takes the committed finality to be.
    pub fn set_new_finality(
        &mut self,
        finality: IPCParentFinality,
        previous_finality: Option<IPCParentFinality>,
    ) -> (event: ParentFinalityCommitted)
        requires
            old(self).wf(),
            previous_finality.deep_view() == old(self)@.committed,
            finality.block_hash@.len() * 2 <= isize::MAX,
        ensures
            final(self).wf(),
            final(self)@ == old(self)@.commit(finality@),
            event.block_height == finality.height,
            event.block_hash@ == hex_text(finality.block_hash@),
    {
        let height: u64 = finality.height;
        self.cached_data.remove_key_below(height);
        self.cache_store.delete_key_below(height);
        let hash = hex_encode(&finality.block_hash);
        self.last_committed_finality = Some(finality);
        ParentFinalityCommitted { block_height: height, block_hash: hash }
    }

    /// Clears the cache and its mirror and makes `finality` the committed
    /// finality.
    pub fn reset(&mut self, finality: IPCParentFinality)
        requires
            old(self).wf(),
        ensures
            final(self).wf(),
            final(self)@ == (ProviderView {
                cache: Window::<Option<PayloadView>>::empty(),
                committed: Some(finality@),
                ..old(self)@
            }),
    {
        self.cached_data.delete_all();
        self.cache_store.delete_all();
        self.last_committed_finality = Some(finality);
    }

    /// What `new_parent_view` would answer, without taking the view.
    pub fn check_parent_view(
        &self,
        height: BlockHeight,
        maybe_payload: &Option<ParentViewPayload>,
    ) -> (r: Result<(), Error>)
        requires
            self.wf(),
        ensures
            r == view_outcome(self@, height, *maybe_payload),
    {
        if let Some(p) = maybe_payload {
            if let Err(e) = ensure_sequential(&p.2) {
                return Err(e);
            }
            if let Err(e) = ensure_sequential(&p.1) {
                return Err(e);
            }
        }
        match self.cached_data.check_append(height) {
            Ok(()) => Ok(()),
            Err(e) => Err(Error::NonSequentialParentViewInsert(e)),
        }
    }

    /// Takes the parent view of `height`: a payload, or nothing for a null
    /// round. The validator changes and the cross-messages of a payload have
    /// to be sequential, and the height has to follow the cache. On an error
    /// the provider stays as it was. What the cache takes, the mirror takes
    /// too.
    pub fn new_parent_view(
        &mut self,
        height: BlockHeight,
        maybe_payload: Option<ParentViewPayload>,
    ) -> (r: Result<(), Error>)
        requires
            old(self).wf(),
        ensures
            final(self).wf(),
            r == view_outcome(old(self)@, height, maybe_payload),
            r is Ok ==> final(self)@ == (ProviderView {
                cache: old(self)@.cache.append(height, maybe_payload.deep_view()),
                ..old(self)@
            }),
            r is Err ==> final(self)@ == old(self)@,
    {
        match maybe_payload {
            Some((block_hash, validator_changes, top_down_msgs)) => self.parent_block_filled(
                height,
                block_hash,
                validator_changes,
                top_down_msgs,
            ),
            None => self.parent_null_round(height),
        }
    }

    /// Takes the block that the parent has at `height`.
    pub fn parent_block_filled(
        &mut self,
        height: BlockHeight,
        block_hash: BlockHash,
        validator_changes: Vec<StakingChangeRequest>,
        top_down_msgs: Vec<IpcEnvelope>,
    ) -> (r: Result<(), Error>)
        requires
            old(self).wf(),
        ensures
            final(self).wf(),
            r == view_outcome(
                old(self)@,
                height,
                Some((block_hash, validator_changes, top_down_msgs)),
            ),
            r is Ok ==> final(self)@ == (ProviderView {
                cache: old(self)@.cache.append(
                    height,
                    Some((block_hash, validator_changes, top_down_msgs)).deep_view(),
                ),
                ..old(self)@
            }),
            r is Err ==> final(self)@ == old(self)@,
    {
        if let Err(e) = ensure_sequential(&top_down_msgs) {
            return Err(e);
        }
        if let Err(e) = ensure_sequential(&validator_changes) {
            return Err(e);
        }
        let entry: Option<ParentViewPayload> = Some((block_hash, validator_changes, top_down_msgs));
        let copy = clone_entry(&entry);
        if let Err(e) = self.cached_data.append(height, copy) {
            return Err(Error::NonSequentialParentViewInsert(e));
        }
        let mirrored = self.cache_store.append(height, entry);
        assert(mirrored is Ok);
        Ok(())
    }

    /// The validator changes of the cached blocks above `from` and up to
    /// `to`, in the order of the heights.
    pub fn validator_changes_from(&self, from: BlockHeight, to: BlockHeight) -> (r: Vec<
        StakingChangeRequest,
    >)
        requires
            self.wf(),
        ensures
            r.deep_view() == changes_between(self@.cache, from as int, to as int),
    {
        let mut out: Vec<StakingChangeRequest> = Vec::new();
        if to <= from {
            return out;
        }
        let mut h: u64 = from;
        while h < to
            invariant
                from <= h <= to,
                self.wf(),
                out.deep_view() == changes_between(self@.cache, from as int, h as int),
            decreases to - h,
        {
            h = h + 1;
            if let Some(p) = self.get_at_height(h) {
                let mut more = clone_changes(&p.1);
                out.append(&mut more);
            }
        }
        out
    }

    /// The cross-messages of the cached blocks above `from` and up to `to`,
    /// in the order of the heights.
    pub fn top_down_msgs_from(&self, from: BlockHeight, to: BlockHeight) -> (r: Vec<IpcEnvelope>)
        requires
            self.wf(),
        ensures
            r.deep_view() == msgs_between(self@.cache, from as int, to as int),
    {
        let mut out: Vec<IpcEnvelope> = Vec::new();
        if to <= from {
            return out;
        }
        let mut h: u64 = from;
        while h < to
            invariant
                from <= h <= to,
                self.wf(),
                out.deep_view() == msgs_between(self@.cache, from as int, h as int),
            decreases to - h,
        {
            h = h + 1;
            if let Some(p) = self.get_at_height(h) {
                let mut more = clone_msgs(&p.2);
                out.append(&mut more);
            }
        }
        out
    }

    /// Takes the news that the parent has no block at `height`.
    pub fn parent_null_round(&mut self, height: BlockHeight) -> (r: Result<(), Error>)
        requires
            old(self).wf(),
        ensures
            final(self).wf(),
            r == view_outcome(old(self)@, height, None),
            r is Ok ==> final(self)@ == (ProviderView {
                cache: old(self)@.cache.append(height, None),
                ..old(self)@
            }),
            r is Err ==> final(self)@ == old(self)@,
    {
        if let Err(e) = self.cached_data.append(height, None) {
            return Err(Error::NonSequentialParentViewInsert(e));
        }
        let mirrored = self.cache_store.append(height, None);
        assert(mirrored is Ok);
        Ok(())
    }
}

} // verus!
