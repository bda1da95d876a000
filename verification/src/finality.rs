//! The values that the finality provider works on: committed finalities,
//! parent views, the delay policy, and the check that incoming items are
//! sequential.

use crate::bytes::clone_bytes;
use crate::cache::NonSequentialInsert;
use crate::{BlockHash, BlockHeight};
use vstd::prelude::*;

verus! {

/// Largest distance between the committed height and a proposal, unless
/// configured.
pub const DEFAULT_MAX_PROPOSAL_RANGE: BlockHeight = 100;

/// Largest number of parent views kept in the cache, unless configured.
pub const DEFAULT_MAX_CACHE_BLOCK: BlockHeight = 500;

/// Number of heights that a proposal stays behind the newest filled height,
/// unless configured.
pub const DEFAULT_PROPOSAL_DELAY: BlockHeight = 2;

/// The statement that the child treats the parent block at `height`, with
/// hash `block_hash`, as final.
#[derive(Clone, Debug, PartialEq, Eq)]
pub struct IPCParentFinality {
    pub height: BlockHeight,
    pub block_hash: BlockHash,
}

/// A finality as a mathematical value.
pub struct FinalityView {
    pub height: BlockHeight,
    pub block_hash: Seq<u8>,
}

impl DeepView for IPCParentFinality {
    type V = FinalityView;

    open spec fn deep_view(&self) -> FinalityView {
        FinalityView { height: self.height, block_hash: self.block_hash@ }
    }
}

impl View for IPCParentFinality {
    type V = FinalityView;

    open spec fn view(&self) -> FinalityView {
        self.deep_view()
    }
}

impl IPCParentFinality {
    /// A finality at `height` with `block_hash`.
    pub fn new(height: BlockHeight, block_hash: BlockHash) -> (f: Self)
        ensures
            f.height == height,
            f.block_hash == block_hash,
    {
        IPCParentFinality { height, block_hash }
    }

    /// A copy of this finality.
    pub fn duplicate(&self) -> (f: Self)
        ensures
            f@ == self@,
    {
        IPCParentFinality { height: self.height, block_hash: clone_bytes(&self.block_hash) }
    }
}

/// A change of the validator set that the parent announced, identified by its
/// configuration number; `change` is the encoded change itself.
#[derive(Clone, Debug, PartialEq, Eq)]
pub struct StakingChangeRequest {
    pub configuration_number: u64,
    pub change: Vec<u8>,
}

/// A validator change as a mathematical value.
pub struct StakingChangeView {
    pub configuration_number: u64,
    pub change: Seq<u8>,
}

impl DeepView for StakingChangeRequest {
    type V = StakingChangeView;

    open spec fn deep_view(&self) -> StakingChangeView {
        StakingChangeView { configuration_number: self.configuration_number, change: self.change@ }
    }
}

/// A cross-message sent from the parent to the child, identified by its
/// nonce; `message` is the encoded envelope itself.
#[derive(Clone, Debug, PartialEq, Eq)]
pub struct IpcEnvelope {
    pub nonce: u64,
    pub message: Vec<u8>,
}

/// A cross-message as a mathematical value.
pub struct EnvelopeView {
    pub nonce: u64,
    pub message: Seq<u8>,
}

impl DeepView for IpcEnvelope {
    type V = EnvelopeView;

    open spec fn deep_view(&self) -> EnvelopeView {
        EnvelopeView { nonce: self.nonce, message: self.message@ }
    }
}

/// What a filled parent height carries: the block hash, the validator
/// changes and the cross-messages.
pub type ParentViewPayload = (BlockHash, Vec<StakingChangeRequest>, Vec<IpcEnvelope>);

/// A payload as a mathematical value.
pub type PayloadView = (Seq<u8>, Seq<StakingChangeView>, Seq<EnvelopeView>);

/// Items that carry the number by which they follow each other.
pub trait Sequenced {
    /// The number of this item.
    spec fn spec_sequence_key(&self) -> u64;

    /// The number of this item.
    fn sequence_key(&self) -> (k: u64)
        ensures
            k == self.spec_sequence_key(),
    ;
}

impl Sequenced for StakingChangeRequest {
    open spec fn spec_sequence_key(&self) -> u64 {
        self.configuration_number
    }

    fn sequence_key(&self) -> (k: u64) {
        self.configuration_number
    }
}

impl Sequenced for IpcEnvelope {
    open spec fn spec_sequence_key(&self) -> u64 {
        self.nonce
    }

    fn sequence_key(&self) -> (k: u64) {
        self.nonce
    }
}

/// Each item's number is its predecessor's plus one.
pub open spec fn is_sequential<T: Sequenced>(items: Seq<T>) -> bool {
    forall|i: int|
        0 <= i < items.len() - 1 ==> (#[trigger] items[i + 1]).spec_sequence_key()
            == items[i].spec_sequence_key() + 1
}

/// What the provider refuses.
#[derive(Clone, Debug, PartialEq, Eq)]
pub enum Error {
    /// Incoming validator changes or cross-messages do not follow each other.
    NotSequential,
    /// The height of a new parent view does not follow the cache.
    NonSequentialParentViewInsert(NonSequentialInsert),
}

/// Checks that the items' numbers go up by one from each item to the next.
pub fn ensure_sequential<T: Sequenced>(items: &Vec<T>) -> (r: Result<(), Error>)
    ensures
        r is Ok <==> is_sequential(items@),
        r is Err ==> r == Err::<(), Error>(Error::NotSequential),
{
    if items.len() == 0 {
        return Ok(());
    }
    let mut prev: u64 = items[0].sequence_key();
    let mut i: usize = 1;
    while i < items.len()
        invariant
            1 <= i <= items.len(),
            prev == items@[i - 1].spec_sequence_key(),
            forall|j: int|
                0 <= j < i - 1 ==> (#[trigger] items@[j + 1]).spec_sequence_key()
                    == items@[j].spec_sequence_key() + 1,
        decreases items.len() - i,
    {
        let key: u64 = items[i].sequence_key();
        if prev == u64::MAX || key != prev + 1 {
            assert(items@[(i - 1) + 1].spec_sequence_key() != items@[i - 1].spec_sequence_key()
                + 1);
            return Err(Error::NotSequential);
        }
        prev = key;
        i = i + 1;
    }
    Ok(())
}

/// The delay policy of the provider and the pace of the syncer.
#[derive(Clone, Debug, PartialEq, Eq)]
pub struct Config {
    /// The syncer reads the parent this many heights behind its head.
    pub chain_head_delay: BlockHeight,
    /// Seconds between two polls of the parent.
    pub polling_interval: u64,
    /// Seconds of the first wait after a failed poll.
    pub exponential_back_off: u64,
    /// Number of retries after a failed poll.
    pub exponential_retry_limit: u64,
    /// Largest distance between the committed height and a proposal.
    pub max_proposal_range: Option<BlockHeight>,
    /// Largest number of parent views kept in the cache.
    pub max_cache_blocks: Option<BlockHeight>,
    /// Number of heights that a proposal stays behind the newest filled one.
    pub proposal_delay: Option<BlockHeight>,
}

impl Config {
    /// The configured proposal range, or its default.
    pub open spec fn spec_max_proposal_range(&self) -> BlockHeight {
        match self.max_proposal_range {
            Some(r) => r,
            None => DEFAULT_MAX_PROPOSAL_RANGE,
        }
    }

    /// The configured proposal delay, or its default.
    pub open spec fn spec_proposal_delay(&self) -> BlockHeight {
        match self.proposal_delay {
            Some(d) => d,
            None => DEFAULT_PROPOSAL_DELAY,
        }
    }

    /// The configured cache size, or its default.
    pub open spec fn spec_max_cache_blocks(&self) -> BlockHeight {
        match self.max_cache_blocks {
            Some(n) => n,
            None => DEFAULT_MAX_CACHE_BLOCK,
        }
    }

    /// The configured proposal range, or its default.
    pub fn max_proposal_range(&self) -> (r: BlockHeight)
        ensures
            r == self.spec_max_proposal_range(),
    {
        match self.max_proposal_range {
            Some(r) => r,
            None => DEFAULT_MAX_PROPOSAL_RANGE,
        }
    }

    /// The configured proposal delay, or its default.
    pub fn proposal_delay(&self) -> (r: BlockHeight)
        ensures
            r == self.spec_proposal_delay(),
    {
        match self.proposal_delay {
            Some(d) => d,
            None => DEFAULT_PROPOSAL_DELAY,
        }
    }

    /// The configured cache size, or its default.
    pub fn max_cache_blocks(&self) -> (r: BlockHeight)
        ensures
            r == self.spec_max_cache_blocks(),
    {
        match self.max_cache_blocks {
            Some(n) => n,
            None => DEFAULT_MAX_CACHE_BLOCK,
        }
    }
}

/// A copy of `changes`.
pub fn clone_changes(changes: &Vec<StakingChangeRequest>) -> (r: Vec<StakingChangeRequest>)
    ensures
        r.deep_view() == changes.deep_view(),
{
    let mut out: Vec<StakingChangeRequest> = Vec::new();
    let mut i: usize = 0;
    while i < changes.len()
        invariant
            i <= changes.len(),
            out.len() == i,
            forall|j: int| 0 <= j < i ==> out@[j].deep_view() == changes@[j].deep_view(),
        decreases changes.len() - i,
    {
        out.push(
            StakingChangeRequest {
                configuration_number: changes[i].configuration_number,
                change: clone_bytes(&changes[i].change),
            },
        );
        i = i + 1;
    }
    out
}

/// A copy of `msgs`.
pub fn clone_msgs(msgs: &Vec<IpcEnvelope>) -> (r: Vec<IpcEnvelope>)
    ensures
        r.deep_view() == msgs.deep_view(),
{
    let mut out: Vec<IpcEnvelope> = Vec::new();
    let mut i: usize = 0;
    while i < msgs.len()
        invariant
            i <= msgs.len(),
            out.len() == i,
            forall|j: int| 0 <= j < i ==> out@[j].deep_view() == msgs@[j].deep_view(),
        decreases msgs.len() - i,
    {
        out.push(IpcEnvelope { nonce: msgs[i].nonce, message: clone_bytes(&msgs[i].message) });
        i = i + 1;
    }
    out
}

/// A copy of the entry of one height: a payload, or the mark of a null round.
pub fn clone_entry(entry: &Option<ParentViewPayload>) -> (r: Option<ParentViewPayload>)
    ensures
        r.deep_view() == entry.deep_view(),
{
    match entry {
        Some(p) => Some((clone_bytes(&p.0), clone_changes(&p.1), clone_msgs(&p.2))),
        None => None,
    }
}

} // verus!
