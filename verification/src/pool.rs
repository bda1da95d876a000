//! The pool of checkpoints whose content is fetched in the background: each
//! item is kept once, under the subnet and the content identifier of its
//! checkpoint, with how far its resolution has come.

use crate::bytes::{bytes_eq, clone_bytes};
use crate::message::{CertifiedMessage, CertifiedView};
use vstd::prelude::*;

verus! {

/// How far the resolution of an item has come.
#[derive(Clone, Copy, Debug, PartialEq, Eq, Structural)]
pub enum ResolveStatus {
    Unresolved,
    Resolving,
    Resolved,
    Failed,
}

impl ResolveStatus {
    /// Whether the content is there.
    pub fn is_resolved(&self) -> (b: bool)
        ensures
            b == (*self == ResolveStatus::Resolved),
    {
        match self {
            ResolveStatus::Resolved => true,
            _ => false,
        }
    }
}

/// What the pool holds.
#[derive(Clone, Debug, PartialEq, Eq)]
pub enum CheckpointPoolItem {
    /// A bottom-up checkpoint, to be fetched from the subnet that made it.
    BottomUp(CertifiedMessage),
}

/// The key of an item: the subnet and the content identifier.
pub type ResolveKey = (Vec<u8>, Vec<u8>);

/// The key of a checkpoint, as a mathematical value.
pub open spec fn key_of(item: CertifiedView) -> (Seq<u8>, Seq<u8>) {
    (item.message.subnet_id, item.message.bottom_up_messages)
}

impl View for CheckpointPoolItem {
    type V = CertifiedView;

    open spec fn view(&self) -> CertifiedView {
        match self {
            CheckpointPoolItem::BottomUp(cp) => cp@,
        }
    }
}

impl CheckpointPoolItem {
    /// The key under which the pool keeps this item.
    pub fn resolve_key(&self) -> (key: ResolveKey)
        ensures
            (key.0@, key.1@) == key_of(self@),
    {
        match self {
            CheckpointPoolItem::BottomUp(cp) => (
                clone_bytes(&cp.message.subnet_id),
                clone_bytes(&cp.message.bottom_up_messages),
            ),
        }
    }

    /// A copy of this item.
    pub fn duplicate(&self) -> (item: Self)
        ensures
            item@ == self@,
    {
        match self {
            CheckpointPoolItem::BottomUp(cp) => CheckpointPoolItem::BottomUp(cp.duplicate()),
        }
    }

    /// Whether this item is kept under `key`.
    pub fn has_key(&self, key: &ResolveKey) -> (b: bool)
        ensures
            b == (key_of(self@) == (key.0@, key.1@)),
    {
        match self {
            CheckpointPoolItem::BottomUp(cp) => bytes_eq(&cp.message.subnet_id, &key.0) && bytes_eq(
                &cp.message.bottom_up_messages,
                &key.1,
            ),
        }
    }
}

/// The items of a pool with their status, in the order in which they came.
pub type PoolView = Seq<(CertifiedView, ResolveStatus)>;

/// Whether `entries` hold an item under `key`.
pub open spec fn holds_key(entries: PoolView, key: (Seq<u8>, Seq<u8>)) -> bool {
    exists|i: int| 0 <= i < entries.len() && key_of(#[trigger] entries[i].0) == key
}

/// The status of the item under `key`, if `entries` hold one.
pub open spec fn status_of(entries: PoolView, key: (Seq<u8>, Seq<u8>)) -> Option<ResolveStatus> {
    if holds_key(entries, key) {
        Some(entries[choose|i: int| 0 <= i < entries.len() && key_of(#[trigger] entries[i].0) == key].1)
    } else {
        None
    }
}

/// No two entries have one key.
pub open spec fn distinct_keys(entries: PoolView) -> bool {
    forall|i: int, j: int|
        0 <= i < entries.len() && 0 <= j < entries.len() && key_of(#[trigger] entries[i].0)
            == key_of(#[trigger] entries[j].0) ==> i == j
}

/// The resolved items among `entries`, in their order.
pub open spec fn resolved_of(entries: PoolView) -> Seq<CertifiedView>
    decreases entries.len(),
{
    if entries.len() == 0 {
        Seq::empty()
    } else if entries.last().1 == ResolveStatus::Resolved {
        resolved_of(entries.drop_last()).push(entries.last().0)
    } else {
        resolved_of(entries.drop_last())
    }
}

/// The entries after the item under `key` got `status`.
pub open spec fn with_status(entries: PoolView, key: (Seq<u8>, Seq<u8>), status: ResolveStatus) -> PoolView {
    Seq::new(
        entries.len(),
        |i: int|
            if key_of(entries[i].0) == key {
                (entries[i].0, status)
            } else {
                entries[i]
            },
    )
}

/// The views of a list of items.
pub open spec fn item_views(items: Seq<CheckpointPoolItem>) -> Seq<CertifiedView> {
    items.map_values(|item: CheckpointPoolItem| item@)
}

/// The pool of checkpoints under resolution.
#[derive(Clone, Debug)]
pub struct CheckpointPool {
    items: Vec<(CheckpointPoolItem, ResolveStatus)>,
}

impl View for CheckpointPool {
    type V = PoolView;

    closed spec fn view(&self) -> PoolView {
        self.items@.map_values(|e: (CheckpointPoolItem, ResolveStatus)| (e.0@, e.1))
    }
}

impl CheckpointPool {
    /// The invariant of the pool: no two items have one key.
    pub open spec fn wf(&self) -> bool {
        distinct_keys(self@)
    }

    /// An empty pool.
    pub fn new() -> (pool: Self)
        ensures
            pool.wf(),
            pool@ == PoolView::empty(),
    {
        let pool = CheckpointPool { items: Vec::new() };
        pool
    }

    /// The place of the item under `key`.
    fn position(&self, key: &ResolveKey) -> (r: Option<usize>)
        ensures
            match r {
                Some(i) => i < self@.len() && key_of(self@[i as int].0) == (key.0@, key.1@),
                None => !holds_key(self@, (key.0@, key.1@)),
            },
    {
        let mut i: usize = 0;
        while i < self.items.len()
            invariant
                i <= self.items.len(),
                self@.len() == self.items.len(),
                forall|j: int| 0 <= j < i ==> key_of(#[trigger] self@[j].0) != (key.0@, key.1@),
            decreases self.items.len() - i,
        {
            if self.items[i].0.has_key(key) {
                return Some(i);
            }
            i = i + 1;
        }
        None
    }

    /// The status of the item with the key of `item`.
    pub fn get_status(&self, item: &CheckpointPoolItem) -> (r: Option<ResolveStatus>)
        requires
            self.wf(),
        ensures
            r == status_of(self@, key_of(item@)),
    {
        let key = item.resolve_key();
        match self.position(&key) {
            Some(i) => Some(self.items[i].1),
            None => None,
        }
    }

    /// Puts `item` into the pool as unresolved, unless the pool holds an item
    /// with its key. Returns the status of the item that the pool now holds
    /// under that key.
    pub fn add(&mut self, item: CheckpointPoolItem) -> (status: ResolveStatus)
        requires
            old(self).wf(),
        ensures
            final(self).wf(),
            match status_of(old(self)@, key_of(item@)) {
                Some(s) => status == s && final(self)@ == old(self)@,
                None => status == ResolveStatus::Unresolved && final(self)@ == old(self)@.push(
                    (item@, ResolveStatus::Unresolved),
                ),
            },
    {
        let key = item.resolve_key();
        match self.position(&key) {
            Some(i) => self.items[i].1,
            None => {
                self.items.push((item, ResolveStatus::Unresolved));
                assert(self@ =~= old(self)@.push((item@, ResolveStatus::Unresolved)));
                ResolveStatus::Unresolved
            },
        }
    }

    /// Gives the item under `key` the status `status`. Returns whether the
    /// pool holds such an item.
    pub fn set_status(&mut self, key: &ResolveKey, status: ResolveStatus) -> (found: bool)
        requires
            old(self).wf(),
        ensures
            final(self).wf(),
            found == holds_key(old(self)@, (key.0@, key.1@)),
            final(self)@ == with_status(old(self)@, (key.0@, key.1@), status),
    {
        match self.position(key) {
            Some(i) => {
                let item = self.items[i].0.duplicate();
                self.items.set(i, (item, status));
                assert(self@ =~= with_status(old(self)@, (key.0@, key.1@), status));
                true
            },
            None => {
                false
            },
        }
    }

    /// The resolved items, in the order in which they came.
    pub fn collect_resolved(&self) -> (items: Vec<CheckpointPoolItem>)
        ensures
            item_views(items@) == resolved_of(self@),
    {
        let mut out: Vec<CheckpointPoolItem> = Vec::new();
        let mut i: usize = 0;
        while i < self.items.len()
            invariant
                i <= self.items.len(),
                self@.len() == self.items.len(),
                item_views(out@) == resolved_of(self@.take(i as int)),
            decreases self.items.len() - i,
        {
            assert(self@.take(i + 1).drop_last() =~= self@.take(i as int));
            if self.items[i].1.is_resolved() {
                let item = self.items[i].0.duplicate();
                out.push(item);
            }
            i = i + 1;
        }
        assert(self@.take(self.items.len() as int) =~= self@);
        out
    }

    /// Number of items in the pool.
    pub fn len(&self) -> (n: usize)
        ensures
            n == self@.len(),
    {
        self.items.len()
    }
}

} // verus!
