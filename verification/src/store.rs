//! The mirror of the cache that is kept for restarts: the same window of
//! keys and values, held as the ordered list of entries of a key space.

use crate::cache::{
    apply_all, apply_op, NonSequentialInsert, SequentialKeyCache, Window, WindowOp,
};
use vstd::prelude::*;

verus! {

/// The entries of the mirrored key space, in ascending key order.
#[derive(Clone, Debug)]
pub struct CacheStore<V> {
    entries: Vec<(u64, V)>,
}

impl<V: DeepView> View for CacheStore<V> {
    type V = Window<V::V>;

    closed spec fn view(&self) -> Window<V::V> {
        Window {
            lower: if self.entries@.len() == 0 {
                0
            } else {
                self.entries@[0].0
            },
            values: Seq::new(self.entries@.len(), |i: int| self.entries@[i].1.deep_view()),
        }
    }
}

impl<V: DeepView> CacheStore<V> {
    /// The invariant of the store: each entry's key is its predecessor's
    /// plus one, so the window is well formed.
    pub closed spec fn wf(&self) -> bool {
        &&& self@.wf()
        &&& forall|i: int|
            0 <= i < self.entries@.len() ==> (#[trigger] self.entries@[i]).0 == self.entries@[0].0
                + i
    }

    /// A well-formed store has a well-formed window.
    pub proof fn lemma_wf_window(&self)
        requires
            self.wf(),
        ensures
            self@.wf(),
    {
    }

    /// An empty store.
    pub fn new() -> (store: Self)
        ensures
            store.wf(),
            store@ == Window::<V::V>::empty(),
    {
        let store = CacheStore { entries: Vec::new() };
        assert(store@.values =~= Seq::empty());
        store
    }

    /// Number of keys held.
    pub fn size(&self) -> (n: usize)
        requires
            self.wf(),
        ensures
            n == self@.size(),
    {
        self.entries.len()
    }

    /// The smallest key held, if any.
    pub fn lower_bound(&self) -> (r: Option<u64>)
        requires
            self.wf(),
        ensures
            r == self@.lower_bound(),
    {
        if self.entries.len() == 0 {
            None
        } else {
            Some(self.entries[0].0)
        }
    }

    /// The largest key held, if any.
    pub fn upper_bound(&self) -> (r: Option<u64>)
        requires
            self.wf(),
        ensures
            r == self@.upper_bound(),
    {
        let n: usize = self.entries.len();
        if n == 0 {
            None
        } else {
            Some(self.entries[n - 1].0)
        }
    }

    /// The value stored under `key`, if the key is held.
    pub fn get_value(&self, key: u64) -> (r: Option<&V>)
        requires
            self.wf(),
        ensures
            r.deep_view() == self@.get(key),
    {
        let n: usize = self.entries.len();
        if n == 0 {
            return None;
        }
        let first: u64 = self.entries[0].0;
        if key < first || key - first >= n as u64 {
            None
        } else {
            let i: usize = (key - first) as usize;
            Some(&self.entries[i].1)
        }
    }

    /// Appends `value` under `key`. Succeeds on an empty store, and on one
    /// whose largest key is `key - 1`; otherwise the store stays as it was.
    pub fn append(&mut self, key: u64, value: V) -> (r: Result<(), NonSequentialInsert>)
        requires
            old(self).wf(),
        ensures
            final(self).wf(),
            old(self)@.accepts(key) ==> r is Ok && final(self)@ == old(self)@.append(
                key,
                value.deep_view(),
            ),
            !old(self)@.accepts(key) ==> r == Err::<(), NonSequentialInsert>(
                NonSequentialInsert { expected: old(self)@.expected_key(), got: key },
            ) && final(self)@ == old(self)@,
            final(self)@ == apply_op(old(self)@, WindowOp::Append(key, value.deep_view())),
    {
        let n: usize = self.entries.len();
        if n > 0 {
            let last: u64 = self.entries[n - 1].0;
            if last == u64::MAX {
                return Err(NonSequentialInsert { expected: u64::MAX, got: key });
            }
            let expected: u64 = last + 1;
            if key != expected {
                return Err(NonSequentialInsert { expected, got: key });
            }
        }
        self.entries.push((key, value));
        assert(self@.values =~= old(self)@.append(key, value.deep_view()).values);
        Ok(())
    }

    /// Evicts every key below `key`; a no-op if the smallest key is already
    /// at or above it.
    pub fn delete_key_below(&mut self, key: u64)
        requires
            old(self).wf(),
        ensures
            final(self).wf(),
            final(self)@ == old(self)@.remove_below(key),
            final(self)@ == apply_op(old(self)@, WindowOp::RemoveBelow(key)),
    {
        let n: usize = self.entries.len();
        if n == 0 {
            assert(self@.values =~= Seq::empty());
            return ;
        }
        let first: u64 = self.entries[0].0;
        if key <= first {
            return ;
        }
        if key - first >= n as u64 {
            self.entries.clear();
            assert(self@.values =~= Seq::empty());
            return ;
        }
        let skip: usize = (key - first) as usize;
        let kept = self.entries.split_off(skip);
        self.entries = kept;
        assert(self@.values =~= old(self)@.remove_below(key).values);
    }

    /// Evicts every key.
    pub fn delete_all(&mut self)
        requires
            old(self).wf(),
        ensures
            final(self).wf(),
            final(self)@ == Window::<V::V>::empty(),
            final(self)@ == apply_op(old(self)@, WindowOp::DeleteAll),
    {
        self.entries.clear();
        assert(self@.values =~= Seq::empty());
    }
}

/// The in-memory cache and its mirror cannot be told apart: while both hold
/// the same window, whatever operations both go through, in the same order,
/// they accept the same keys and end with the same window, and every
/// observer gives the same answer on both.
pub proof fn lemma_cache_and_store_agree<V: DeepView>(
    cache: SequentialKeyCache<V>,
    store: CacheStore<V>,
    ops: Seq<WindowOp<V::V>>,
    key: u64,
)
    requires
        cache.wf(),
        store.wf(),
        cache@ == store@,
    ensures
        apply_all(cache@, ops) == apply_all(store@, ops),
        apply_all(cache@, ops).wf(),
        apply_all(cache@, ops).size() == apply_all(store@, ops).size(),
        apply_all(cache@, ops).lower_bound() == apply_all(store@, ops).lower_bound(),
        apply_all(cache@, ops).upper_bound() == apply_all(store@, ops).upper_bound(),
        apply_all(cache@, ops).get(key) == apply_all(store@, ops).get(key),
        apply_all(cache@, ops).accepts(key) == apply_all(store@, ops).accepts(key),
        apply_all(cache@, ops).expected_key() == apply_all(store@, ops).expected_key(),
{
    crate::cache::lemma_apply_all_keeps_interval(cache@, ops, key);
}

} // verus!
