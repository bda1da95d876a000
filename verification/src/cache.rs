//! The sequential-key cache: an append-only store whose keys form one
//! interval without gaps, with eviction of a prefix.

use std::collections::VecDeque;
use vstd::prelude::*;

verus! {

/// What a contiguous-key store holds: the values of the keys `lower`,
/// `lower + 1`, ... in order. An empty window has `lower == 0`, so that two
/// windows with the same keys and values are equal.
pub struct Window<T> {
    pub lower: u64,
    pub values: Seq<T>,
}

impl<T> Window<T> {
    /// The window without any key.
    pub open spec fn empty() -> Self {
        Window { lower: 0, values: Seq::empty() }
    }

    /// The keys fit in `u64`, and the empty window is normalised.
    pub open spec fn wf(self) -> bool {
        &&& self.lower + self.values.len() <= u64::MAX + 1
        &&& self.values.len() == 0 ==> self.lower == 0
    }

    /// Number of keys present.
    pub open spec fn size(self) -> nat {
        self.values.len()
    }

    /// The smallest key present.
    pub open spec fn lower_bound(self) -> Option<u64> {
        if self.values.len() == 0 {
            None
        } else {
            Some(self.lower)
        }
    }

    /// The largest key present.
    pub open spec fn upper_bound(self) -> Option<u64> {
        if self.values.len() == 0 {
            None
        } else {
            Some((self.lower + self.values.len() - 1) as u64)
        }
    }

    /// Whether `key` is present.
    pub open spec fn contains_key(self, key: u64) -> bool {
        self.lower <= key < self.lower + self.values.len()
    }

    /// The value stored under `key`.
    pub open spec fn get(self, key: u64) -> Option<T> {
        if self.contains_key(key) {
            Some(self.values[key - self.lower])
        } else {
            None
        }
    }

    /// Whether `key` may be appended: the window is empty, or `key` follows
    /// the largest key directly.
    pub open spec fn accepts(self, key: u64) -> bool {
        self.values.len() == 0 || key == self.lower + self.values.len()
    }

    /// The key that an append to a non-empty window has to carry; at the end
    /// of the key space it stays at the largest key.
    pub open spec fn expected_key(self) -> u64 {
        if self.lower + self.values.len() <= u64::MAX {
            (self.lower + self.values.len()) as u64
        } else {
            u64::MAX
        }
    }

    /// The window after `key` was appended with `value`.
    pub open spec fn append(self, key: u64, value: T) -> Self {
        if self.values.len() == 0 {
            Window { lower: key, values: seq![value] }
        } else {
            Window { lower: self.lower, values: self.values.push(value) }
        }
    }

    /// The window after every key below `key` was evicted.
    pub open spec fn remove_below(self, key: u64) -> Self {
        if key <= self.lower {
            self
        } else if key >= self.lower + self.values.len() {
            Self::empty()
        } else {
            Window {
                lower: key,
                values: self.values.subrange(key - self.lower, self.values.len() as int),
            }
        }
    }
}

/// What can be done to a contiguous-key store.
pub enum WindowOp<T> {
    /// Append a value under a key; refused if the key does not follow.
    Append(u64, T),
    /// Evict the keys below a key.
    RemoveBelow(u64),
    /// Evict every key.
    DeleteAll,
}

/// The window after `op`; a refused append leaves it as it was.
pub open spec fn apply_op<T>(w: Window<T>, op: WindowOp<T>) -> Window<T> {
    match op {
        WindowOp::Append(key, value) => if w.accepts(key) {
            w.append(key, value)
        } else {
            w
        },
        WindowOp::RemoveBelow(key) => w.remove_below(key),
        WindowOp::DeleteAll => Window::empty(),
    }
}

/// The window after all of `ops`, the first of them first.
pub open spec fn apply_all<T>(w: Window<T>, ops: Seq<WindowOp<T>>) -> Window<T>
    decreases ops.len(),
{
    if ops.len() == 0 {
        w
    } else {
        apply_op(apply_all(w, ops.drop_last()), ops.last())
    }
}

/// Whatever is done to a well-formed window, it stays well formed: its keys
/// are one interval without gaps.
pub proof fn lemma_apply_all_keeps_interval<T>(w: Window<T>, ops: Seq<WindowOp<T>>, key: u64)
    requires
        w.wf(),
    ensures
        apply_all(w, ops).wf(),
        apply_all(w, ops).get(key) is Some <==> (apply_all(w, ops).lower_bound() matches Some(l)
            && apply_all(w, ops).upper_bound() matches Some(u) && l <= key <= u),
    decreases ops.len(),
{
    if ops.len() > 0 {
        lemma_apply_all_keeps_interval(w, ops.drop_last(), key);
    }
}

/// The keys present are exactly those from the smallest to the largest, and
/// their number is the distance between the two plus one.
pub proof fn lemma_keys_form_interval<T>(w: Window<T>, key: u64)
    requires
        w.wf(),
    ensures
        w.get(key) is Some <==> (w.lower_bound() matches Some(l) && w.upper_bound() matches Some(u)
            && l <= key <= u),
        w.size() == 0 <==> w.lower_bound() is None,
        w.size() == 0 <==> w.upper_bound() is None,
        w.size() > 0 ==> w.size() == w.upper_bound().unwrap() - w.lower_bound().unwrap() + 1,
{
}

/// An accepted append keeps the window well formed, adds `key` as the
/// largest key with `value`, and leaves every other key as it was.
pub proof fn lemma_append_extends<T>(w: Window<T>, key: u64, value: T, other: u64)
    requires
        w.wf(),
        w.accepts(key),
    ensures
        w.append(key, value).wf(),
        w.append(key, value).upper_bound() == Some(key),
        w.append(key, value).get(key) == Some(value),
        w.append(key, value).size() == w.size() + 1,
        other != key ==> w.append(key, value).get(other) == w.get(other),
        w.size() > 0 ==> w.append(key, value).lower_bound() == w.lower_bound(),
{
}

/// An append is accepted exactly if the window is empty or the key is the
/// largest key plus one.
pub proof fn lemma_accepts_next_key<T>(w: Window<T>, key: u64)
    requires
        w.wf(),
    ensures
        w.accepts(key) <==> (w.upper_bound() matches Some(u) ==> key == u + 1),
{
}

/// Eviction keeps the window well formed, drops exactly the keys below `key`
/// and leaves the others as they were.
pub proof fn lemma_remove_below_keeps_rest<T>(w: Window<T>, key: u64, other: u64)
    requires
        w.wf(),
    ensures
        w.remove_below(key).wf(),
        other < key ==> w.remove_below(key).get(other) is None,
        other >= key ==> w.remove_below(key).get(other) == w.get(other),
        w.remove_below(key).lower_bound() matches Some(l) ==> l >= key,
{
}

/// Why an append was refused: the key does not follow the largest key.
#[derive(Clone, Copy, Debug, PartialEq, Eq, Structural)]
pub struct NonSequentialInsert {
    pub expected: u64,
    pub got: u64,
}

/// Append-only in-memory store over contiguous `u64` keys.
#[derive(Clone, Debug)]
pub struct SequentialKeyCache<V> {
    base: u64,
    values: VecDeque<V>,
}

impl<V: DeepView> View for SequentialKeyCache<V> {
    type V = Window<V::V>;

    closed spec fn view(&self) -> Window<V::V> {
        Window { lower: self.base, values: self.values.deep_view() }
    }
}

impl<V: DeepView> SequentialKeyCache<V> {
    /// The invariant of the cache: its window is well formed.
    pub open spec fn wf(&self) -> bool {
        self@.wf()
    }

    /// An empty cache.
    pub fn sequential() -> (cache: Self)
        ensures
            cache.wf(),
            cache@ == Window::<V::V>::empty(),
    {
        let cache = SequentialKeyCache { base: 0, values: VecDeque::new() };
        assert(cache@.values =~= Seq::empty());
        cache
    }

    /// Number of keys held.
    pub fn size(&self) -> (n: usize)
        requires
            self.wf(),
        ensures
            n == self@.size(),
    {
        self.values.len()
    }

    /// Whether the cache holds no key.
    pub fn is_empty(&self) -> (b: bool)
        requires
            self.wf(),
        ensures
            b == (self@.size() == 0),
    {
        self.values.len() == 0
    }

    /// The smallest key held, if any.
    pub fn lower_bound(&self) -> (r: Option<u64>)
        requires
            self.wf(),
        ensures
            r == self@.lower_bound(),
    {
        if self.values.len() == 0 {
            None
        } else {
            Some(self.base)
        }
    }

    /// The largest key held, if any.
    pub fn upper_bound(&self) -> (r: Option<u64>)
        requires
            self.wf(),
        ensures
            r == self@.upper_bound(),
    {
        let n: usize = self.values.len();
        if n == 0 {
            None
        } else {
            Some(self.base + (n as u64 - 1))
        }
    }

    /// The value stored under `key`, if the key is held.
    pub fn get_value(&self, key: u64) -> (r: Option<&V>)
        requires
            self.wf(),
        ensures
            r.deep_view() == self@.get(key),
    {
        let n: usize = self.values.len();
        if key < self.base || key - self.base >= n as u64 {
            None
        } else {
            let i: usize = (key - self.base) as usize;
            Some(&self.values[i])
        }
    }

    /// Whether `key` may be appended, and if not, which key was expected.
    pub fn check_append(&self, key: u64) -> (r: Result<(), NonSequentialInsert>)
        requires
            self.wf(),
        ensures
            self@.accepts(key) ==> r is Ok,
            !self@.accepts(key) ==> r == Err::<(), NonSequentialInsert>(
                NonSequentialInsert { expected: self@.expected_key(), got: key },
            ),
    {
        let n: usize = self.values.len();
        if n == 0 {
            return Ok(());
        }
        let last: u64 = self.base + (n as u64 - 1);
        if last == u64::MAX {
            return Err(NonSequentialInsert { expected: u64::MAX, got: key });
        }
        if key != last + 1 {
            return Err(NonSequentialInsert { expected: last + 1, got: key });
        }
        Ok(())
    }

    /// Appends `value` under `key`. Succeeds on an empty cache, and on one
    /// whose largest key is `key - 1`; otherwise the cache stays as it was.
    pub fn append(&mut self, key: u64, value: V) -> (r: Result<(), NonSequentialInsert>)
        requires
            old(self).wf(),
        ensures
            final(self).wf(),
            old(self)@.accepts(key) ==> r is Ok && final(self)@ == old(self)@.append(
                key,
                value.deep_view(),
            ),
            !old(self)@.accepts(key) ==> r == Err::<(), NonSequentialInsert>(
                NonSequentialInsert { expected: old(self)@.expected_key(), got: key },
            ) && final(self)@ == old(self)@,
            final(self)@ == apply_op(old(self)@, WindowOp::Append(key, value.deep_view())),
    {
        let n: usize = self.values.len();
        if n == 0 {
            self.base = key;
            self.values.push_back(value);
            assert(self@.values =~= seq![value.deep_view()]);
            return Ok(());
        }
        let last: u64 = self.base + (n as u64 - 1);
        if last == u64::MAX {
            return Err(NonSequentialInsert { expected: u64::MAX, got: key });
        }
        let expected: u64 = last + 1;
        if key != expected {
            return Err(NonSequentialInsert { expected, got: key });
        }
        self.values.push_back(value);
        assert(self@.values =~= old(self)@.values.push(value.deep_view()));
        Ok(())
    }

    /// Evicts every key below `key`; a no-op if the smallest key is already
    /// at or above it.
    pub fn remove_key_below(&mut self, key: u64)
        requires
            old(self).wf(),
        ensures
            final(self).wf(),
            final(self)@ == old(self)@.remove_below(key),
            final(self)@ == apply_op(old(self)@, WindowOp::RemoveBelow(key)),
    {
        let n: usize = self.values.len();
        if n == 0 || key <= self.base {
            assert(n == 0 ==> self@.values =~= Seq::empty());
            return ;
        }
        if key - self.base >= n as u64 {
            self.base = 0;
            self.values.clear();
            assert(self@.values =~= Seq::empty());
            return ;
        }
        let skip: usize = (key - self.base) as usize;
        let kept = self.values.split_off(skip);
        self.values = kept;
        self.base = key;
        assert(self@.values =~= old(self)@.values.subrange(
            key - old(self)@.lower,
            old(self)@.values.len() as int,
        ));
    }

    /// Evicts every key.
    pub fn delete_all(&mut self)
        requires
            old(self).wf(),
        ensures
            final(self).wf(),
            final(self)@ == Window::<V::V>::empty(),
            final(self)@ == apply_op(old(self)@, WindowOp::DeleteAll),
    {
        self.base = 0;
        self.values.clear();
        assert(self@.values =~= Seq::empty());
    }
}

} // verus!
