//! The bounded backend of the shared capability: a fixed-capacity circular
//! store behind a single exclusive lock. When an append would exceed the
//! capacity, the oldest stored elements are evicted — permanently lost, never
//! returned by any drain — so that the newest data is always retained.
//!
//! The eviction rule is captured by the spec function [`window`]: after any
//! append the stored sequence is the window of the old contents followed by
//! the batch, i.e. the most recent `capacity` elements in append order.

use crate::clone_arc;
use crate::lemma_appends_lose_nothing;
use crate::total_len;
use crate::Store;
use std::sync::Arc;
use vstd::math::min;
use vstd::prelude::*;
use vstd::rwlock::{RwLock, RwLockPredicate};

verus! {

/// The last `cap` elements of `s`, in order: all of `s` when it fits, else
/// the suffix of length `cap`. This is the sliding-window rule the bounded
/// store maintains.
pub open spec fn window<T>(cap: int, s: Seq<T>) -> Seq<T>
    recommends
        cap >= 0,
{
    if s.len() <= cap {
        s
    } else {
        s.subrange(s.len() - cap, s.len() as int)
    }
}

/// The window keeps `min(cap, |s|)` elements.
pub proof fn lemma_window_len<T>(cap: int, s: Seq<T>)
    requires
        cap >= 0,
    ensures
        window(cap, s).len() == min(cap, s.len() as int),
{
}

/// The fixed-capacity store itself: the sequence of currently stored
/// elements, oldest first, never longer than the capacity chosen at
/// construction. This is the data a [`Ring`] handle shares behind its lock;
/// it carries the exact, verified sequence semantics of both operations.
pub struct RingCore<T> {
    cap: usize,
    data: Vec<T>,
}

impl<T> RingCore<T> {
    /// The fixed capacity chosen at construction.
    pub closed spec fn capacity(self) -> int {
        self.cap as int
    }

    /// The currently stored elements, oldest first.
    pub closed spec fn contents(self) -> Seq<T> {
        self.data@
    }

    /// The capacity bound: never more elements than the capacity.
    pub open spec fn wf(self) -> bool {
        self.contents().len() <= self.capacity()
    }

    /// Creates an empty store of the given fixed capacity. Capacity 0 is
    /// accepted: such a store discards every append entirely.
    pub fn new(capacity: usize) -> (res: RingCore<T>)
        ensures
            res.wf(),
            res.capacity() == capacity,
            res.contents() == Seq::<T>::empty(),
    {
        RingCore { cap: capacity, data: Vec::new() }
    }

    /// Appends one element, evicting the oldest stored element first if the
    /// store is full, so that the contents become the window of the old
    /// contents followed by the new element.
    fn push_one(&mut self, x: T)
        requires
            old(self).wf(),
        ensures
            final(self).wf(),
            final(self).capacity() == old(self).capacity(),
            final(self).contents() == window(old(self).capacity(), old(self).contents().push(x)),
    {
        if self.cap == 0 {
            proof {
                assert(window(0, old(self).contents().push(x)) =~= old(self).contents());
            }
            return ;
        }
        if self.data.len() == self.cap {
            self.data.remove(0);
        }
        self.data.push(x);
        proof {
            let c = old(self).capacity();
            let s = old(self).contents();
            if s.len() == c {
                assert(self.data@ =~= window(c, s.push(x)));
            }
        }
    }

    /// Appends all elements of `batch`, in order, evicting the oldest stored
    /// elements as needed: the contents become the window of the old contents
    /// followed by the batch, and the returned size is `min(capacity, old
    /// size + batch size)`.
    pub fn append_batch(&mut self, batch: Vec<T>) -> (n: usize)
        requires
            old(self).wf(),
        ensures
            final(self).wf(),
            final(self).capacity() == old(self).capacity(),
            final(self).contents() == window(
                old(self).capacity(),
                old(self).contents() + batch@,
            ),
            n == final(self).contents().len(),
            n == min(old(self).capacity(), old(self).contents().len() + batch@.len() as int),
    {
        let mut batch = batch;
        let ghost b0 = batch@;
        let ghost orig = self.contents();
        let ghost c = self.capacity();
        let ghost mut i: int = 0;
        proof {
            assert(orig + b0.take(0) =~= orig);
        }
        while batch.len() > 0
            invariant
                0 <= i <= b0.len(),
                batch@ == b0.skip(i),
                self.wf(),
                self.capacity() == c,
                self.contents() == window(c, orig + b0.take(i)),
            decreases batch@.len(),
        {
            let ghost pre = self.contents();
            let x = batch.remove(0);
            proof {
                assert(x == b0[i]);
                assert(b0.skip(i).remove(0) =~= b0.skip(i + 1));
            }
            self.push_one(x);
            proof {
                lemma_window_compose(c, orig + b0.take(i), seq![x]);
                assert(pre.push(x) =~= pre + seq![x]);
                assert((orig + b0.take(i)) + seq![x] =~= orig + b0.take(i + 1));
                i = i + 1;
            }
        }
        proof {
            assert(b0.take(b0.len() as int) =~= b0);
            assert(orig + b0 =~= orig + b0.take(i));
        }
        let n = self.data.len();
        proof {
            lemma_window_len(c, orig + b0);
        }
        n
    }

    /// Atomically removes and returns everything stored, in append order,
    /// leaving the store empty. The capacity is unchanged.
    pub fn get_and_clear(&mut self) -> (r: Vec<T>)
        ensures
            final(self).wf(),
            final(self).capacity() == old(self).capacity(),
            r@ == old(self).contents(),
            final(self).contents() == Seq::<T>::empty(),
    {
        let mut r: Vec<T> = Vec::new();
        core::mem::swap(&mut self.data, &mut r);
        r
    }
}

/// Taking the window, appending more, and taking the window again is the same
/// as appending everything first and taking the window once: eviction loses
/// only data that a larger batch would have evicted anyway.
pub proof fn lemma_window_compose<T>(c: int, s: Seq<T>, t: Seq<T>)
    requires
        c >= 0,
    ensures
        window(c, window(c, s) + t) == window(c, s + t),
{
    if s.len() <= c {
        assert(window(c, s) + t =~= s + t);
    } else {
        let w = window(c, s);
        assert(w + t =~= (s + t).subrange(s.len() - c, (s + t).len() as int));
        assert(window(c, w + t) =~= window(c, s + t));
    }
}

/// The stored sequence of a bounded store of capacity `c` after the given
/// batches are appended, one `append` call each, in this serialization order,
/// starting from contents `s` — each call slides the window forward.
pub open spec fn ring_run<T>(c: int, s: Seq<T>, batches: Seq<Seq<T>>) -> Seq<T>
    decreases batches.len(),
{
    if batches.len() == 0 {
        s
    } else {
        ring_run(c, window(c, s + batches.first()), batches.drop_first())
    }
}

/// A bounded store of capacity `c` keeps exactly the most recent data: after
/// any serialization of `append` calls, the stored sequence — what a drain
/// then returns — is the window of everything ever appended. In particular,
/// once the appends total more than the capacity, exactly `c` elements are
/// stored: the `c` most recently appended ones, in their original append
/// order.
pub proof fn lemma_ring_keeps_most_recent<T>(c: int, s: Seq<T>, batches: Seq<Seq<T>>)
    requires
        c >= 0,
        s.len() <= c,
    ensures
        ring_run(c, s, batches) == window(c, s + batches.flatten()),
        ring_run(c, s, batches).len() == min(c, s.len() + total_len(batches)),
        s.len() + total_len(batches) > c ==> ring_run(c, s, batches) == (s
            + batches.flatten()).skip((s + batches.flatten()).len() - c),
    decreases batches.len(),
{
    if batches.len() == 0 {
        assert(s + batches.flatten() =~= s);
    } else {
        let w = window(c, s + batches.first());
        lemma_window_len(c, s + batches.first());
        lemma_ring_keeps_most_recent(c, w, batches.drop_first());
        lemma_window_compose(c, s + batches.first(), batches.drop_first().flatten());
        assert((s + batches.first()) + batches.drop_first().flatten() =~= s + batches.flatten());
    }
    lemma_appends_lose_nothing::<T>(batches);
    lemma_window_len(c, s + batches.flatten());
    let all = s + batches.flatten();
    if all.len() > c {
        assert(window(c, all) =~= all.skip(all.len() - c));
    }
}

/// Appending an empty batch leaves a bounded store exactly as it was: same
/// size, same contents — nothing is evicted.
pub proof fn lemma_append_empty_bounded<T>(c: int, s: Seq<T>)
    requires
        c >= 0,
        s.len() <= c,
    ensures
        window(c, s + Seq::<T>::empty()) == s,
{
    assert(s + Seq::<T>::empty() =~= s);
}

/// Lock predicate for the bounded backend: the stored core is within its
/// capacity bound, and that capacity is the one the lock was created with.
pub struct RingPred {
    pub cap: int,
}

impl<T> RwLockPredicate<RingCore<T>> for RingPred {
    open spec fn inv(self, v: RingCore<T>) -> bool {
        v.wf() && v.capacity() == self.cap
    }
}

/// A shared handle to a bounded ring buffer of fixed capacity. Cloning the
/// handle shares the storage; on overflow the oldest unread elements are
/// silently overwritten, so a slow consumer never blocks a producer.
///
/// Because the storage is shared among all clones of the handle, no contract
/// over the handle alone can pin the stored contents; the exact window
/// semantics of each operation are verified on [`RingCore`], inside the
/// critical section.
pub struct Ring<T> {
    data: Arc<RwLock<RingCore<T>, RingPred>>,
}

impl<T> Ring<T> {
    /// The fixed capacity this handle's storage was created with.
    pub closed spec fn capacity(self) -> int {
        self.data.pred().cap
    }

    /// Creates a handle to a fresh, empty, bounded shared store of the given
    /// capacity. Capacity 0 is accepted: every append to such a buffer is
    /// fully discarded and every drain returns the empty sequence.
    pub fn new(size: usize) -> (res: Ring<T>)
        ensures
            res.capacity() == size,
    {
        let core = RingCore::new(size);
        Ring {
            data: Arc::new(RwLock::new(core, Ghost(RingPred { cap: size as int }))),
        }
    }
}

impl<T> Store<T> for Ring<T> {
    /// The size reported by `append` is at most the capacity, and counts at
    /// least this call's own contribution to the window: immediately after
    /// the append, the last `min(capacity, |batch|)` elements of the batch
    /// are stored.
    open spec fn append_size_ok(&self, batch: Seq<T>, n: int) -> bool {
        &&& n <= self.capacity()
        &&& n >= min(self.capacity(), batch.len() as int)
    }

    /// A drain never returns more elements than the capacity.
    open spec fn drained_ok(&self, r: Seq<T>) -> bool {
        r.len() <= self.capacity()
    }

    fn append(&mut self, value: Vec<T>) -> (n: usize) {
        let (mut stored, handle) = self.data.acquire_write();
        let n = stored.append_batch(value);
        handle.release_write(stored);
        n
    }

    fn get_and_clear(&mut self) -> (r: Vec<T>) {
        let (mut stored, handle) = self.data.acquire_write();
        let r = stored.get_and_clear();
        handle.release_write(stored);
        r
    }
}

impl<T> Clone for Ring<T> {
    /// Duplicates the handle; the clone refers to the same storage.
    fn clone(&self) -> (res: Ring<T>)
        ensures
            res == *self,
    {
        Ring { data: clone_arc(&self.data) }
    }
}

} // verus!
