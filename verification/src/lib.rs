//! A thread-safe, shared, mutable buffer abstraction: values produced by many
//! concurrent producers accumulate in a shared store and are periodically
//! drained by a consumer. Exactly two operations are offered — append a batch
//! and atomically retrieve-and-clear — behind one capability (`Store`), with
//! two interchangeable backends: an unbounded growable store (`Buffer`,
//! `Simple`) and a fixed-capacity circular store (`Ring`) that evicts the
//! oldest data when full.

pub mod ring;
pub mod simple;

use std::sync::Arc;
use vstd::multiset::Multiset;
use vstd::prelude::*;
use vstd::rwlock::{RwLock, RwLockPredicate};
use vstd::seq_lib::lemma_multiset_commutative;

verus! {

/// The shared two-operation capability: accumulate batches of values and
/// atomically drain them. Both backends — the unbounded store (`Simple`) and
/// the fixed-capacity circular store (`Ring`) — implement it, so producer and
/// consumer code can be written once and bound to either at construction.
///
/// The storage behind an implementing handle is shared among all clones of
/// that handle, so no contract over one handle can pin the stored contents;
/// each backend instead states, through the two spec functions, what always
/// holds of an operation's result under any interleaving.
pub trait Store<T>: Sized {
    /// Which returned sizes `append` allows for a given appended batch.
    spec fn append_size_ok(&self, batch: Seq<T>, n: int) -> bool;

    /// Which drained sequences `get_and_clear` allows.
    spec fn drained_ok(&self, r: Seq<T>) -> bool;

    /// Appends all elements of `value`, in order, to the end of the shared
    /// stored sequence, atomically, and returns the stored size immediately
    /// after this append completes.
    fn append(&mut self, value: Vec<T>) -> (n: usize)
        ensures
            *final(self) == *old(self),
            old(self).append_size_ok(value@, n as int);

    /// Atomically removes and returns everything currently stored, in append
    /// order, leaving the shared stored sequence empty.
    fn get_and_clear(&mut self) -> (r: Vec<T>)
        ensures
            *final(self) == *old(self),
            old(self).drained_ok(r@);
}

/// The unbounded store itself: the sequence of currently stored elements,
/// oldest first, with no capacity limit. This is the data a [`Buffer`] or
/// [`Simple`](simple::Simple) handle shares behind its lock; it carries the
/// exact, verified sequence semantics of both operations.
pub struct UnboundedCore<T> {
    data: Vec<T>,
}

impl<T> UnboundedCore<T> {
    /// The currently stored elements, oldest first.
    pub closed spec fn contents(self) -> Seq<T> {
        self.data@
    }

    /// Creates an empty store.
    pub fn new() -> (res: UnboundedCore<T>)
        ensures
            res.contents() == Seq::<T>::empty(),
    {
        UnboundedCore { data: Vec::new() }
    }

    /// Appends all elements of `value`, in order, to the end of the stored
    /// sequence, leaving `value` empty; nothing already stored is touched.
    /// Returns the resulting stored size. In particular, an empty batch
    /// changes neither the contents nor the size.
    pub fn append(&mut self, value: &mut Vec<T>) -> (n: usize)
        ensures
            final(self).contents() == old(self).contents() + old(value)@,
            final(value)@ == Seq::<T>::empty(),
            n == final(self).contents().len(),
    {
        self.data.append(value);
        self.data.len()
    }

    /// Removes and returns everything stored — every element appended since
    /// the last drain, in append order — leaving the store empty. A second
    /// drain with no intervening append therefore returns the empty sequence.
    pub fn get_and_clear(&mut self) -> (r: Vec<T>)
        ensures
            r@ == old(self).contents(),
            final(self).contents() == Seq::<T>::empty(),
    {
        let mut r: Vec<T> = Vec::new();
        core::mem::swap(&mut self.data, &mut r);
        r
    }
}

/// Lock predicate for the unbounded backends: any stored core is valid.
pub struct UnboundedPred;

impl<T> RwLockPredicate<UnboundedCore<T>> for UnboundedPred {
    open spec fn inv(self, v: UnboundedCore<T>) -> bool {
        true
    }
}

/// Relies on `std::sync::Arc::clone`: the returned handle refers to the same
/// allocation as the argument, so as a value it equals the argument.
#[verifier::external_body]
pub(crate) fn clone_arc<T>(v: &Arc<T>) -> (res: Arc<T>)
    ensures
        res == *v,
{
    Arc::clone(v)
}

/// A shared handle to an unbounded buffer: a growable sequence protected by a
/// single exclusive lock. Cloning the handle shares the storage; the store
/// grows without limit and never drops data except through `get_and_clear`.
///
/// Because the storage is shared among all clones of the handle, no contract
/// over the handle alone can pin the stored contents; the exact sequence
/// semantics of each operation are stated and verified on [`UnboundedCore`],
/// which each operation applies inside the critical section.
pub struct Buffer<T> {
    data: Arc<RwLock<UnboundedCore<T>, UnboundedPred>>,
}

impl<T> Buffer<T> {
    /// Appends all elements of `value`, in order, to the end of the shared
    /// stored sequence, leaving `value` empty, and returns the stored size
    /// immediately after this append completes. The whole update happens
    /// atomically, under the storage's exclusive lock, as one
    /// [`UnboundedCore::append`]: that contract pins the new contents and
    /// the returned size exactly; here only the batch's own contribution
    /// survives interleaving with other handles.
    pub fn append(&mut self, value: &mut Vec<T>) -> (n: usize)
        ensures
            *final(self) == *old(self),
            final(value)@ == Seq::<T>::empty(),
            n >= old(value)@.len(),
    {
        let (mut stored, handle) = self.data.acquire_write();
        let n = stored.append(value);
        handle.release_write(stored);
        n
    }

    /// Atomically removes and returns everything currently stored, in append
    /// order, leaving the shared stored sequence empty: one
    /// [`UnboundedCore::get_and_clear`] under the lock, whose contract pins
    /// the result and the cleared state exactly.
    pub fn get_and_clear(&mut self) -> (r: Vec<T>)
        ensures
            *final(self) == *old(self),
    {
        let (mut stored, handle) = self.data.acquire_write();
        let r = stored.get_and_clear();
        handle.release_write(stored);
        r
    }
}

impl<T> Default for Buffer<T> {
    /// Creates a handle to a fresh, empty, unbounded shared store:
    /// [`UnboundedCore::new`] ensures the storage starts with no contents.
    fn default() -> Buffer<T> {
        Buffer { data: Arc::new(RwLock::new(UnboundedCore::new(), Ghost(UnboundedPred))) }
    }
}

impl<T> Clone for Buffer<T> {
    /// Duplicates the handle; the clone refers to the same storage.
    fn clone(&self) -> (res: Buffer<T>)
        ensures
            res == *self,
    {
        Buffer { data: clone_arc(&self.data) }
    }
}

/// The total element count of a sequence of batches.
pub open spec fn total_len<T>(batches: Seq<Seq<T>>) -> int
    decreases batches.len(),
{
    if batches.len() == 0 {
        0
    } else {
        batches.first().len() + total_len(batches.drop_first())
    }
}

/// The union of the batches' elements, as a multiset.
pub open spec fn multiset_union<T>(batches: Seq<Seq<T>>) -> Multiset<T>
    decreases batches.len(),
{
    if batches.len() == 0 {
        Multiset::empty()
    } else {
        batches.first().to_multiset().add(multiset_union(batches.drop_first()))
    }
}

/// The stored sequence of an unbounded buffer after the given batches are
/// appended, one `append` call each, in this serialization order, starting
/// from contents `s` — each call extends the stored sequence by its batch,
/// exactly as [`UnboundedCore::append`] ensures.
pub open spec fn run_appends<T>(s: Seq<T>, batches: Seq<Seq<T>>) -> Seq<T>
    decreases batches.len(),
{
    if batches.len() == 0 {
        s
    } else {
        run_appends(s + batches.first(), batches.drop_first())
    }
}

/// Appending batch after batch concatenates them: the unbounded store ends up
/// holding its old contents followed by every batch, in order.
pub proof fn lemma_run_appends<T>(s: Seq<T>, batches: Seq<Seq<T>>)
    ensures
        run_appends(s, batches) == s + batches.flatten(),
    decreases batches.len(),
{
    if batches.len() == 0 {
        assert(s + batches.flatten() =~= s);
    } else {
        lemma_run_appends(s + batches.first(), batches.drop_first());
        assert((s + batches.first()) + batches.drop_first().flatten() =~= s + batches.flatten());
    }
}

/// An unbounded buffer loses nothing: for any serialization of `append`
/// calls starting from an empty store, a subsequent drain returns exactly as
/// many elements as were appended in total, and the multiset of the drained
/// elements is the union of all appended batches — no element lost, none
/// duplicated, none invented.
pub proof fn lemma_appends_lose_nothing<T>(batches: Seq<Seq<T>>)
    ensures
        run_appends(Seq::<T>::empty(), batches) == batches.flatten(),
        batches.flatten().len() == total_len(batches),
        batches.flatten().to_multiset() == multiset_union(batches),
    decreases batches.len(),
{
    broadcast use vstd::seq_lib::group_to_multiset_ensures;
    broadcast use vstd::multiset::group_multiset_axioms;

    lemma_run_appends(Seq::<T>::empty(), batches);
    assert(Seq::<T>::empty() + batches.flatten() =~= batches.flatten());
    if batches.len() == 0 {
        assert(batches.flatten().to_multiset() =~= Multiset::<T>::empty());
    } else {
        lemma_appends_lose_nothing(batches.drop_first());
        lemma_multiset_commutative(batches.first(), batches.drop_first().flatten());
    }
}

/// Producers sharing an unbounded buffer, each appending one batch of size
/// `k`: since `append` and `get_and_clear` are serialized by the storage's
/// exclusive lock, the producers' calls happen in some order — `batches`
/// ranges over every such serialization — and a final drain returns exactly
/// `batches.len() * k` elements, each appended element exactly as often as it
/// was appended: disjoint batches are neither lost nor duplicated.
pub proof fn lemma_producers_accumulate<T>(batches: Seq<Seq<T>>, k: int)
    requires
        forall|i: int| 0 <= i < batches.len() ==> (#[trigger] batches[i]).len() == k,
    ensures
        run_appends(Seq::<T>::empty(), batches) == batches.flatten(),
        batches.flatten().len() == batches.len() * k,
        batches.flatten().to_multiset() == multiset_union(batches),
    decreases batches.len(),
{
    lemma_appends_lose_nothing(batches);
    if batches.len() > 0 {
        let rest = batches.drop_first();
        assert forall|i: int| 0 <= i < rest.len() implies (#[trigger] rest[i]).len() == k by {
            assert(rest[i] == batches[i + 1]);
        }
        lemma_producers_accumulate(rest, k);
        lemma_appends_lose_nothing(rest);
        assert(batches.flatten().len() == k + (batches.len() - 1) * k);
        assert(k + (batches.len() - 1) * k == batches.len() * k) by (nonlinear_arith);
    }
}

/// Appending an empty batch leaves an unbounded store exactly as it was:
/// same size, same contents.
pub proof fn lemma_append_empty_unbounded<T>(s: Seq<T>)
    ensures
        s + Seq::<T>::empty() == s,
{
    assert(s + Seq::<T>::empty() =~= s);
}

} // verus!
