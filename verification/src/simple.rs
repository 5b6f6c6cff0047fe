//! The unbounded backend of the shared capability: a growable sequence behind
//! a single exclusive lock. It never rejects or drops input; every appended
//! element is preserved, in append order, until drained.

use crate::clone_arc;
use crate::Store;
use crate::UnboundedCore;
use crate::UnboundedPred;
use std::sync::Arc;
use vstd::prelude::*;
use vstd::rwlock::RwLock;

verus! {

/// A shared handle to an unbounded buffer. Cloning the handle shares the
/// storage: all clones observe each other's appends and drains.
///
/// Because the storage is shared among all clones of the handle, no contract
/// over the handle alone can pin the stored contents; the exact sequence
/// semantics of each operation are stated and verified on [`UnboundedCore`],
/// which each operation applies inside the critical section.
pub struct Simple<T> {
    data: Arc<RwLock<UnboundedCore<T>, UnboundedPred>>,
}

impl<T> Store<T> for Simple<T> {
    /// The size reported by `append` counts at least this call's own batch:
    /// the store never evicts, so the batch is wholly contained in the stored
    /// sequence at the moment the append completes.
    open spec fn append_size_ok(&self, batch: Seq<T>, n: int) -> bool {
        n >= batch.len()
    }

    /// The unbounded store puts no bound on what a drain may return: every
    /// sequence some interleaving of appends could have stored is a possible
    /// result. The exact statement — the drain returns precisely the stored
    /// contents and leaves the store empty — lives on
    /// [`UnboundedCore::get_and_clear`].
    open spec fn drained_ok(&self, r: Seq<T>) -> bool {
        true
    }

    fn append(&mut self, value: Vec<T>) -> (n: usize) {
        let mut batch = value;
        let (mut stored, handle) = self.data.acquire_write();
        let n = stored.append(&mut batch);
        handle.release_write(stored);
        n
    }

    fn get_and_clear(&mut self) -> (r: Vec<T>) {
        let (mut stored, handle) = self.data.acquire_write();
        let r = stored.get_and_clear();
        handle.release_write(stored);
        r
    }
}

impl<T> Default for Simple<T> {
    /// Creates a handle to a fresh, empty, unbounded shared store:
    /// [`UnboundedCore::new`] ensures the storage starts with no contents.
    fn default() -> Simple<T> {
        Simple { data: Arc::new(RwLock::new(UnboundedCore::new(), Ghost(UnboundedPred))) }
    }
}

impl<T> Clone for Simple<T> {
    /// Duplicates the handle; the clone refers to the same storage.
    fn clone(&self) -> (res: Simple<T>)
        ensures
            res == *self,
    {
        Simple { data: clone_arc(&self.data) }
    }
}

} // verus!
