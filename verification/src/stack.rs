//! A last-in-first-out stack shared through cheaply cloneable handles.
//!
//! Every clone of a [`GlobalStack`] refers to the same storage: a vector
//! guarded by a verified reader-writer lock, so pushes through one handle are
//! observed through every other, and dropping a handle leaves the storage
//! alive for the survivors.

use std::sync::Arc;
use vstd::prelude::*;
use vstd::rwlock::{RwLock, RwLockPredicate};

verus! {

/// The (trivial) lock invariant of the shared stack storage.
pub struct StackInv;

impl<T> RwLockPredicate<Vec<T>> for StackInv {
    open spec fn inv(self, v: Vec<T>) -> bool {
        true
    }
}

/// A cloneable handle to one shared stack.
///
/// Each operation acquires the shared lock for its whole duration, so
/// operations from different threads are strictly serialized; against the
/// vector it observed under the lock, a push appends at the top and a pop
/// removes from the top, exactly as `Vec::push` and `Vec::pop` do.
pub struct GlobalStack<T> {
    shared: Arc<RwLock<Vec<T>, StackInv>>,
}

impl<T> GlobalStack<T> {
    /// True when both handles share the same underlying storage.
    pub closed spec fn shares_storage_with(&self, other: &GlobalStack<T>) -> bool {
        self.shared == other.shared
    }

    /// A new, empty shared stack.
    pub fn new() -> Self {
        GlobalStack { shared: Arc::new(RwLock::new(Vec::new(), Ghost(StackInv))) }
    }

    /// Pushes `value` on top of the shared stack.
    pub fn push(&self, value: T) {
        let (mut stack, handle) = self.shared.acquire_write();
        stack.push(value);
        handle.release_write(stack);
    }

    /// Pops the top value, or signals `None` when the stack is empty.
    pub fn pop(&self) -> Option<T> {
        let (mut stack, handle) = self.shared.acquire_write();
        let r = stack.pop();
        handle.release_write(stack);
        r
    }

    /// The number of values at the moment the lock was held.
    pub fn len(&self) -> usize {
        let read = self.shared.acquire_read();
        let n = read.borrow().len();
        read.release_read();
        n
    }

    /// Whether the stack was empty at the moment the lock was held.
    pub fn is_empty(&self) -> bool {
        let read = self.shared.acquire_read();
        let r = read.borrow().len() == 0;
        read.release_read();
        r
    }
}

impl<T> Clone for GlobalStack<T> {
    /// A clone shares the storage of the original.
    fn clone(&self) -> (r: Self)
        ensures
            r.shares_storage_with(self),
    {
        GlobalStack { shared: self.shared.clone() }
    }
}

} // verus!
