//! Wrappers that carry a native handle.

use vstd::prelude::*;

verus! {

/// A handle that is moved between threads.
pub struct SendPtr<T>(pub T);

/// A handle that is shared between threads.
pub struct SyncPtr<T>(pub T);

impl<T> SendPtr<T> {
    /// Wraps `ptr`.
    pub fn new(ptr: T) -> (p: Self)
        ensures
            p.0 == ptr,
    {
        SendPtr(ptr)
    }

    /// The wrapped handle.
    pub fn get(&self) -> (r: &T)
        ensures
            *r == self.0,
    {
        &self.0
    }
}

impl<T> SyncPtr<T> {
    /// Wraps `ptr`.
    pub fn new(ptr: T) -> (p: Self)
        ensures
            p.0 == ptr,
    {
        SyncPtr(ptr)
    }

    /// The wrapped handle.
    pub fn get(&self) -> (r: &T)
        ensures
            *r == self.0,
    {
        &self.0
    }
}

} // verus!
