//! A lock over a shared `AtomicBool` that lets tests run one at a time.
use vstd::prelude::*;

use std::sync::atomic::AtomicBool;
use std::sync::atomic::Ordering;

use crate::atomic_lock::release;

verus! {

/// Holds the lock on an `AtomicBool` until it is dropped.
pub struct TestLock<'a>(&'a AtomicBool);

impl<'a> TestLock<'a> {
    /// One attempt to take the lock: it succeeds when the flag was clear and
    /// is now set by this call. Whether it succeeds is left unsaid: it rests
    /// on `AtomicBool::compare_exchange_weak`, whose outcome depends on other
    /// threads and which may fail even on a clear flag.
    pub fn try_lock(lock: &'a AtomicBool) -> (res: Option<Self>)
        ensures
            res matches Some(held) ==> held.flag() == lock,
    {
        match lock.compare_exchange_weak(false, true, Ordering::SeqCst, Ordering::SeqCst) {
            Ok(_) => Some(TestLock(lock)),
            Err(_) => None,
        }
    }

    /// The flag this lock holds.
    pub closed spec fn flag(&self) -> &'a AtomicBool {
        self.0
    }
}

impl<'a> Drop for TestLock<'a> {
    fn drop(&mut self)
        opens_invariants none
        no_unwind
    {
        release(self.0)
    }
}

} // verus!
