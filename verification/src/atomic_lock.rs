//! A lock over a shared `AtomicBool`, mainly used to run tests one at a time.
use vstd::prelude::*;

use std::sync::atomic::AtomicBool;
use std::sync::atomic::Ordering;

verus! {

/// Clears `flag` with sequentially consistent ordering, through
/// `AtomicBool::store`. The contract claims only that the call returns: `store`
/// panics for the orderings `Acquire` and `AcqRel` alone, and this call uses
/// `SeqCst`. Nothing is stated of the flag's value, which other threads share.
#[verifier::external_body]
pub(crate) fn release(flag: &AtomicBool)
    opens_invariants none
    no_unwind
{
    flag.store(false, Ordering::SeqCst)
}

/// Holds the lock on an `AtomicBool` until it is dropped.
pub struct AtomicLock<'a> {
    lock: &'a AtomicBool,
}

impl<'a> AtomicLock<'a> {
    /// One attempt to take the lock: it succeeds when the flag was clear and
    /// is now set by this call. Whether it succeeds is left unsaid: it rests
    /// on `AtomicBool::compare_exchange_weak`, whose outcome depends on other
    /// threads and which may fail even on a clear flag.
    pub fn try_lock(lock: &'a AtomicBool) -> (res: Option<Self>)
        ensures
            res matches Some(held) ==> held.flag() == lock,
    {
        match lock.compare_exchange_weak(false, true, Ordering::SeqCst, Ordering::SeqCst) {
            Ok(_) => Some(AtomicLock { lock }),
            Err(_) => None,
        }
    }

    /// The flag this lock holds.
    pub closed spec fn flag(&self) -> &'a AtomicBool {
        self.lock
    }

    fn unlock(&self)
        opens_invariants none
        no_unwind
    {
        release(self.lock)
    }
}

impl<'a> Drop for AtomicLock<'a> {
    fn drop(&mut self)
        opens_invariants none
        no_unwind
    {
        self.unlock()
    }
}

} // verus!
