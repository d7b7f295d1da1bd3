//! The count of rounds that are running, kept by guards: a guard adds one when
//! it is made and takes one away when it is dropped, on every path.

use std::sync::atomic::AtomicUsize;
use std::sync::atomic::Ordering;
use std::sync::Arc;
use vstd::prelude::*;

verus! {

/// Holds one running round in the count for as long as it lives.
pub struct ActiveHeadlessJobGuard {
    counter: Arc<AtomicUsize>,
}

impl ActiveHeadlessJobGuard {
    /// The counter that this guard counts in.
    pub closed spec fn counter(&self) -> Arc<AtomicUsize> {
        self.counter
    }

    /// Adds one to `counter` and returns the guard that takes it away again.
    pub fn new(counter: Arc<AtomicUsize>) -> (r: Self)
        ensures
            r.counter() == counter,
    {
        counter.fetch_add(1, Ordering::SeqCst);
        Self { counter }
    }
}

impl Drop for ActiveHeadlessJobGuard {
    fn drop(&mut self)
        opens_invariants none
        no_unwind
    {
        take_one_away(&self.counter);
    }
}

/// Calls `AtomicUsize::fetch_sub` with 1, which takes one away from the count,
/// wrapping around at zero, and never panics.
#[verifier::external_body]
fn take_one_away(counter: &Arc<AtomicUsize>)
    opens_invariants none
    no_unwind
{
    counter.fetch_sub(1, Ordering::SeqCst);
}

/// The number of rounds that are running.
pub fn active_headless_jobs(counter: &Arc<AtomicUsize>) -> usize {
    counter.load(Ordering::SeqCst)
}

} // verus!
