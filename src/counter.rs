use vstd::prelude::*;

use std::sync::atomic::{AtomicU64, Ordering};
use std::sync::Arc;

verus! {

/// The count after one more request: one more, saturating at `u64::MAX`.
pub open spec fn next_count(v: u64) -> u64 {
    if v == u64::MAX {
        v
    } else {
        (v + 1) as u64
    }
}

/// The count after one more request: one more, staying at `u64::MAX` once there.
pub fn saturating_next(v: u64) -> (r: u64)
    ensures
        r == next_count(v),
        r >= 1,
{
    if v < u64::MAX {
        v + 1
    } else {
        v
    }
}

/// Relies on `AtomicU64::fetch_update`: applies `saturating_next` to the stored value
/// as one atomic step and returns the value it found. The closure never declines, so
/// the call always returns `Ok`; what it found depends on other threads.
#[verifier::external_body]
fn fetch_next(cell: &AtomicU64) -> (prev: u64) {
    match cell.fetch_update(Ordering::Relaxed, Ordering::Relaxed, |v| Some(saturating_next(v))) {
        Ok(v) => v,
        Err(v) => v,
    }
}

/// The count after `n` more requests, starting from `v`.
pub open spec fn count_after(v: u64, n: nat) -> u64
    decreases n,
{
    if n == 0 {
        v
    } else {
        next_count(count_after(v, (n - 1) as nat))
    }
}

/// A request count owned by one holder.
pub struct RequestCounter {
    total: u64,
}

impl View for RequestCounter {
    type V = u64;

    closed spec fn view(&self) -> u64 {
        self.total
    }
}

impl RequestCounter {
    /// A counter that starts at zero.
    pub fn new() -> (r: RequestCounter)
        ensures
            r@ == 0,
    {
        RequestCounter { total: 0 }
    }

    /// Counts one request.
    pub fn increment(&mut self)
        ensures
            final(self)@ == next_count(old(self)@),
    {
        self.total = saturating_next(self.total);
    }

    /// The requests counted so far.
    pub fn read(&self) -> (r: u64)
        ensures
            r == self@,
    {
        self.total
    }
}

/// Counting never goes down, and `n` increments from `v` add exactly `n` as long as
/// the sum fits in a `u64`.
pub proof fn lemma_increments_add_up(v: u64, n: nat)
    ensures
        count_after(v, n) >= v,
        v + n <= u64::MAX ==> count_after(v, n) == v + n,
    decreases n,
{
    if n > 0 {
        lemma_increments_add_up(v, (n - 1) as nat);
    }
}

/// A request count shared by concurrent request handlers: a handle on one atomic
/// integer. Clones share the count.
#[derive(Clone)]
pub struct SharedCounter {
    cell: Arc<AtomicU64>,
}

impl SharedCounter {
    /// A counter that starts at zero.
    pub fn new() -> (r: SharedCounter) {
        SharedCounter { cell: Arc::new(AtomicU64::new(0)) }
    }

    /// Counts one request with a single atomic step that saturates at `u64::MAX`, and
    /// returns the count that the step found. The count is then `next_count(prev)`,
    /// unless other handlers have counted since.
    pub fn increment(&self) -> (prev: u64) {
        fetch_next(&*self.cell)
    }

    /// Reads the count atomically.
    pub fn read(&self) -> (r: u64) {
        self.cell.load(Ordering::Relaxed)
    }
}

} // verus!
