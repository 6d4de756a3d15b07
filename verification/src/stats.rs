//! What the monitor counts.
use vstd::prelude::*;

verus! {

/// The counters.
#[derive(Clone, Copy, Debug, PartialEq, Eq, Structural)]
pub struct Stats {
    /// Pages that were validated.
    pub pvalidate: u64,
    /// Page faults.
    pub page_faults: u64,
    /// Page faults upon the first write to a shared page.
    pub cow: u64,
    /// Shared pages.
    pub cow_pages: u64,
    /// Pages that are not shared.
    pub non_cow_pages: u64,
}

/// The next value of a counter.
pub open spec fn counted(count: u64) -> u64 {
    if count == u64::MAX {
        0
    } else {
        (count + 1) as u64
    }
}

/// The next value of a counter.
pub fn count_one(count: u64) -> (next: u64)
    ensures
        next == counted(count),
{
    count.wrapping_add(1)
}

} // verus!
