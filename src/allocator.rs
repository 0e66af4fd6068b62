//! Figures of the process allocator, as exported to the metrics endpoint.
use vstd::prelude::*;

verus! {

/// `a - b`, or zero where `b` is the larger.
pub open spec fn saturating_diff(a: u64, b: u64) -> u64 {
    if a > b {
        (a - b) as u64
    } else {
        0
    }
}

fn minus(a: u64, b: u64) -> (r: u64)
    ensures
        r == saturating_diff(a, b),
{
    if a > b {
        a - b
    } else {
        0
    }
}

/// Byte counts of the allocator at one instant.
#[derive(Clone, Copy, Debug, PartialEq, Eq, Structural)]
pub struct JemallocStats {
    pub allocated: u64,
    pub active: u64,
    pub metadata: u64,
    pub resident: u64,
    pub mapped: u64,
    pub retained: u64,
    /// Resident bytes that are neither active nor metadata.
    pub dirty: u64,
    /// Active bytes that are not allocated.
    pub fragmentation: u64,
}

impl JemallocStats {
    /// The figures from the allocator's raw counters; the two derived ones
    /// stop at zero rather than wrap.
    pub fn from_counters(allocated: u64, active: u64, metadata: u64, resident: u64, mapped: u64, retained: u64) -> (r:
        JemallocStats)
        ensures
            r.allocated == allocated,
            r.active == active,
            r.metadata == metadata,
            r.resident == resident,
            r.mapped == mapped,
            r.retained == retained,
            r.dirty == saturating_diff(saturating_diff(resident, active), metadata),
            r.fragmentation == saturating_diff(active, allocated),
    {
        JemallocStats {
            allocated,
            active,
            metadata,
            resident,
            mapped,
            retained,
            dirty: minus(minus(resident, active), metadata),
            fragmentation: minus(active, allocated),
        }
    }
}

} // verus!
