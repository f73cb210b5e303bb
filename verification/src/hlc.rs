//! Hybrid logical clock timestamps and their total order.
use vstd::prelude::*;

verus! {

/// A hybrid logical clock reading: wall-clock milliseconds plus a logical
/// counter that breaks ties between readings taken in the same millisecond.
#[derive(Debug, Clone, Copy, PartialEq, Eq, Structural, Ord, Hash)]
pub struct HlcTimestamp {
    pub wall_ms: i64,
    pub counter: u32,
}

/// `a` comes strictly before `b`: first by wall time, then by counter.
pub open spec fn hlc_before(a: HlcTimestamp, b: HlcTimestamp) -> bool {
    a.wall_ms < b.wall_ms || (a.wall_ms == b.wall_ms && a.counter < b.counter)
}

/// The three-way comparison of two timestamps, lexicographic on
/// `(wall_ms, counter)`.
pub open spec fn hlc_order(a: HlcTimestamp, b: HlcTimestamp) -> core::cmp::Ordering {
    if hlc_before(a, b) {
        core::cmp::Ordering::Less
    } else if a == b {
        core::cmp::Ordering::Equal
    } else {
        core::cmp::Ordering::Greater
    }
}

impl HlcTimestamp {
    /// The timestamp before every reading a clock hands out.
    pub fn zero() -> (ts: HlcTimestamp)
        ensures
            ts.wall_ms == 0,
            ts.counter == 0,
    {
        HlcTimestamp { wall_ms: 0, counter: 0 }
    }

    /// Three-way comparison, lexicographic on `(wall_ms, counter)`.
    pub fn compare(&self, other: &HlcTimestamp) -> (r: core::cmp::Ordering)
        ensures
            r == hlc_order(*self, *other),
    {
        if self.wall_ms < other.wall_ms {
            core::cmp::Ordering::Less
        } else if self.wall_ms > other.wall_ms {
            core::cmp::Ordering::Greater
        } else if self.counter < other.counter {
            core::cmp::Ordering::Less
        } else if self.counter > other.counter {
            core::cmp::Ordering::Greater
        } else {
            core::cmp::Ordering::Equal
        }
    }

    /// `self` comes strictly before `other`.
    pub fn is_before(&self, other: &HlcTimestamp) -> (r: bool)
        ensures
            r == hlc_before(*self, *other),
    {
        self.wall_ms < other.wall_ms || (self.wall_ms == other.wall_ms && self.counter < other.counter)
    }
}

impl PartialOrd for HlcTimestamp {
    fn partial_cmp(&self, other: &Self) -> (r: Option<core::cmp::Ordering>) {
        Some(self.compare(other))
    }
}

impl vstd::std_specs::cmp::PartialOrdSpecImpl for HlcTimestamp {
    open spec fn obeys_partial_cmp_spec() -> bool {
        true
    }

    open spec fn partial_cmp_spec(&self, other: &Self) -> Option<core::cmp::Ordering> {
        Some(hlc_order(*self, *other))
    }
}

/// The order on timestamps is a strict total order.
pub proof fn lemma_hlc_order_total(a: HlcTimestamp, b: HlcTimestamp, c: HlcTimestamp)
    ensures
        !hlc_before(a, a),
        hlc_before(a, b) ==> !hlc_before(b, a),
        a != b ==> hlc_before(a, b) || hlc_before(b, a),
        hlc_before(a, b) && hlc_before(b, c) ==> hlc_before(a, c),
{
}

} // verus!
