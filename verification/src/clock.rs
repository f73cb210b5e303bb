//! The hybrid logical clock: every reading it hands out comes after the
//! previous one, and after every remote reading it has received.
use vstd::prelude::*;

use crate::hlc::{hlc_before, HlcTimestamp};
use crate::ids::NodeId;
use crate::outside::{duration_as_millis, millis_since_epoch, system_time_now};

verus! {

/// A source of wall-clock time in milliseconds since the Unix epoch.
pub trait WallClock {
    /// Whether `ms` is a reading this clock may give: by default, any
    /// reading. What the clock logic states holds of whichever reading came.
    closed spec fn can_read(&self, ms: i64) -> bool {
        true
    }

    fn now_ms(&self) -> (ms: i64)
        ensures
            self.can_read(ms),
    ;
}

/// The operating system's wall clock.
pub struct StdClock;

impl WallClock for StdClock {
    /// The system clock may show any time.
    open spec fn can_read(&self, ms: i64) -> bool {
        true
    }

    /// Milliseconds since the Unix epoch, or 0 when the system clock is set
    /// before the epoch.
    fn now_ms(&self) -> i64 {
        let now = system_time_now();
        let reading = match millis_since_epoch(now) {
            Some(d) => Some(duration_as_millis(&d)),
            None => None,
        };
        epoch_millis(reading)
    }
}

/// A clock reading in milliseconds since the epoch as an `i64`: the low 64
/// bits of the count, or 0 when the clock is set before the epoch (`None`).
pub fn epoch_millis(reading: Option<u128>) -> (ms: i64)
    ensures
        ms == (match reading {
            Some(m) => m as i64,
            None => 0,
        }),
{
    match reading {
        Some(m) => m as i64,
        None => 0,
    }
}

/// `c + 1`, or `c` itself when it is already the largest `u32`.
pub open spec fn saturating_inc(c: u32) -> u32 {
    if c < u32::MAX {
        (c + 1) as u32
    } else {
        c
    }
}

/// The reading a clock whose last reading was `last` hands out when the wall
/// clock shows `physical`.
pub open spec fn next_local(last: HlcTimestamp, physical: i64) -> HlcTimestamp {
    if physical > last.wall_ms {
        HlcTimestamp { wall_ms: physical, counter: 0 }
    } else {
        HlcTimestamp { wall_ms: last.wall_ms, counter: saturating_inc(last.counter) }
    }
}

pub open spec fn max_i64(a: i64, b: i64) -> i64 {
    if a >= b {
        a
    } else {
        b
    }
}

pub open spec fn max_u32(a: u32, b: u32) -> u32 {
    if a >= b {
        a
    } else {
        b
    }
}

/// The reading a clock whose last reading was `last` hands out when it
/// receives `remote` while the wall clock shows `physical`.
pub open spec fn next_recv(last: HlcTimestamp, remote: HlcTimestamp, physical: i64) -> HlcTimestamp {
    let max_wall = max_i64(max_i64(physical, last.wall_ms), remote.wall_ms);
    let counter = if max_wall == last.wall_ms && max_wall == remote.wall_ms {
        saturating_inc(max_u32(last.counter, remote.counter))
    } else if max_wall == last.wall_ms {
        saturating_inc(last.counter)
    } else if max_wall == remote.wall_ms {
        saturating_inc(remote.counter)
    } else {
        0
    };
    HlcTimestamp { wall_ms: max_wall, counter }
}

/// A hybrid logical clock owned by one node.
pub struct HybridClock<W: WallClock> {
    wall_clock: W,
    node_id: NodeId,
    last_ts: HlcTimestamp,
}

impl<W: WallClock> HybridClock<W> {
    /// The last reading handed out (zero before the first).
    pub closed spec fn last_reading(&self) -> HlcTimestamp {
        self.last_ts
    }

    /// The node this clock belongs to.
    pub closed spec fn owner(&self) -> NodeId {
        self.node_id
    }

    /// The wall clock this clock reads.
    pub closed spec fn clock(&self) -> W {
        self.wall_clock
    }

    pub fn new(node_id: NodeId, wall_clock: W) -> (c: Self)
        ensures
            c.owner() == node_id,
            c.clock() == wall_clock,
            c.last_reading() == (HlcTimestamp { wall_ms: 0, counter: 0 }),
    {
        HybridClock { wall_clock, node_id, last_ts: HlcTimestamp::zero() }
    }

    pub fn node_id(&self) -> (n: NodeId)
        ensures
            n == self.owner(),
    {
        self.node_id
    }

    pub fn last(&self) -> (ts: HlcTimestamp)
        ensures
            ts == self.last_reading(),
    {
        self.last_ts
    }

    /// Hands out the next local reading, given the wall clock's reading.
    pub fn now_at(&mut self, physical: i64) -> (ts: HlcTimestamp)
        ensures
            ts == next_local(old(self).last_reading(), physical),
            final(self).last_reading() == ts,
            final(self).owner() == old(self).owner(),
            final(self).clock() == old(self).clock(),
            ts.wall_ms >= physical,
            old(self).last_reading().counter < u32::MAX ==> hlc_before(old(self).last_reading(), ts),
    {
        let ts = if physical > self.last_ts.wall_ms {
            HlcTimestamp { wall_ms: physical, counter: 0 }
        } else {
            HlcTimestamp { wall_ms: self.last_ts.wall_ms, counter: self.last_ts.counter.saturating_add(1) }
        };
        self.last_ts = ts;
        ts
    }

    /// Hands out the next local reading, reading the wall clock.
    pub fn now(&mut self) -> (ts: HlcTimestamp)
        ensures
            exists|physical: i64| old(self).clock().can_read(physical) && ts == next_local(old(self).last_reading(), physical),
            final(self).last_reading() == ts,
            final(self).owner() == old(self).owner(),
            final(self).clock() == old(self).clock(),
            old(self).last_reading().counter < u32::MAX ==> hlc_before(old(self).last_reading(), ts),
    {
        let physical = self.wall_clock.now_ms();
        self.now_at(physical)
    }

    /// Merges a remote reading into the clock, given the wall clock's reading.
    pub fn recv_at(&mut self, remote: HlcTimestamp, physical: i64) -> (ts: HlcTimestamp)
        ensures
            ts == next_recv(old(self).last_reading(), remote, physical),
            final(self).last_reading() == ts,
            final(self).owner() == old(self).owner(),
            final(self).clock() == old(self).clock(),
            ts.wall_ms >= physical,
            old(self).last_reading().counter < u32::MAX ==> hlc_before(old(self).last_reading(), ts),
            remote.counter < u32::MAX ==> hlc_before(remote, ts),
    {
        let last = self.last_ts;
        let max_wall = if physical >= last.wall_ms { physical } else { last.wall_ms };
        let max_wall = if max_wall >= remote.wall_ms { max_wall } else { remote.wall_ms };
        let counter = if max_wall == last.wall_ms && max_wall == remote.wall_ms {
            let m = if last.counter >= remote.counter { last.counter } else { remote.counter };
            m.saturating_add(1)
        } else if max_wall == last.wall_ms {
            last.counter.saturating_add(1)
        } else if max_wall == remote.wall_ms {
            remote.counter.saturating_add(1)
        } else {
            0
        };
        let ts = HlcTimestamp { wall_ms: max_wall, counter };
        self.last_ts = ts;
        ts
    }

    /// Merges a remote reading into the clock, reading the wall clock.
    pub fn recv(&mut self, remote: HlcTimestamp) -> (ts: HlcTimestamp)
        ensures
            exists|physical: i64| old(self).clock().can_read(physical) && ts == next_recv(old(self).last_reading(), remote, physical),
            final(self).last_reading() == ts,
            final(self).owner() == old(self).owner(),
            final(self).clock() == old(self).clock(),
            old(self).last_reading().counter < u32::MAX ==> hlc_before(old(self).last_reading(), ts),
            remote.counter < u32::MAX ==> hlc_before(remote, ts),
    {
        let physical = self.wall_clock.now_ms();
        self.recv_at(remote, physical)
    }
}

/// Every local reading comes strictly after the previous one, unless the
/// counter of the previous one is already saturated.
pub proof fn lemma_now_is_monotonic(last: HlcTimestamp, physical: i64)
    requires
        last.counter < u32::MAX,
    ensures
        hlc_before(last, next_local(last, physical)),
        next_local(last, physical).wall_ms >= physical,
{
}

/// A received reading comes strictly after both the previous local reading
/// and the remote reading, and never behind the wall clock.
pub proof fn lemma_recv_dominates(last: HlcTimestamp, remote: HlcTimestamp, physical: i64)
    requires
        last.counter < u32::MAX,
        remote.counter < u32::MAX,
    ensures
        hlc_before(last, next_recv(last, remote, physical)),
        hlc_before(remote, next_recv(last, remote, physical)),
        next_recv(last, remote, physical).wall_ms >= physical,
{
}

/// A received reading is never behind the wall clock, the last local
/// reading or the remote reading: its wall time is the largest of the three.
/// When the wall clock is ahead of both readings, the clock takes the wall
/// clock's time with its counter reset to 0.
pub proof fn lemma_recv_follows_the_wall_clock(last: HlcTimestamp, remote: HlcTimestamp, physical: i64)
    ensures
        next_recv(last, remote, physical).wall_ms >= physical,
        next_recv(last, remote, physical).wall_ms >= last.wall_ms,
        next_recv(last, remote, physical).wall_ms >= remote.wall_ms,
        next_recv(last, remote, physical).wall_ms == physical
            || next_recv(last, remote, physical).wall_ms == last.wall_ms
            || next_recv(last, remote, physical).wall_ms == remote.wall_ms,
        physical > last.wall_ms && physical > remote.wall_ms ==> next_recv(last, remote, physical)
            == (HlcTimestamp { wall_ms: physical, counter: 0 }),
{
}

/// A local reading is never behind the wall clock or the last reading; when
/// the wall clock is ahead, the clock takes its time with the counter reset
/// to 0, and otherwise it keeps the last wall time and counts up.
pub proof fn lemma_now_follows_the_wall_clock(last: HlcTimestamp, physical: i64)
    ensures
        next_local(last, physical).wall_ms >= physical,
        next_local(last, physical).wall_ms >= last.wall_ms,
        physical > last.wall_ms ==> next_local(last, physical) == (HlcTimestamp { wall_ms: physical, counter: 0 }),
        physical <= last.wall_ms && last.counter < u32::MAX ==> next_local(last, physical)
            == (HlcTimestamp { wall_ms: last.wall_ms, counter: (last.counter + 1) as u32 }),
{
}

} // verus!
