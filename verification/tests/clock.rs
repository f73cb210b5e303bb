use aetherdb::clock::{epoch_millis, HybridClock, StdClock, WallClock};
use aetherdb::hlc::HlcTimestamp;
use aetherdb::ids::NodeId;

struct FixedClock(i64);

impl WallClock for FixedClock {
    fn now_ms(&self) -> i64 {
        self.0
    }
}

fn fresh_node() -> NodeId {
    NodeId(uuid::Uuid::now_v7().as_u128())
}

#[test]
fn now_monotonic() {
    let mut clock = HybridClock::new(fresh_node(), StdClock);
    let t1 = clock.now();
    let t2 = clock.now();
    assert!(t2 > t1);
}

#[test]
fn now_with_stale_wall_clock() {
    let mut clock = HybridClock::new(fresh_node(), FixedClock(1000));
    let t1 = clock.now();
    assert_eq!(t1.wall_ms, 1000);
    assert_eq!(t1.counter, 0);
    let t2 = clock.now();
    assert_eq!(t2.wall_ms, 1000);
    assert_eq!(t2.counter, 1);
    assert!(t2 > t1);
}

#[test]
fn recv_remote_ahead() {
    let mut clock = HybridClock::new(fresh_node(), FixedClock(1000));
    let _ = clock.now();
    let remote = HlcTimestamp { wall_ms: 2000, counter: 5 };
    let merged = clock.recv(remote);
    assert!(merged > remote);
    assert_eq!(merged.wall_ms, 2000);
    assert_eq!(merged.counter, 6);
}

#[test]
fn recv_remote_behind() {
    let mut clock = HybridClock::new(fresh_node(), FixedClock(2000));
    let _ = clock.now();
    let remote = HlcTimestamp { wall_ms: 1000, counter: 0 };
    let merged = clock.recv(remote);
    assert!(merged.wall_ms >= 2000);
    assert!(merged > remote);
}

#[test]
fn recv_same_wall_ms() {
    let mut clock = HybridClock::new(fresh_node(), FixedClock(1000));
    let _ = clock.now();
    let remote = HlcTimestamp { wall_ms: 1000, counter: 3 };
    let merged = clock.recv(remote);
    assert_eq!(merged.wall_ms, 1000);
    assert_eq!(merged.counter, 4);
}

#[test]
fn new_clock_starts_at_zero_and_keeps_its_node() {
    let node = NodeId(42);
    let clock = HybridClock::new(node, FixedClock(5));
    assert_eq!(clock.last(), HlcTimestamp::zero());
    assert_eq!(clock.node_id(), node);
}

#[test]
fn now_at_follows_the_wall_clock_when_it_moves_ahead() {
    let mut clock = HybridClock::new(NodeId(1), FixedClock(0));
    assert_eq!(clock.now_at(500), HlcTimestamp { wall_ms: 500, counter: 0 });
    assert_eq!(clock.now_at(400), HlcTimestamp { wall_ms: 500, counter: 1 });
    assert_eq!(clock.now_at(501), HlcTimestamp { wall_ms: 501, counter: 0 });
    assert_eq!(clock.last(), HlcTimestamp { wall_ms: 501, counter: 0 });
}

#[test]
fn counter_saturates_at_its_maximum() {
    let mut clock = HybridClock::new(NodeId(1), FixedClock(0));
    let _ = clock.recv_at(HlcTimestamp { wall_ms: 10, counter: u32::MAX - 1 }, 0);
    let t = clock.now_at(0);
    assert_eq!(t, HlcTimestamp { wall_ms: 10, counter: u32::MAX });
    let t2 = clock.now_at(0);
    assert_eq!(t2, HlcTimestamp { wall_ms: 10, counter: u32::MAX });
}

#[test]
fn recv_at_wall_clock_ahead_resets_counter() {
    let mut clock = HybridClock::new(NodeId(1), FixedClock(0));
    let _ = clock.now_at(100);
    let merged = clock.recv_at(HlcTimestamp { wall_ms: 50, counter: 9 }, 300);
    assert_eq!(merged, HlcTimestamp { wall_ms: 300, counter: 0 });
}

#[test]
fn recv_at_equal_walls_takes_the_larger_counter() {
    let mut clock = HybridClock::new(NodeId(1), FixedClock(0));
    let _ = clock.recv_at(HlcTimestamp { wall_ms: 700, counter: 8 }, 0);
    let merged = clock.recv_at(HlcTimestamp { wall_ms: 700, counter: 2 }, 10);
    assert_eq!(merged, HlcTimestamp { wall_ms: 700, counter: 10 });
}

#[test]
fn timestamps_order_by_wall_then_counter() {
    let a = HlcTimestamp { wall_ms: 1, counter: 9 };
    let b = HlcTimestamp { wall_ms: 2, counter: 0 };
    let c = HlcTimestamp { wall_ms: 2, counter: 1 };
    assert!(a.is_before(&b));
    assert!(b.is_before(&c));
    assert!(!c.is_before(&c));
    assert_eq!(a.compare(&b), std::cmp::Ordering::Less);
    assert_eq!(c.compare(&b), std::cmp::Ordering::Greater);
    assert_eq!(b.compare(&b), std::cmp::Ordering::Equal);
    assert!(a < b && b < c);
}

#[test]
fn std_clock_reads_after_the_epoch() {
    assert!(StdClock.now_ms() > 1_600_000_000_000);
}

#[test]
fn epoch_readings_convert_to_i64() {
    assert_eq!(epoch_millis(None), 0);
    assert_eq!(epoch_millis(Some(1_700_000_000_123)), 1_700_000_000_123);
    assert_eq!(epoch_millis(Some(1u128 << 64)), 0);
}
