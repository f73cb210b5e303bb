use aetherdb::domain::{ContentHash, Document};
use aetherdb::hlc::HlcTimestamp;
use aetherdb::ids::{DocumentId, NodeId};
use aetherdb::merge::{merge_lww, MergeResult, VersionedDocument};

fn make_versioned(wall_ms: i64, counter: u32, node_byte: u8, deleted: bool) -> VersionedDocument {
    let mut node_bytes = [0u8; 16];
    node_bytes[0] = node_byte;
    let now = chrono::Utc::now().timestamp_millis();
    VersionedDocument {
        document: Document {
            id: DocumentId(uuid::Uuid::now_v7().as_u128()),
            content: "test".into(),
            metadata: serde_json::Value::Object(serde_json::Map::new()),
            content_hash: ContentHash([0; 32]),
            created_at: now,
            updated_at: now,
        },
        hlc_ts: HlcTimestamp { wall_ms, counter },
        origin_node: NodeId(uuid::Uuid::from_bytes(node_bytes).as_u128()),
        deleted,
    }
}

#[test]
fn remote_newer_wins() {
    let local = make_versioned(1000, 0, 1, false);
    let remote = make_versioned(2000, 0, 2, false);
    assert_eq!(merge_lww(&local, &remote), MergeResult::AcceptRemote);
}

#[test]
fn local_newer_wins() {
    let local = make_versioned(2000, 0, 1, false);
    let remote = make_versioned(1000, 0, 2, false);
    assert_eq!(merge_lww(&local, &remote), MergeResult::KeepLocal);
}

#[test]
fn same_hlc_higher_node_wins() {
    let local = make_versioned(1000, 5, 1, false);
    let remote = make_versioned(1000, 5, 2, false);
    assert_eq!(merge_lww(&local, &remote), MergeResult::AcceptRemote);
}

#[test]
fn same_hlc_lower_node_keeps_local() {
    let local = make_versioned(1000, 5, 2, false);
    let remote = make_versioned(1000, 5, 1, false);
    assert_eq!(merge_lww(&local, &remote), MergeResult::KeepLocal);
}

#[test]
fn delete_beats_older_update() {
    let local = make_versioned(1000, 0, 1, false);
    let remote = make_versioned(2000, 0, 2, true);
    assert_eq!(merge_lww(&local, &remote), MergeResult::AcceptRemote);
}

#[test]
fn update_beats_older_delete() {
    let local = make_versioned(1000, 0, 1, true);
    let remote = make_versioned(2000, 0, 2, false);
    assert_eq!(merge_lww(&local, &remote), MergeResult::AcceptRemote);
}

#[test]
fn two_replicas_pick_the_same_winner() {
    let a = make_versioned(1000, 3, 1, false);
    let b = make_versioned(1000, 4, 9, false);
    assert_eq!(merge_lww(&a, &b), MergeResult::AcceptRemote);
    assert_eq!(merge_lww(&b, &a), MergeResult::KeepLocal);
}

#[test]
fn identical_stamps_keep_local_on_both_sides() {
    let a = make_versioned(1000, 3, 7, false);
    let b = make_versioned(1000, 3, 7, true);
    assert_eq!(merge_lww(&a, &b), MergeResult::KeepLocal);
    assert_eq!(merge_lww(&b, &a), MergeResult::KeepLocal);
}

#[test]
fn higher_counter_wins_on_equal_wall() {
    let local = make_versioned(1000, 9, 200, false);
    let remote = make_versioned(1000, 10, 1, false);
    assert_eq!(merge_lww(&local, &remote), MergeResult::AcceptRemote);
}

#[test]
fn merging_in_any_order_ends_with_the_greatest_stamp() {
    let a = make_versioned(1000, 0, 1, false);
    let b = make_versioned(1000, 1, 1, false);
    let c = make_versioned(1000, 1, 2, true);
    assert_eq!(merge_lww(&a, &b), MergeResult::AcceptRemote);
    assert_eq!(merge_lww(&b, &c), MergeResult::AcceptRemote);
    assert_eq!(merge_lww(&a, &c), MergeResult::AcceptRemote);
    assert_eq!(merge_lww(&c, &a), MergeResult::KeepLocal);
}
