use aetherdb::api::{default_graph_depth, default_top_k};
use aetherdb::domain::{ContentHash, EntityType, StorageError};
use aetherdb::telemetry::render_metrics;

const ALL: [EntityType; 7] = [
    EntityType::Person,
    EntityType::Organization,
    EntityType::Concept,
    EntityType::Location,
    EntityType::Event,
    EntityType::Technology,
    EntityType::Other,
];

#[test]
fn entity_types_read_back_from_their_names() {
    for t in ALL {
        assert_eq!(EntityType::from_str_lossy(&t.to_string()), t);
        assert_eq!(EntityType::from_str_lossy(&t.as_str().to_uppercase()), t);
    }
}

#[test]
fn entity_type_aliases_and_unknowns() {
    assert_eq!(EntityType::from_str_lossy("Org"), EntityType::Organization);
    assert_eq!(EntityType::from_str_lossy("place"), EntityType::Location);
    assert_eq!(EntityType::from_str_lossy("TECH"), EntityType::Technology);
    assert_eq!(EntityType::from_str_lossy("animal"), EntityType::Other);
    assert_eq!(EntityType::from_str_lossy(""), EntityType::Other);
    assert_eq!(EntityType::Organization.to_string(), "organization");
}

#[test]
fn only_connection_and_sync_errors_are_retryable() {
    assert!(StorageError::Connection("c".into()).is_retryable());
    assert!(StorageError::Sync("s".into()).is_retryable());
    assert!(!StorageError::Query("q".into()).is_retryable());
    assert!(!StorageError::Migration("m".into()).is_retryable());
    assert!(!StorageError::Other("o".into()).is_retryable());
}

#[test]
fn content_hash_from_a_prefix_pads_with_zeros() {
    let h = ContentHash::from_prefix(&[7, 8]);
    assert_eq!(&h.0[..2], &[7, 8]);
    assert!(h.0[2..].iter().all(|b| *b == 0));
    let long: Vec<u8> = (0..40).collect();
    assert_eq!(ContentHash::from_prefix(&long).0.to_vec(), long[..32].to_vec());
}

#[test]
fn request_defaults() {
    assert_eq!(default_top_k(), 10);
    assert_eq!(default_graph_depth(), 2);
}

#[test]
fn metrics_without_a_recorder_are_empty() {
    assert_eq!(render_metrics(None), "");
}
