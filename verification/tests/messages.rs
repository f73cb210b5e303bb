use aetherdb::config::ConfigError;
use aetherdb::domain::{DomainError, GraphError, HnswError, MessagingError, StorageError, VectorError};
use aetherdb::edge::EdgeError;
use aetherdb::ids::DocumentId;
use aetherdb::messaging::HandlerError;
use aetherdb::protocol::SyncError;
use aetherdb::telemetry::TelemetryError;

#[test]
fn storage_and_vector_errors_read_as_shown() {
    assert_eq!(StorageError::Query("boom".into()).to_string(), "query error: boom");
    assert_eq!(StorageError::Other("plain".into()).to_string(), "plain");
    assert_eq!(
        VectorError::DimensionMismatch { expected: 768, got: 100 }.to_string(),
        "dimension mismatch: expected 768, got 100"
    );
    assert_eq!(VectorError::InvalidTopK(0).to_string(), "top_k must be in 1..=100, got 0");
    assert_eq!(VectorError::NonFinite.to_string(), "vector contains non-finite values");
    assert_eq!(
        VectorError::Storage(StorageError::Connection("down".into())).to_string(),
        "storage error: connection error: down"
    );
}

#[test]
fn graph_hnsw_and_messaging_errors_read_as_shown() {
    assert_eq!(GraphError::InvalidDepth(9).to_string(), "invalid traversal depth: 9 (max 5)");
    assert_eq!(GraphError::EntityNotFound("Rust".into()).to_string(), "entity not found: Rust");
    assert_eq!(HnswError::NotReady.to_string(), "index not ready");
    assert_eq!(HnswError::Build("x".into()).to_string(), "build error: x");
    assert_eq!(MessagingError::Publish("full".into()).to_string(), "publish error: full");
    assert_eq!(HandlerError::Retryable("later".into()).to_string(), "retryable: later");
    assert_eq!(HandlerError::Permanent("never".into()).to_string(), "permanent: never");
}

#[test]
fn document_errors_name_the_document() {
    let id = DocumentId(1);
    assert_eq!(
        DomainError::NotFound(id).to_string(),
        "document not found: 00000000-0000-0000-0000-000000000001"
    );
    assert_eq!(
        DomainError::DimensionMismatch { expected: 3, got: 2 }.to_string(),
        "embedding dimension mismatch: expected 3, got 2"
    );
    assert_eq!(EdgeError::NotFound(id).to_string(), "document not found: 00000000-0000-0000-0000-000000000001");
    assert_eq!(EdgeError::EmptyIndex.to_string(), "store is empty, no vectors indexed");
    assert_eq!(EdgeError::Validation("content must not be empty".into()).to_string(), "validation error: content must not be empty");
}

#[test]
fn sync_config_and_telemetry_errors_read_as_shown() {
    assert_eq!(
        SyncError::ClockSkew { local_ms: -5, remote_ms: 1_000 }.to_string(),
        "clock skew too large: local=-5, remote=1000"
    );
    assert_eq!(
        SyncError::ClockSkew { local_ms: i64::MIN, remote_ms: 0 }.to_string(),
        "clock skew too large: local=-9223372036854775808, remote=0"
    );
    assert_eq!(
        SyncError::IdMismatch { local: DocumentId(1), remote: DocumentId(2) }.to_string(),
        "document id mismatch: 00000000-0000-0000-0000-000000000001 vs 00000000-0000-0000-0000-000000000002"
    );
    assert_eq!(
        ConfigError::Missing { var: "AETHERDB_LIBSQL_URL".into() }.to_string(),
        "missing required environment variable: AETHERDB_LIBSQL_URL"
    );
    assert_eq!(
        ConfigError::Invalid { var: "X".into(), reason: "bad".into() }.to_string(),
        "invalid value for X: bad"
    );
    assert_eq!(TelemetryError::Metrics("m".into()).to_string(), "failed to initialize metrics: m");
}
