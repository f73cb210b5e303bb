use aetherdb::events::{
    envelope_for, AnalyticsIngested, DocumentCreated, DocumentDeleted, EmbeddingCreated, Event,
    HnswRebuilt,
};
use aetherdb::ids::DocumentId;

#[test]
fn document_events_are_keyed_by_document() {
    let id = DocumentId(0x0123_4567_89ab_cdef_0011_2233_4455_6677);
    let e = DocumentCreated {
        document_id: id,
        content_hash: "deadbeef".into(),
        content_length: 100,
        metadata: serde_json::Value::Null,
    };
    assert_eq!(e.key(), "01234567-89ab-cdef-0011-223344556677");
    assert_eq!(DocumentCreated::topic(), "documents.created");
    assert_eq!(DocumentCreated::version(), 1);
    let d = DocumentDeleted { document_id: id };
    assert_eq!(d.key(), "01234567-89ab-cdef-0011-223344556677");
    assert_eq!(DocumentDeleted::topic(), "documents.deleted");
}

#[test]
fn embedding_and_analytics_topics() {
    let e = EmbeddingCreated { document_id: DocumentId(1), model: "m".into(), dim: 3, duration_ms: 7 };
    assert_eq!(e.key(), "00000000-0000-0000-0000-000000000001");
    assert_eq!(EmbeddingCreated::topic(), "embeddings.created");
    let a = AnalyticsIngested { table: "docs".into(), batch_size: 5, lag_ms: 9 };
    assert_eq!(a.key(), "docs");
    assert_eq!(AnalyticsIngested::topic(), "analytics.ingested");
}

#[test]
fn hnsw_rebuilt_key_counts_vectors() {
    let e = HnswRebuilt { vector_count: 1234, build_duration_ms: 1, ef_construction: 100, m_param: 16 };
    assert_eq!(e.key(), "hnsw-1234");
    assert_eq!(HnswRebuilt::topic(), "hnsw.rebuilt");
    let z = HnswRebuilt { vector_count: 0, build_duration_ms: 0, ef_construction: 0, m_param: 0 };
    assert_eq!(z.key(), "hnsw-0");
}

#[test]
fn envelope_names_topic_version_and_source() {
    let e = DocumentDeleted { document_id: DocumentId(5) };
    let env = envelope_for(e, 99, 1234);
    assert_eq!(env.event_id, 99);
    assert_eq!(env.event_type, "documents.deleted");
    assert_eq!(env.event_version, 1);
    assert_eq!(env.timestamp, 1234);
    assert_eq!(env.source, "aetherdb");
    assert!(env.trace_id.is_none());
    assert_eq!(env.payload.document_id, DocumentId(5));
}
