//! The events the system publishes, each with its topic, schema version and
//! partition key, and the envelope they travel in.
use vstd::prelude::*;

use crate::decimal::{decimal, decimal_text};
use crate::ids::{uuid_text, uuid_to_string, DocumentId};
use crate::text::{concat, to_owned_string};

verus! {

/// An event: published on `topic()`, with schema `version()`, partitioned by
/// `key()`.
pub trait Event: Sized {
    spec fn topic_name() -> Seq<char>;

    spec fn version_number() -> u32;

    spec fn key_text(&self) -> Seq<char>;

    fn topic() -> (t: &'static str)
        ensures
            t@ == Self::topic_name(),
    ;

    fn version() -> (v: u32)
        ensures
            v == Self::version_number(),
    ;

    fn key(&self) -> (k: String)
        ensures
            k@ == self.key_text(),
    ;
}

/// An event as it travels: who sent it, when, and which event it is.
pub struct Envelope<P> {
    pub event_id: u128,
    pub event_type: String,
    pub event_version: u32,
    pub timestamp: i64,
    pub source: String,
    pub trace_id: Option<String>,
    pub payload: P,
}

/// The envelope a publisher wraps an event in: its topic and version, the
/// source `aetherdb` and no trace id.
pub fn envelope_for<E: Event>(event: E, event_id: u128, timestamp: i64) -> (e: Envelope<E>)
    ensures
        e.event_id == event_id,
        e.event_type@ == E::topic_name(),
        e.event_version == E::version_number(),
        e.timestamp == timestamp,
        e.source@ == "aetherdb"@,
        e.trace_id is None,
        e.payload == event,
{
    Envelope {
        event_id,
        event_type: to_owned_string(E::topic()),
        event_version: E::version(),
        timestamp,
        source: to_owned_string("aetherdb"),
        trace_id: None,
        payload: event,
    }
}

pub struct DocumentCreated {
    pub document_id: DocumentId,
    pub content_hash: String,
    pub content_length: u64,
    pub metadata: serde_json::Value,
}

pub struct DocumentUpdated {
    pub document_id: DocumentId,
    pub content_hash: String,
    pub previous_content_hash: String,
    pub content_length: u64,
    pub metadata: serde_json::Value,
}

pub struct DocumentDeleted {
    pub document_id: DocumentId,
}

pub struct EmbeddingCreated {
    pub document_id: DocumentId,
    pub model: String,
    pub dim: u16,
    pub duration_ms: u64,
}

pub struct EmbeddingFailed {
    pub document_id: DocumentId,
    pub model: String,
    pub attempts: u32,
    pub last_error: String,
    pub first_attempt_at: i64,
    pub last_attempt_at: i64,
}

pub struct ApiTelemetry {
    pub method: String,
    pub path: String,
    pub status: u16,
    pub duration_ms: u64,
    pub request_id: u128,
}

pub struct AnalyticsIngested {
    pub table: String,
    pub batch_size: u64,
    pub lag_ms: u64,
}

pub struct EntitiesExtracted {
    pub document_id: DocumentId,
    pub entity_count: u32,
    pub relationship_count: u32,
    pub model: String,
    pub duration_ms: u64,
}

pub struct ExtractionFailed {
    pub document_id: DocumentId,
    pub model: String,
    pub attempts: u32,
    pub last_error: String,
    pub first_attempt_at: i64,
    pub last_attempt_at: i64,
}

pub struct HnswRebuilt {
    pub vector_count: u64,
    pub build_duration_ms: u64,
    pub ef_construction: u32,
    pub m_param: u32,
}

impl Event for DocumentCreated {
    open spec fn topic_name() -> Seq<char> {
        "documents.created"@
    }

    open spec fn version_number() -> u32 {
        1
    }

    open spec fn key_text(&self) -> Seq<char> {
        uuid_text(self.document_id.0)
    }

    fn topic() -> (t: &'static str) {
        "documents.created"
    }

    fn version() -> (v: u32) {
        1
    }

    fn key(&self) -> (k: String) {
        self.document_id.to_string()
    }
}

impl Event for DocumentUpdated {
    open spec fn topic_name() -> Seq<char> {
        "documents.updated"@
    }

    open spec fn version_number() -> u32 {
        1
    }

    open spec fn key_text(&self) -> Seq<char> {
        uuid_text(self.document_id.0)
    }

    fn topic() -> (t: &'static str) {
        "documents.updated"
    }

    fn version() -> (v: u32) {
        1
    }

    fn key(&self) -> (k: String) {
        self.document_id.to_string()
    }
}

impl Event for DocumentDeleted {
    open spec fn topic_name() -> Seq<char> {
        "documents.deleted"@
    }

    open spec fn version_number() -> u32 {
        1
    }

    open spec fn key_text(&self) -> Seq<char> {
        uuid_text(self.document_id.0)
    }

    fn topic() -> (t: &'static str) {
        "documents.deleted"
    }

    fn version() -> (v: u32) {
        1
    }

    fn key(&self) -> (k: String) {
        self.document_id.to_string()
    }
}

impl Event for EmbeddingCreated {
    open spec fn topic_name() -> Seq<char> {
        "embeddings.created"@
    }

    open spec fn version_number() -> u32 {
        1
    }

    open spec fn key_text(&self) -> Seq<char> {
        uuid_text(self.document_id.0)
    }

    fn topic() -> (t: &'static str) {
        "embeddings.created"
    }

    fn version() -> (v: u32) {
        1
    }

    fn key(&self) -> (k: String) {
        self.document_id.to_string()
    }
}

impl Event for EmbeddingFailed {
    open spec fn topic_name() -> Seq<char> {
        "embeddings.dlq"@
    }

    open spec fn version_number() -> u32 {
        1
    }

    open spec fn key_text(&self) -> Seq<char> {
        uuid_text(self.document_id.0)
    }

    fn topic() -> (t: &'static str) {
        "embeddings.dlq"
    }

    fn version() -> (v: u32) {
        1
    }

    fn key(&self) -> (k: String) {
        self.document_id.to_string()
    }
}

impl Event for ApiTelemetry {
    open spec fn topic_name() -> Seq<char> {
        "telemetry.api"@
    }

    open spec fn version_number() -> u32 {
        1
    }

    open spec fn key_text(&self) -> Seq<char> {
        uuid_text(self.request_id)
    }

    fn topic() -> (t: &'static str) {
        "telemetry.api"
    }

    fn version() -> (v: u32) {
        1
    }

    fn key(&self) -> (k: String) {
        uuid_to_string(self.request_id)
    }
}

impl Event for AnalyticsIngested {
    open spec fn topic_name() -> Seq<char> {
        "analytics.ingested"@
    }

    open spec fn version_number() -> u32 {
        1
    }

    open spec fn key_text(&self) -> Seq<char> {
        self.table@
    }

    fn topic() -> (t: &'static str) {
        "analytics.ingested"
    }

    fn version() -> (v: u32) {
        1
    }

    fn key(&self) -> (k: String) {
        self.table.clone()
    }
}

impl Event for EntitiesExtracted {
    open spec fn topic_name() -> Seq<char> {
        "entities.extracted"@
    }

    open spec fn version_number() -> u32 {
        1
    }

    open spec fn key_text(&self) -> Seq<char> {
        uuid_text(self.document_id.0)
    }

    fn topic() -> (t: &'static str) {
        "entities.extracted"
    }

    fn version() -> (v: u32) {
        1
    }

    fn key(&self) -> (k: String) {
        self.document_id.to_string()
    }
}

impl Event for ExtractionFailed {
    open spec fn topic_name() -> Seq<char> {
        "entities.dlq"@
    }

    open spec fn version_number() -> u32 {
        1
    }

    open spec fn key_text(&self) -> Seq<char> {
        uuid_text(self.document_id.0)
    }

    fn topic() -> (t: &'static str) {
        "entities.dlq"
    }

    fn version() -> (v: u32) {
        1
    }

    fn key(&self) -> (k: String) {
        self.document_id.to_string()
    }
}

impl Event for HnswRebuilt {
    open spec fn topic_name() -> Seq<char> {
        "hnsw.rebuilt"@
    }

    open spec fn version_number() -> u32 {
        1
    }

    open spec fn key_text(&self) -> Seq<char> {
        "hnsw-"@ + decimal_text(self.vector_count as nat)
    }

    fn topic() -> (t: &'static str) {
        "hnsw.rebuilt"
    }

    fn version() -> (v: u32) {
        1
    }

    fn key(&self) -> (k: String) {
        concat("hnsw-", decimal(self.vector_count).as_str())
    }
}

/// Every event about a document is keyed by the hyphenated text of that
/// document's id, 36 characters long, so all events of one document (created,
/// updated, deleted, embedded, extracted, or failed) share one partition and
/// keep their order. The other events are keyed by their request id, their
/// table, or `hnsw-` and the vector count.
pub proof fn lemma_events_are_keyed_by_their_subject(
    created: DocumentCreated,
    updated: DocumentUpdated,
    deleted: DocumentDeleted,
    embedded: EmbeddingCreated,
    embedding_failed: EmbeddingFailed,
    extracted: EntitiesExtracted,
    extraction_failed: ExtractionFailed,
    telemetry: ApiTelemetry,
    ingested: AnalyticsIngested,
    rebuilt: HnswRebuilt,
)
    ensures
        created.key_text() == uuid_text(created.document_id.0),
        updated.key_text() == uuid_text(updated.document_id.0),
        deleted.key_text() == uuid_text(deleted.document_id.0),
        embedded.key_text() == uuid_text(embedded.document_id.0),
        embedding_failed.key_text() == uuid_text(embedding_failed.document_id.0),
        extracted.key_text() == uuid_text(extracted.document_id.0),
        extraction_failed.key_text() == uuid_text(extraction_failed.document_id.0),
        updated.key_text().len() == 36,
        created.document_id == updated.document_id ==> created.key_text() == updated.key_text(),
        updated.document_id == deleted.document_id ==> updated.key_text() == deleted.key_text(),
        telemetry.key_text() == uuid_text(telemetry.request_id),
        ingested.key_text() == ingested.table@,
        rebuilt.key_text() == "hnsw-"@ + decimal_text(rebuilt.vector_count as nat),
{
    let x = updated.document_id.0;
    crate::hex::lemma_hex_encode_len(crate::ids::uuid_bytes(x, 0, 4));
    crate::hex::lemma_hex_encode_len(crate::ids::uuid_bytes(x, 4, 6));
    crate::hex::lemma_hex_encode_len(crate::ids::uuid_bytes(x, 6, 8));
    crate::hex::lemma_hex_encode_len(crate::ids::uuid_bytes(x, 8, 10));
    crate::hex::lemma_hex_encode_len(crate::ids::uuid_bytes(x, 10, 16));
    reveal_strlit("-");
}

/// Each event is published on its own topic, with schema version 1.
pub proof fn lemma_event_topics()
    ensures
        DocumentCreated::topic_name() == "documents.created"@,
        DocumentUpdated::topic_name() == "documents.updated"@,
        DocumentDeleted::topic_name() == "documents.deleted"@,
        EmbeddingCreated::topic_name() == "embeddings.created"@,
        EmbeddingFailed::topic_name() == "embeddings.dlq"@,
        ApiTelemetry::topic_name() == "telemetry.api"@,
        AnalyticsIngested::topic_name() == "analytics.ingested"@,
        EntitiesExtracted::topic_name() == "entities.extracted"@,
        ExtractionFailed::topic_name() == "entities.dlq"@,
        HnswRebuilt::topic_name() == "hnsw.rebuilt"@,
        DocumentCreated::version_number() == 1 && DocumentUpdated::version_number() == 1
            && DocumentDeleted::version_number() == 1 && EmbeddingCreated::version_number() == 1
            && EmbeddingFailed::version_number() == 1 && ApiTelemetry::version_number() == 1
            && AnalyticsIngested::version_number() == 1 && EntitiesExtracted::version_number() == 1
            && ExtractionFailed::version_number() == 1 && HnswRebuilt::version_number() == 1,
{
}

} // verus!
