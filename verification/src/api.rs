//! The shapes of the HTTP API's requests and responses that carry no
//! floating-point values, and the defaults of optional request fields.
//! Times are milliseconds since the Unix epoch.
use vstd::prelude::*;

use crate::domain::EntityType;
use crate::ids::{DocumentId, EntityId};

verus! {

pub struct CreateDocumentRequest {
    pub content: String,
    pub metadata: serde_json::Value,
}

pub struct UpdateDocumentRequest {
    pub content: String,
    pub metadata: serde_json::Value,
}

pub struct CreateDocumentResponse {
    pub id: DocumentId,
    pub created_at: i64,
}

pub struct DocumentDto {
    pub id: DocumentId,
    pub content: String,
    pub metadata: serde_json::Value,
    pub created_at: i64,
    pub updated_at: i64,
}

pub struct EntityDto {
    pub id: EntityId,
    pub name: String,
    pub entity_type: EntityType,
    pub document_id: DocumentId,
    pub created_at: i64,
}

pub struct EntitiesResponse {
    pub entities: Vec<EntityDto>,
}

pub struct RelatedDocumentHit {
    pub document_id: DocumentId,
    pub entity_name: String,
    pub hop_count: u32,
}

pub struct RelatedDocumentsResponse {
    pub documents: Vec<RelatedDocumentHit>,
}

/// The number of results a search request asks for when it names none.
pub fn default_top_k() -> (k: u32)
    ensures
        k == 10,
{
    10
}

/// The traversal depth a hybrid search request uses when it names none.
pub fn default_graph_depth() -> (d: u32)
    ensures
        d == 2,
{
    2
}

} // verus!
