//! The domain's types and errors.
use vstd::prelude::*;

use crate::ids::DocumentId;
use crate::ids::EntityId;
use crate::ids::RelationshipId;
use crate::outside::{str_lowercase, to_lowercase};
use crate::decimal::{decimal, decimal_text};
use crate::ids::uuid_text;
use crate::text::{ascii_lower, concat, str_eq, to_owned_string};

verus! {

/// The SHA-256 digest of a document's content.
#[derive(Debug, Clone, Copy)]
pub struct ContentHash(pub [u8; 32]);

/// The first 32 bytes of `bytes`, zero-padded to 32.
pub open spec fn padded_hash(bytes: Seq<u8>) -> Seq<u8> {
    Seq::new(32, |i: int| if i < bytes.len() { bytes[i] } else { 0u8 })
}

impl ContentHash {
    /// A hash read back from stored bytes: the first 32 bytes, zero-padded
    /// when fewer are given.
    pub fn from_prefix(bytes: &[u8]) -> (h: ContentHash)
        ensures
            h.0@ == padded_hash(bytes@),
    {
        let mut hash = [0u8; 32];
        let n = if bytes.len() < 32 { bytes.len() } else { 32 };
        let mut i: usize = 0;
        while i < n
            invariant
                n <= 32,
                n <= bytes@.len(),
                n == bytes@.len() || n == 32,
                i <= n,
                hash@.len() == 32,
                forall|j: int| 0 <= j < i ==> hash@[j] == bytes@[j],
                forall|j: int| n <= j < 32 ==> hash@[j] == 0,
            decreases n - i,
        {
            hash[i] = bytes[i];
            i = i + 1;
        }
        let h = ContentHash(hash);
        assert(h.0@ =~= padded_hash(bytes@));
        h
    }
}

/// The name of an embedding model.
#[derive(Debug, Clone)]
pub struct EmbeddingModel(pub String);

/// A stored document. Timestamps are milliseconds since the Unix epoch.
pub struct Document {
    pub id: DocumentId,
    pub content: String,
    pub metadata: serde_json::Value,
    pub content_hash: ContentHash,
    pub created_at: i64,
    pub updated_at: i64,
}

/// A response kept for replay under an idempotency key.
#[derive(Debug, Clone)]
pub struct CachedResponse {
    pub status_code: u16,
    pub body: String,
}

/// The kind of an entity of the knowledge graph.
#[derive(Debug, Clone, Copy, PartialEq, Eq, Structural, Hash)]
pub enum EntityType {
    Person,
    Organization,
    Concept,
    Location,
    Event,
    Technology,
    Other,
}

/// The entity type that a lower-case name stands for; unknown names are `Other`.
pub open spec fn entity_type_of_lowered(s: Seq<char>) -> EntityType {
    if s == "person"@ {
        EntityType::Person
    } else if s == "organization"@ || s == "org"@ {
        EntityType::Organization
    } else if s == "concept"@ {
        EntityType::Concept
    } else if s == "location"@ || s == "place"@ {
        EntityType::Location
    } else if s == "event"@ {
        EntityType::Event
    } else if s == "technology"@ || s == "tech"@ {
        EntityType::Technology
    } else {
        EntityType::Other
    }
}

/// The canonical name of an entity type.
pub open spec fn entity_type_name(t: EntityType) -> Seq<char> {
    match t {
        EntityType::Person => "person"@,
        EntityType::Organization => "organization"@,
        EntityType::Concept => "concept"@,
        EntityType::Location => "location"@,
        EntityType::Event => "event"@,
        EntityType::Technology => "technology"@,
        EntityType::Other => "other"@,
    }
}

impl EntityType {
    /// The entity type that an already lower-cased name stands for.
    pub fn from_lowered(s: &str) -> (t: EntityType)
        ensures
            t == entity_type_of_lowered(s@),
    {
        if str_eq(s, "person") {
            EntityType::Person
        } else if str_eq(s, "organization") || str_eq(s, "org") {
            EntityType::Organization
        } else if str_eq(s, "concept") {
            EntityType::Concept
        } else if str_eq(s, "location") || str_eq(s, "place") {
            EntityType::Location
        } else if str_eq(s, "event") {
            EntityType::Event
        } else if str_eq(s, "technology") || str_eq(s, "tech") {
            EntityType::Technology
        } else {
            EntityType::Other
        }
    }

    /// The entity type a name stands for, ignoring case; unknown names are `Other`.
    pub fn from_str_lossy(s: &str) -> (t: EntityType)
        ensures
            t == entity_type_of_lowered(str_lowercase(s@)),
            vstd::utf8::is_ascii_chars(s@) ==> t == entity_type_of_lowered(ascii_lower(s@)),
    {
        let lowered = to_lowercase(s);
        EntityType::from_lowered(lowered.as_str())
    }

    /// The canonical lower-case name, as the type is shown and stored.
    pub fn as_str(&self) -> (s: &'static str)
        ensures
            s@ == entity_type_name(*self),
    {
        match self {
            EntityType::Person => "person",
            EntityType::Organization => "organization",
            EntityType::Concept => "concept",
            EntityType::Location => "location",
            EntityType::Event => "event",
            EntityType::Technology => "technology",
            EntityType::Other => "other",
        }
    }

    /// The canonical name as an owned string.
    pub fn to_string(&self) -> (s: String)
        ensures
            s@ == entity_type_name(*self),
    {
        self.as_str().to_owned()
    }
}

/// An entity type's name reads back as that type: the name is ASCII, already
/// lower-case, and stands for the type it names.
pub proof fn lemma_entity_type_name_roundtrip(t: EntityType)
    ensures
        vstd::utf8::is_ascii_chars(entity_type_name(t)),
        ascii_lower(entity_type_name(t)) == entity_type_name(t),
        entity_type_of_lowered(entity_type_name(t)) == t,
{
    reveal_strlit("person");
    reveal_strlit("organization");
    reveal_strlit("org");
    reveal_strlit("concept");
    reveal_strlit("location");
    reveal_strlit("place");
    reveal_strlit("event");
    reveal_strlit("technology");
    reveal_strlit("tech");
    reveal_strlit("other");
    let n = entity_type_name(t);
    assert(ascii_lower(n) =~= n);
    assert(n.len() != 5 || n[0] != "place"@[0] || t == EntityType::Location);
    assert(n.len() != 5 || n[0] != "event"@[0] || t == EntityType::Event);
}

/// A relationship between two entities, found in a document. The weight is
/// the bit pattern of an `f32`.
pub struct Relationship {
    pub id: RelationshipId,
    pub source_entity_id: EntityId,
    pub target_entity_id: EntityId,
    pub relationship_type: String,
    pub weight: u32,
    pub document_id: DocumentId,
    pub created_at: i64,
}

/// An entity of the knowledge graph, found in a document.
pub struct Entity {
    pub id: EntityId,
    pub name: String,
    pub entity_type: EntityType,
    pub document_id: DocumentId,
    pub created_at: i64,
}

#[derive(Debug)]
pub enum DomainError {
    NotFound(DocumentId),
    Validation(String),
    DimensionMismatch { expected: usize, got: usize },
}

#[derive(Debug)]
pub enum StorageError {
    Connection(String),
    Query(String),
    Migration(String),
    Other(String),
    Sync(String),
}

impl StorageError {
    /// Connection and sync failures may succeed when tried again.
    pub fn is_retryable(&self) -> (r: bool)
        ensures
            r == (self is Connection || self is Sync),
    {
        match self {
            StorageError::Connection(_) | StorageError::Sync(_) => true,
            _ => false,
        }
    }
}

#[derive(Debug)]
pub enum VectorError {
    DimensionMismatch { expected: usize, got: usize },
    NonFinite,
    InvalidTopK(usize),
    Storage(StorageError),
}

#[derive(Debug)]
pub enum GraphError {
    EntityNotFound(String),
    ExtractionFailed(String),
    InvalidDepth(u32),
    Storage(StorageError),
}

#[derive(Debug)]
pub enum HnswError {
    NotReady,
    DimensionMismatch { expected: usize, got: usize },
    Storage(StorageError),
    Build(String),
}

#[derive(Debug)]
pub enum MessagingError {
    Connection(String),
    Publish(String),
    Consume(String),
    Other(String),
}

/// `prefix`, then "expected" and "got" counts, as the dimension errors show them.
pub open spec fn mismatch_text(prefix: Seq<char>, expected: nat, got: nat) -> Seq<char> {
    prefix + "expected "@ + decimal_text(expected) + ", got "@ + decimal_text(got)
}

pub(crate) fn mismatch_string(prefix: &str, expected: usize, got: usize) -> (s: String)
    ensures
        s@ == mismatch_text(prefix@, expected as nat, got as nat),
{
    let mut s = to_owned_string(prefix);
    s.append("expected ");
    s.append(decimal(expected as u64).as_str());
    s.append(", got ");
    s.append(decimal(got as u64).as_str());
    s
}

impl DomainError {
    /// The error as it is shown.
    pub open spec fn message(&self) -> Seq<char> {
        match self {
            DomainError::NotFound(id) => "document not found: "@ + uuid_text(id.0),
            DomainError::Validation(m) => "validation failed: "@ + m@,
            DomainError::DimensionMismatch { expected, got } => mismatch_text(
                "embedding dimension mismatch: "@,
                *expected as nat,
                *got as nat,
            ),
        }
    }

    pub fn to_string(&self) -> (s: String)
        ensures
            s@ == self.message(),
    {
        match self {
            DomainError::NotFound(id) => concat("document not found: ", id.to_string().as_str()),
            DomainError::Validation(m) => concat("validation failed: ", m.as_str()),
            DomainError::DimensionMismatch { expected, got } => mismatch_string(
                "embedding dimension mismatch: ",
                *expected,
                *got,
            ),
        }
    }
}

impl StorageError {
    /// The error as it is shown.
    pub open spec fn message(&self) -> Seq<char> {
        match self {
            StorageError::Connection(m) => "connection error: "@ + m@,
            StorageError::Query(m) => "query error: "@ + m@,
            StorageError::Migration(m) => "migration error: "@ + m@,
            StorageError::Other(m) => m@,
            StorageError::Sync(m) => "sync error: "@ + m@,
        }
    }

    pub fn to_string(&self) -> (s: String)
        ensures
            s@ == self.message(),
    {
        match self {
            StorageError::Connection(m) => concat("connection error: ", m.as_str()),
            StorageError::Query(m) => concat("query error: ", m.as_str()),
            StorageError::Migration(m) => concat("migration error: ", m.as_str()),
            StorageError::Other(m) => to_owned_string(m.as_str()),
            StorageError::Sync(m) => concat("sync error: ", m.as_str()),
        }
    }
}

impl VectorError {
    /// The error as it is shown.
    pub open spec fn message(&self) -> Seq<char> {
        match self {
            VectorError::DimensionMismatch { expected, got } => mismatch_text(
                "dimension mismatch: "@,
                *expected as nat,
                *got as nat,
            ),
            VectorError::NonFinite => "vector contains non-finite values"@,
            VectorError::InvalidTopK(k) => "top_k must be in 1..=100, got "@ + decimal_text(*k as nat),
            VectorError::Storage(e) => "storage error: "@ + e.message(),
        }
    }

    pub fn to_string(&self) -> (s: String)
        ensures
            s@ == self.message(),
    {
        match self {
            VectorError::DimensionMismatch { expected, got } => mismatch_string("dimension mismatch: ", *expected, *got),
            VectorError::NonFinite => to_owned_string("vector contains non-finite values"),
            VectorError::InvalidTopK(k) => concat("top_k must be in 1..=100, got ", decimal(*k as u64).as_str()),
            VectorError::Storage(e) => concat("storage error: ", e.to_string().as_str()),
        }
    }
}

impl GraphError {
    /// The error as it is shown.
    pub open spec fn message(&self) -> Seq<char> {
        match self {
            GraphError::EntityNotFound(n) => "entity not found: "@ + n@,
            GraphError::ExtractionFailed(m) => "extraction failed: "@ + m@,
            GraphError::InvalidDepth(d) => "invalid traversal depth: "@ + decimal_text(*d as nat) + " (max 5)"@,
            GraphError::Storage(e) => "storage error: "@ + e.message(),
        }
    }

    pub fn to_string(&self) -> (s: String)
        ensures
            s@ == self.message(),
    {
        match self {
            GraphError::EntityNotFound(n) => concat("entity not found: ", n.as_str()),
            GraphError::ExtractionFailed(m) => concat("extraction failed: ", m.as_str()),
            GraphError::InvalidDepth(d) => {
                let head = concat("invalid traversal depth: ", decimal(*d as u64).as_str());
                concat(head.as_str(), " (max 5)")
            },
            GraphError::Storage(e) => concat("storage error: ", e.to_string().as_str()),
        }
    }
}

impl HnswError {
    /// The error as it is shown.
    pub open spec fn message(&self) -> Seq<char> {
        match self {
            HnswError::NotReady => "index not ready"@,
            HnswError::DimensionMismatch { expected, got } => mismatch_text(
                "dimension mismatch: "@,
                *expected as nat,
                *got as nat,
            ),
            HnswError::Storage(e) => "storage error: "@ + e.message(),
            HnswError::Build(m) => "build error: "@ + m@,
        }
    }

    pub fn to_string(&self) -> (s: String)
        ensures
            s@ == self.message(),
    {
        match self {
            HnswError::NotReady => to_owned_string("index not ready"),
            HnswError::DimensionMismatch { expected, got } => mismatch_string("dimension mismatch: ", *expected, *got),
            HnswError::Storage(e) => concat("storage error: ", e.to_string().as_str()),
            HnswError::Build(m) => concat("build error: ", m.as_str()),
        }
    }
}

impl MessagingError {
    /// The error as it is shown.
    pub open spec fn message(&self) -> Seq<char> {
        match self {
            MessagingError::Connection(m) => "connection error: "@ + m@,
            MessagingError::Publish(m) => "publish error: "@ + m@,
            MessagingError::Consume(m) => "consume error: "@ + m@,
            MessagingError::Other(m) => m@,
        }
    }

    pub fn to_string(&self) -> (s: String)
        ensures
            s@ == self.message(),
    {
        match self {
            MessagingError::Connection(m) => concat("connection error: ", m.as_str()),
            MessagingError::Publish(m) => concat("publish error: ", m.as_str()),
            MessagingError::Consume(m) => concat("consume error: ", m.as_str()),
            MessagingError::Other(m) => to_owned_string(m.as_str()),
        }
    }
}

} // verus!
