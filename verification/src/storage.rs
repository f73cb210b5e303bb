//! The decisions of the storage layer, and the reading back of stored rows.
//! The database calls themselves are made by the caller.
use vstd::prelude::*;

use crate::decimal::{decimal, decimal_at_most, decimal_text, parse_u64};
use crate::domain::{
    entity_type_of_lowered, padded_hash, CachedResponse, ContentHash, Document, Entity, EntityType, Relationship,
    StorageError,
};
use crate::edge::normalized_millis;
use crate::hex::{encode, hex_encode};
use crate::hlc::HlcTimestamp;
use crate::ids::{uuid_text, uuid_to_string, DocumentId, EntityId, NodeId, RelationshipId};
use crate::merge::VersionedDocument;
use crate::outside::{
    json_parse_error, json_parsed, millis_in_range, parse_json, parse_uuid, render_json, str_lowercase,
    uuid_parsed,
};
use crate::protocol::Change;
use crate::text::{concat, to_owned_string};

verus! {

#[derive(Debug, Clone, Copy, PartialEq, Eq, Structural)]
pub enum StorageMode {
    Local,
    Replica,
}

/// What syncing a replica did.
#[derive(Debug)]
pub struct SyncStats {
    pub duration: core::time::Duration,
    pub frames_synced: usize,
}

/// Which database a storage connects to.
pub enum ConnectTarget {
    /// A local replica at `local_path` of the database at `url`.
    Replica { local_path: String, url: String, auth_token: String },
    /// A local database file, or an in-memory database.
    Local { url: String },
    /// A remote database.
    Remote { url: String, auth_token: String },
}

/// `s` contains `pat` somewhere.
pub open spec fn has_infix(s: Seq<char>, pat: Seq<char>) -> bool {
    exists|i: int| 0 <= i <= s.len() - pat.len() && #[trigger] s.subrange(i, i + pat.len()) == pat
}

/// Whether `pat` occurs in `s`.
pub fn contains_text(s: &str, pat: &str) -> (r: bool)
    ensures
        r == has_infix(s@, pat@),
{
    let n = s.unicode_len();
    let m = pat.unicode_len();
    if m > n {
        return false;
    }
    let mut i: usize = 0;
    while i <= n - m
        invariant
            n == s@.len(),
            m == pat@.len(),
            m <= n,
            i <= n - m + 1,
            forall|k: int| 0 <= k < i ==> #[trigger] s@.subrange(k, k + m) != pat@,
        decreases n - m + 1 - i,
    {
        let mut j: usize = 0;
        let mut same = true;
        while j < m
            invariant
                n == s@.len(),
                m == pat@.len(),
                i + m <= n,
                j <= m,
                same == (forall|t: int| 0 <= t < j ==> s@[i + t] == pat@[t]),
            decreases m - j,
        {
            if s.get_char(i + j) != pat.get_char(j) {
                same = false;
            }
            j = j + 1;
        }
        if same {
            assert(s@.subrange(i as int, i + m) =~= pat@);
            return true;
        }
        proof {
            if s@.subrange(i as int, i + m) == pat@ {
                let t = choose|t: int| 0 <= t < m && s@[i + t] != pat@[t];
                assert(s@.subrange(i as int, i + m)[t] == s@[i + t]);
            }
        }
        i = i + 1;
    }
    false
}

pub open spec fn opt_str(o: Option<&str>) -> Option<Seq<char>> {
    match o {
        Some(s) => Some(s@),
        None => None,
    }
}

/// Where a storage connects: a replica when a local replica path is given;
/// otherwise a local database for a `file:` URL or one naming `:memory:`, and
/// a remote database for any other URL. A missing auth token is empty.
pub fn connect_target(url: &str, auth_token: Option<&str>, replica_local_path: Option<&str>) -> (t: ConnectTarget)
    ensures
        match t {
            ConnectTarget::Replica { local_path, url: u, auth_token: tok } => {
                &&& opt_str(replica_local_path) == Some(local_path@)
                &&& u@ == url@
                &&& tok@ == (match opt_str(auth_token) { Some(a) => a, None => Seq::empty() })
            },
            ConnectTarget::Local { url: u } => {
                &&& replica_local_path is None
                &&& crate::config::starts_with_file(url@) || has_infix(url@, ":memory:"@)
                &&& u@ == url@
            },
            ConnectTarget::Remote { url: u, auth_token: tok } => {
                &&& replica_local_path is None
                &&& !(crate::config::starts_with_file(url@) || has_infix(url@, ":memory:"@))
                &&& u@ == url@
                &&& tok@ == (match opt_str(auth_token) { Some(a) => a, None => Seq::empty() })
            },
        },
{
    let token = match auth_token {
        Some(a) => to_owned_string(a),
        None => String::new(),
    };
    match replica_local_path {
        Some(p) => ConnectTarget::Replica { local_path: to_owned_string(p), url: to_owned_string(url), auth_token: token },
        None => if crate::config::is_file_url(url) || contains_text(url, ":memory:") {
            ConnectTarget::Local { url: to_owned_string(url) }
        } else {
            ConnectTarget::Remote { url: to_owned_string(url), auth_token: token }
        },
    }
}

impl ConnectTarget {
    /// A replica target syncs from its primary; the others are local.
    pub fn mode(&self) -> (m: StorageMode)
        ensures
            m == (if self is Replica { StorageMode::Replica } else { StorageMode::Local }),
    {
        match self {
            ConnectTarget::Replica { .. } => StorageMode::Replica,
            _ => StorageMode::Local,
        }
    }
}

/// The embedding dimension the embeddings table is created with: the value of
/// `AETHERDB_EMBED_DIM` read as a `u32`, or 768 when it is unset or unreadable.
pub open spec fn table_dim(dim_var: Option<Seq<char>>) -> nat {
    match dim_var {
        Some(s) => match decimal_at_most(s, u32::MAX as nat) {
            Some(v) => v,
            None => 768,
        },
        None => 768,
    }
}

pub open spec fn embeddings_table_sql(dim: nat) -> Seq<char> {
    "CREATE TABLE IF NOT EXISTS document_embeddings (\n            document_id TEXT NOT NULL UNIQUE REFERENCES documents(id) ON DELETE CASCADE,\n            embedding   F32_BLOB("@
        + decimal_text(dim)
        + ") NOT NULL,\n            model       TEXT NOT NULL,\n            dim         INTEGER NOT NULL,\n            created_at  INTEGER NOT NULL\n        );\n\n        CREATE INDEX IF NOT EXISTS idx_embeddings_vector ON document_embeddings(\n            libsql_vector_idx(embedding, 'metric=cosine')\n        );"@
}

/// The second migration: the embeddings table, its vectors as wide as the
/// configured dimension, and its vector index. `dim_var` is the value of
/// `AETHERDB_EMBED_DIM`, if set.
pub fn migration_002(dim_var: Option<&str>) -> (sql: String)
    ensures
        sql@ == embeddings_table_sql(table_dim(opt_str(dim_var))),
{
    let dim: u64 = match dim_var {
        Some(s) => match parse_u64(s) {
            Some(v) if v <= 4294967295 => v,
            _ => {
                proof {
                    assert(decimal_at_most(s@, u32::MAX as nat) is None);
                }
                768
            },
        },
        None => 768,
    };
    let head = concat(
        "CREATE TABLE IF NOT EXISTS document_embeddings (\n            document_id TEXT NOT NULL UNIQUE REFERENCES documents(id) ON DELETE CASCADE,\n            embedding   F32_BLOB(",
        decimal(dim).as_str(),
    );
    concat(
        head.as_str(),
        ") NOT NULL,\n            model       TEXT NOT NULL,\n            dim         INTEGER NOT NULL,\n            created_at  INTEGER NOT NULL\n        );\n\n        CREATE INDEX IF NOT EXISTS idx_embeddings_vector ON document_embeddings(\n            libsql_vector_idx(embedding, 'metric=cosine')\n        );",
    )
}

/// A row of the documents table, as read.
pub struct DocumentRow {
    pub id: String,
    pub content: String,
    pub metadata: String,
    pub content_hash: Vec<u8>,
    pub created_at: i64,
    pub updated_at: i64,
}

/// The extra columns a row carries when read with its clock stamp.
pub struct SyncColumns {
    pub hlc_wall_ms: i64,
    pub hlc_counter: i64,
    pub origin_node: String,
    pub deleted: i64,
}

/// The stored node of a row: the nil node for an empty column, else the
/// parsed UUID.
pub open spec fn origin_of(text: Seq<char>) -> Result<u128, Seq<char>> {
    if text.len() == 0 {
        Ok(0)
    } else {
        uuid_parsed(text)
    }
}

/// The document a row holds, or the query error it fails with: the id must
/// parse as a UUID and the metadata as JSON (in that order); the hash keeps
/// its first 32 bytes, zero-padded; times outside chrono's range read as the
/// epoch.
pub open spec fn document_row_ok(row: &DocumentRow, d: &Document) -> bool {
    &&& uuid_parsed(row.id@) == Ok::<u128, Seq<char>>(d.id.0)
    &&& d.content == row.content
    &&& json_parsed(row.metadata@) == Ok::<serde_json::Value, Seq<char>>(d.metadata)
    &&& d.content_hash.0@ == padded_hash(row.content_hash@)
    &&& d.created_at == normalized_millis(row.created_at)
    &&& d.updated_at == normalized_millis(row.updated_at)
}

/// The query error a row fails with, if it fails.
pub open spec fn document_row_error(row: &DocumentRow) -> Option<Seq<char>> {
    match uuid_parsed(row.id@) {
        Err(e) => Some(e),
        Ok(_) => json_parse_error(row.metadata@),
    }
}

pub open spec fn is_query_error(e: StorageError, msg: Seq<char>) -> bool {
    e matches StorageError::Query(m) && m@ == msg
}

/// Reads a document back from its row.
pub fn document_from_row(row: DocumentRow) -> (r: Result<Document, StorageError>)
    ensures
        match document_row_error(&row) {
            Some(msg) => r matches Err(e) && is_query_error(e, msg),
            None => r matches Ok(d) && document_row_ok(&row, &d),
        },
        forall|x: u128| #[trigger] uuid_text(x) == row.id@ ==> {
            &&& r matches Ok(d) ==> d.id.0 == x
            &&& r is Err ==> json_parse_error(row.metadata@) is Some
        },
{
    let id = match parse_uuid(row.id.as_str()) {
        Ok(v) => v,
        Err(e) => return Err(StorageError::Query(e)),
    };
    let metadata = match parse_json(row.metadata.as_str()) {
        Ok(v) => v,
        Err(e) => return Err(StorageError::Query(e)),
    };
    let content_hash = ContentHash::from_prefix(row.content_hash.as_slice());
    let created_at = if millis_in_range(row.created_at) { row.created_at } else { 0 };
    let updated_at = if millis_in_range(row.updated_at) { row.updated_at } else { 0 };
    Ok(Document { id: DocumentId(id), content: row.content, metadata, content_hash, created_at, updated_at })
}

/// Reads a document back with its clock stamp, origin node and deletion flag.
/// The counter column keeps its low 32 bits; any nonzero deletion column
/// means deleted.
pub fn versioned_from_row(row: DocumentRow, sync: SyncColumns) -> (r: Result<VersionedDocument, StorageError>)
    ensures
        forall|x: u128| #[trigger] uuid_text(x) == row.id@ ==> (r matches Ok(v) ==> v.document.id.0 == x),
        forall|y: u128| #[trigger] uuid_text(y) == sync.origin_node@ ==> (r matches Ok(v) ==> v.origin_node.0 == y),
        (exists|x: u128| #[trigger] uuid_text(x) == row.id@) && json_parse_error(row.metadata@) is None
            && (exists|y: u128| #[trigger] uuid_text(y) == sync.origin_node@) ==> r is Ok,
        match document_row_error(&row) {
            Some(msg) => r matches Err(e) && is_query_error(e, msg),
            None => match origin_of(sync.origin_node@) {
                Err(msg) => r matches Err(e) && is_query_error(e, msg),
                Ok(node) => r matches Ok(v) && {
                    &&& document_row_ok(&row, &v.document)
                    &&& v.hlc_ts == (HlcTimestamp { wall_ms: sync.hlc_wall_ms, counter: sync.hlc_counter as u32 })
                    &&& v.origin_node == NodeId(node)
                    &&& v.deleted == (sync.deleted != 0)
                },
            },
        },
{
    let id = match parse_uuid(row.id.as_str()) {
        Ok(v) => v,
        Err(e) => return Err(StorageError::Query(e)),
    };
    let metadata = match parse_json(row.metadata.as_str()) {
        Ok(v) => v,
        Err(e) => return Err(StorageError::Query(e)),
    };
    let content_hash = ContentHash::from_prefix(row.content_hash.as_slice());
    let origin = match node_from_text(sync.origin_node.as_str()) {
        Ok(n) => n,
        Err(e) => return Err(e),
    };
    let created_at = if millis_in_range(row.created_at) { row.created_at } else { 0 };
    let updated_at = if millis_in_range(row.updated_at) { row.updated_at } else { 0 };
    Ok(VersionedDocument {
        document: Document { id: DocumentId(id), content: row.content, metadata, content_hash, created_at, updated_at },
        hlc_ts: HlcTimestamp { wall_ms: sync.hlc_wall_ms, counter: sync.hlc_counter as u32 },
        origin_node: NodeId(origin),
        deleted: sync.deleted != 0,
    })
}

/// The node a stored origin column names.
pub fn node_from_text(text: &str) -> (r: Result<u128, StorageError>)
    ensures
        match origin_of(text@) {
            Ok(n) => r == Ok::<u128, StorageError>(n),
            Err(msg) => r matches Err(e) && is_query_error(e, msg),
        },
        forall|y: u128| #[trigger] uuid_text(y) == text@ ==> r == Ok::<u128, StorageError>(y),
{
    if text.is_empty() {
        proof {
            reveal_strlit("-");
            assert forall|y: u128| #[trigger] uuid_text(y) != text@ by {
                assert(uuid_text(y).len() > 0);
            }
        }
        Ok(0)
    } else {
        match parse_uuid(text) {
            Ok(v) => Ok(v),
            Err(e) => Err(StorageError::Query(e)),
        }
    }
}

/// The change a row of the documents table describes, its hash written in
/// lower-case hexadecimal (all of its bytes).
/// `c` is the change a row describes, written by node `node`: its id, content
/// and metadata as read from the row, its hash in hexadecimal, and the row's
/// clock reading and deletion flag.
pub open spec fn change_read_from(row: &DocumentRow, sync: &SyncColumns, node: u128, c: &Change) -> bool {
    &&& uuid_parsed(row.id@) == Ok::<u128, Seq<char>>(c.document_id.0)
    &&& c.content == row.content
    &&& json_parsed(row.metadata@) == Ok::<serde_json::Value, Seq<char>>(c.metadata)
    &&& c.content_hash@ == hex_encode(row.content_hash@)
    &&& c.hlc_ts == (HlcTimestamp { wall_ms: sync.hlc_wall_ms, counter: sync.hlc_counter as u32 })
    &&& c.origin_node == NodeId(node)
    &&& c.deleted == (sync.deleted != 0)
}

pub fn change_from_row(row: DocumentRow, sync: SyncColumns) -> (r: Result<Change, StorageError>)
    ensures
        match document_row_error(&row) {
            Some(msg) => r matches Err(e) && is_query_error(e, msg),
            None => match origin_of(sync.origin_node@) {
                Err(msg) => r matches Err(e) && is_query_error(e, msg),
                Ok(node) => r matches Ok(c) && change_read_from(&row, &sync, node, &c),
            },
        },
{
    let id = match parse_uuid(row.id.as_str()) {
        Ok(v) => v,
        Err(e) => return Err(StorageError::Query(e)),
    };
    let metadata = match parse_json(row.metadata.as_str()) {
        Ok(v) => v,
        Err(e) => return Err(StorageError::Query(e)),
    };
    let origin = match node_from_text(sync.origin_node.as_str()) {
        Ok(n) => n,
        Err(e) => return Err(e),
    };
    let content_hash = encode(row.content_hash.as_slice());
    Ok(Change {
        document_id: DocumentId(id),
        content: row.content,
        metadata,
        content_hash,
        hlc_ts: HlcTimestamp { wall_ms: sync.hlc_wall_ms, counter: sync.hlc_counter as u32 },
        origin_node: NodeId(origin),
        deleted: sync.deleted != 0,
    })
}

/// A row of the entities table, as read.
pub struct EntityRow {
    pub id: String,
    pub name: String,
    pub entity_type: String,
    pub document_id: String,
    pub created_at: i64,
}

/// Reads an entity back from its row: its id, then its document's id, must
/// parse as UUIDs; an unknown type reads as `Other`.
pub fn entity_from_row(row: EntityRow) -> (r: Result<Entity, StorageError>)
    ensures
        match (uuid_parsed(row.id@), uuid_parsed(row.document_id@)) {
            (Err(msg), _) => r matches Err(e) && is_query_error(e, msg),
            (Ok(_), Err(msg)) => r matches Err(e) && is_query_error(e, msg),
            (Ok(id), Ok(doc)) => r matches Ok(ent) && {
                &&& ent.id == EntityId(id)
                &&& ent.name == row.name
                &&& ent.entity_type == entity_type_of_lowered(str_lowercase(row.entity_type@))
                &&& ent.document_id == DocumentId(doc)
                &&& ent.created_at == normalized_millis(row.created_at)
            },
        },
{
    let id = match parse_uuid(row.id.as_str()) {
        Ok(v) => v,
        Err(e) => return Err(StorageError::Query(e)),
    };
    let doc = match parse_uuid(row.document_id.as_str()) {
        Ok(v) => v,
        Err(e) => return Err(StorageError::Query(e)),
    };
    let created_at = if millis_in_range(row.created_at) { row.created_at } else { 0 };
    Ok(Entity {
        id: EntityId(id),
        name: row.name,
        entity_type: EntityType::from_str_lossy(row.entity_type.as_str()),
        document_id: DocumentId(doc),
        created_at,
    })
}

/// The count a `COUNT(*)` query reports: no row counts as zero, and the
/// column's bits are read as unsigned.
pub fn count_from_row(count: Option<i64>) -> (n: u64)
    ensures
        n == (match count { Some(c) => c as u64, None => 0 }),
{
    match count {
        Some(c) => c as u64,
        None => 0,
    }
}

/// A cached response read back from its row: the stored status code's low
/// 16 bits and the body.
pub fn cached_response_from_row(body: String, status: i64) -> (c: CachedResponse)
    ensures
        c.status_code == status as u16,
        c.body == body,
{
    CachedResponse { status_code: status as u16, body }
}

/// When an entry written at `now_ms` with a time to live of `ttl_ms`
/// milliseconds expires: the time to live is read as an `i64`, keeping its
/// low 64 bits.
pub fn expiry_after(now_ms: i64, ttl_ms: u128) -> (t: i64)
    requires
        i64::MIN <= now_ms + (ttl_ms as i64) <= i64::MAX,
    ensures
        t == now_ms + (ttl_ms as i64),
{
    now_ms + ttl_ms as i64
}

/// The earliest creation time that counts as recent at `now_ms` for a window
/// of `window_ms` milliseconds, the window read as an `i64` as above.
pub fn recent_cutoff(now_ms: i64, window_ms: u128) -> (t: i64)
    requires
        i64::MIN <= now_ms - (window_ms as i64) <= i64::MAX,
    ensures
        t == now_ms - (window_ms as i64),
{
    now_ms - window_ms as i64
}

/// A relationship's row as read: its ids as text, its weight as the bits of
/// the `f32` the stored number rounds to, and its creation time.
pub struct RelationshipRow {
    pub id: String,
    pub source_entity_id: String,
    pub target_entity_id: String,
    pub relationship_type: String,
    pub weight: u32,
    pub document_id: String,
    pub created_at: i64,
}

/// The first of a relationship row's ids, in the order id, source, target,
/// document, that does not parse, with the parser's message.
pub open spec fn relationship_row_error(row: &RelationshipRow) -> Option<Seq<char>> {
    if uuid_parsed(row.id@) is Err {
        Some(uuid_parsed(row.id@)->Err_0)
    } else if uuid_parsed(row.source_entity_id@) is Err {
        Some(uuid_parsed(row.source_entity_id@)->Err_0)
    } else if uuid_parsed(row.target_entity_id@) is Err {
        Some(uuid_parsed(row.target_entity_id@)->Err_0)
    } else if uuid_parsed(row.document_id@) is Err {
        Some(uuid_parsed(row.document_id@)->Err_0)
    } else {
        None
    }
}

fn uuid_or_query_error(text: &str) -> (r: Result<u128, StorageError>)
    ensures
        match uuid_parsed(text@) {
            Ok(v) => r == Ok::<u128, StorageError>(v),
            Err(msg) => r matches Err(e) && is_query_error(e, msg),
        },
{
    match parse_uuid(text) {
        Ok(v) => Ok(v),
        Err(e) => Err(StorageError::Query(e)),
    }
}

/// Reads a relationship back from its row: its id, source, target and
/// document must parse as UUIDs, in that order; a time chrono cannot hold
/// reads as 0.
pub fn relationship_from_row(row: RelationshipRow) -> (r: Result<Relationship, StorageError>)
    ensures
        match relationship_row_error(&row) {
            Some(msg) => r matches Err(e) && is_query_error(e, msg),
            None => r matches Ok(rel) && {
                &&& uuid_parsed(row.id@) == Ok::<u128, Seq<char>>(rel.id.0)
                &&& uuid_parsed(row.source_entity_id@) == Ok::<u128, Seq<char>>(rel.source_entity_id.0)
                &&& uuid_parsed(row.target_entity_id@) == Ok::<u128, Seq<char>>(rel.target_entity_id.0)
                &&& uuid_parsed(row.document_id@) == Ok::<u128, Seq<char>>(rel.document_id.0)
                &&& rel.relationship_type == row.relationship_type
                &&& rel.weight == row.weight
                &&& rel.created_at == normalized_millis(row.created_at)
            },
        },
{
    let id = match uuid_or_query_error(row.id.as_str()) {
        Ok(v) => v,
        Err(e) => return Err(e),
    };
    let source = match uuid_or_query_error(row.source_entity_id.as_str()) {
        Ok(v) => v,
        Err(e) => return Err(e),
    };
    let target = match uuid_or_query_error(row.target_entity_id.as_str()) {
        Ok(v) => v,
        Err(e) => return Err(e),
    };
    let document = match uuid_or_query_error(row.document_id.as_str()) {
        Ok(v) => v,
        Err(e) => return Err(e),
    };
    let created_at = if millis_in_range(row.created_at) { row.created_at } else { 0 };
    Ok(Relationship {
        id: RelationshipId(id),
        source_entity_id: EntityId(source),
        target_entity_id: EntityId(target),
        relationship_type: row.relationship_type,
        weight: row.weight,
        document_id: DocumentId(document),
        created_at,
    })
}

/// The row a document is written as: its id in hyphenated text, its
/// metadata as JSON text, its hash bytes and its times. Writing the metadata
/// fails only as the JSON writer does, as a query error.
pub fn document_row_of(doc: &Document) -> (r: Result<DocumentRow, StorageError>)
    ensures
        match r {
            Ok(row) => {
                &&& row.id@ == uuid_text(doc.id.0)
                &&& row.content == doc.content
                &&& row.content_hash@ == doc.content_hash.0@
                &&& row.created_at == doc.created_at
                &&& row.updated_at == doc.updated_at
            },
            Err(e) => e is Query,
        },
{
    let metadata = match render_json(&doc.metadata) {
        Ok(t) => t,
        Err(e) => return Err(StorageError::Query(e)),
    };
    let hash = doc.content_hash.0;
    let mut bytes: Vec<u8> = Vec::new();
    let mut i: usize = 0;
    while i < 32
        invariant
            i <= 32,
            hash@.len() == 32,
            bytes@ == hash@.take(i as int),
        decreases 32 - i,
    {
        bytes.push(hash[i]);
        proof {
            assert(hash@.take(i + 1) =~= hash@.take(i as int).push(hash@[i as int]));
        }
        i = i + 1;
    }
    proof {
        assert(hash@.take(32) =~= hash@);
    }
    Ok(DocumentRow {
        id: uuid_to_string(doc.id.0),
        content: doc.content.clone(),
        metadata,
        content_hash: bytes,
        created_at: doc.created_at,
        updated_at: doc.updated_at,
    })
}

/// The sync columns a write is stored with: its clock reading, its origin
/// node in hyphenated text, and 1 for a deletion, 0 otherwise.
pub fn sync_columns_of(hlc_ts: HlcTimestamp, origin_node: NodeId, deleted: bool) -> (c: SyncColumns)
    ensures
        c.hlc_wall_ms == hlc_ts.wall_ms,
        c.hlc_counter == hlc_ts.counter as i64,
        c.origin_node@ == uuid_text(origin_node.0),
        c.deleted == (if deleted { 1i64 } else { 0i64 }),
{
    SyncColumns {
        hlc_wall_ms: hlc_ts.wall_ms,
        hlc_counter: hlc_ts.counter as i64,
        origin_node: uuid_to_string(origin_node.0),
        deleted: if deleted { 1 } else { 0 },
    }
}

/// A document written as a row and read back keeps its content, its hash
/// and its times (a time chrono cannot hold reads back as 0); its id reads
/// back through `document_from_row`, whose contract ties the hyphenated text
/// to the id it names.
pub proof fn lemma_document_row_roundtrip(doc: Document, row: DocumentRow, d: Document)
    requires
        row.content == doc.content,
        row.content_hash@ == doc.content_hash.0@,
        row.created_at == doc.created_at,
        row.updated_at == doc.updated_at,
        document_row_ok(&row, &d),
    ensures
        d.content == doc.content,
        d.content_hash.0@ == doc.content_hash.0@,
        d.created_at == normalized_millis(doc.created_at),
        d.updated_at == normalized_millis(doc.updated_at),
{
    assert(padded_hash(row.content_hash@) =~= doc.content_hash.0@);
}

/// The sync columns a write stores read back as the same clock reading and
/// deletion flag.
pub proof fn lemma_sync_columns_roundtrip(hlc_ts: HlcTimestamp, deleted: bool, c: SyncColumns)
    requires
        c.hlc_wall_ms == hlc_ts.wall_ms,
        c.hlc_counter == hlc_ts.counter as i64,
        c.deleted == (if deleted { 1i64 } else { 0i64 }),
    ensures
        (HlcTimestamp { wall_ms: c.hlc_wall_ms, counter: c.hlc_counter as u32 }) == hlc_ts,
        (c.deleted != 0) == deleted,
{
}

/// A pulled change carries what its row stores: the metadata JSON parsed
/// (so two rows with the same metadata text give changes with equal
/// metadata, and no change loses it), the row's hash bytes in hexadecimal
/// (two hex digits per byte), its clock reading and its deletion flag.
pub proof fn lemma_change_carries_its_row(row: DocumentRow, sync: SyncColumns, node: u128, c: Change)
    requires
        change_read_from(&row, &sync, node, &c),
    ensures
        json_parsed(row.metadata@) == Ok::<serde_json::Value, Seq<char>>(c.metadata),
        c.content_hash@.len() == 2 * row.content_hash@.len(),
        c.hlc_ts.wall_ms == sync.hlc_wall_ms,
        c.hlc_ts.counter == sync.hlc_counter as u32,
        c.deleted <==> sync.deleted != 0,
        c.content == row.content,
{
    crate::hex::lemma_hex_encode_len(row.content_hash@);
}

/// A change and a versioned document read from the same row agree: the same
/// document id, content, metadata, clock reading, origin and deletion flag.
pub proof fn lemma_change_agrees_with_versioned(
    row: DocumentRow,
    sync: SyncColumns,
    node: u128,
    c: Change,
    v: VersionedDocument,
)
    requires
        change_read_from(&row, &sync, node, &c),
        document_row_ok(&row, &v.document),
        v.hlc_ts == (HlcTimestamp { wall_ms: sync.hlc_wall_ms, counter: sync.hlc_counter as u32 }),
        v.origin_node == NodeId(node),
        v.deleted == (sync.deleted != 0),
    ensures
        c.document_id == v.document.id,
        c.content == v.document.content,
        c.metadata == v.document.metadata,
        c.hlc_ts == v.hlc_ts,
        c.origin_node == v.origin_node,
        c.deleted == v.deleted,
{
}

} // verus!
