use aetherdb::domain::{ContentHash, Document, EntityType, StorageError};
use aetherdb::hlc::HlcTimestamp;
use aetherdb::ids::{DocumentId, EntityId, NodeId, RelationshipId};
use aetherdb::storage::{
    change_from_row, connect_target, contains_text, count_from_row, document_from_row,
    document_row_of, entity_from_row, migration_002, node_from_text, relationship_from_row,
    sync_columns_of, versioned_from_row, ConnectTarget, DocumentRow, EntityRow, RelationshipRow,
    StorageMode, SyncColumns,
};

const ID: &str = "00000000-0000-0000-0000-000000000010";
const NODE: &str = "00000000-0000-0000-0000-0000000000ff";

fn row(metadata: &str, hash: Vec<u8>) -> DocumentRow {
    DocumentRow {
        id: ID.into(),
        content: "body".into(),
        metadata: metadata.into(),
        content_hash: hash,
        created_at: 1_700_000_000_000,
        updated_at: 1_700_000_000_500,
    }
}

fn sync(origin: &str, deleted: i64) -> SyncColumns {
    SyncColumns { hlc_wall_ms: 55, hlc_counter: 3, origin_node: origin.into(), deleted }
}

#[test]
fn connect_target_picks_replica_local_or_remote() {
    let t = connect_target("http://db:8080", Some("tok"), Some("./r.db"));
    assert_eq!(t.mode(), StorageMode::Replica);
    match t {
        ConnectTarget::Replica { local_path, url, auth_token } => {
            assert_eq!((local_path.as_str(), url.as_str(), auth_token.as_str()), ("./r.db", "http://db:8080", "tok"));
        }
        _ => panic!("expected a replica"),
    }
    let t = connect_target("file::memory:?cache=shared", None, None);
    assert_eq!(t.mode(), StorageMode::Local);
    assert!(matches!(t, ConnectTarget::Local { .. }));
    assert!(matches!(connect_target("libsql://x:memory:", None, None), ConnectTarget::Local { .. }));
    match connect_target("http://db:8080", None, None) {
        ConnectTarget::Remote { url, auth_token } => {
            assert_eq!(url, "http://db:8080");
            assert_eq!(auth_token, "");
        }
        _ => panic!("expected a remote database"),
    }
}

#[test]
fn contains_text_finds_infixes() {
    assert!(contains_text("abc:memory:def", ":memory:"));
    assert!(contains_text("x", ""));
    assert!(!contains_text(":memor", ":memory:"));
}

#[test]
fn migration_002_uses_the_configured_dimension() {
    let sql = migration_002(Some("384"));
    assert!(sql.contains("embedding   F32_BLOB(384) NOT NULL"));
    assert!(sql.starts_with("CREATE TABLE IF NOT EXISTS document_embeddings ("));
    assert!(sql.contains("libsql_vector_idx(embedding, 'metric=cosine')"));
    assert!(migration_002(None).contains("F32_BLOB(768)"));
    assert!(migration_002(Some("abc")).contains("F32_BLOB(768)"));
    assert!(migration_002(Some("4294967296")).contains("F32_BLOB(768)"));
}

#[test]
fn document_rows_decode() {
    let d = document_from_row(row("{\"a\":1}", vec![1, 2, 3])).unwrap();
    assert_eq!(d.id, DocumentId(0x10));
    assert_eq!(d.content, "body");
    assert_eq!(d.metadata["a"], 1);
    let mut hash = [0u8; 32];
    hash[..3].copy_from_slice(&[1, 2, 3]);
    assert_eq!(d.content_hash.0, hash);
    assert_eq!(d.created_at, 1_700_000_000_000);
    assert_eq!(d.updated_at, 1_700_000_000_500);
}

#[test]
fn document_rows_with_bad_fields_are_query_errors() {
    assert!(matches!(document_from_row(row("{", vec![])), Err(StorageError::Query(_))));
    let mut bad_id = row("{}", vec![]);
    bad_id.id = "nope".into();
    assert!(matches!(document_from_row(bad_id), Err(StorageError::Query(_))));
}

#[test]
fn out_of_range_times_read_as_the_epoch() {
    let mut r = row("null", vec![]);
    r.created_at = i64::MAX;
    let d = document_from_row(r).unwrap();
    assert_eq!(d.created_at, 0);
}

#[test]
fn versioned_rows_carry_their_clock_and_origin() {
    let v = versioned_from_row(row("{}", vec![9; 40]), sync(NODE, 1)).unwrap();
    assert_eq!(v.document.content_hash.0, [9u8; 32]);
    assert_eq!(v.hlc_ts, HlcTimestamp { wall_ms: 55, counter: 3 });
    assert_eq!(v.origin_node, NodeId(0xff));
    assert!(v.deleted);
    let empty_origin = versioned_from_row(row("{}", vec![]), sync("", 0)).unwrap();
    assert_eq!(empty_origin.origin_node, NodeId(0));
    assert!(!empty_origin.deleted);
    assert!(matches!(versioned_from_row(row("{}", vec![]), sync("zz", 0)), Err(StorageError::Query(_))));
}

#[test]
fn change_rows_write_the_hash_in_hex() {
    let c = change_from_row(row("[]", vec![0xde, 0xad]), sync(NODE, 0)).unwrap();
    assert_eq!(c.document_id, DocumentId(0x10));
    assert_eq!(c.content_hash, "dead");
    assert_eq!(c.hlc_ts, HlcTimestamp { wall_ms: 55, counter: 3 });
    assert!(!c.deleted);
}

#[test]
fn node_text_parses_or_is_nil() {
    assert_eq!(node_from_text("").unwrap(), 0);
    assert_eq!(node_from_text(NODE).unwrap(), 0xff);
    assert!(node_from_text("x").is_err());
}

#[test]
fn entity_rows_decode_with_lossy_types() {
    let e = entity_from_row(EntityRow {
        id: NODE.into(),
        name: "Ada".into(),
        entity_type: "PERSON".into(),
        document_id: ID.into(),
        created_at: 5,
    })
    .unwrap();
    assert_eq!(e.id, EntityId(0xff));
    assert_eq!(e.name, "Ada");
    assert_eq!(e.entity_type, EntityType::Person);
    assert_eq!(e.document_id, DocumentId(0x10));
    let unknown = entity_from_row(EntityRow {
        id: NODE.into(),
        name: "x".into(),
        entity_type: "gadget".into(),
        document_id: ID.into(),
        created_at: 5,
    })
    .unwrap();
    assert_eq!(unknown.entity_type, EntityType::Other);
}

#[test]
fn counts_read_as_unsigned() {
    assert_eq!(count_from_row(None), 0);
    assert_eq!(count_from_row(Some(12)), 12);
    assert_eq!(count_from_row(Some(-1)), u64::MAX);
}

fn relationship_row(doc: &str, created_at: i64) -> RelationshipRow {
    RelationshipRow {
        id: "00000000-0000-0000-0000-000000000001".into(),
        source_entity_id: "00000000-0000-0000-0000-000000000002".into(),
        target_entity_id: "00000000-0000-0000-0000-000000000003".into(),
        relationship_type: "uses".into(),
        weight: 0.75f32.to_bits(),
        document_id: doc.into(),
        created_at,
    }
}

#[test]
fn relationship_rows_decode() {
    let r = relationship_from_row(relationship_row(ID, 42)).unwrap();
    assert_eq!(r.id, RelationshipId(1));
    assert_eq!(r.source_entity_id, EntityId(2));
    assert_eq!(r.target_entity_id, EntityId(3));
    assert_eq!(r.relationship_type, "uses");
    assert_eq!(f32::from_bits(r.weight), 0.75);
    assert_eq!(r.document_id, DocumentId(0x10));
    assert_eq!(r.created_at, 42);
    assert!(matches!(relationship_from_row(relationship_row("bad", 0)), Err(StorageError::Query(_))));
}

#[test]
fn chrono_range_bounds_the_times_read_back() {
    assert_eq!(relationship_from_row(relationship_row(ID, -8_334_601_228_800_000)).unwrap().created_at, -8_334_601_228_800_000);
    assert_eq!(relationship_from_row(relationship_row(ID, -8_334_601_228_800_001)).unwrap().created_at, 0);
    assert_eq!(relationship_from_row(relationship_row(ID, 8_210_266_876_799_999)).unwrap().created_at, 8_210_266_876_799_999);
    assert_eq!(relationship_from_row(relationship_row(ID, 8_210_266_876_800_000)).unwrap().created_at, 0);
}

#[test]
fn a_written_document_reads_back() {
    let doc = Document {
        id: DocumentId(uuid::Uuid::now_v7().as_u128()),
        content: "written".into(),
        metadata: serde_json::from_str("{\"k\":[1,2]}").unwrap(),
        content_hash: ContentHash([7; 32]),
        created_at: 1_000,
        updated_at: 2_000,
    };
    let row = document_row_of(&doc).unwrap();
    assert_eq!(row.id, uuid::Uuid::from_u128(doc.id.0).to_string());
    assert_eq!(row.metadata, "{\"k\":[1,2]}");
    let back = document_from_row(row).unwrap();
    assert_eq!(back.id, doc.id);
    assert_eq!(back.content, doc.content);
    assert_eq!(back.metadata, doc.metadata);
    assert_eq!(back.content_hash.0, doc.content_hash.0);
    assert_eq!((back.created_at, back.updated_at), (1_000, 2_000));
}

#[test]
fn written_sync_columns_read_back() {
    let node = NodeId(0xabc);
    let ts = HlcTimestamp { wall_ms: 77, counter: u32::MAX };
    let cols = sync_columns_of(ts, node, true);
    assert_eq!(cols.origin_node, "00000000-0000-0000-0000-000000000abc");
    assert_eq!(cols.deleted, 1);
    let doc = Document {
        id: DocumentId(5),
        content: "c".into(),
        metadata: serde_json::Value::Null,
        content_hash: ContentHash([0; 32]),
        created_at: 0,
        updated_at: 0,
    };
    let v = versioned_from_row(document_row_of(&doc).unwrap(), cols).unwrap();
    assert_eq!(v.hlc_ts, ts);
    assert_eq!(v.origin_node, node);
    assert!(v.deleted);
    assert_eq!(v.document.id, DocumentId(5));
}
