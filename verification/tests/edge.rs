use aetherdb::edge::{EdgeError, EdgeInputError, EdgeStore, SyncDocument, SyncPayload};
use aetherdb::hex::encode;
use aetherdb::ids::DocumentId;
use sha2::Digest;

fn empty_object() -> serde_json::Value {
    serde_json::Value::Object(serde_json::Map::new())
}

fn bits(v: &[f32]) -> Vec<u32> {
    v.iter().map(|x| x.to_bits()).collect()
}

#[test]
fn dimension_mismatch_rejected() {
    let mut store = EdgeStore::new(3);
    let result = store.insert_document_with_embedding("bad".into(), empty_object(), bits(&[1.0, 0.0]));
    assert!(matches!(result, Err(EdgeError::DimensionMismatch { .. })));
    assert_eq!(store.document_count(), 0);
}

#[test]
fn empty_content_rejected() {
    let mut store = EdgeStore::new(3);
    let result = store.insert_document("".into(), empty_object());
    assert!(matches!(result, Err(EdgeError::Validation(_))));
}

#[test]
fn delete_removes_document_and_embedding() {
    let mut store = EdgeStore::new(3);
    let id = store
        .insert_document_with_embedding("x".into(), empty_object(), bits(&[1.0, 0.0, 0.0]))
        .unwrap();
    assert_eq!(store.document_count(), 1);
    assert_eq!(store.embedding_count(), 1);

    assert!(store.delete_document(&id));
    assert_eq!(store.document_count(), 0);
    assert_eq!(store.embedding_count(), 0);
}

#[test]
fn export_import_sync_roundtrip() {
    let mut store = EdgeStore::new(3);
    store
        .insert_document_with_embedding("doc one".into(), empty_object(), bits(&[1.0, 0.0, 0.0]))
        .unwrap();

    let payload = store.export_for_sync().unwrap();

    let mut store2 = EdgeStore::new(3);
    let stats = store2.import_from_sync(&payload).unwrap();
    assert_eq!(stats.documents_imported, 1);
    assert_eq!(stats.embeddings_imported, 1);
    assert_eq!(store2.document_count(), 1);
}

#[test]
fn import_skips_existing_documents() {
    let mut store = EdgeStore::new(3);
    store
        .insert_document_with_embedding("existing".into(), empty_object(), bits(&[1.0, 0.0, 0.0]))
        .unwrap();

    let payload = store.export_for_sync().unwrap();
    let stats = store.import_from_sync(&payload).unwrap();
    assert_eq!(stats.documents_skipped, 1);
    assert_eq!(stats.documents_imported, 0);
}

#[test]
fn search_empty_store_returns_empty() {
    let store = EdgeStore::new(3);
    let candidates = store.similarity_candidates(3).unwrap();
    assert!(candidates.is_empty());
}

#[test]
fn similarity_candidates_check_the_query_length() {
    let mut store = EdgeStore::new(3);
    let id = store
        .insert_document_with_embedding("a".into(), empty_object(), bits(&[0.5, 0.5, 0.0]))
        .unwrap();
    match store.similarity_candidates(2) {
        Err(EdgeError::DimensionMismatch { expected, got }) => {
            assert_eq!(expected, 3);
            assert_eq!(got, 2);
        }
        other => panic!("expected DimensionMismatch, got {:?}", other.map(|v| v.len())),
    }
    let candidates = store.similarity_candidates(3).unwrap();
    assert_eq!(candidates.len(), 1);
    assert_eq!(candidates[0].document_id, id);
    assert_eq!(candidates[0].vector, bits(&[0.5, 0.5, 0.0]));
}

#[test]
fn inserted_document_carries_sha256_of_its_content() {
    let mut store = EdgeStore::new(3);
    let id = store.insert_document("hello world".into(), empty_object()).unwrap();
    let doc = store.get_document(&id).unwrap();
    let expected: [u8; 32] = sha2::Sha256::digest(b"hello world").into();
    assert_eq!(doc.content_hash.0, expected);
    assert_eq!(doc.content, "hello world");
    assert_eq!(doc.created_at, doc.updated_at);
    assert!(doc.created_at > 1_600_000_000_000);
}

#[test]
fn export_writes_hash_in_hex() {
    let mut store = EdgeStore::new(3);
    let id = store.insert_document("abc".into(), empty_object()).unwrap();
    let payload = store.export_for_sync().unwrap();
    assert_eq!(payload.version, 1);
    assert_eq!(payload.documents.len(), 1);
    assert_eq!(payload.documents[0].id, id);
    assert_eq!(
        payload.documents[0].content_hash,
        "ba7816bf8f01cfea414140de5dae2223b00361a396177a9cb410ff61f20015ad"
    );
    assert!(payload.embeddings.is_empty());
}

#[test]
fn import_keeps_hash_timestamps_and_content() {
    let doc_id = DocumentId(7);
    let hash = [0xabu8; 32];
    let payload = SyncPayload {
        version: 1,
        documents: vec![SyncDocument {
            id: doc_id,
            content: "kept".into(),
            metadata: serde_json::Value::Null,
            content_hash: encode(&hash),
            created_at: 1000,
            updated_at: 2000,
        }],
        embeddings: vec![],
    };
    let mut store = EdgeStore::new(2);
    let stats = store.import_from_sync(&payload).unwrap();
    assert_eq!(stats.documents_imported, 1);
    assert_eq!(stats.embeddings_imported, 0);
    let doc = store.get_document(&doc_id).unwrap();
    assert_eq!(doc.content, "kept");
    assert_eq!(doc.content_hash.0, hash);
    assert_eq!(doc.created_at, 1000);
    assert_eq!(doc.updated_at, 2000);
}

#[test]
fn import_with_bad_hash_is_a_serialization_error() {
    let payload = SyncPayload {
        version: 1,
        documents: vec![SyncDocument {
            id: DocumentId(9),
            content: "x".into(),
            metadata: serde_json::Value::Null,
            content_hash: "abc".into(),
            created_at: 0,
            updated_at: 0,
        }],
        embeddings: vec![],
    };
    let mut store = EdgeStore::new(2);
    match store.import_from_sync(&payload) {
        Err(EdgeError::Serialization(m)) => assert_eq!(m, "odd length hex string"),
        other => panic!("expected Serialization, got {:?}", other.map(|s| s.documents_imported)),
    }
    assert_eq!(store.document_count(), 0);
}

#[test]
fn set_embedding_needs_a_stored_document_and_the_right_length() {
    let mut store = EdgeStore::new(2);
    let missing = DocumentId(5);
    assert!(matches!(store.set_embedding(&missing, bits(&[1.0, 2.0])), Err(EdgeError::NotFound(d)) if d == missing));
    let id = store.insert_document("a".into(), empty_object()).unwrap();
    assert!(matches!(
        store.set_embedding(&id, bits(&[1.0])),
        Err(EdgeError::DimensionMismatch { expected: 2, got: 1 })
    ));
    assert!(store.set_embedding(&id, bits(&[1.0, 2.0])).is_ok());
    assert_eq!(store.embedding_count(), 1);
    assert_eq!(store.embed_dim(), 2);
}

#[test]
fn delete_of_unknown_document_is_false() {
    let mut store = EdgeStore::new(2);
    assert!(!store.delete_document(&DocumentId(1)));
    assert!(store.get_document(&DocumentId(1)).is_none());
}

#[test]
fn import_check_finds_hashes_that_cut_a_character() {
    let doc = |id: u128, hash: &str| SyncDocument {
        id: DocumentId(id),
        content: "c".into(),
        metadata: serde_json::Value::Null,
        content_hash: hash.into(),
        created_at: 0,
        updated_at: 0,
    };
    let store = EdgeStore::new(1);
    let cutting = SyncPayload { version: 1, documents: vec![doc(1, "00"), doc(2, "zéa")], embeddings: vec![] };
    assert!(store.import_splits_char(&cutting));
    let stopped_before = SyncPayload { version: 1, documents: vec![doc(1, "0"), doc(2, "zéa")], embeddings: vec![] };
    assert!(!store.import_splits_char(&stopped_before));
    let skipped = SyncPayload { version: 1, documents: vec![doc(1, "00"), doc(1, "zéa")], embeddings: vec![] };
    assert!(!store.import_splits_char(&skipped));
}

#[test]
fn documents_are_found_and_deleted_by_their_id_text() {
    let mut store = EdgeStore::new(3);
    let id = store
        .insert_document_with_embedding("x".into(), empty_object(), bits(&[1.0, 0.0, 0.0]))
        .unwrap();
    let text = uuid::Uuid::from_u128(id.0).to_string();
    assert_eq!(store.get_document_by_text(&text).unwrap().unwrap().content, "x");
    assert!(store.get_document_by_text("00000000-0000-0000-0000-000000000001").unwrap().is_none());
    assert!(store.get_document_by_text("not-an-id").is_err());
    assert!(store.delete_document_by_text("not-an-id").is_err());
    assert_eq!(store.document_count(), 1);
    assert_eq!(store.delete_document_by_text(&text), Ok(true));
    assert_eq!(store.delete_document_by_text(&text), Ok(false));
    assert_eq!(store.document_count(), 0);
    assert_eq!(store.embedding_count(), 0);
}

#[test]
fn json_metadata_is_parsed_before_the_document_is_stored() {
    let mut store = EdgeStore::new(2);
    let id = store.insert_document_json("hello".into(), "{\"source\":\"test\"}").unwrap();
    assert_eq!(store.get_document(&id).unwrap().metadata["source"], "test");
    match store.insert_document_json("hello".into(), "{") {
        Err(EdgeInputError::Json(m)) => assert_eq!(m, serde_json::from_str::<serde_json::Value>("{").unwrap_err().to_string()),
        other => panic!("expected a JSON error, got {:?}", other.map(|d| d.0)),
    }
    assert!(matches!(
        store.insert_document_json("".into(), "{}"),
        Err(EdgeInputError::Store(EdgeError::Validation(_)))
    ));
    assert_eq!(store.document_count(), 1);
}

#[test]
fn json_inputs_with_an_embedding_are_checked_in_order() {
    let mut store = EdgeStore::new(2);
    assert!(matches!(
        store.insert_document_with_embedding_json("a".into(), "[", Err("bad vector".into())),
        Err(EdgeInputError::Json(m)) if m != "bad vector"
    ));
    assert!(matches!(
        store.insert_document_with_embedding_json("a".into(), "{}", Err("bad vector".into())),
        Err(EdgeInputError::Json(m)) if m == "bad vector"
    ));
    assert!(matches!(
        store.insert_document_with_embedding_json("a".into(), "{}", Ok(bits(&[1.0]))),
        Err(EdgeInputError::Store(EdgeError::DimensionMismatch { expected: 2, got: 1 }))
    ));
    let id = store.insert_document_with_embedding_json("a".into(), "null", Ok(bits(&[1.0, 2.0]))).unwrap();
    assert!(store.get_document(&id).unwrap().metadata.is_null());
    assert_eq!(store.embedding_count(), 1);
    assert_eq!(
        EdgeInputError::Store(EdgeError::EmptyIndex).to_string(),
        "store is empty, no vectors indexed"
    );
}
