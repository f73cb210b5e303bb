use aetherdb::domain::{GraphError, HnswError, StorageError, VectorError};
use aetherdb::ids::DocumentId;
use aetherdb::search::{
    check_graph_depth, check_index_query_len, collect_points, entity_search_terms, le_words,
    related_from_row, search_hit_id, select_search_terms, validate_query, validate_search, validate_top_k,
    HnswConfig,
};

const DIM: u16 = 768;

fn bits(v: &[f32]) -> Vec<u32> {
    v.iter().map(|x| x.to_bits()).collect()
}

#[test]
fn dimension_mismatch_returns_typed_error() {
    let bad_query = bits(&vec![0.5_f32; 100]);
    match validate_search(&bad_query, DIM, 10) {
        Err(VectorError::DimensionMismatch { expected, got }) => {
            assert_eq!(expected, DIM as usize);
            assert_eq!(got, 100);
        }
        other => panic!("expected DimensionMismatch, got {:?}", other),
    }
}

#[test]
fn nan_in_query_vector_returns_non_finite() {
    let mut q = vec![0.5_f32; DIM as usize];
    q[0] = f32::NAN;
    assert!(matches!(validate_search(&bits(&q), DIM, 10), Err(VectorError::NonFinite)));
}

#[test]
fn inf_in_query_vector_returns_non_finite() {
    let mut q = vec![0.5_f32; DIM as usize];
    q[1] = f32::INFINITY;
    assert!(matches!(validate_search(&bits(&q), DIM, 10), Err(VectorError::NonFinite)));
}

#[test]
fn invalid_top_k_returns_typed_error() {
    let q = bits(&vec![0.5_f32; DIM as usize]);
    assert!(matches!(validate_search(&q, DIM, 0), Err(VectorError::InvalidTopK(_))));
    assert!(matches!(validate_search(&q, DIM, 101), Err(VectorError::InvalidTopK(_))));
}

#[test]
fn valid_search_passes_every_check() {
    let q = bits(&[0.0, -1.5, f32::MAX, f32::MIN_POSITIVE]);
    assert!(validate_search(&q, 4, 1).is_ok());
    assert!(validate_search(&q, 4, 100).is_ok());
    assert!(validate_query(&bits(&[f32::NEG_INFINITY]), 1).is_err());
    assert!(matches!(validate_top_k(7), Ok(())));
    assert!(matches!(validate_top_k(0), Err(VectorError::InvalidTopK(0))));
}

#[test]
fn dimension_is_checked_before_finiteness() {
    let q = bits(&[f32::NAN]);
    assert!(matches!(validate_search(&q, 2, 0), Err(VectorError::DimensionMismatch { expected: 2, got: 1 })));
}

#[test]
fn graph_depth_is_at_most_five() {
    assert!(check_graph_depth(0).is_ok());
    assert!(check_graph_depth(5).is_ok());
    assert!(matches!(check_graph_depth(6), Err(GraphError::InvalidDepth(6))));
}

#[test]
fn related_rows_parse_their_document_id() {
    let (id, hop) = related_from_row("00000000-0000-0000-0000-00000000002a", 3).unwrap();
    assert_eq!(id, DocumentId(42));
    assert_eq!(hop, 3);
    assert!(matches!(related_from_row("nope", 1), Err(GraphError::Storage(StorageError::Query(_)))));
}

#[test]
fn search_terms_keep_words_of_three_bytes_or_more() {
    let terms = entity_search_terms("  an   Rust is\tgreat\nok é日 ");
    assert_eq!(terms, vec!["Rust".to_string(), "great".to_string(), "é日".to_string()]);
    let picked = select_search_terms(vec!["ab".into(), "abc".into(), "".into(), "xyzw".into()]);
    assert_eq!(picked, vec!["abc".to_string(), "xyzw".to_string()]);
}

#[test]
fn hnsw_defaults() {
    let c = HnswConfig::default();
    assert_eq!(c.ef_construction, 100);
    assert_eq!(c.m, 16);
    assert_eq!(c.ef_search, 50);
}

#[test]
fn index_query_length_is_checked() {
    assert!(check_index_query_len(3, 3).is_ok());
    assert!(matches!(
        check_index_query_len(2, 3),
        Err(HnswError::DimensionMismatch { expected: 3, got: 2 })
    ));
}

#[test]
fn blobs_read_as_little_endian_words() {
    let blob = [1.0f32.to_le_bytes(), (-2.5f32).to_le_bytes()].concat();
    let mut with_tail = blob.clone();
    with_tail.push(0xff);
    assert_eq!(le_words(&blob), bits(&[1.0, -2.5]));
    assert_eq!(le_words(&with_tail), bits(&[1.0, -2.5]));
    assert_eq!(le_words(&[0x01, 0x02, 0x03, 0x04]), vec![0x04030201]);
    assert!(le_words(&[1, 2, 3]).is_empty());
}

#[test]
fn index_points_skip_wrong_lengths_and_fail_on_bad_ids() {
    let one = [1.0f32.to_le_bytes(), 0.0f32.to_le_bytes()].concat();
    let short = 1.0f32.to_le_bytes().to_vec();
    let rows = vec![
        ("00000000-0000-0000-0000-000000000001".to_string(), one.clone()),
        ("00000000-0000-0000-0000-000000000002".to_string(), short),
        ("00000000-0000-0000-0000-000000000003".to_string(), one.clone()),
    ];
    let (points, docs) = collect_points(&rows, 2).unwrap();
    assert_eq!(points, vec![bits(&[1.0, 0.0]), bits(&[1.0, 0.0])]);
    assert_eq!(docs, vec![DocumentId(1), DocumentId(3)]);

    let bad = vec![("not-a-uuid".to_string(), one)];
    assert!(matches!(collect_points(&bad, 2), Err(HnswError::Build(_))));
}

#[test]
fn search_hits_parse_their_document_id() {
    assert_eq!(search_hit_id("00000000-0000-0000-0000-0000000000ff").unwrap(), DocumentId(0xff));
    assert_eq!(search_hit_id("{00000000-0000-0000-0000-0000000000ff}").unwrap(), DocumentId(0xff));
    assert!(matches!(search_hit_id("x"), Err(VectorError::Storage(StorageError::Query(_)))));
}

#[test]
fn search_terms_split_on_unicode_white_space() {
    let terms = entity_search_terms("alpha\u{3000}beta\u{a0}gamma\u{2003}xy");
    assert_eq!(terms, vec!["alpha".to_string(), "beta".to_string(), "gamma".to_string()]);
}
