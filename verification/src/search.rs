//! Checks and bookkeeping around vector search, the HNSW index and graph
//! traversal. The distance arithmetic on `f32` values is done by the caller;
//! here vector components travel as their bit patterns.
use vstd::prelude::*;

use crate::domain::{GraphError, HnswError, StorageError, VectorError};
use crate::ids::DocumentId;
use crate::outside::{parse_uuid, split_whitespace, uuid_parsed, whitespace_words};
use crate::storage::is_query_error;
#[allow(unused_imports)]
use vstd::string::StringSliceAdditionalSpecFns;
use vstd::utf8::encode_utf8;

verus! {

/// The number of results a search asks for must lie in `1..=100`.
pub fn validate_top_k(top_k: usize) -> (r: Result<(), VectorError>)
    ensures
        1 <= top_k <= 100 ==> r is Ok,
        !(1 <= top_k <= 100) ==> (r matches Err(VectorError::InvalidTopK(k)) && k == top_k),
{
    if !(1 <= top_k && top_k <= 100) {
        return Err(VectorError::InvalidTopK(top_k));
    }
    Ok(())
}

/// Whether the `f32` with these bits is finite: its exponent field is not
/// all ones (all ones is an infinity or a NaN).
pub open spec fn finite_bits(b: u32) -> bool {
    (b >> 23u32) & 0xffu32 != 0xffu32
}

/// A query vector, given as the bit patterns of its `f32` components, must
/// have as many components as the stored embeddings, each of them finite.
pub fn validate_query(query: &[u32], embed_dim: u16) -> (r: Result<(), VectorError>)
    ensures
        query@.len() != embed_dim ==> (r matches Err(VectorError::DimensionMismatch { expected, got })
            && expected == embed_dim && got == query@.len()),
        query@.len() == embed_dim && (exists|i: int| 0 <= i < query@.len() && !finite_bits(#[trigger] query@[i]))
            ==> r matches Err(VectorError::NonFinite),
        query@.len() == embed_dim && (forall|i: int| 0 <= i < query@.len() ==> finite_bits(#[trigger] query@[i]))
            ==> r is Ok,
{
    if query.len() != embed_dim as usize {
        return Err(VectorError::DimensionMismatch { expected: embed_dim as usize, got: query.len() });
    }
    let mut i: usize = 0;
    while i < query.len()
        invariant
            i <= query@.len(),
            query@.len() == embed_dim,
            forall|j: int| 0 <= j < i ==> finite_bits(#[trigger] query@[j]),
        decreases query@.len() - i,
    {
        let b = query[i];
        if (b >> 23u32) & 0xffu32 == 0xffu32 {
            return Err(VectorError::NonFinite);
        }
        i = i + 1;
    }
    Ok(())
}

/// The checks a similarity search makes before it queries the index: the
/// query vector first, then the number of results.
pub fn validate_search(query: &[u32], embed_dim: u16, top_k: usize) -> (r: Result<(), VectorError>)
    ensures
        query@.len() != embed_dim ==> (r matches Err(VectorError::DimensionMismatch { expected, got })
            && expected == embed_dim && got == query@.len()),
        query@.len() == embed_dim && (exists|i: int| 0 <= i < query@.len() && !finite_bits(#[trigger] query@[i]))
            ==> r matches Err(VectorError::NonFinite),
        query@.len() == embed_dim && (forall|i: int| 0 <= i < query@.len() ==> finite_bits(#[trigger] query@[i]))
            ==> ((1 <= top_k <= 100 ==> r is Ok) && (!(1 <= top_k <= 100) ==> (r matches Err(VectorError::InvalidTopK(k)) && k == top_k))),
{
    match validate_query(query, embed_dim) {
        Ok(()) => {},
        Err(e) => return Err(e),
    }
    validate_top_k(top_k)
}

/// The document a similarity-search row names; an id that does not parse
/// is a query error carrying the parser's message.
pub fn search_hit_id(document_id: &str) -> (r: Result<DocumentId, VectorError>)
    ensures
        match uuid_parsed(document_id@) {
            Ok(v) => r == Ok::<DocumentId, VectorError>(DocumentId(v)),
            Err(msg) => r matches Err(VectorError::Storage(e)) && is_query_error(e, msg),
        },
{
    match parse_uuid(document_id) {
        Ok(v) => Ok(DocumentId(v)),
        Err(e) => Err(VectorError::Storage(StorageError::Query(e))),
    }
}

/// A graph traversal goes at most 5 hops deep.
pub fn check_graph_depth(max_depth: u32) -> (r: Result<(), GraphError>)
    ensures
        max_depth <= 5 ==> r is Ok,
        max_depth > 5 ==> (r matches Err(GraphError::InvalidDepth(d)) && d == max_depth),
{
    if max_depth > 5 {
        return Err(GraphError::InvalidDepth(max_depth));
    }
    Ok(())
}

/// A document reached by a traversal, with the fewest hops it took.
pub fn related_from_row(document_id: &str, hop: i64) -> (r: Result<(DocumentId, u32), GraphError>)
    ensures
        match uuid_parsed(document_id@) {
            Ok(v) => r == Ok::<(DocumentId, u32), GraphError>((DocumentId(v), hop as u32)),
            Err(msg) => r matches Err(GraphError::Storage(e)) && is_query_error(e, msg),
        },
{
    match parse_uuid(document_id) {
        Ok(v) => Ok((DocumentId(v), hop as u32)),
        Err(e) => Err(GraphError::Storage(StorageError::Query(e))),
    }
}

/// The words of a query worth looking up as entity names: those of at least
/// three bytes.
pub open spec fn search_terms_of(words: Seq<Seq<char>>) -> Seq<Seq<char>> {
    words.filter(is_search_term())
}

/// A word is looked up when its UTF-8 encoding has at least three bytes.
pub open spec fn is_search_term() -> spec_fn(Seq<char>) -> bool {
    |w: Seq<char>| encode_utf8(w).len() >= 3
}

/// Keeps the words of at least three bytes, in order.
pub fn select_search_terms(words: Vec<String>) -> (r: Vec<String>)
    ensures
        r@.map_values(|w: String| w@) == search_terms_of(words@.map_values(|w: String| w@)),
{
    let ghost ws = words@.map_values(|w: String| w@);
    let mut out: Vec<String> = Vec::new();
    let mut i: usize = 0;
    let n = words.len();
    while i < n
        invariant
            n == words@.len(),
            ws == words@.map_values(|w: String| w@),
            i <= n,
            out@.map_values(|w: String| w@) == search_terms_of(ws.take(i as int)),
        decreases n - i,
    {
        let w = &words[i];
        let ws_i = w.as_str();
        let keep = ws_i.as_bytes().len() >= 3;
        proof {
            assert(ws.take(i + 1) =~= ws.take(i as int).push(w@));
            ws.take(i as int).lemma_filter_push(w@, is_search_term());
            assert(ws_i@ == w@);
            assert(keep == is_search_term()(w@));
        }
        if keep {
            out.push(w.clone());
            proof {
                assert(out@.map_values(|w: String| w@) =~= search_terms_of(ws.take(i as int)).push(w@));
            }
        } else {
            proof {
                assert(out@.map_values(|w: String| w@) =~= search_terms_of(ws.take(i as int)));
            }
        }
        i = i + 1;
    }
    assert(ws.take(n as int) =~= ws);
    out
}

/// The entity names a query looks up: its whitespace-separated words of at
/// least three bytes.
pub fn entity_search_terms(query_text: &str) -> (r: Vec<String>)
    ensures
        r@.map_values(|w: String| w@) == search_terms_of(whitespace_words(query_text@)),
{
    select_search_terms(split_whitespace(query_text))
}

/// The parameters an HNSW index is built and searched with.
#[derive(Debug, Clone, Copy)]
pub struct HnswConfig {
    pub ef_construction: usize,
    pub m: usize,
    pub ef_search: usize,
}

impl Default for HnswConfig {
    fn default() -> (c: HnswConfig)
        ensures
            c.ef_construction == 100,
            c.m == 16,
            c.ef_search == 50,
    {
        HnswConfig { ef_construction: 100, m: 16, ef_search: 50 }
    }
}

/// A query for the index must have as many components as its vectors.
pub fn check_index_query_len(len: usize, embed_dim: u16) -> (r: Result<(), HnswError>)
    ensures
        len == embed_dim ==> r is Ok,
        len != embed_dim ==> (r matches Err(HnswError::DimensionMismatch { expected, got })
            && expected == embed_dim && got == len),
{
    if len != embed_dim as usize {
        return Err(HnswError::DimensionMismatch { expected: embed_dim as usize, got: len });
    }
    Ok(())
}

/// The little-endian 32-bit word made of four bytes.
pub open spec fn le_word(b0: u8, b1: u8, b2: u8, b3: u8) -> u32 {
    (b0 as int + 256 * (b1 as int) + 65536 * (b2 as int) + 16777216 * (b3 as int)) as u32
}

/// A blob read as little-endian 32-bit words; trailing bytes that do not make
/// a whole word are dropped.
pub open spec fn le_words_of(b: Seq<u8>) -> Seq<u32> {
    Seq::new(b.len() / 4, |k: int| le_word(b[4 * k], b[4 * k + 1], b[4 * k + 2], b[4 * k + 3]))
}

/// Reads a stored vector blob as the bit patterns of its `f32` components.
pub fn le_words(blob: &[u8]) -> (r: Vec<u32>)
    ensures
        r@ == le_words_of(blob@),
{
    let mut out: Vec<u32> = Vec::new();
    let n = blob.len() / 4;
    let mut k: usize = 0;
    while k < n
        invariant
            n == blob@.len() / 4,
            k <= n,
            out@ =~= le_words_of(blob@).take(k as int),
        decreases n - k,
    {
        proof {
            assert(4 * k + 3 < blob.len()) by (nonlinear_arith)
                requires k < n, n == blob.len() / 4;
        }
        let base = 4 * k;
        let w = blob[base] as u32 + 256 * (blob[base + 1] as u32) + 65536 * (blob[base + 2] as u32)
            + 16777216 * (blob[base + 3] as u32);
        out.push(w);
        k = k + 1;
    }
    assert(le_words_of(blob@).take(n as int) =~= le_words_of(blob@));
    out
}

/// How far collecting index points from the first `n` rows got: the points
/// whose length matched, their documents, or the first id that failed to
/// parse.
pub open spec fn points_of(rows: Seq<(String, Vec<u8>)>, dim: u16, n: int) -> Result<(Seq<Seq<u32>>, Seq<u128>), Seq<char>>
    decreases n,
{
    if n <= 0 {
        Ok((Seq::empty(), Seq::empty()))
    } else {
        match points_of(rows, dim, n - 1) {
            Err(e) => Err(e),
            Ok((ps, ids)) => match uuid_parsed(rows[n - 1].0@) {
                Err(e) => Err(e),
                Ok(id) => {
                    let w = le_words_of(rows[n - 1].1@);
                    if w.len() == dim {
                        Ok((ps.push(w), ids.push(id)))
                    } else {
                        Ok((ps, ids))
                    }
                },
            },
        }
    }
}

/// Turns the stored `(document id, vector blob)` rows into index points:
/// rows whose vector has another length than `embed_dim` are left out; an id
/// that does not parse fails the whole build.
pub fn collect_points(rows: &Vec<(String, Vec<u8>)>, embed_dim: u16) -> (r: Result<(Vec<Vec<u32>>, Vec<DocumentId>), HnswError>)
    ensures
        match points_of(rows@, embed_dim, rows@.len() as int) {
            Ok((ps, ids)) => r matches Ok((points, docs)) && {
                &&& points@.len() == ps.len()
                &&& forall|i: int| 0 <= i < ps.len() ==> #[trigger] points@[i]@ == ps[i]
                &&& docs@.len() == ids.len()
                &&& forall|i: int| 0 <= i < ids.len() ==> (#[trigger] docs@[i]).0 == ids[i]
            },
            Err(msg) => r matches Err(HnswError::Build(m)) && m@ == msg,
        },
{
    let mut points: Vec<Vec<u32>> = Vec::new();
    let mut docs: Vec<DocumentId> = Vec::new();
    let mut i: usize = 0;
    let n = rows.len();
    while i < n
        invariant
            n == rows@.len(),
            i <= n,
            points_of(rows@, embed_dim, i as int) matches Ok((ps, ids)) && {
                &&& points@.len() == ps.len()
                &&& forall|j: int| 0 <= j < ps.len() ==> #[trigger] points@[j]@ == ps[j]
                &&& docs@.len() == ids.len()
                &&& forall|j: int| 0 <= j < ids.len() ==> (#[trigger] docs@[j]).0 == ids[j]
            },
        decreases n - i,
    {
        let id = match parse_uuid(rows[i].0.as_str()) {
            Ok(v) => v,
            Err(e) => {
                proof {
                    lemma_points_fail_stays(rows@, embed_dim, i + 1, n as int);
                }
                return Err(HnswError::Build(e));
            },
        };
        let words = le_words(rows[i].1.as_slice());
        if words.len() == embed_dim as usize {
            points.push(words);
            docs.push(DocumentId(id));
        }
        i = i + 1;
    }
    Ok((points, docs))
}

proof fn lemma_points_fail_stays(rows: Seq<(String, Vec<u8>)>, dim: u16, m: int, n: int)
    requires
        0 <= m <= n,
        points_of(rows, dim, m) is Err,
    ensures
        points_of(rows, dim, n) == points_of(rows, dim, m),
    decreases n - m,
{
    if n > m {
        lemma_points_fail_stays(rows, dim, m, n - 1);
    }
}

} // verus!
