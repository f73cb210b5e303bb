//! An in-memory document store for edge deployments, with the payloads it
//! exchanges when it syncs with another store.
//!
//! Embedding vectors are held as the bit patterns of their `f32` components
//! (`f32::to_bits`); the store checks their length and carries them, and the
//! similarity arithmetic on them is done by the caller.
use std::collections::HashMap;

use vstd::prelude::*;

use crate::domain::{mismatch_string, mismatch_text, padded_hash, ContentHash, Document};
use crate::ids::uuid_text;
use crate::text::concat;
use crate::hex::{check_decode, decode, encode, hex_decode_outcome, hex_encode, HexCheck, HexOutcome};
use crate::clock::{StdClock, WallClock};
use crate::ids::DocumentId;
use crate::outside::{
    chrono_millis_in_range, clone_json, json_parse_error, json_parsed, millis_in_range, new_uuid_v7_at, parse_json,
    parse_uuid, sha256, sha256_digest, uuid_parsed,
};
use crate::text::to_owned_string;
use vstd::std_specs::hash::spec_hash_map_iter;
#[allow(unused_imports)]
use vstd::std_specs::iter::IteratorSpec;
use vstd::utf8::encode_utf8;
#[allow(unused_imports)]
use vstd::string::StringSliceAdditionalSpecFns;

verus! {

broadcast use vstd::std_specs::hash::group_hash_axioms;

#[derive(Debug)]
pub enum EdgeError {
    NotFound(DocumentId),
    DimensionMismatch { expected: usize, got: usize },
    Validation(String),
    Serialization(String),
    EmptyIndex,
}

/// Everything a store holds, as exported for another store.
pub struct SyncPayload {
    pub version: u32,
    pub documents: Vec<SyncDocument>,
    pub embeddings: Vec<SyncEmbedding>,
}

/// A document as exported: its content hash in lower-case hexadecimal and its
/// timestamps in milliseconds since the epoch.
pub struct SyncDocument {
    pub id: DocumentId,
    pub content: String,
    pub metadata: serde_json::Value,
    pub content_hash: String,
    pub created_at: i64,
    pub updated_at: i64,
}

/// An embedding as exported, its components as `f32` bit patterns.
pub struct SyncEmbedding {
    pub document_id: DocumentId,
    pub vector: Vec<u32>,
}

#[derive(Debug, Clone, Copy)]
pub struct SyncStats {
    pub documents_imported: usize,
    pub embeddings_imported: usize,
    pub documents_skipped: usize,
}

/// The store's documents, keyed by the value of their id, and the embedding
/// of each document that has one.
pub struct EdgeStore {
    documents: HashMap<u128, Document>,
    embeddings: HashMap<u128, Vec<u32>>,
    embed_dim: u16,
}

/// A time as a stored document keeps it: milliseconds outside chrono's range
/// become the epoch.
pub open spec fn normalized_millis(ms: i64) -> i64 {
    if chrono_millis_in_range(ms) {
        ms
    } else {
        0
    }
}

/// `d` holds the given fields.
pub open spec fn document_holds(
    d: Document,
    id: DocumentId,
    content: String,
    metadata: serde_json::Value,
    hash: Seq<u8>,
    created_at: i64,
    updated_at: i64,
) -> bool {
    &&& d.id == id
    &&& d.content == content
    &&& d.metadata == metadata
    &&& d.content_hash.0@ == hash
    &&& d.created_at == created_at
    &&& d.updated_at == updated_at
}

/// `sd` is the export of `d`.
pub open spec fn exported_as(d: Document, sd: SyncDocument) -> bool {
    &&& sd.id == d.id
    &&& sd.content == d.content
    &&& sd.metadata == d.metadata
    &&& sd.content_hash@ == hex_encode(d.content_hash.0@)
    &&& sd.created_at == d.created_at
    &&& sd.updated_at == d.updated_at
}

/// `d` is what importing `sd` stores, its hash having decoded to `bytes`.
pub open spec fn imported_as(d: Document, sd: SyncDocument, bytes: Seq<u8>) -> bool {
    document_holds(
        d,
        sd.id,
        sd.content,
        sd.metadata,
        padded_hash(bytes),
        normalized_millis(sd.created_at),
        normalized_millis(sd.updated_at),
    )
}

/// The bytes that a document's content hash decodes to (empty when it does
/// not decode).
pub open spec fn decoded_hash(sd: SyncDocument) -> Seq<u8> {
    match hex_decode_outcome(encode_utf8(sd.content_hash@)) {
        HexOutcome::Decoded(b) => b,
        _ => Seq::empty(),
    }
}

/// How far importing the first `n` documents of a payload got.
pub struct ImportTrace {
    /// The ids held after those documents.
    pub keys: Set<u128>,
    pub imported: nat,
    pub skipped: nat,
    /// The payload index each newly imported id came from.
    pub source: Map<u128, int>,
    /// The error that stopped the import, if one did.
    pub failure: Option<Seq<char>>,
    /// Decoding a hash would have cut a character in two.
    pub splits: bool,
}

/// Importing documents in order: an id already held is skipped; otherwise the
/// hash is decoded, and the first hash that fails stops the import.
pub open spec fn import_trace(keys0: Set<u128>, docs: Seq<SyncDocument>, n: int) -> ImportTrace
    decreases n,
{
    if n <= 0 {
        ImportTrace {
            keys: keys0,
            imported: 0,
            skipped: 0,
            source: Map::empty(),
            failure: None,
            splits: false,
        }
    } else {
        let t = import_trace(keys0, docs, n - 1);
        let sd = docs[n - 1];
        if t.failure is Some || t.splits {
            t
        } else if t.keys.contains(sd.id.0) {
            ImportTrace { skipped: t.skipped + 1, ..t }
        } else {
            match hex_decode_outcome(encode_utf8(sd.content_hash@)) {
                HexOutcome::Decoded(_) => ImportTrace {
                    keys: t.keys.insert(sd.id.0),
                    imported: t.imported + 1,
                    source: t.source.insert(sd.id.0, n - 1),
                    ..t
                },
                HexOutcome::Failed(e) => ImportTrace { failure: Some(e), ..t },
                HexOutcome::SplitsChar => ImportTrace { splits: true, ..t },
            }
        }
    }
}

/// The embeddings held after importing the first `n` exported embeddings into
/// a store whose documents have the ids `keys`, and how many were taken.
pub open spec fn import_embeddings(
    keys: Set<u128>,
    embs0: Map<u128, Seq<u32>>,
    es: Seq<SyncEmbedding>,
    n: int,
) -> (Map<u128, Seq<u32>>, nat)
    decreases n,
{
    if n <= 0 {
        (embs0, 0)
    } else {
        let (m, c) = import_embeddings(keys, embs0, es, n - 1);
        let e = es[n - 1];
        if keys.contains(e.document_id.0) {
            (m.insert(e.document_id.0, e.vector@), c + 1)
        } else {
            (m, c)
        }
    }
}

impl EdgeStore {
    /// The documents, keyed by the value of their id.
    pub closed spec fn docs(&self) -> Map<u128, Document> {
        self.documents@
    }

    /// The embeddings, keyed by the value of their document's id.
    pub closed spec fn embs(&self) -> Map<u128, Seq<u32>> {
        self.embeddings@.map_values(|v: Vec<u32>| v@)
    }

    /// The length every stored embedding is checked against.
    pub closed spec fn dim(&self) -> u16 {
        self.embed_dim
    }

    /// Each document is keyed by its own id, every embedding belongs to a
    /// held document, and the store holds finitely many of each.
    pub open spec fn wf(&self) -> bool {
        &&& self.docs().dom().finite()
        &&& self.embs().dom().finite()
        &&& forall|k: u128| #[trigger] self.docs().contains_key(k) ==> self.docs()[k].id.0 == k
        &&& forall|k: u128| #[trigger] self.embs().contains_key(k) ==> self.docs().contains_key(k)
    }

    pub fn new(embed_dim: u16) -> (s: EdgeStore)
        ensures
            s.wf(),
            s.docs() == Map::<u128, Document>::empty(),
            s.embs() == Map::<u128, Seq<u32>>::empty(),
            s.dim() == embed_dim,
    {
        let s = EdgeStore { documents: HashMap::new(), embeddings: HashMap::new(), embed_dim };
        assert(s.embs() =~= Map::<u128, Seq<u32>>::empty());
        s
    }

    /// Stores a document under a given id and time, its hash computed from
    /// its content; empty content is refused.
    pub fn insert_document_at(
        &mut self,
        id: DocumentId,
        now_ms: i64,
        content: String,
        metadata: serde_json::Value,
    ) -> (r: Result<DocumentId, EdgeError>)
        requires
            old(self).wf(),
        ensures
            final(self).wf(),
            final(self).dim() == old(self).dim(),
            final(self).embs() == old(self).embs(),
            content@.len() == 0 ==> {
                &&& r matches Err(EdgeError::Validation(m)) && m@ == "content must not be empty"@
                &&& final(self).docs() == old(self).docs()
            },
            content@.len() != 0 ==> {
                &&& r == Ok::<DocumentId, EdgeError>(id)
                &&& final(self).docs().contains_key(id.0)
                &&& document_holds(final(self).docs()[id.0], id, content, metadata,
                    sha256_digest(encode_utf8(content@)), now_ms, now_ms)
                &&& final(self).docs().remove(id.0) == old(self).docs().remove(id.0)
            },
    {
        if content.as_str().is_empty() {
            proof {
                reveal_strlit("content must not be empty");
            }
            return Err(EdgeError::Validation(to_owned_string("content must not be empty")));
        }
        let hash = sha256(content.as_str().as_bytes());
        let doc = Document {
            id,
            content,
            metadata,
            content_hash: ContentHash(hash),
            created_at: now_ms,
            updated_at: now_ms,
        };
        self.documents.insert(id.0, doc);
        proof {
            assert(self.embs() =~= old(self).embs());
            assert(self.docs().remove(id.0) =~= old(self).docs().remove(id.0));
        }
        Ok(id)
    }

    /// Stores a document under a fresh id at the current time; empty content
    /// is refused before the clock is read. The time is the system clock's
    /// reading in milliseconds (0 when the clock is set before the epoch), and
    /// the id a version-7 UUID for that millisecond.
    pub fn insert_document(&mut self, content: String, metadata: serde_json::Value) -> (r: Result<
        DocumentId,
        EdgeError,
    >)
        requires
            old(self).wf(),
        ensures
            final(self).wf(),
            final(self).dim() == old(self).dim(),
            final(self).embs() == old(self).embs(),
            content@.len() == 0 ==> {
                &&& r matches Err(EdgeError::Validation(m)) && m@ == "content must not be empty"@
                &&& final(self).docs() == old(self).docs()
            },
            content@.len() != 0 ==> (r matches Ok(id) && {
                &&& final(self).docs().contains_key(id.0)
                &&& document_holds(final(self).docs()[id.0], id, content, metadata,
                    sha256_digest(encode_utf8(content@)), final(self).docs()[id.0].created_at,
                    final(self).docs()[id.0].created_at)
                &&& final(self).docs().remove(id.0) == old(self).docs().remove(id.0)
            }),
    {
        if content.as_str().is_empty() {
            proof {
                reveal_strlit("content must not be empty");
            }
            return Err(EdgeError::Validation(to_owned_string("content must not be empty")));
        }
        let now = StdClock.now_ms();
        let ms: u64 = if now >= 0 { now as u64 } else { 0 };
        let id = DocumentId(new_uuid_v7_at(ms / 1000, ((ms % 1000) * 1_000_000) as u32));
        self.insert_document_at(id, now, content, metadata)
    }

    /// Stores a document with its embedding; an embedding of the wrong length
    /// is refused before anything is stored, and so is empty content.
    pub fn insert_document_with_embedding(
        &mut self,
        content: String,
        metadata: serde_json::Value,
        embedding: Vec<u32>,
    ) -> (r: Result<DocumentId, EdgeError>)
        requires
            old(self).wf(),
        ensures
            final(self).wf(),
            final(self).dim() == old(self).dim(),
            embedding@.len() != old(self).dim() ==> {
                &&& r matches Err(EdgeError::DimensionMismatch { expected, got })
                    && expected == old(self).dim() && got == embedding@.len()
                &&& final(self).docs() == old(self).docs()
                &&& final(self).embs() == old(self).embs()
            },
            embedding@.len() == old(self).dim() && content@.len() == 0 ==> {
                &&& r matches Err(EdgeError::Validation(m)) && m@ == "content must not be empty"@
                &&& final(self).docs() == old(self).docs()
                &&& final(self).embs() == old(self).embs()
            },
            embedding@.len() == old(self).dim() && content@.len() != 0 ==> (r matches Ok(id) && {
                &&& final(self).docs().contains_key(id.0)
                &&& document_holds(final(self).docs()[id.0], id, content, metadata,
                    sha256_digest(encode_utf8(content@)), final(self).docs()[id.0].created_at,
                    final(self).docs()[id.0].created_at)
                &&& final(self).docs().remove(id.0) == old(self).docs().remove(id.0)
                &&& final(self).embs() == old(self).embs().insert(id.0, embedding@)
            }),
    {
        if embedding.len() != self.embed_dim as usize {
            return Err(
                EdgeError::DimensionMismatch { expected: self.embed_dim as usize, got: embedding.len() },
            );
        }
        let id = match self.insert_document(content, metadata) {
            Ok(id) => id,
            Err(e) => return Err(e),
        };
        let ghost before = self.embs();
        self.embeddings.insert(id.0, embedding);
        proof {
            assert(self.embs() =~= before.insert(id.0, embedding@));
        }
        Ok(id)
    }

    /// Replaces the embedding of a held document; an unknown id or an
    /// embedding of the wrong length is refused.
    pub fn set_embedding(&mut self, id: &DocumentId, embedding: Vec<u32>) -> (r: Result<(), EdgeError>)
        requires
            old(self).wf(),
        ensures
            final(self).wf(),
            final(self).dim() == old(self).dim(),
            final(self).docs() == old(self).docs(),
            !old(self).docs().contains_key(id.0) ==> {
                &&& r matches Err(EdgeError::NotFound(i)) && i == *id
                &&& final(self).embs() == old(self).embs()
            },
            old(self).docs().contains_key(id.0) && embedding@.len() != old(self).dim() ==> {
                &&& r matches Err(EdgeError::DimensionMismatch { expected, got })
                    && expected == old(self).dim() && got == embedding@.len()
                &&& final(self).embs() == old(self).embs()
            },
            old(self).docs().contains_key(id.0) && embedding@.len() == old(self).dim() ==> {
                &&& r is Ok
                &&& final(self).embs() == old(self).embs().insert(id.0, embedding@)
            },
    {
        if !self.documents.contains_key(&id.0) {
            return Err(EdgeError::NotFound(*id));
        }
        if embedding.len() != self.embed_dim as usize {
            return Err(
                EdgeError::DimensionMismatch { expected: self.embed_dim as usize, got: embedding.len() },
            );
        }
        let ghost before = self.embs();
        self.embeddings.insert(id.0, embedding);
        proof {
            assert(self.embs() =~= before.insert(id.0, embedding@));
        }
        Ok(())
    }

    /// The document with the given id, if held.
    pub fn get_document(&self, id: &DocumentId) -> (r: Option<&Document>)
        ensures
            self.docs().contains_key(id.0) ==> r == Some(&self.docs()[id.0]),
            !self.docs().contains_key(id.0) ==> r is None,
    {
        self.documents.get(&id.0)
    }

    /// Removes a document and its embedding; tells whether the document was held.
    pub fn delete_document(&mut self, id: &DocumentId) -> (r: bool)
        requires
            old(self).wf(),
        ensures
            final(self).wf(),
            final(self).dim() == old(self).dim(),
            r == old(self).docs().contains_key(id.0),
            final(self).docs() == old(self).docs().remove(id.0),
            final(self).embs() == old(self).embs().remove(id.0),
    {
        let ghost before = self.embs();
        let _ = self.embeddings.remove(&id.0);
        proof {
            assert(self.embs() =~= before.remove(id.0));
        }
        let removed = self.documents.remove(&id.0);
        proof {
            assert forall|k: u128| #[trigger] self.embs().contains_key(k) implies self.docs().contains_key(k) by {
                assert(before.contains_key(k));
                assert(old(self).docs().contains_key(k));
            }
            assert(self.docs() == old(self).docs().remove(id.0));
            assert forall|k: u128| #[trigger] self.docs().contains_key(k) implies self.docs()[k].id.0 == k by {
                assert(old(self).docs().contains_key(k));
            }
        }
        removed.is_some()
    }

    pub fn document_count(&self) -> (n: usize)
        ensures
            n == self.docs().len(),
    {
        self.documents.len()
    }

    pub fn embedding_count(&self) -> (n: usize)
        ensures
            n == self.embs().len(),
    {
        proof {
            assert(self.embs().dom() =~= self.embeddings@.dom());
        }
        self.embeddings.len()
    }

    /// Each stored embedding once, with its document's id.
    fn list_embeddings(&self) -> (out: Vec<SyncEmbedding>)
        ensures
            exports_embeddings(self.embs(), out@),
    {
        let mut out: Vec<SyncEmbedding> = Vec::new();
        let ghost v2 = spec_hash_map_iter(&self.embeddings).remaining();
        for kv in it2: self.embeddings.iter()
            invariant
                it2.seq() == v2,
                out@.len() == it2.index(),
                forall|j: int|
                    0 <= j < it2.index() ==> (#[trigger] out@[j]).document_id.0 == *it2.seq()[j].0
                        && out@[j].vector@ == it2.seq()[j].1@,
        {
            let (k, v) = kv;
            out.push(SyncEmbedding { document_id: DocumentId(*k), vector: copy_words(v) });
        }
        assert(out@.len() == v2.len());
        proof {
            let m = self.embeddings@;
            assert(v2.no_duplicates());
            assert(self.embs().dom() =~= m.dom());
            assert forall|j: int| 0 <= j < out@.len() implies self.embs().contains_key(
                #[trigger] out@[j].document_id.0,
            ) && out@[j].vector@ == self.embs()[out@[j].document_id.0] by {
                assert(m.contains_key(*v2[j].0) && m[*v2[j].0] == *v2[j].1);
            }
            assert forall|i: int, j: int| 0 <= i < j < out@.len() implies out@[i].document_id.0
                != out@[j].document_id.0 by {
                assert(m.contains_key(*v2[i].0) && m[*v2[i].0] == *v2[i].1);
                assert(m.contains_key(*v2[j].0) && m[*v2[j].0] == *v2[j].1);
                if out@[i].document_id.0 == out@[j].document_id.0 {
                    assert(v2[i] == v2[j]);
                }
            }
            assert forall|k: u128| self.embs().contains_key(k) implies exists|j: int|
                0 <= j < out@.len() && out@[j].document_id.0 == k by {
                assert(m.contains_key(k));
                assert(v2.contains((&k, &m[k])));
                let j = choose|j: int| 0 <= j < v2.len() && v2[j] == (&k, &m[k]);
                assert(out@[j].document_id.0 == k);
            }
        }
        out
    }

    pub fn embed_dim(&self) -> (d: u16)
        ensures
            d == self.dim(),
    {
        self.embed_dim
    }
}


/// `out` lists each document of `docs` once, in its exported form.
pub open spec fn exports_documents(docs: Map<u128, Document>, out: Seq<SyncDocument>) -> bool {
    &&& out.len() == docs.len()
    &&& forall|j: int|
        0 <= j < out.len() ==> docs.contains_key(#[trigger] out[j].id.0) && exported_as(
            docs[out[j].id.0],
            out[j],
        )
    &&& forall|i: int, j: int| 0 <= i < j < out.len() ==> out[i].id.0 != out[j].id.0
    &&& forall|k: u128| docs.contains_key(k) ==> exists|j: int| 0 <= j < out.len() && out[j].id.0 == k
}

/// `out` lists each embedding of `embs` once.
pub open spec fn exports_embeddings(embs: Map<u128, Seq<u32>>, out: Seq<SyncEmbedding>) -> bool {
    &&& out.len() == embs.len()
    &&& forall|j: int|
        0 <= j < out.len() ==> embs.contains_key(#[trigger] out[j].document_id.0) && out[j].vector@
            == embs[out[j].document_id.0]
    &&& forall|i: int, j: int| 0 <= i < j < out.len() ==> out[i].document_id.0 != out[j].document_id.0
    &&& forall|k: u128| embs.contains_key(k) ==> exists|j: int| 0 <= j < out.len() && out[j].document_id.0 == k
}

fn copy_words(v: &Vec<u32>) -> (r: Vec<u32>)
    ensures
        r@ == v@,
{
    let mut r: Vec<u32> = Vec::new();
    let mut i: usize = 0;
    while i < v.len()
        invariant
            i <= v.len(),
            r@ == v@.take(i as int),
        decreases v.len() - i,
    {
        r.push(v[i]);
        proof {
            assert(v@.take(i + 1) =~= v@.take(i as int).push(v@[i as int]));
        }
        i = i + 1;
    }
    assert(v@.take(v.len() as int) =~= v@);
    r
}

impl EdgeStore {
    /// Everything the store holds, in the form another store imports: each
    /// document once, with its hash in hexadecimal, and each embedding once.
    /// The order follows the store's hash maps.
    pub fn export_for_sync(&self) -> (r: Result<SyncPayload, EdgeError>)
        requires
            self.wf(),
        ensures
            r matches Ok(p) && {
                &&& p.version == 1
                &&& exports_documents(self.docs(), p.documents@)
                &&& exports_embeddings(self.embs(), p.embeddings@)
            },
    {
        let mut documents: Vec<SyncDocument> = Vec::new();
        let ghost v = spec_hash_map_iter(&self.documents).remaining();
        for kv in it: self.documents.iter()
            invariant
                self.wf(),
                it.seq() == v,
                documents@.len() == it.index(),
                forall|j: int|
                    0 <= j < it.index() ==> exported_as(*it.seq()[j].1, #[trigger] documents@[j]),
        {
            let (_k, d) = kv;
            documents.push(
                SyncDocument {
                    id: d.id,
                    content: d.content.clone(),
                    metadata: clone_json(&d.metadata),
                    content_hash: encode(&d.content_hash.0),
                    created_at: d.created_at,
                    updated_at: d.updated_at,
                },
            );
        }
        assert(documents@.len() == v.len());
        proof {
            let m = self.documents@;
            assert(v.no_duplicates());
            assert(v.len() == m.dom().len());
            assert forall|j: int| 0 <= j < documents@.len() implies self.docs().contains_key(
                #[trigger] documents@[j].id.0,
            ) && exported_as(self.docs()[documents@[j].id.0], documents@[j]) by {
                assert(m.contains_key(*v[j].0) && m[*v[j].0] == *v[j].1);
            }
            assert forall|i: int, j: int| 0 <= i < j < documents@.len() implies documents@[i].id.0
                != documents@[j].id.0 by {
                assert(m.contains_key(*v[i].0) && m[*v[i].0] == *v[i].1);
                assert(m.contains_key(*v[j].0) && m[*v[j].0] == *v[j].1);
                if documents@[i].id.0 == documents@[j].id.0 {
                    assert(v[i] == v[j]);
                }
            }
            assert forall|k: u128| self.docs().contains_key(k) implies exists|j: int|
                0 <= j < documents@.len() && documents@[j].id.0 == k by {
                assert(m.contains_key(k));
                assert(v.contains((&k, &m[k])));
                let j = choose|j: int| 0 <= j < v.len() && v[j] == (&k, &m[k]);
                assert(documents@[j].id.0 == k);
            }
        }
        let embeddings = self.list_embeddings();
        Ok(SyncPayload { version: 1, documents, embeddings })
    }
}

/// Once an import has stopped, reading further documents changes nothing.
pub proof fn lemma_import_trace_stops(keys0: Set<u128>, docs: Seq<SyncDocument>, m: int, n: int)
    requires
        0 <= m <= n,
        import_trace(keys0, docs, m).failure is Some || import_trace(keys0, docs, m).splits,
    ensures
        import_trace(keys0, docs, n) == import_trace(keys0, docs, m),
    decreases n - m,
{
    if n > m {
        lemma_import_trace_stops(keys0, docs, m, n - 1);
    }
}

/// While an import runs, every document read is either imported or skipped,
/// and the held ids are the first ids plus the imported ones.
pub proof fn lemma_import_trace_counts(keys0: Set<u128>, docs: Seq<SyncDocument>, n: int)
    requires
        0 <= n <= docs.len(),
    ensures
        import_trace(keys0, docs, n).failure is None && !import_trace(keys0, docs, n).splits
            ==> import_trace(keys0, docs, n).imported + import_trace(keys0, docs, n).skipped == n,
        forall|k: u128| #[trigger] import_trace(keys0, docs, n).source.contains_key(k) ==> {
            &&& 0 <= import_trace(keys0, docs, n).source[k] < n
            &&& docs[import_trace(keys0, docs, n).source[k]].id.0 == k
            &&& !keys0.contains(k)
        },
        import_trace(keys0, docs, n).keys == keys0.union(import_trace(keys0, docs, n).source.dom()),
    decreases n,
{
    if n > 0 {
        lemma_import_trace_counts(keys0, docs, n - 1);
        let t = import_trace(keys0, docs, n - 1);
        let t2 = import_trace(keys0, docs, n);
        assert(t2.keys =~= keys0.union(t2.source.dom()));
    }
}

impl EdgeStore {
    /// Imports another store's export. Documents whose id is already held are
    /// skipped; the first hash that does not decode stops the import with a
    /// serialization error, keeping the documents imported before it. Then
    /// each embedding whose document is held replaces the stored one.
    pub fn import_from_sync(&mut self, payload: &SyncPayload) -> (r: Result<SyncStats, EdgeError>)
        requires
            old(self).wf(),
            !import_trace(old(self).docs().dom(), payload.documents@, payload.documents@.len() as int).splits,
        ensures
            final(self).wf(),
            final(self).dim() == old(self).dim(),
            ({
                let t = import_trace(old(self).docs().dom(), payload.documents@, payload.documents@.len() as int);
                &&& final(self).docs().dom() == t.keys
                &&& forall|k: u128| #[trigger] old(self).docs().contains_key(k) ==> final(self).docs()[k] == old(self).docs()[k]
                &&& forall|k: u128| #[trigger] t.source.contains_key(k) ==> imported_as(
                    final(self).docs()[k],
                    payload.documents@[t.source[k]],
                    decoded_hash(payload.documents@[t.source[k]]),
                )
                &&& t.failure matches Some(e) ==> {
                    &&& r matches Err(EdgeError::Serialization(m)) && m@ == e
                    &&& final(self).embs() == old(self).embs()
                }
                &&& t.failure is None ==> (r matches Ok(stats) && {
                    &&& stats.documents_imported == t.imported
                    &&& stats.documents_skipped == t.skipped
                    &&& (final(self).embs(), stats.embeddings_imported as nat) == import_embeddings(
                        t.keys,
                        old(self).embs(),
                        payload.embeddings@,
                        payload.embeddings@.len() as int,
                    )
                })
            }),
    {
        let ghost keys0 = old(self).docs().dom();
        let ghost docs = payload.documents@;
        let ghost total = import_trace(keys0, docs, docs.len() as int);
        let mut stats = SyncStats { documents_imported: 0, embeddings_imported: 0, documents_skipped: 0 };
        let n = payload.documents.len();
        let mut i: usize = 0;
        while i < n
            invariant
                n == docs.len(),
                docs == payload.documents@,
                keys0 == old(self).docs().dom(),
                total == import_trace(keys0, docs, docs.len() as int),
                !total.splits,
                i <= n,
                import_trace(keys0, docs, i as int).failure is None,
                !import_trace(keys0, docs, i as int).splits,
                stats.documents_imported == import_trace(keys0, docs, i as int).imported,
                stats.documents_skipped == import_trace(keys0, docs, i as int).skipped,
                stats.embeddings_imported == 0,
                self.wf(),
                self.dim() == old(self).dim(),
                self.embs() == old(self).embs(),
                self.docs().dom() == import_trace(keys0, docs, i as int).keys,
                forall|k: u128| #[trigger] old(self).docs().contains_key(k) ==> self.docs()[k] == old(self).docs()[k],
                forall|k: u128| #[trigger] import_trace(keys0, docs, i as int).source.contains_key(k) ==> imported_as(
                    self.docs()[k],
                    docs[import_trace(keys0, docs, i as int).source[k]],
                    decoded_hash(docs[import_trace(keys0, docs, i as int).source[k]]),
                ),
            decreases n - i,
        {
            let ghost t = import_trace(keys0, docs, i as int);
            proof {
                lemma_import_trace_counts(keys0, docs, i as int);
            }
            let doc = &payload.documents[i];
            if self.documents.contains_key(&doc.id.0) {
                stats.documents_skipped = stats.documents_skipped + 1;
            } else {
                proof {
                    let t2 = import_trace(keys0, docs, i + 1);
                    if hex_decode_outcome(encode_utf8(doc.content_hash@)) is SplitsChar {
                        assert(t2.splits);
                        lemma_import_trace_stops(keys0, docs, i + 1, docs.len() as int);
                    }
                }
                let bytes = match decode(doc.content_hash.as_str()) {
                    Ok(b) => b,
                    Err(e) => {
                        proof {
                            lemma_import_trace_stops(keys0, docs, i + 1, docs.len() as int);
                        }
                        return Err(EdgeError::Serialization(e));
                    },
                };
                let hash = ContentHash::from_prefix(bytes.as_slice());
                let created_at = if millis_in_range(doc.created_at) { doc.created_at } else { 0 };
                let updated_at = if millis_in_range(doc.updated_at) { doc.updated_at } else { 0 };
                let document = Document {
                    id: doc.id,
                    content: doc.content.clone(),
                    metadata: clone_json(&doc.metadata),
                    content_hash: hash,
                    created_at,
                    updated_at,
                };
                self.documents.insert(doc.id.0, document);
                stats.documents_imported = stats.documents_imported + 1;
                proof {
                    let t2 = import_trace(keys0, docs, i + 1);
                    lemma_import_trace_counts(keys0, docs, i + 1);
                    assert(self.docs().dom() =~= t2.keys);
                    assert forall|k: u128| #[trigger] t2.source.contains_key(k) implies imported_as(
                        self.docs()[k],
                        docs[t2.source[k]],
                        decoded_hash(docs[t2.source[k]]),
                    ) by {
                        if k != doc.id.0 {
                            assert(t.source.contains_key(k));
                        }
                    }
                }
            }
            i = i + 1;
        }
        proof {
            lemma_import_trace_counts(keys0, docs, n as int);
        }
        assert(import_trace(keys0, docs, n as int) == total);
        let ghost keys = self.docs().dom();
        let ghost docs_after = self.docs();
        let m = payload.embeddings.len();
        let mut j: usize = 0;
        while j < m
            invariant
                m == payload.embeddings@.len(),
                j <= m,
                keys == self.docs().dom(),
                self.docs() == docs_after,
                stats.documents_imported == total.imported,
                stats.documents_skipped == total.skipped,
                self.wf(),
                self.dim() == old(self).dim(),
                (self.embs(), stats.embeddings_imported as nat) == import_embeddings(
                    keys,
                    old(self).embs(),
                    payload.embeddings@,
                    j as int,
                ),
                stats.embeddings_imported <= j,
            decreases m - j,
        {
            let e = &payload.embeddings[j];
            if self.documents.contains_key(&e.document_id.0) {
                let ghost before = self.embs();
                self.embeddings.insert(e.document_id.0, copy_words(&e.vector));
                stats.embeddings_imported = stats.embeddings_imported + 1;
                proof {
                    assert(self.embs() =~= before.insert(e.document_id.0, e.vector@));
                }
            }
            j = j + 1;
        }
        Ok(stats)
    }
}

/// The ids of the first `n` exported documents.
pub open spec fn first_ids(docs: Seq<SyncDocument>, n: int) -> Set<u128> {
    Set::new(|k: u128| exists|j: int| 0 <= j < n && docs[j].id.0 == k)
}

#[verifier::spinoff_prover]
#[verifier::rlimit(30)]
proof fn lemma_roundtrip_documents(a: &EdgeStore, docs: Seq<SyncDocument>, n: int)
    requires
        a.wf(),
        exports_documents(a.docs(), docs),
        0 <= n <= docs.len(),
    ensures
        ({
            let t = import_trace(Set::empty(), docs, n);
            &&& t.failure is None
            &&& !t.splits
            &&& t.imported == n
            &&& t.skipped == 0
            &&& t.keys == first_ids(docs, n)
            &&& forall|j: int| 0 <= j < n ==> #[trigger] t.source.contains_key(docs[j].id.0) && t.source[docs[j].id.0] == j
            &&& t.source.dom() == first_ids(docs, n)
        }),
    decreases n,
{
    if n > 0 {
        lemma_roundtrip_documents(a, docs, n - 1);
        let t = import_trace(Set::empty(), docs, n - 1);
        let sd = docs[n - 1];
        let d = a.docs()[sd.id.0];
        assert(a.docs().contains_key(sd.id.0) && exported_as(d, sd));
        assert(!t.keys.contains(sd.id.0)) by {
            if t.keys.contains(sd.id.0) {
                let j = choose|j: int| 0 <= j < n - 1 && docs[j].id.0 == sd.id.0;
                assert(docs[j].id.0 != docs[n - 1].id.0);
            }
        }
        crate::hex::lemma_hex_roundtrip(d.content_hash.0@);
        let t2 = import_trace(Set::empty(), docs, n);
        assert(t2.keys =~= first_ids(docs, n)) by {
            assert forall|k: u128| first_ids(docs, n).contains(k) implies t2.keys.contains(k) by {
                let j = choose|j: int| 0 <= j < n && docs[j].id.0 == k;
                if j < n - 1 {
                    assert(first_ids(docs, n - 1).contains(k));
                }
            }
            assert forall|k: u128| t2.keys.contains(k) implies first_ids(docs, n).contains(k) by {
                if k != sd.id.0 {
                    let j = choose|j: int| 0 <= j < n - 1 && docs[j].id.0 == k;
                    assert(0 <= j < n && docs[j].id.0 == k);
                }
            }
        }
        assert(t2.source == t.source.insert(sd.id.0, n - 1));
        assert(t2.source.dom() =~= first_ids(docs, n));
        assert forall|j: int| 0 <= j < n implies #[trigger] t2.source.contains_key(docs[j].id.0)
            && t2.source[docs[j].id.0] == j by {
            if j < n - 1 {
                assert(t.source.contains_key(docs[j].id.0) && t.source[docs[j].id.0] == j);
                assert(docs[j].id.0 != docs[n - 1].id.0);
            }
        }
    }
}

proof fn lemma_roundtrip_embeddings(a: &EdgeStore, es: Seq<SyncEmbedding>, n: int)
    requires
        a.wf(),
        exports_embeddings(a.embs(), es),
        0 <= n <= es.len(),
    ensures
        import_embeddings(a.docs().dom(), Map::empty(), es, n).1 == n,
        forall|k: u128| #[trigger] import_embeddings(a.docs().dom(), Map::empty(), es, n).0.contains_key(k)
            <==> exists|j: int| 0 <= j < n && es[j].document_id.0 == k,
        forall|k: u128| #[trigger] import_embeddings(a.docs().dom(), Map::empty(), es, n).0.contains_key(k)
            ==> import_embeddings(a.docs().dom(), Map::empty(), es, n).0[k] == a.embs()[k],
    decreases n,
{
    if n > 0 {
        lemma_roundtrip_embeddings(a, es, n - 1);
        let e = es[n - 1];
        assert(a.embs().contains_key(e.document_id.0));
        assert(a.docs().contains_key(e.document_id.0));
        let m2 = import_embeddings(a.docs().dom(), Map::empty(), es, n).0;
        assert forall|k: u128| #[trigger] m2.contains_key(k) implies exists|j: int| 0 <= j < n && es[j].document_id.0 == k by {
            if k != e.document_id.0 {
                let j = choose|j: int| 0 <= j < n - 1 && es[j].document_id.0 == k;
                assert(0 <= j < n && es[j].document_id.0 == k);
            }
        }
        assert forall|k: u128| (exists|j: int| 0 <= j < n && es[j].document_id.0 == k) implies #[trigger] m2.contains_key(k) by {
            let j = choose|j: int| 0 <= j < n && es[j].document_id.0 == k;
            if j < n - 1 {
                assert(exists|j: int| 0 <= j < n - 1 && es[j].document_id.0 == k);
            }
        }
    }
}

/// Exporting a store and importing the payload into an empty store imports
/// every document and every embedding, skips none, and fails on none; each
/// document is stored with the same fields as in the first store (times that
/// chrono can hold come back unchanged), and the embeddings come back equal.
pub proof fn lemma_sync_roundtrip(a: &EdgeStore, p: &SyncPayload)
    requires
        a.wf(),
        exports_documents(a.docs(), p.documents@),
        exports_embeddings(a.embs(), p.embeddings@),
        forall|k: u128| #[trigger] a.docs().contains_key(k) ==> chrono_millis_in_range(a.docs()[k].created_at)
            && chrono_millis_in_range(a.docs()[k].updated_at),
    ensures
        ({
            let t = import_trace(Set::empty(), p.documents@, p.documents@.len() as int);
            &&& t.failure is None
            &&& !t.splits
            &&& t.imported == a.docs().len()
            &&& t.skipped == 0
            &&& t.keys == a.docs().dom()
            &&& t.source.dom() == a.docs().dom()
            &&& forall|k: u128| #[trigger] t.source.contains_key(k) ==> imported_as(
                a.docs()[k],
                p.documents@[t.source[k]],
                decoded_hash(p.documents@[t.source[k]]),
            )
            &&& import_embeddings(t.keys, Map::empty(), p.embeddings@, p.embeddings@.len() as int)
                == (a.embs(), a.embs().len())
        }),
{
    let docs = p.documents@;
    let n = docs.len() as int;
    lemma_roundtrip_documents(a, docs, n);
    let t = import_trace(Set::empty(), docs, n);
    assert(first_ids(docs, n) =~= a.docs().dom()) by {
        assert forall|k: u128| a.docs().contains_key(k) implies first_ids(docs, n).contains(k) by {
            let j = choose|j: int| 0 <= j < docs.len() && docs[j].id.0 == k;
        }
    }
    assert forall|k: u128| #[trigger] t.source.contains_key(k) implies imported_as(
        a.docs()[k],
        docs[t.source[k]],
        decoded_hash(docs[t.source[k]]),
    ) by {
        let j = choose|j: int| 0 <= j < n && docs[j].id.0 == k;
        assert(t.source[docs[j].id.0] == j);
        let sd = docs[j];
        let d = a.docs()[k];
        assert(exported_as(d, sd));
        crate::hex::lemma_hex_roundtrip(d.content_hash.0@);
        assert(decoded_hash(sd) == d.content_hash.0@);
        assert(padded_hash(d.content_hash.0@) =~= d.content_hash.0@);
    }
    let es = p.embeddings@;
    lemma_roundtrip_embeddings(a, es, es.len() as int);
    let r = import_embeddings(a.docs().dom(), Map::empty(), es, es.len() as int);
    assert(r.0 =~= a.embs()) by {
        assert forall|k: u128| a.embs().contains_key(k) implies r.0.contains_key(k) by {
            let j = choose|j: int| 0 <= j < es.len() && es[j].document_id.0 == k;
        }
    }
}

impl EdgeStore {
    /// What a similarity search over a query of `query_len` components ranks:
    /// each stored embedding once with its document's id. A query of the
    /// wrong length is refused; an empty store gives nothing to rank.
    pub fn similarity_candidates(&self, query_len: usize) -> (r: Result<Vec<SyncEmbedding>, EdgeError>)
        ensures
            query_len != self.dim() ==> (r matches Err(EdgeError::DimensionMismatch { expected, got })
                && expected == self.dim() && got == query_len),
            query_len == self.dim() ==> (r matches Ok(v) && exports_embeddings(self.embs(), v@)),
    {
        if query_len != self.embed_dim as usize {
            return Err(EdgeError::DimensionMismatch { expected: self.embed_dim as usize, got: query_len });
        }
        if self.embeddings.is_empty() {
            assert(self.embs().dom() =~= self.embeddings@.dom());
            return Ok(Vec::new());
        }
        Ok(self.list_embeddings())
    }
}
fn contains_id(ids: &Vec<u128>, x: u128) -> (r: bool)
    ensures
        r == ids@.contains(x),
{
    let mut i: usize = 0;
    while i < ids.len()
        invariant
            i <= ids@.len(),
            forall|j: int| 0 <= j < i ==> ids@[j] != x,
        decreases ids@.len() - i,
    {
        if ids[i] == x {
            return true;
        }
        i = i + 1;
    }
    false
}

impl EdgeStore {
    /// Whether importing `payload` would reach a content hash that cannot be
    /// decoded without cutting a character in two; `import_from_sync` may
    /// only be called when it would not.
    pub fn import_splits_char(&self, payload: &SyncPayload) -> (r: bool)
        ensures
            r == import_trace(self.docs().dom(), payload.documents@, payload.documents@.len() as int).splits,
    {
        let ghost keys0 = self.docs().dom();
        let ghost docs = payload.documents@;
        let mut added: Vec<u128> = Vec::new();
        let n = payload.documents.len();
        let mut i: usize = 0;
        while i < n
            invariant
                n == docs.len(),
                docs == payload.documents@,
                keys0 == self.docs().dom(),
                i <= n,
                import_trace(keys0, docs, i as int).failure is None,
                !import_trace(keys0, docs, i as int).splits,
                import_trace(keys0, docs, i as int).keys == keys0.union(added@.to_set()),
            decreases n - i,
        {
            let doc = &payload.documents[i];
            let id = doc.id.0;
            let held = self.documents.contains_key(&id) || contains_id(&added, id);
            proof {
                let t = import_trace(keys0, docs, i as int);
                assert(held == t.keys.contains(id)) by {
                    assert(added@.contains(id) == added@.to_set().contains(id));
                }
            }
            if !held {
                let hash_text = doc.content_hash.as_str();
                proof {
                    assert(hash_text@ == doc.content_hash@);
                }
                match check_decode(hash_text) {
                    HexCheck::Decodes => {
                        proof {
                            broadcast use vstd::seq_lib::group_seq_properties;
                            let t2 = import_trace(keys0, docs, i + 1);
                            assert(hex_decode_outcome(encode_utf8(doc.content_hash@)) is Decoded);
                            assert(t2.keys == import_trace(keys0, docs, i as int).keys.insert(id));
                            assert(added@.push(id).to_set() =~= added@.to_set().insert(id));
                            assert(t2.keys =~= keys0.union(added@.push(id).to_set()));
                        }
                        added.push(id);
                    },
                    HexCheck::Fails => {
                        proof {
                            lemma_import_trace_stops(keys0, docs, i + 1, n as int);
                        }
                        return false;
                    },
                    HexCheck::SplitsChar => {
                        proof {
                            lemma_import_trace_stops(keys0, docs, i + 1, n as int);
                        }
                        return true;
                    },
                }
            }
            i = i + 1;
        }
        false
    }
}

impl EdgeError {
    /// The error as it is shown.
    pub open spec fn message(&self) -> Seq<char> {
        match self {
            EdgeError::NotFound(id) => "document not found: "@ + uuid_text(id.0),
            EdgeError::DimensionMismatch { expected, got } => mismatch_text(
                "dimension mismatch: "@,
                *expected as nat,
                *got as nat,
            ),
            EdgeError::Validation(m) => "validation error: "@ + m@,
            EdgeError::Serialization(m) => "serialization error: "@ + m@,
            EdgeError::EmptyIndex => "store is empty, no vectors indexed"@,
        }
    }

    pub fn to_string(&self) -> (s: String)
        ensures
            s@ == self.message(),
    {
        match self {
            EdgeError::NotFound(id) => concat("document not found: ", id.to_string().as_str()),
            EdgeError::DimensionMismatch { expected, got } => mismatch_string("dimension mismatch: ", *expected, *got),
            EdgeError::Validation(m) => concat("validation error: ", m.as_str()),
            EdgeError::Serialization(m) => concat("serialization error: ", m.as_str()),
            EdgeError::EmptyIndex => to_owned_string("store is empty, no vectors indexed"),
        }
    }
}

/// Why a request given as text could not be served: its JSON did not parse
/// (with the parser's message), or the store refused it.
#[derive(Debug)]
pub enum EdgeInputError {
    Json(String),
    Store(EdgeError),
}

impl EdgeInputError {
    /// The error as it is shown: the parser's message, or the store's error.
    pub open spec fn message(&self) -> Seq<char> {
        match self {
            EdgeInputError::Json(m) => m@,
            EdgeInputError::Store(e) => e.message(),
        }
    }

    pub fn to_string(&self) -> (s: String)
        ensures
            s@ == self.message(),
    {
        match self {
            EdgeInputError::Json(m) => to_owned_string(m.as_str()),
            EdgeInputError::Store(e) => e.to_string(),
        }
    }
}

/// `d` is the document stored under `id` with `content` and the metadata the
/// JSON text `metadata_json` parses to, its hash the SHA-256 of the content
/// and its two times equal.
pub open spec fn stored_from_json(d: Document, id: DocumentId, content: String, metadata_json: Seq<char>) -> bool {
    &&& json_parsed(metadata_json) is Ok
    &&& document_holds(d, id, content, json_parsed(metadata_json)->Ok_0, sha256_digest(encode_utf8(content@)),
        d.created_at, d.created_at)
}

/// A document stored from JSON metadata holds the value the text parses to,
/// so two documents stored from the same text hold equal metadata, whatever
/// else differs.
pub proof fn lemma_json_metadata_is_the_parsed_value(
    d1: Document,
    id1: DocumentId,
    c1: String,
    d2: Document,
    id2: DocumentId,
    c2: String,
    metadata_json: Seq<char>,
)
    requires
        stored_from_json(d1, id1, c1, metadata_json),
        stored_from_json(d2, id2, c2, metadata_json),
    ensures
        json_parsed(metadata_json) == Ok::<serde_json::Value, Seq<char>>(d1.metadata),
        d1.metadata == d2.metadata,
        d1.content == c1,
        d1.id == id1,
{
}

impl EdgeStore {
    /// Stores a document whose metadata is given as JSON text: text that does
    /// not parse is refused with the parser's message before anything else;
    /// otherwise as `insert_document`, with the parsed metadata.
    pub fn insert_document_json(&mut self, content: String, metadata_json: &str) -> (r: Result<
        DocumentId,
        EdgeInputError,
    >)
        requires
            old(self).wf(),
        ensures
            final(self).wf(),
            final(self).dim() == old(self).dim(),
            final(self).embs() == old(self).embs(),
            json_parse_error(metadata_json@) matches Some(msg) ==> {
                &&& r matches Err(EdgeInputError::Json(m)) && m@ == msg
                &&& final(self).docs() == old(self).docs()
            },
            json_parse_error(metadata_json@) is None && content@.len() == 0 ==> {
                &&& r matches Err(EdgeInputError::Store(EdgeError::Validation(m)))
                    && m@ == "content must not be empty"@
                &&& final(self).docs() == old(self).docs()
            },
            json_parse_error(metadata_json@) is None && content@.len() != 0 ==> (r matches Ok(id) && {
                &&& final(self).docs().contains_key(id.0)
                &&& stored_from_json(final(self).docs()[id.0], id, content, metadata_json@)
                &&& final(self).docs().remove(id.0) == old(self).docs().remove(id.0)
            }),
    {
        let metadata = match parse_json(metadata_json) {
            Ok(v) => v,
            Err(e) => return Err(EdgeInputError::Json(e)),
        };
        match self.insert_document(content, metadata) {
            Ok(id) => Ok(id),
            Err(e) => Err(EdgeInputError::Store(e)),
        }
    }

    /// Stores a document with its embedding, the metadata given as JSON text
    /// and the embedding as the outcome of parsing it (its components' bit
    /// patterns, or the parser's message): the metadata is checked first,
    /// then the embedding's parse, then as `insert_document_with_embedding`.
    pub fn insert_document_with_embedding_json(
        &mut self,
        content: String,
        metadata_json: &str,
        embedding: Result<Vec<u32>, String>,
    ) -> (r: Result<DocumentId, EdgeInputError>)
        requires
            old(self).wf(),
        ensures
            final(self).wf(),
            final(self).dim() == old(self).dim(),
            json_parse_error(metadata_json@) matches Some(msg) ==> {
                &&& r matches Err(EdgeInputError::Json(m)) && m@ == msg
                &&& final(self).docs() == old(self).docs()
                &&& final(self).embs() == old(self).embs()
            },
            json_parse_error(metadata_json@) is None && embedding is Err ==> {
                &&& r matches Err(EdgeInputError::Json(m)) && m@ == embedding->Err_0@
                &&& final(self).docs() == old(self).docs()
                &&& final(self).embs() == old(self).embs()
            },
            json_parse_error(metadata_json@) is None && embedding is Ok && embedding->Ok_0@.len() != old(self).dim() ==> {
                &&& r matches Err(EdgeInputError::Store(EdgeError::DimensionMismatch { expected, got }))
                    && expected == old(self).dim() && got == embedding->Ok_0@.len()
                &&& final(self).docs() == old(self).docs()
                &&& final(self).embs() == old(self).embs()
            },
            json_parse_error(metadata_json@) is None && embedding is Ok && embedding->Ok_0@.len() == old(self).dim()
                && content@.len() == 0 ==> {
                &&& r matches Err(EdgeInputError::Store(EdgeError::Validation(m)))
                    && m@ == "content must not be empty"@
                &&& final(self).docs() == old(self).docs()
                &&& final(self).embs() == old(self).embs()
            },
            json_parse_error(metadata_json@) is None && embedding is Ok && embedding->Ok_0@.len() == old(self).dim()
                && content@.len() != 0 ==> (r matches Ok(id) && {
                &&& final(self).docs().contains_key(id.0)
                &&& stored_from_json(final(self).docs()[id.0], id, content, metadata_json@)
                &&& final(self).docs().remove(id.0) == old(self).docs().remove(id.0)
                &&& final(self).embs() == old(self).embs().insert(id.0, embedding->Ok_0@)
            }),
    {
        let metadata = match parse_json(metadata_json) {
            Ok(v) => v,
            Err(e) => return Err(EdgeInputError::Json(e)),
        };
        let vector = match embedding {
            Ok(v) => v,
            Err(e) => return Err(EdgeInputError::Json(e)),
        };
        match self.insert_document_with_embedding(content, metadata, vector) {
            Ok(id) => Ok(id),
            Err(e) => Err(EdgeInputError::Store(e)),
        }
    }

    /// The document whose id is given as text; text that does not parse as a
    /// UUID is refused with the parser's message.
    pub fn get_document_by_text(&self, id: &str) -> (r: Result<Option<&Document>, String>)
        ensures
            match uuid_parsed(id@) {
                Ok(v) => r == Ok::<Option<&Document>, String>(
                    if self.docs().contains_key(v) { Some(&self.docs()[v]) } else { None },
                ),
                Err(m) => r matches Err(e) && e@ == m,
            },
    {
        match parse_uuid(id) {
            Ok(v) => Ok(self.get_document(&DocumentId(v))),
            Err(e) => Err(e),
        }
    }

    /// Removes the document whose id is given as text, with its embedding;
    /// text that does not parse as a UUID is refused with the parser's
    /// message, leaving the store as it was.
    pub fn delete_document_by_text(&mut self, id: &str) -> (r: Result<bool, String>)
        requires
            old(self).wf(),
        ensures
            final(self).wf(),
            final(self).dim() == old(self).dim(),
            match uuid_parsed(id@) {
                Ok(v) => {
                    &&& r == Ok::<bool, String>(old(self).docs().contains_key(v))
                    &&& final(self).docs() == old(self).docs().remove(v)
                    &&& final(self).embs() == old(self).embs().remove(v)
                },
                Err(m) => {
                    &&& r matches Err(e) && e@ == m
                    &&& final(self).docs() == old(self).docs()
                    &&& final(self).embs() == old(self).embs()
                },
            },
    {
        match parse_uuid(id) {
            Ok(v) => Ok(self.delete_document(&DocumentId(v))),
            Err(e) => Err(e),
        }
    }
}

/// Whether an embedding belongs to one of the documents `keys`.
pub open spec fn belongs_to(keys: Set<u128>) -> spec_fn(SyncEmbedding) -> bool {
    |e: SyncEmbedding| keys.contains(e.document_id.0)
}

proof fn lemma_import_embeddings_count(keys: Set<u128>, embs0: Map<u128, Seq<u32>>, es: Seq<SyncEmbedding>, n: int)
    requires
        0 <= n <= es.len(),
    ensures
        import_embeddings(keys, embs0, es, n).1 == es.take(n).filter(belongs_to(keys)).len(),
    decreases n,
{
    if n == 0 {
        reveal_with_fuel(Seq::filter, 1);
        assert(es.take(0) =~= Seq::<SyncEmbedding>::empty());
    } else {
        lemma_import_embeddings_count(keys, embs0, es, n - 1);
        assert(es.take(n) =~= es.take(n - 1).push(es[n - 1]));
        es.take(n - 1).lemma_filter_push(es[n - 1], belongs_to(keys));
    }
}

/// An import that succeeds reads every document once, as imported or as
/// skipped, and takes exactly the payload's embeddings whose document the
/// store then holds.
pub proof fn lemma_import_counts(
    keys0: Set<u128>,
    docs: Seq<SyncDocument>,
    embs0: Map<u128, Seq<u32>>,
    es: Seq<SyncEmbedding>,
)
    requires
        import_trace(keys0, docs, docs.len() as int).failure is None,
        !import_trace(keys0, docs, docs.len() as int).splits,
    ensures
        ({
            let t = import_trace(keys0, docs, docs.len() as int);
            &&& t.imported + t.skipped == docs.len()
            &&& import_embeddings(t.keys, embs0, es, es.len() as int).1 == es.filter(belongs_to(t.keys)).len()
        }),
{
    let t = import_trace(keys0, docs, docs.len() as int);
    lemma_import_trace_counts(keys0, docs, docs.len() as int);
    lemma_import_embeddings_count(t.keys, embs0, es, es.len() as int);
    assert(es.take(es.len() as int) =~= es);
}

/// Removing a held document lowers the store's document count by one, and
/// removing one it does not hold leaves the count as it was.
pub proof fn lemma_count_after_delete(before: Map<u128, Document>, after: Map<u128, Document>, id: u128)
    requires
        before.dom().finite(),
        after == before.remove(id),
    ensures
        after.len() == before.len() - (if before.contains_key(id) { 1int } else { 0int }),
{
    if !before.contains_key(id) {
        assert(after =~= before);
    }
}

/// Storing a document under an id raises the store's document count by one
/// when the id was not held, and leaves it as it was when it was.
pub proof fn lemma_count_after_insert(before: Map<u128, Document>, after: Map<u128, Document>, id: u128)
    requires
        before.dom().finite(),
        after.contains_key(id),
        after.remove(id) == before.remove(id),
    ensures
        after.len() == before.len() + (if before.contains_key(id) { 0int } else { 1int }),
{
    let rest = before.remove(id);
    assert(after =~= rest.insert(id, after[id]));
    if before.contains_key(id) {
        assert(before =~= rest.insert(id, before[id]));
    } else {
        assert(rest =~= before);
    }
}

} // verus!
