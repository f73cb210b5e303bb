//! Last-writer-wins merging of two versions of one document.
use vstd::prelude::*;

use crate::domain::Document;
use crate::hlc::{hlc_before, HlcTimestamp};
use crate::ids::NodeId;

verus! {

/// A document together with the clock reading and node of its last write.
pub struct VersionedDocument {
    pub document: Document,
    pub hlc_ts: HlcTimestamp,
    pub origin_node: NodeId,
    pub deleted: bool,
}

#[derive(Debug, Clone, Copy, PartialEq, Eq, Structural)]
pub enum MergeResult {
    KeepLocal,
    AcceptRemote,
}

/// A write stamped `(ts_b, node_b)` supersedes one stamped `(ts_a, node_a)`:
/// its timestamp is later, or the timestamps are equal and its node is higher.
pub open spec fn supersedes(ts_a: HlcTimestamp, node_a: NodeId, ts_b: HlcTimestamp, node_b: NodeId) -> bool {
    hlc_before(ts_a, ts_b) || (ts_a == ts_b && node_a.0 < node_b.0)
}

/// The outcome of merging `remote` into `local`.
pub open spec fn lww_outcome(local: &VersionedDocument, remote: &VersionedDocument) -> MergeResult {
    if supersedes(local.hlc_ts, local.origin_node, remote.hlc_ts, remote.origin_node) {
        MergeResult::AcceptRemote
    } else {
        MergeResult::KeepLocal
    }
}

/// Decides whether the remote version replaces the local one: the version
/// with the later timestamp wins, and on equal timestamps the higher node.
/// Deletion plays no part: a delete is a write like any other.
pub fn merge_lww(local: &VersionedDocument, remote: &VersionedDocument) -> (r: MergeResult)
    ensures
        r == lww_outcome(local, remote),
{
    if local.hlc_ts.is_before(&remote.hlc_ts) {
        MergeResult::AcceptRemote
    } else if remote.hlc_ts.is_before(&local.hlc_ts) {
        MergeResult::KeepLocal
    } else if remote.origin_node.0 > local.origin_node.0 {
        MergeResult::AcceptRemote
    } else {
        MergeResult::KeepLocal
    }
}

/// Two replicas that exchange their versions of a document pick the same
/// winner: unless both versions carry the same stamp, exactly one side
/// accepts the other's version.
pub proof fn lemma_merge_converges(a: &VersionedDocument, b: &VersionedDocument)
    requires
        a.hlc_ts != b.hlc_ts || a.origin_node != b.origin_node,
    ensures
        (lww_outcome(a, b) == MergeResult::AcceptRemote) <==> (lww_outcome(b, a) == MergeResult::KeepLocal),
{
}

/// A version never supersedes itself: merging a version with a copy of
/// itself keeps the local one.
pub proof fn lemma_merge_keeps_equal_stamp(a: &VersionedDocument, b: &VersionedDocument)
    requires
        a.hlc_ts == b.hlc_ts,
        a.origin_node == b.origin_node,
    ensures
        lww_outcome(a, b) == MergeResult::KeepLocal,
{
}

/// Superseding is transitive, so merging versions in any order ends with the
/// version of the greatest stamp.
pub proof fn lemma_supersedes_transitive(
    ts_a: HlcTimestamp,
    node_a: NodeId,
    ts_b: HlcTimestamp,
    node_b: NodeId,
    ts_c: HlcTimestamp,
    node_c: NodeId,
)
    requires
        supersedes(ts_a, node_a, ts_b, node_b),
        supersedes(ts_b, node_b, ts_c, node_c),
    ensures
        supersedes(ts_a, node_a, ts_c, node_c),
{
}

/// The outcome depends on the stamps alone: neither the content nor the
/// deletion flag of either version changes it.
pub proof fn lemma_merge_ignores_content(
    a: &VersionedDocument,
    b: &VersionedDocument,
    a2: &VersionedDocument,
    b2: &VersionedDocument,
)
    requires
        a.hlc_ts == a2.hlc_ts,
        a.origin_node == a2.origin_node,
        b.hlc_ts == b2.hlc_ts,
        b.origin_node == b2.origin_node,
    ensures
        lww_outcome(a, b) == lww_outcome(a2, b2),
{
}

} // verus!
