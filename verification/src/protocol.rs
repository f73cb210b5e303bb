//! The messages of the delta sync protocol.
use vstd::prelude::*;

use crate::hlc::HlcTimestamp;
use crate::decimal::{signed_decimal, signed_decimal_text};
use crate::ids::{uuid_text, DocumentId, NodeId};
use crate::text::concat;

verus! {

/// Asks for every change made after `since`.
pub struct SyncPullRequest {
    pub since: HlcTimestamp,
    pub node_id: NodeId,
}

pub struct SyncPullResponse {
    pub changes: Vec<Change>,
    pub server_hlc: HlcTimestamp,
}

pub struct SyncPushRequest {
    pub changes: Vec<Change>,
    pub node_id: NodeId,
}

#[derive(Debug, Clone, Copy)]
pub struct SyncPushResponse {
    pub accepted: usize,
    pub rejected: usize,
    pub server_hlc: HlcTimestamp,
}

/// One write to one document, as it travels between nodes. The content hash
/// is written in lower-case hexadecimal.
pub struct Change {
    pub document_id: DocumentId,
    pub content: String,
    pub metadata: serde_json::Value,
    pub content_hash: String,
    pub hlc_ts: HlcTimestamp,
    pub origin_node: NodeId,
    pub deleted: bool,
}

#[derive(Debug)]
pub enum SyncError {
    ClockSkew { local_ms: i64, remote_ms: i64 },
    IdMismatch { local: DocumentId, remote: DocumentId },
    InvalidChange(String),
}

impl SyncError {
    /// The error as it is shown.
    pub open spec fn message(&self) -> Seq<char> {
        match self {
            SyncError::ClockSkew { local_ms, remote_ms } => "clock skew too large: local="@ + signed_decimal_text(
                *local_ms as int,
            ) + ", remote="@ + signed_decimal_text(*remote_ms as int),
            SyncError::IdMismatch { local, remote } => "document id mismatch: "@ + uuid_text(local.0) + " vs "@
                + uuid_text(remote.0),
            SyncError::InvalidChange(m) => "invalid change: "@ + m@,
        }
    }

    pub fn to_string(&self) -> (s: String)
        ensures
            s@ == self.message(),
    {
        match self {
            SyncError::ClockSkew { local_ms, remote_ms } => {
                let mut s = concat("clock skew too large: local=", signed_decimal(*local_ms).as_str());
                s.append(", remote=");
                s.append(signed_decimal(*remote_ms).as_str());
                s
            },
            SyncError::IdMismatch { local, remote } => {
                let mut s = concat("document id mismatch: ", local.to_string().as_str());
                s.append(" vs ");
                s.append(remote.to_string().as_str());
                s
            },
            SyncError::InvalidChange(m) => concat("invalid change: ", m.as_str()),
        }
    }
}

} // verus!
