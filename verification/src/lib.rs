//! Core logic of an embedded operational database: hybrid logical clocks,
//! last-writer-wins merging, an in-memory edge store with sync payloads,
//! configuration parsing and the decisions of the messaging layer.
pub mod api;
pub mod clock;
pub mod config;
pub mod decimal;
pub mod domain;
pub mod edge;
pub mod events;
pub mod hex;
pub mod hlc;
pub mod ids;
pub mod merge;
pub mod messaging;
pub(crate) mod outside;
pub mod protocol;
pub mod search;
pub mod storage;
pub mod telemetry;
pub mod text;
