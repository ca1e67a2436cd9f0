//! A persistent, single-writer-per-record task list.
//!
//! The store keeps task records in a durable ordered table keyed by a
//! monotonically increasing 64-bit identifier, and enforces owner-only
//! mutation on every update and delete.

pub mod codec;
pub mod record;
pub mod storage;
pub mod store;

