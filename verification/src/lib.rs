//! Ingestion pipeline for storage-change notifications.
//!
//! A batch of change records arrives; each record is classified (creation
//! filter, size gate, presence of bucket and key), qualifying objects are
//! fetched by the caller, and the fetched bytes are handed to the message
//! parser. Per-record failures never abort the batch.

pub mod parse;
pub mod pipeline;
pub mod record;
pub mod text;
