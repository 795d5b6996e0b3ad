//! Core of an industrial telemetry bridge: a bounded FIFO of encoded
//! records between ingest and egress, the translation of value changes
//! into time-stamped records, the batching of records into envelopes,
//! the tag-discovery frame handling, and the partitioning of tags
//! across producers.

pub mod auth;
pub mod browse;
pub mod config;
pub mod discovery;
pub mod envelope;
pub mod orchestrator;
pub mod queue;
pub mod record;
pub mod session;
pub mod subscription;
pub mod text;

use vstd::prelude::*;

verus! {

/// Fixed type constant that tags every record inside an envelope.
pub const RECORD_TYPE: i32 = 7201;

/// Fixed batch identifier carried by every record.
pub const RECORD_BATCH_ID: i64 = 1000;

} // verus!
