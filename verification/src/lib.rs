//! Round-based scheduling engine for a crawl framework.
//!
//! The engine owns a work store of five buffers (tasks, profiles, scheduled
//! requests, ready requests, responses) and two result sinks (entities,
//! extraction errors), and advances them tick by tick under a backpressure
//! policy: promote scheduled requests whose not-before time has elapsed,
//! dispatch a bounded batch, replenish profiles around a watermark band,
//! harvest responses through extraction, flush sinks past their thresholds,
//! gate request minting on profile availability, and mint new requests from
//! tasks. A driver around the library performs the actual I/O (fetching,
//! profile acquisition, signal handling) and feeds the outcomes back in as
//! plain values.

pub mod config;
pub mod item;
pub mod laws;
pub mod store;
