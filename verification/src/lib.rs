//! Gathers subdomains of target domains from passive sources.
//!
//! The library holds the verified heart of a run: the source registry
//! and its configuration (`vita`), the admission-controlled fan-out
//! plan over (host, source) pairs (`dispatch`), the contract every
//! source answer is judged by (`capability`), the per-source query
//! builders and answer extractors (`sources`), and the relevance
//! filter that sanitizes, classifies and deduplicates the aggregated
//! names (`postprocessor`). The network, the channel and the
//! asynchronous loop that drives a run live outside, against the
//! contracts stated here.

use vstd::prelude::*;

pub mod capability;
pub mod dispatch;
pub mod error;
pub mod postprocessor;
pub mod sources;
pub mod text;
pub mod vita;

pub use postprocessor::{Filter, PostProcessor, PostProcessorIter};
pub use vita::{Config, Runner, Source};

verus! {

/// The largest number of discovered names a producer buffers before
/// handing a batch to the aggregation channel.
pub const QUEUE_SIZE: usize = 1024;

} // verus!
