//! A load-generation engine: paced admission of requests, a worker pool that
//! grows under backpressure, and aggregation of per-request outcomes.

pub mod client;
pub mod input;
pub mod loadgen;
pub mod output;
pub mod output_sink;
pub mod writer;

pub use output::Output;
pub use output::OutputCore;
