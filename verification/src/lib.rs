//! Batch palette-reduction front end: configuration resolution, pixel-format
//! adaptation, per-file pipeline decisions, batch outcome aggregation, and the
//! output-path/overwrite policy, verified with Verus.

pub mod error;
pub mod numbers;
pub mod quality;
pub mod config;
pub mod plan;
pub mod save;
pub mod batch;
pub mod adapt;
pub mod engine;
pub mod decode;
pub mod encode;
pub mod pipeline;
