//! Assembly and routing logic for a watermarking transcode graph: stream
//! classification, per-stream conversion branches, the encoding profile and
//! the run-state lifecycle, each stated over a plain model of the graph.
pub mod error;
pub mod media;
pub mod branch;
pub mod graph;
pub mod profile;
pub mod naming;
pub mod lifecycle;
