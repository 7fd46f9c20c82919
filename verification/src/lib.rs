//! Lifecycle management for a retained-mode GPU render graph.
//!
//! The hosting engine reports the drawable surface's dimensions once per
//! frame; this crate decides when the cached pipeline description has gone
//! stale and, when asked, constructs a fresh dependency-ordered descriptor
//! of the graph's images and passes. Executing the descriptor (allocating
//! GPU resources, submitting draw commands) is the engine's side of the
//! boundary and stays outside this crate.

pub mod builder;
pub mod descriptor;
pub mod dimensions;
