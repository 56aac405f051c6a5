//! A bridge between a remote analysis-work service and a local chess engine.
//!
//! The library is the decision core of a work loop that long-polls a remote
//! host for analysis requests, drives an engine subprocess with the line
//! commands each request calls for, and streams the engine's progress back
//! upstream. All I/O (HTTP, process pipes, channels, sleeping) is performed
//! by the embedding program; the library computes, for every external event,
//! the next state, the exact bytes to emit, and the notifications to
//! surface.

pub mod backoff;
pub mod commands;
pub mod config;
pub mod directory;
pub mod machine;
pub mod model;
pub mod streamer;
pub mod strutil;
pub mod wire;
