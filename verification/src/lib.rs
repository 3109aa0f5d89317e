//! Core logic of a small browser game engine: frame pacing, buffered input
//! events, the main-thread/worker-thread handshake protocol, and the integer
//! bookkeeping behind a WebGL point/triangle rasterizer.
//!
//! Everything here is plain data and arithmetic; the browser calls themselves
//! (DOM, timers, WebGL, workers) live outside this crate and hand values in
//! and out.

pub mod demo;
pub mod draw;
pub mod engine;
pub mod layout;
pub mod protocol;
pub mod shader;
pub mod shapes;
pub mod timing;
