//! The state-synchronisation core of a desktop client for a music-streaming
//! account: the shared snapshot of account data and how fetch results are
//! committed to it, the worker's request loop, playback poller and shutdown,
//! and the values the render loop derives each frame.

pub mod cli;
pub mod display;
pub mod io;
pub mod model;
pub mod render;
pub mod state;
