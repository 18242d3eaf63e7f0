//! A screen-recording control library: the capture-to-encode pipeline behind a
//! start/stop user interface.
//!
//! The library holds the verified core of a screen recorder: the per-frame
//! callback contract, the encoder lifecycle (open, finalize exactly once,
//! close), and the start/stop state machine that keeps at most one capture
//! session active at a time. Display enumeration, the capture callbacks and
//! the container muxer are external collaborators; their outcomes enter the
//! library as plain values, and every decision taken on those outcomes is
//! verified here.

pub mod config;
pub mod controller;
pub mod encoder;
pub mod errors;
pub mod session;
