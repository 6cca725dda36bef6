//! Repeatedly run a command on a fixed cadence and report only when its
//! observed result changes.
//!
//! The library holds the decisions of the polling loop: the drift-corrected
//! timer, the rendering of a poll's result, the change detector that compares
//! fingerprints of rendered results, the validated configuration and the
//! orchestrator that ties them together. Spawning processes, sleeping and
//! writing to the terminal are left to the caller.
pub mod config;
pub mod detector;
pub mod error;
pub mod poller;
pub mod render;
pub mod timer;
pub mod timestamp;
