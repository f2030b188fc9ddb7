//! A single-writer manager that moves a set of tracked windows in lockstep.
//!
//! [`registry`] holds the tracked windows and the tracking flag, [`processor`]
//! interprets one command at a time against it, and [`laws`] states what holds of
//! command sequences. [`protocol`] holds the command and reply values.
pub mod laws;
pub mod processor;
pub mod protocol;
pub mod registry;
