//! Capture-and-compositing core of a live monitor mirror: the desktop
//! duplication session's state machine, hardware cursor decoding, the
//! compositing plan of the presenter, the vertical-blank pump and the glue
//! that reacts to monitor switches.
//!
//! Everything here is plain data and decisions; the platform calls (capture,
//! GPU upload, vertical-blank waits) are made by the caller, which hands the
//! outcome of each back to these state machines.

pub mod autostart;
pub mod config;
pub mod cursor;
pub mod display;
pub mod duplication;
pub mod orchestrator;
pub mod presenter;
pub mod tracker;
pub mod utils;
pub mod vsync;
