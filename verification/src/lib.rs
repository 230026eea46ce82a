//! Core of a keyboard-typing helper: the playback state machine that drives
//! a countdown, a typing run and its completion, together with the error
//! and command types that connect it to the outside world.

pub mod app;
pub mod clock;
pub mod command;
pub mod config;
pub mod error;
pub mod model;
pub mod platform;
pub mod laws;
pub mod step_laws;
