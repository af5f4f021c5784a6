//! Control-hub core for a LAN smart-speaker: device discovery bookkeeping,
//! the shared device-selection registry, status polling and normalization,
//! the live status-streaming session state machine, and the numeric parsing
//! and error taxonomy used at the service boundary.

pub mod commands;
pub mod discovery;
pub mod errors;
pub mod parse;
pub mod poll;
pub mod registry;
pub mod session;
