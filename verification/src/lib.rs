//! Core of a terminal internet-radio client: the playback session state
//! machine, the underrun monitor with exponential backoff, the command
//! router that serialises control intents from every source, and the pure
//! parsing and formatting helpers around them.
//!
//! Everything here is verified; the unverified shell (terminal, audio
//! sink, HTTP and UDP sockets) lives outside and talks to this crate
//! through plain values.

pub mod config;
pub mod control;
pub mod error;
pub mod history;
pub mod i18n;
pub mod monitor;
pub mod pipeline;
pub mod playback;
pub mod protocol;
pub mod station;
pub mod text;
pub mod utils;
