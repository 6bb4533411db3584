//! Persisted settings, as plain values.
//!
//! The configuration collaborator loads and saves these outside the
//! core; the core receives them as initial values and exposes current
//! values to persist on exit. Volume is held in hundredths of unit gain,
//! as everywhere in this crate.

use vstd::prelude::*;

use crate::playback::MAX_VOLUME;

verus! {

/// The settings that survive a restart.
#[derive(Debug, Clone)]
pub struct Config {
    /// Stored volume in hundredths of unit gain.
    pub volume: u32,
    /// Id of the station last played, to resume on startup.
    pub last_station: Option<String>,
    /// Log verbosity: 1 is minimal, 2 verbose.
    pub log_level: u8,
    /// Port of the network control channel.
    pub udp_port: u16,
    /// Whether the network control channel listens at all.
    pub udp_enabled: bool,
}

/// Volume a fresh configuration starts with: unity gain.
pub fn default_volume() -> (r: u32)
    ensures
        r == 100,
{
    100
}

/// Log verbosity a fresh configuration starts with.
pub fn default_log_level() -> (r: u8)
    ensures
        r == 1,
{
    1
}

/// Control-channel port a fresh configuration starts with.
pub fn default_udp_port() -> (r: u16)
    ensures
        r == 8069,
{
    8069
}

impl Default for Config {
    /// A fresh configuration: unity volume, no remembered station,
    /// minimal logging, the default port, the control channel off.
    fn default() -> (c: Config)
        ensures
            c.volume == 100,
            c.last_station is None,
            c.log_level == 1,
            c.udp_port == 8069,
            !c.udp_enabled,
    {
        Config {
            volume: default_volume(),
            last_station: None,
            log_level: default_log_level(),
            udp_port: default_udp_port(),
            udp_enabled: false,
        }
    }
}

impl Config {
    /// The stored volume forced into the session's range: a file edited
    /// by hand may hold anything.
    pub fn clamped_volume(&self) -> (r: u32)
        ensures
            r == if self.volume <= MAX_VOLUME {
                self.volume
            } else {
                MAX_VOLUME
            },
            r <= MAX_VOLUME,
    {
        if self.volume <= MAX_VOLUME {
            self.volume
        } else {
            MAX_VOLUME
        }
    }
}

} // verus!
