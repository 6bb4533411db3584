//! Error taxonomy of the client.
//!
//! Transport failures, audio-device failures, stream failures, station
//! directory failures, malformed control input and a catch-all, each
//! carrying a plain description. Errors during a play attempt are
//! recovered locally by the callers; nothing here aborts the session.

use vstd::prelude::*;

verus! {

/// One error of the client, with a plain-text description.
#[derive(Debug, Clone)]
pub enum AppError {
    /// Transport or HTTP failure.
    Network(String),
    /// I/O failure outside the network path.
    Io(String),
    /// Malformed JSON from the station directory.
    Json(String),
    /// No output device, or the device is busy.
    Audio(String),
    /// Decode or prefetch failure in the stream pipeline.
    Stream(String),
    /// Station directory fetch or parse failure.
    Station(String),
    /// Failure on the UDP control channel.
    Udp(String),
    /// Malformed numeric or textual input.
    Parse(String),
    /// Catch-all.
    Generic(String),
}

impl AppError {
    /// The description carried by the error, whichever variant holds it.
    pub fn message(&self) -> (r: &String)
        ensures
            r@ == self.text(),
    {
        match self {
            AppError::Network(s) => s,
            AppError::Io(s) => s,
            AppError::Json(s) => s,
            AppError::Audio(s) => s,
            AppError::Stream(s) => s,
            AppError::Station(s) => s,
            AppError::Udp(s) => s,
            AppError::Parse(s) => s,
            AppError::Generic(s) => s,
        }
    }

    /// The description as a mathematical sequence of characters.
    pub open spec fn text(&self) -> Seq<char> {
        match self {
            AppError::Network(s) => s@,
            AppError::Io(s) => s@,
            AppError::Json(s) => s@,
            AppError::Audio(s) => s@,
            AppError::Stream(s) => s@,
            AppError::Station(s) => s@,
            AppError::Udp(s) => s@,
            AppError::Parse(s) => s@,
            AppError::Generic(s) => s@,
        }
    }
}

} // verus!
