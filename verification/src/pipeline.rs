//! The computable edge of the stream pipeline.
//!
//! Opening the stream, reading its headers and decoding it are the
//! shell's work; what is decided here is how much of the stream to
//! buffer before playback starts, and how large the bounded ring buffer
//! behind it may grow.

use vstd::prelude::*;

verus! {

/// Seconds of audio to prefetch before playback starts: the buffering
/// depth trading startup latency for underrun resistance.
pub const PREFETCH_SECONDS: u64 = 5;

/// Bound of the in-memory ring buffer behind the stream, so slow
/// consumption cannot grow memory without limit.
pub const RING_BUFFER_BYTES: u64 = 1048576;

/// The prefetch byte target for a stream of nominal bit rate
/// `bitrate_kbps` (kilobits per second, as the stream's headers report
/// it) and a buffering depth of `seconds`: an eighth of the rate in
/// kilobytes, scaled to bytes, per second of depth.
pub fn prefetch_bytes(bitrate_kbps: u64, seconds: u64) -> (r: u64)
    requires
        bitrate_kbps <= 4000000,
        seconds <= 86400,
    ensures
        r == bitrate_kbps / 8 * 1024 * seconds,
{
    let per_second: u64 = bitrate_kbps / 8 * 1024;
    proof {
        assert(per_second <= 512000000);
        assert(per_second * seconds <= 512000000 * 86400) by (nonlinear_arith)
            requires
                per_second <= 512000000,
                seconds <= 86400,
        ;
    }
    per_second * seconds
}

} // verus!
