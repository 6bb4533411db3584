//! The append-only diagnostics log.
//!
//! Every component reports through entries of this log; the rendering
//! shell only ever reads it. An entry is a message, a severity tag and a
//! wall-clock timestamp taken at the moment of the push.

use vstd::prelude::*;

verus! {

/// Severity tag of a log entry.
#[derive(Clone, Copy, Debug, PartialEq, Eq, Structural)]
pub enum MessageType {
    Error,
    Info,
    System,
    Background,
    Playback,
}

/// One entry of the log.
#[derive(Debug, Clone)]
pub struct HistoryMessage {
    /// What happened, in words.
    pub message: String,
    /// How serious it is.
    pub message_type: MessageType,
    /// Wall-clock time of the push, as `HH:MM:SS`.
    pub timestamp: String,
}

/// Relies on chrono's `Local::now` and strftime-style formatting: the
/// `%H:%M:%S` pattern renders three zero-padded two-digit fields joined
/// by colons, eight characters in all.
#[verifier::external_body]
pub fn local_timestamp() -> (r: String)
    ensures
        r@.len() == 8,
{
    chrono::Local::now().format("%H:%M:%S").to_string()
}

/// Append one entry, stamped with the current wall-clock time. The log
/// grows by exactly that entry; nothing already logged moves or changes.
pub fn push_history(history: &mut Vec<HistoryMessage>, message: String, message_type: MessageType)
    ensures
        final(history)@.len() == old(history)@.len() + 1,
        forall|i: int| 0 <= i < old(history)@.len() ==> final(history)@[i] == old(history)@[i],
        final(history)@.last().message == message,
        final(history)@.last().message_type == message_type,
        final(history)@.last().timestamp@.len() == 8,
{
    let timestamp = local_timestamp();
    history.push(HistoryMessage { message, message_type, timestamp });
}

} // verus!
