//! Message-resource IDs and event-type codes.
//!
//! The IDs follow the Windows Message Compiler layout for the adapter's
//! message table: the severity sits in the top two bits of the 32-bit ID
//! (error `0b11`, warning `0b10`, informational `0b01`) and the message
//! number in the low word. The event-type codes are the Event Log's wire
//! values for error, warning and informational entries.

use vstd::prelude::*;

use crate::level::Level;

verus! {

/// Message-resource ID of the error-level format string.
pub const MSG_ERROR: u32 = 0xC000_0001;

/// Message-resource ID of the warning-level format string.
pub const MSG_WARNING: u32 = 0x8000_0002;

/// Message-resource ID of the info-level format string.
pub const MSG_INFO: u32 = 0x4000_0003;

/// Message-resource ID of the debug-level format string.
pub const MSG_DEBUG: u32 = 0x4000_0004;

/// Message-resource ID of the trace-level format string.
pub const MSG_TRACE: u32 = 0x4000_0005;

/// Event-type code of an error entry.
pub const EVENTLOG_ERROR_TYPE: u16 = 0x0001;

/// Event-type code of a warning entry.
pub const EVENTLOG_WARNING_TYPE: u16 = 0x0002;

/// Event-type code of an informational entry.
pub const EVENTLOG_INFORMATION_TYPE: u16 = 0x0004;

/// The event type and message-resource ID reported for each severity:
/// errors and warnings keep their own entry kind, while info, debug and
/// trace records all become informational entries, told apart only by
/// their message ID.
pub open spec fn spec_event_entry(level: Level) -> (u16, u32) {
    match level {
        Level::Error => (EVENTLOG_ERROR_TYPE, MSG_ERROR),
        Level::Warn => (EVENTLOG_WARNING_TYPE, MSG_WARNING),
        Level::Info => (EVENTLOG_INFORMATION_TYPE, MSG_INFO),
        Level::Debug => (EVENTLOG_INFORMATION_TYPE, MSG_DEBUG),
        Level::Trace => (EVENTLOG_INFORMATION_TYPE, MSG_TRACE),
    }
}

/// The event type and message-resource ID for a record at `level`.
pub fn event_entry(level: Level) -> (r: (u16, u32))
    ensures
        r == spec_event_entry(level),
{
    match level {
        Level::Error => (EVENTLOG_ERROR_TYPE, MSG_ERROR),
        Level::Warn => (EVENTLOG_WARNING_TYPE, MSG_WARNING),
        Level::Info => (EVENTLOG_INFORMATION_TYPE, MSG_INFO),
        Level::Debug => (EVENTLOG_INFORMATION_TYPE, MSG_DEBUG),
        Level::Trace => (EVENTLOG_INFORMATION_TYPE, MSG_TRACE),
    }
}

} // verus!
