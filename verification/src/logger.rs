//! The event-log adapter: one registered source handle, one severity
//! filter, and the exact report computed for each record.

use vstd::prelude::*;

use crate::eventmsgs::spec_event_entry;
use crate::eventmsgs::event_entry;
use crate::level::Level;
use crate::wide::wide_nul_of;
use crate::wide::win_string;

verus! {

/// The OS handle of a registered event source, from the `windows` crate,
/// carried through unread: the adapter owns it and hands it back for every
/// report and for the final deregistration.
#[verifier::external_type_specification]
#[verifier::external_body]
pub struct ExHandle(windows::Win32::Foundation::HANDLE);

/// The adapter: the handle of a registered event source and the most
/// verbose level it still forwards.
pub struct EventLog {
    /// The handle under which reports are filed.
    pub handle: windows::Win32::Foundation::HANDLE,
    /// Records more verbose than this are dropped.
    pub level: Level,
}

/// One report, ready for the OS: the entry kind, the message-resource ID,
/// and the record's text as the single nul-terminated wide string the
/// message resource is formatted with.
pub struct Report {
    /// The entry kind (error, warning or informational).
    pub event_type: u16,
    /// The message-resource ID for the record's level.
    pub event_id: u32,
    /// The record's text, UTF-16 encoded and nul-terminated.
    pub strings: Vec<u16>,
}

/// What initialising the logger hands to the OS: the wide name under which
/// the event source is registered, and the filter the adapter will carry.
pub struct InitRequest {
    /// The source's name, UTF-16 encoded and nul-terminated.
    pub source_name: Vec<u16>,
    /// The most verbose level the adapter will forward.
    pub level: Level,
}

impl EventLog {
    /// Wrap a freshly registered event-source handle together with its
    /// filter level.
    pub fn new(handle: windows::Win32::Foundation::HANDLE, level: Level) -> (e: EventLog)
        ensures
            e.handle == handle,
            e.level == level,
    {
        EventLog { handle, level }
    }

    /// Whether a record at `level` passes this adapter's filter.
    pub fn enabled(&self, level: Level) -> (r: bool)
        ensures
            r == (level.rank() <= self.level.rank()),
    {
        level.le(self.level)
    }

    /// The compute part of handling one record: no report when the filter
    /// drops the record, otherwise exactly the entry the OS is told to
    /// write — the event type and message ID of the record's level, and the
    /// record's text as a nul-terminated wide string.
    pub fn log(&self, level: Level, msg: &str) -> (r: Option<Report>)
        ensures
            (r is Some) == (level.rank() <= self.level.rank()),
            r matches Some(rep) ==> rep.event_type == spec_event_entry(level).0
                && rep.event_id == spec_event_entry(level).1
                && rep.strings@ == wide_nul_of(msg@),
    {
        if !self.enabled(level) {
            return None;
        }
        let (ty, id) = event_entry(level);
        Some(Report { event_type: ty, event_id: id, strings: win_string(msg) })
    }
}

/// The compute part of initialising the global logger: everything the OS
/// registration needs, stated exactly. The caller registers the source
/// under `source_name`, wraps the returned handle with [`EventLog::new`],
/// and installs the adapter with the `log` facade.
pub fn init(name: &str, level: Level) -> (r: InitRequest)
    ensures
        r.source_name@ == wide_nul_of(name@),
        r.level == level,
{
    InitRequest { source_name: win_string(name), level }
}

} // verus!
