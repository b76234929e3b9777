use winlog::eventmsgs::{
    event_entry, EVENTLOG_ERROR_TYPE, EVENTLOG_INFORMATION_TYPE, EVENTLOG_WARNING_TYPE, MSG_DEBUG,
    MSG_ERROR, MSG_INFO, MSG_TRACE, MSG_WARNING,
};
use winlog::{deregister, init, register, win_string, Error, EventLog, InitError, Level, REG_BASEKEY};

fn wide_with_nul(s: &str) -> Vec<u16> {
    let mut v: Vec<u16> = s.encode_utf16().collect();
    v.push(0);
    v
}

#[test]
fn event_entry_matches_table() {
    assert_eq!(event_entry(Level::Error), (EVENTLOG_ERROR_TYPE, MSG_ERROR));
    assert_eq!(event_entry(Level::Warn), (EVENTLOG_WARNING_TYPE, MSG_WARNING));
    assert_eq!(event_entry(Level::Info), (EVENTLOG_INFORMATION_TYPE, MSG_INFO));
    assert_eq!(event_entry(Level::Debug), (EVENTLOG_INFORMATION_TYPE, MSG_DEBUG));
    assert_eq!(event_entry(Level::Trace), (EVENTLOG_INFORMATION_TYPE, MSG_TRACE));
}

#[test]
fn event_entry_exact_values() {
    assert_eq!(event_entry(Level::Error), (0x0001, 0xC000_0001));
    assert_eq!(event_entry(Level::Warn), (0x0002, 0x8000_0002));
    assert_eq!(event_entry(Level::Info), (0x0004, 0x4000_0003));
    assert_eq!(event_entry(Level::Debug), (0x0004, 0x4000_0004));
    assert_eq!(event_entry(Level::Trace), (0x0004, 0x4000_0005));
}

#[test]
fn win_string_matches_std_utf16() {
    for s in [
        "",
        "Error!!",
        "Hello, world",
        "héllo wörld",
        "日本語のログ",
        "mixed 𝄞 music and 🦀 emoji",
        "𐐷𐑊",
    ] {
        assert_eq!(win_string(s), wide_with_nul(s), "encoding of {:?}", s);
    }
}

#[test]
fn win_string_exact_units() {
    assert_eq!(win_string(""), vec![0]);
    assert_eq!(win_string("A"), vec![0x41, 0]);
    assert_eq!(win_string("é"), vec![0xE9, 0]);
    // U+1D11E musical symbol G clef: the surrogate pair D834 DD1E.
    assert_eq!(win_string("\u{1D11E}"), vec![0xD834, 0xDD1E, 0]);
}

#[test]
fn level_rank_order() {
    let levels = [Level::Error, Level::Warn, Level::Info, Level::Debug, Level::Trace];
    for (i, a) in levels.iter().enumerate() {
        for (j, b) in levels.iter().enumerate() {
            assert_eq!(a.le(*b), i <= j, "le on pair ({}, {})", i, j);
        }
    }
}

#[test]
fn enabled_filters_by_level() {
    let e = EventLog::new(windows::Win32::Foundation::HANDLE(0), Level::Info);
    assert!(e.enabled(Level::Error));
    assert!(e.enabled(Level::Warn));
    assert!(e.enabled(Level::Info));
    assert!(!e.enabled(Level::Debug));
    assert!(!e.enabled(Level::Trace));
}

#[test]
fn log_drops_records_past_the_filter() {
    let e = EventLog::new(windows::Win32::Foundation::HANDLE(0), Level::Warn);
    assert!(e.log(Level::Info, "Info!!").is_none());
    assert!(e.log(Level::Debug, "Debug!!").is_none());
    assert!(e.log(Level::Trace, "Trace!!").is_none());
    assert!(e.log(Level::Error, "Error!!").is_some());
    assert!(e.log(Level::Warn, "Warning!!").is_some());
}

#[test]
fn log_builds_the_exact_report() {
    let e = EventLog::new(windows::Win32::Foundation::HANDLE(0), Level::Trace);
    let report = e.log(Level::Warn, "Warning!!").unwrap();
    assert_eq!(report.event_type, 0x0002);
    assert_eq!(report.event_id, 0x8000_0002);
    assert_eq!(report.strings, wide_with_nul("Warning!!"));

    let report = e.log(Level::Debug, "Debug!!").unwrap();
    assert_eq!(report.event_type, 0x0004);
    assert_eq!(report.event_id, 0x4000_0004);
    assert_eq!(report.strings, wide_with_nul("Debug!!"));
}

#[test]
fn init_prepares_the_registration() {
    let req = init("winlog-test-abc", Level::Info);
    assert_eq!(req.source_name, wide_with_nul("winlog-test-abc"));
    assert!(matches!(req.level, Level::Info));
}

#[test]
fn register_prepares_the_registry_write() {
    let req = register("my-source", r"C:\app\service.exe").unwrap();
    assert_eq!(req.subkey, "my-source");
    assert_eq!(req.value_name, "EventMessageFile");
    assert_eq!(req.message_file, wide_with_nul(r"C:\app\service.exe"));
}

#[test]
fn register_rejects_a_nul_in_the_path() {
    let r = register("my-source", "C:\\app\0\\service.exe");
    assert!(matches!(r, Err(Error::ExePathNotFound)));
}

#[test]
fn deregister_prepares_the_registry_deletion() {
    let req = deregister("my-source");
    assert_eq!(req.subkey, "my-source");
    assert!(req.recursive);
}

#[test]
fn reg_basekey_is_the_application_log() {
    assert_eq!(REG_BASEKEY, r"SYSTEM\CurrentControlSet\Services\EventLog\Application");
}

#[test]
fn error_messages() {
    assert_eq!(Error::ExePathNotFound.message(), "Could not determine executable path");
    assert_eq!(Error::RegisterSourceFailed(5).message(), "Call to RegisterEventSource failed");
    assert_eq!(Error::RegKey(String::from("gone")).message(), "Failed to modify registry key");
    assert_eq!(Error::RegValue(String::from("gone")).message(), "Failed to modify registry value");
    assert_eq!(InitError::Create(Error::ExePathNotFound).message(), "Failed to create logger");
    assert_eq!(InitError::SetLogger.message(), "Failed to set logger");
}

#[test]
fn init_error_from_error() {
    let e = InitError::from(Error::ExePathNotFound);
    assert!(matches!(e, InitError::Create(Error::ExePathNotFound)));
}
