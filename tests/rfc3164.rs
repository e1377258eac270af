use slog_syslog::ident::ConfigError;
use slog_syslog::format::FormatError;
use slog_syslog::rfc3164::{
    get_default_level, Format3164, IpAddress, SocketAddress, Streamer3164, SyslogBuilder, SyslogKind,
};
use slog_syslog::{Facility, KeyValue, KvList, Level, Record, Severity};

fn addr(port: u16) -> SocketAddress {
    SocketAddress { ip: IpAddress::V4(127, 0, 0, 1), port }
}

#[test]
fn format_3164_writes_bracketed_attributes() {
    let mut buf = String::new();
    let record = Record::new(Severity::Info, "Hello, world!", vec![KeyValue::new("key2", "value2")]);
    let scope = KvList::new(vec![KeyValue::new("key", "value")]);
    Format3164::new().format(&mut buf, &record, &scope);
    assert_eq!(buf, "Hello, world! [key=\"value\" key2=\"value2\"]");
    let mut buf = String::new();
    Format3164::new().format(&mut buf, &Record::new(Severity::Info, "m", vec![KeyValue::new("k", "a]b")]), &KvList::empty());
    assert_eq!(buf, "m [k=\"a\\]b\"]");
}

#[test]
fn streamer_filters_and_maps_levels() {
    let s = Streamer3164::new_with_level(Severity::Info);
    assert!(s.log(&Record::new(Severity::Debug, "d", vec![]), &KvList::empty()).is_none());
    let e = s.log(&Record::new(Severity::Info, "i", vec![]), &KvList::empty()).unwrap();
    assert_eq!(e.level, Level::Info);
    assert_eq!(e.text, "i");
    let all = Streamer3164::new_with_level(Severity::Trace);
    let level_of = |sev| all.log(&Record::new(sev, "x", vec![]), &KvList::empty()).unwrap().level;
    assert_eq!(level_of(Severity::Critical), Level::Crit);
    assert_eq!(level_of(Severity::Error), Level::Error);
    assert_eq!(level_of(Severity::Debug), Level::Debug);
    assert_eq!(level_of(Severity::Trace), Level::Debug);
    // User facility with level Info gives the numeric priority 14.
    assert_eq!(i32::from(Facility::User) | i32::from(level_of(Severity::Info)), 14);
}

#[test]
fn rejected_attributes_send_message_then_report() {
    let s = Streamer3164::new_with_level(Severity::Info);
    let out = s.log_unformattable(&Record::new(Severity::Warning, "w", vec![]), FormatError::Other);
    assert_eq!(out.len(), 2);
    assert_eq!(out[0].level, Level::Warning);
    assert_eq!(out[0].text, "w");
    assert_eq!(out[1].level, Level::Error);
    assert_eq!(out[1].text, "Error fully formatting the previous log message: Other serialization error");
    assert!(s.log_unformattable(&Record::new(Severity::Debug, "d", vec![]), FormatError::Fmt).is_empty());
}

#[test]
fn default_streamer_sends_only_critical_events() {
    assert_eq!(get_default_level(), Severity::Critical);
    let s = Streamer3164::new();
    assert!(s.log(&Record::new(Severity::Error, "e", vec![]), &KvList::empty()).is_none());
    assert!(s.log(&Record::new(Severity::Critical, "c", vec![]), &KvList::empty()).is_some());
}

#[test]
fn start_needs_facility_and_transport() {
    assert_eq!(SyslogBuilder::new().unix("/dev/log").start().err(), Some(ConfigError::MissingFacility));
    assert_eq!(SyslogBuilder::new().facility(Facility::User).start().err(), Some(ConfigError::MissingTransport));
}

#[test]
fn start_returns_the_setup() {
    let setup = SyslogBuilder::new()
        .facility(Facility::Local2)
        .level(Severity::Debug)
        .udp(addr(0), addr(514), "test-hostname")
        .start()
        .unwrap();
    assert_eq!(setup.facility, Facility::Local2);
    assert_eq!(setup.hostname.as_deref(), Some("test-hostname"));
    assert_eq!(setup.streamer.level, Severity::Debug);
    match setup.kind {
        SyslogKind::Udp { local, host, .. } => {
            assert_eq!(local, addr(0));
            assert_eq!(host, addr(514));
        }
        _ => panic!("expected a UDP setup"),
    }
    let unix = SyslogBuilder::new().facility(Facility::User).unix("/var/run/syslog").start().unwrap();
    assert!(unix.hostname.is_none());
    let tcp = SyslogBuilder::new().facility(Facility::User).tcp(addr(601), "h").start().unwrap();
    assert_eq!(tcp.hostname.as_deref(), Some("h"));
}

#[test]
fn overrides_replace_detected_values() {
    let setup = SyslogBuilder::new()
        .hostname("test-hostname")
        .process("test-app")
        .pid(123)
        .facility(Facility::User)
        .udp(addr(0), addr(514), "ignored")
        .start()
        .unwrap();
    assert_eq!(setup.hostname.as_deref(), Some("test-hostname"));
    assert_eq!(setup.process_name("detected"), "test-app");
    assert_eq!(setup.process_id(999), 123);
    let plain = SyslogBuilder::new().facility(Facility::User).unix("/dev/log").start().unwrap();
    assert_eq!(plain.process_name("detected"), "detected");
    assert_eq!(plain.process_id(999), 999);
}
