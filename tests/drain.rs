use slog_syslog::adapter::{Adapter, DefaultAdapter};
use slog_syslog::builder::{SyslogBuilder, LOG_NDELAY, LOG_ODELAY, LOG_PERROR, LOG_PID};
use slog_syslog::drain::SubmissionKind;
use slog_syslog::format::FormatError;
use slog_syslog::ident::{ConfigError, Ident};
use slog_syslog::lifecycle::{ConnectionLifecycle, IdentArg, LifecycleStep};
use slog_syslog::{Facility, KeyValue, KvList, Level, Priority, Record, Severity};

fn hello() -> Record {
    Record::new(Severity::Info, "Hello, world!", vec![KeyValue::new("key1", "value1")])
}

fn scope() -> KvList {
    KvList::new(vec![KeyValue::new("key2", "value2")])
}

#[test]
fn structured_message_with_scope_first() {
    let drain = SyslogBuilder::new().build();
    let out = drain.log(&hello(), &scope());
    assert_eq!(out.len(), 1);
    assert_eq!(out[0].kind, SubmissionKind::Message);
    assert_eq!(out[0].text, "Hello, world! [key2=\"value2\" key1=\"value1\"]");
    assert_eq!(out[0].priority, libc::LOG_USER | libc::LOG_INFO);
}

#[test]
fn local0_info_priority() {
    let drain = SyslogBuilder::new().facility(Facility::Local0).build();
    let out = drain.log(&Record::new(Severity::Info, "m", vec![]), &KvList::empty());
    assert_eq!(out.len(), 1);
    assert_eq!(out[0].priority, libc::LOG_LOCAL0 | libc::LOG_INFO);
    assert_eq!(out[0].priority, 134);
}

#[test]
fn explicit_facility_of_the_adapter_is_kept() {
    let drain = SyslogBuilder::new()
        .facility(Facility::Local0)
        .priority(|_: &Record, _: &KvList| Priority::new(Level::Alert, Some(Facility::Mail)))
        .build();
    let out = drain.log(&hello(), &KvList::empty());
    assert_eq!(out[0].priority, libc::LOG_ALERT | libc::LOG_MAIL);
}

#[test]
fn filtered_events_are_neither_formatted_nor_sent() {
    let drain = SyslogBuilder::new()
        .level(Severity::Warning)
        .format(|_: &Record, _: &KvList| -> Result<String, FormatError> {
            panic!("the formatter must not run for a filtered event")
        })
        .build();
    assert!(drain.log(&Record::new(Severity::Info, "quiet", vec![]), &KvList::empty()).is_empty());
    assert!(drain.log(&Record::new(Severity::Trace, "quiet", vec![]), &KvList::empty()).is_empty());
}

#[test]
fn events_at_the_threshold_are_sent() {
    let drain = SyslogBuilder::new().level(Severity::Warning).build();
    assert_eq!(drain.log(&Record::new(Severity::Warning, "w", vec![]), &KvList::empty()).len(), 1);
    assert_eq!(drain.log(&Record::new(Severity::Critical, "c", vec![]), &KvList::empty()).len(), 1);
}

#[test]
fn failing_formatter_sends_message_and_error() {
    let drain = SyslogBuilder::new()
        .facility(Facility::Local1)
        .format(|_: &Record, _: &KvList| Err(FormatError::Other))
        .build();
    let record = Record::new(
        Severity::Info,
        "Message from second logger while first still active.",
        vec![KeyValue::new("key", "value")],
    );
    let out = drain.log(&record, &KvList::empty());
    assert_eq!(out.len(), 2);
    assert_eq!(out[0].kind, SubmissionKind::Message);
    assert_eq!(out[0].text, "Message from second logger while first still active.");
    assert_eq!(out[0].priority, libc::LOG_LOCAL1 | libc::LOG_INFO);
    assert_eq!(out[1].kind, SubmissionKind::FormatFailure);
    assert_eq!(out[1].text, "Other serialization error");
    assert_eq!(out[1].priority, libc::LOG_ERR);
}

#[test]
fn nul_characters_are_removed() {
    let drain = SyslogBuilder::new().build();
    let out = drain.log(&Record::new(Severity::Error, "a\0b\0", vec![KeyValue::new("k", "\0v")]), &KvList::empty());
    assert_eq!(out[0].text, "ab [k=\"v\"]");
}

#[test]
fn ident_with_nul_is_rejected() {
    assert_eq!(SyslogBuilder::new().ident_str("logger2\0").err(), Some(ConfigError::NulInIdent));
    assert_eq!(Ident::owned("a\0b").err(), Some(ConfigError::NulInIdent));
    assert_eq!(Ident::from_static("x\0").err(), Some(ConfigError::NulInIdent));
    let b = SyslogBuilder::new().ident_str("hello").unwrap();
    let ident = b.ident.as_ref().unwrap();
    assert_eq!(ident.as_str(), "hello");
    assert!(ident.is_owned());
    assert!(!Ident::from_static("logger2").unwrap().is_owned());
}

#[test]
fn option_flags() {
    let b = SyslogBuilder::new().log_ndelay().log_odelay().log_pid();
    assert_eq!(b.option, LOG_ODELAY | LOG_PID);
    assert_eq!(b.option, libc::LOG_ODELAY | libc::LOG_PID);
    let b = SyslogBuilder::new().log_odelay().log_ndelay().log_perror().log_nowait();
    assert_eq!(b.option, libc::LOG_NDELAY | libc::LOG_PERROR | libc::LOG_NOWAIT);
    assert_eq!(LOG_NDELAY, libc::LOG_NDELAY);
    assert_eq!(LOG_PERROR, libc::LOG_PERROR);
    let d = b.build();
    assert_eq!(d.option(), libc::LOG_NDELAY | libc::LOG_PERROR | libc::LOG_NOWAIT);
    assert_eq!(d.facility(), Facility::User);
}

#[test]
fn map_adapter_replaces_the_adapter() {
    let b = SyslogBuilder::new()
        .facility(Facility::Mail)
        .map_adapter(|a: DefaultAdapter| a.with_fmt(|r: &Record, _: &KvList| Ok(format!("here's a message: {}", r.msg()))));
    assert_eq!(b.facility, Facility::Mail);
    let out = b.build().log(&hello(), &scope());
    assert_eq!(out[0].text, "here's a message: Hello, world!");
}

#[test]
fn dropping_the_owner_closes_then_releases() {
    let mut state = ConnectionLifecycle::new();
    state.construct(IdentArg::Owned(0x1000));
    assert_eq!(state.owner(), Some(0x1000));
    let steps = state.destruct(Some(0x1000));
    assert_eq!(steps, vec![LifecycleStep::CloseLog, LifecycleStep::ReleaseIdent]);
    assert_eq!(state.owner(), None);
}

#[test]
fn dropping_a_replaced_owner_does_not_close() {
    let mut state = ConnectionLifecycle::new();
    state.construct(IdentArg::Owned(0x1000));
    state.construct(IdentArg::Owned(0x2000));
    assert_eq!(state.destruct(Some(0x1000)), vec![LifecycleStep::ReleaseIdent]);
    assert_eq!(state.owner(), Some(0x2000));
    assert_eq!(state.destruct(Some(0x2000)), vec![LifecycleStep::CloseLog, LifecycleStep::ReleaseIdent]);
}

#[test]
fn absent_or_static_names_keep_the_owner() {
    let mut state = ConnectionLifecycle::new();
    state.construct(IdentArg::Owned(0x1000));
    state.construct(IdentArg::Absent);
    assert_eq!(state.owner(), Some(0x1000));
    state.construct(IdentArg::Static);
    assert_eq!(state.owner(), Some(0x1000));
    assert_eq!(state.destruct(None), vec![]);
    assert_eq!(state.owner(), Some(0x1000));
    assert_eq!(ConnectionLifecycle::destruct_without_lock(Some(0x1000)), vec![LifecycleStep::LeakIdent]);
    assert_eq!(ConnectionLifecycle::destruct_without_lock(None), vec![]);
}

#[test]
fn default_adapter_priority_follows_the_severity() {
    let r = Record::new(Severity::Trace, "t", vec![]);
    assert_eq!(DefaultAdapter.priority(&r, &KvList::empty()), Priority::new(Level::Debug, None));
}

#[test]
fn rejected_attributes_fall_back_to_the_message() {
    let drain = SyslogBuilder::new().facility(Facility::Daemon).build();
    let out = drain.log_unformattable(&hello(), &scope(), FormatError::Other);
    assert_eq!(out.len(), 2);
    assert_eq!(out[0].text, "Hello, world!");
    assert_eq!(out[0].priority, libc::LOG_DAEMON | libc::LOG_INFO);
    assert_eq!(out[1].kind, SubmissionKind::FormatFailure);
    assert_eq!(out[1].text, "Other serialization error");
    assert_eq!(out[1].priority, libc::LOG_ERR);
    let quiet = SyslogBuilder::new().level(Severity::Error).build();
    assert!(quiet.log_unformattable(&hello(), &scope(), FormatError::Fmt).is_empty());
}

#[test]
fn default_drain() {
    let d = slog_syslog::SyslogDrain::new();
    assert_eq!(d.facility(), Facility::User);
    assert_eq!(d.option(), 0);
    assert!(d.ident().is_none());
    assert_eq!(slog_syslog::SyslogDrain::builder().facility, Facility::User);
}
