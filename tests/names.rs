use slog_syslog::{Facility, Level, Severity, UnknownFacilityError, UnknownLevelError};

#[test]
fn test_facility_from_str() {
    assert_eq!(Facility::from_str("daemon"), Ok(Facility::Daemon));
    assert_eq!(Facility::from_str("foobar"), Err(UnknownFacilityError { name: "foobar".to_string() }));
    assert_eq!(Facility::from_str("foobar").unwrap_err().to_string(), "unrecognized syslog facility name `foobar`");
}

#[test]
fn test_level_from_str() {
    assert_eq!(Level::from_str("notice"), Ok(Level::Notice));
    assert_eq!(Level::from_str("foobar"), Err(UnknownLevelError { name: "foobar".to_string() }));
    assert_eq!(Level::from_str("foobar").unwrap_err().to_string(), "unrecognized syslog level name `foobar`");
}

#[test]
fn test_level_ordering() {
    assert!(Level::Debug < Level::Emerg);
}

#[test]
fn unknown_facility_name_is_reported() {
    let e = Facility::from_str("foobar").unwrap_err();
    assert_eq!(e.name(), "foobar");
}

#[test]
fn parsing_ignores_ascii_case() {
    assert_eq!(Facility::from_str("DAEMON"), Ok(Facility::Daemon));
    assert_eq!(Facility::from_str("Local7"), Ok(Facility::Local7));
    assert_eq!(Facility::from_str("FooBar").unwrap_err().name(), "foobar");
    assert_eq!(Level::from_str("WARN"), Ok(Level::Warning));
    assert_eq!(Level::from_str("Emerg"), Ok(Level::Emerg));
    assert_eq!(Level::from_str("NoSuch").unwrap_err().name(), "nosuch");
}

#[test]
fn exact_names_and_aliases() {
    assert_eq!(Facility::from_name("authpriv"), Some(Facility::AuthPriv));
    assert_eq!(Facility::from_name("Daemon"), None);
    assert_eq!(Level::from_name("panic"), Some(Level::Emerg));
    assert_eq!(Level::from_name("error"), Some(Level::Error));
    assert_eq!(Level::from_name("err"), Some(Level::Error));
    assert_eq!(Level::from_name("warn"), Some(Level::Warning));
    assert_eq!(Level::from_name("Warn"), None);
}

#[test]
fn names_round_trip() {
    let facilities = [
        Facility::Auth, Facility::AuthPriv, Facility::Cron, Facility::Daemon, Facility::Ftp,
        Facility::Kern, Facility::Install, Facility::Launchd, Facility::Local0, Facility::Local1,
        Facility::Local2, Facility::Local3, Facility::Local4, Facility::Local5, Facility::Local6,
        Facility::Local7, Facility::Lpr, Facility::Mail, Facility::Ntp, Facility::NetInfo,
        Facility::News, Facility::Ras, Facility::RemoteAuth, Facility::Security, Facility::Syslog,
        Facility::User, Facility::Uucp,
    ];
    for f in facilities.iter() {
        assert_eq!(Facility::from_str(f.name()), Ok(*f));
    }
    let levels = [
        Level::Debug, Level::Info, Level::Notice, Level::Warning, Level::Error, Level::Crit,
        Level::Alert, Level::Emerg,
    ];
    for l in levels.iter() {
        assert_eq!(Level::from_str(l.name()), Ok(*l));
        assert_eq!(Level::from_int(i32::from(*l)), Some(*l));
    }
}

#[test]
fn facility_codes_match_the_system() {
    assert_eq!(i32::from(Facility::Kern), libc::LOG_KERN);
    assert_eq!(i32::from(Facility::User), libc::LOG_USER);
    assert_eq!(i32::from(Facility::Mail), libc::LOG_MAIL);
    assert_eq!(i32::from(Facility::Daemon), libc::LOG_DAEMON);
    assert_eq!(i32::from(Facility::Auth), libc::LOG_AUTH);
    assert_eq!(i32::from(Facility::Syslog), libc::LOG_SYSLOG);
    assert_eq!(i32::from(Facility::Lpr), libc::LOG_LPR);
    assert_eq!(i32::from(Facility::News), libc::LOG_NEWS);
    assert_eq!(i32::from(Facility::Uucp), libc::LOG_UUCP);
    assert_eq!(i32::from(Facility::Cron), libc::LOG_CRON);
    assert_eq!(i32::from(Facility::AuthPriv), libc::LOG_AUTHPRIV);
    assert_eq!(i32::from(Facility::Ftp), libc::LOG_FTP);
    assert_eq!(i32::from(Facility::Local0), libc::LOG_LOCAL0);
    assert_eq!(i32::from(Facility::Local3), libc::LOG_LOCAL3);
    assert_eq!(i32::from(Facility::Local7), libc::LOG_LOCAL7);
    assert_eq!(i32::from(Facility::Security), libc::LOG_AUTH);
    assert_eq!(i32::from(Facility::Install), libc::LOG_USER);
    assert_eq!(i32::from(Facility::Ntp), libc::LOG_DAEMON);
}

#[test]
fn level_codes_match_the_system() {
    assert_eq!(i32::from(Level::Emerg), libc::LOG_EMERG);
    assert_eq!(i32::from(Level::Alert), libc::LOG_ALERT);
    assert_eq!(i32::from(Level::Crit), libc::LOG_CRIT);
    assert_eq!(i32::from(Level::Error), libc::LOG_ERR);
    assert_eq!(i32::from(Level::Warning), libc::LOG_WARNING);
    assert_eq!(i32::from(Level::Notice), libc::LOG_NOTICE);
    assert_eq!(i32::from(Level::Info), libc::LOG_INFO);
    assert_eq!(i32::from(Level::Debug), libc::LOG_DEBUG);
}

#[test]
fn facility_from_int() {
    assert_eq!(Facility::from_int(libc::LOG_CRON), Some(Facility::Cron));
    assert_eq!(Facility::from_int(libc::LOG_USER), Some(Facility::User));
    assert_eq!(Facility::from_int(libc::LOG_LOCAL5), Some(Facility::Local5));
    assert_eq!(Facility::from_int(3), None);
    assert_eq!(Facility::from_int(-8), None);
    assert_eq!(Level::from_int(8), None);
    assert_eq!(Facility::default(), Facility::User);
}

#[test]
fn severities_map_to_levels() {
    assert_eq!(Level::from_slog(Severity::Critical), Level::Crit);
    assert_eq!(Level::from_slog(Severity::Error), Level::Error);
    assert_eq!(Level::from_slog(Severity::Warning), Level::Warning);
    assert_eq!(Level::from_slog(Severity::Info), Level::Info);
    assert_eq!(Level::from_slog(Severity::Debug), Level::Debug);
    assert_eq!(Level::from_slog(Severity::Trace), Level::Debug);
    assert!(Severity::Critical.is_at_least(Severity::Warning));
    assert!(Severity::Warning.is_at_least(Severity::Warning));
    assert!(!Severity::Info.is_at_least(Severity::Warning));
    assert_eq!(Severity::Trace.as_usize(), 6);
}
