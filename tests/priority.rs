use slog_syslog::{Facility, Level, Priority};

#[test]
fn test_into_raw() {
    let prio = Priority::new(Level::Warning, Some(Facility::Local3));
    assert_eq!(prio.into_raw(), libc::LOG_WARNING | libc::LOG_LOCAL3);

    let prio = Priority::new(Level::Alert, None);
    assert_eq!(prio.into_raw(), libc::LOG_ALERT);
}

#[test]
fn overlay_fills_an_absent_facility() {
    let defaults = Priority::new(Level::Notice, Some(Facility::Mail));
    let priority = Priority::new(Level::Error, None);
    let overlaid = priority.overlay(defaults);
    assert_eq!(overlaid, Priority::new(Level::Error, Some(Facility::Mail)));
    assert_eq!(overlaid.level(), Some(Level::Error));
    assert_eq!(overlaid.facility(), Some(Facility::Mail));
}

#[test]
fn overlay_keeps_a_present_facility() {
    let p = Priority::new(Level::Crit, Some(Facility::Daemon));
    let q = Priority::new(Level::Debug, Some(Facility::Local1));
    assert_eq!(p.overlay(q).facility(), Some(Facility::Daemon));
    assert_eq!(p.overlay(q).level(), Some(Level::Crit));
    let none = Priority::new(Level::Info, None);
    assert_eq!(none.overlay(Priority::new(Level::Info, None)).facility(), None);
}

#[test]
fn raw_priorities_are_opaque() {
    let raw = Priority::from_raw(libc::LOG_ERR | libc::LOG_MAIL);
    assert_eq!(raw.level(), None);
    assert_eq!(raw.facility(), None);
    assert_eq!(raw.into_raw(), libc::LOG_ERR | libc::LOG_MAIL);
    assert_eq!(raw.overlay(Priority::new(Level::Info, Some(Facility::User))).into_raw(), raw.into_raw());
    assert_eq!(Priority::new(Level::Info, None).overlay(raw).facility(), None);
}

#[test]
fn equality_is_by_numeric_value() {
    let symbolic = Priority::new(Level::Error, Some(Facility::Mail));
    let raw = Priority::from_raw(libc::LOG_ERR | libc::LOG_MAIL);
    assert_eq!(symbolic, raw);
    assert!(symbolic != Priority::new(Level::Error, None));
    assert_eq!(Priority::from(Level::Info), Priority::new(Level::Info, None));
    assert_eq!(Priority::from((Level::Info, Facility::Kern)), Priority::new(Level::Info, Some(Facility::Kern)));
    assert_eq!(Priority::from((Level::Info, None)), Priority::new(Level::Info, None));
}

#[test]
fn local0_info_combines_both_codes() {
    let p = Priority::new(Level::Info, Some(Facility::Local0));
    assert_eq!(p.into_raw(), 134);
    assert_eq!(p.into_raw(), libc::LOG_LOCAL0 | libc::LOG_INFO);
}
