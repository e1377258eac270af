use slog_syslog::config::{ConfiguredAdapter, MsgFormatConfig, PriorityConfig, SyslogConfig};
use slog_syslog::adapter::Adapter;
use slog_syslog::builder::SyslogBuilder;
use slog_syslog::ident::Ident;
use slog_syslog::{Facility, KvList, Level, Priority, Record, Severity};

const TOML_CONFIG: &'static str = r#"
format = "basic"
ident = "foo"
facility = "daemon"
log_pid = true
log_perror = true

[priority]
info = "notice"
critical = ["alert", "mail"]
"#;

fn priority_from(v: &toml::Value) -> Priority {
    match v {
        toml::Value::String(level) => Priority::new(Level::from_name(level).unwrap(), None),
        toml::Value::Array(pair) => Priority::new(
            Level::from_name(pair[0].as_str().unwrap()).unwrap(),
            Some(Facility::from_name(pair[1].as_str().unwrap()).unwrap()),
        ),
        _ => panic!("not a priority"),
    }
}

fn config_from(v: &toml::Value) -> SyslogConfig {
    let mut config = SyslogConfig::new();
    if let Some(f) = v.get("format").and_then(|f| f.as_str()) {
        config.format = match f {
            "basic" => MsgFormatConfig::Basic,
            _ => MsgFormatConfig::Default,
        };
    }
    if let Some(i) = v.get("ident").and_then(|i| i.as_str()) {
        config.ident = Some(Ident::owned(i).unwrap());
    }
    if let Some(f) = v.get("facility").and_then(|f| f.as_str()) {
        config.facility = Facility::from_name(f).unwrap();
    }
    config.log_pid = v.get("log_pid").and_then(|b| b.as_bool()).unwrap_or(false);
    config.log_perror = v.get("log_perror").and_then(|b| b.as_bool()).unwrap_or(false);
    config.log_delay = v.get("log_delay").and_then(|b| b.as_bool());
    if let Some(p) = v.get("priority") {
        config.priority.info = p.get("info").map(priority_from);
        config.priority.critical = p.get("critical").map(priority_from);
        config.priority.all = p.get("all").map(priority_from);
    }
    config
}

#[test]
fn test_config() {
    let value: toml::Value = toml::from_str(TOML_CONFIG).expect("deserialization failed");
    let config = config_from(&value);

    let builder = config.into_builder();

    assert_eq!(
        builder,
        SyslogBuilder::new()
            .adapter(ConfiguredAdapter::from((
                MsgFormatConfig::Basic,
                PriorityConfig {
                    info: Some(Priority::new(Level::Notice, None)),
                    critical: Some(Priority::new(Level::Alert, Some(Facility::Mail))),
                    ..PriorityConfig::default()
                }
            )))
            .ident_str("foo")
            .unwrap()
            .facility(Facility::Daemon)
            .log_pid()
            .log_perror()
    );
}

#[test]
fn configured_priorities() {
    let adapter = ConfiguredAdapter::from(PriorityConfig {
        all: Some(Priority::new(Level::Warning, Some(Facility::Daemon))),
        info: Some(Priority::new(Level::Notice, None)),
        critical: Some(Priority::new(Level::Alert, Some(Facility::Mail))),
        ..PriorityConfig::new()
    });
    let none = KvList::empty();
    let info = Record::new(Severity::Info, "i", vec![]);
    let crit = Record::new(Severity::Critical, "c", vec![]);
    let debug = Record::new(Severity::Debug, "d", vec![]);
    assert_eq!(adapter.priority(&info, &none).facility(), Some(Facility::Daemon));
    assert_eq!(adapter.priority(&info, &none).level(), Some(Level::Notice));
    assert_eq!(adapter.priority(&crit, &none).facility(), Some(Facility::Mail));
    assert_eq!(adapter.priority(&debug, &none).level(), Some(Level::Warning));
    let plain = ConfiguredAdapter::from(MsgFormatConfig::Basic);
    assert_eq!(plain.priority(&debug, &none), Priority::new(Level::Debug, None));
    assert_eq!(plain.priority(&info, &none).facility(), None);
}

#[test]
fn configured_formats() {
    let r = Record::new(Severity::Info, "m", vec![slog_syslog::KeyValue::new("k", "v")]);
    let mut buf = String::new();
    ConfiguredAdapter::from(MsgFormatConfig::Basic).fmt(&mut buf, &r, &KvList::empty()).unwrap();
    assert_eq!(buf, "m");
    let mut buf = String::new();
    ConfiguredAdapter::from((None, None)).fmt(&mut buf, &r, &KvList::empty()).unwrap();
    assert_eq!(buf, "m [k=\"v\"]");
}

#[test]
fn config_delay_flags() {
    let mut c = SyslogConfig::default();
    c.log_delay = Some(true);
    assert_eq!(c.into_builder().option, libc::LOG_NDELAY);
    let mut c = SyslogConfig::new();
    c.log_delay = Some(false);
    let d = c.build();
    assert_eq!(d.option(), libc::LOG_ODELAY);
    assert_eq!(MsgFormatConfig::default(), MsgFormatConfig::Default);
}
