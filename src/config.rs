//! Declarative configuration of a `SyslogDrain`.

use vstd::prelude::*;
use crate::adapter::{default_priority, default_priority_of, Adapter};
use crate::builder::{SyslogBuilder, LOG_NDELAY, LOG_ODELAY, LOG_PERROR, LOG_PID};
use crate::drain::SyslogDrain;
use crate::facility::Facility;
use crate::format::{default_text, write_basic, write_default, FormatError};
use crate::ident::Ident;
use crate::level::Severity;
use crate::priority::Priority;
use crate::record::{attributes, KvList, Record};

verus! {

/// The built-in formatting styles.
#[derive(Clone, Copy, Debug, PartialEq, Eq, Structural)]
pub enum MsgFormatConfig {
    /// The message and its attributes, as `DefaultAdapter` writes them.
    Default,
    /// The message alone, as `BasicAdapter` writes it.
    Basic,
}

impl Default for MsgFormatConfig {
    fn default() -> (r: MsgFormatConfig)
        ensures
            r == MsgFormatConfig::Default,
    {
        MsgFormatConfig::Default
    }
}

/// Priorities for events by severity, and for all events.
#[derive(Clone, Copy, Debug, PartialEq, Eq)]
pub struct PriorityConfig {
    /// Priority for all events; a per-severity priority without a facility
    /// takes the facility from this one.
    pub all: Option<Priority>,
    /// Priority for `Trace` events.
    pub trace: Option<Priority>,
    /// Priority for `Debug` events.
    pub debug: Option<Priority>,
    /// Priority for `Info` events.
    pub info: Option<Priority>,
    /// Priority for `Warning` events.
    pub warning: Option<Priority>,
    /// Priority for `Error` events.
    pub error: Option<Priority>,
    /// Priority for `Critical` events.
    pub critical: Option<Priority>,
}

impl PriorityConfig {
    /// A configuration that sets no priority.
    pub open spec fn spec_empty() -> PriorityConfig {
        PriorityConfig {
            all: None,
            trace: None,
            debug: None,
            info: None,
            warning: None,
            error: None,
            critical: None,
        }
    }

    /// Creates a configuration that sets no priority.
    pub fn new() -> (r: PriorityConfig)
        ensures
            r == PriorityConfig::spec_empty(),
    {
        PriorityConfig {
            all: None,
            trace: None,
            debug: None,
            info: None,
            warning: None,
            error: None,
            critical: None,
        }
    }

    /// The priority set for events of the given severity, if any.
    pub open spec fn for_level(self, level: Severity) -> Option<Priority> {
        match level {
            Severity::Critical => self.critical,
            Severity::Error => self.error,
            Severity::Warning => self.warning,
            Severity::Info => self.info,
            Severity::Debug => self.debug,
            Severity::Trace => self.trace,
        }
    }

    /// The priority of `record`: the one for its severity with the facility of
    /// `all` filled in; else `all`; else the default priority.
    pub open spec fn spec_priority(self, record: &Record) -> Priority {
        match (self.for_level(record.level), self.all) {
            (Some(p), Some(a)) => p.spec_overlay(a),
            (None, Some(a)) => a,
            (Some(p), None) => p,
            (None, None) => default_priority(record),
        }
    }
}

impl Default for PriorityConfig {
    fn default() -> (r: PriorityConfig)
        ensures
            r == PriorityConfig::spec_empty(),
    {
        PriorityConfig::new()
    }
}

/// An adapter that formats and chooses priorities as a `MsgFormatConfig` and
/// a `PriorityConfig` say.
#[derive(Clone, Copy, Debug, PartialEq, Eq)]
pub struct ConfiguredAdapter {
    /// The formatting style.
    pub format: MsgFormatConfig,
    /// The priorities.
    pub priority: PriorityConfig,
}

impl Adapter for ConfiguredAdapter {
    open spec fn outcome(&self, record: &Record, values: &KvList, r: Result<Seq<char>, FormatError>) -> bool {
        match self.format {
            MsgFormatConfig::Basic => r == Ok::<Seq<char>, FormatError>(record.msg@),
            MsgFormatConfig::Default => r == Ok::<Seq<char>, FormatError>(
                default_text(record.msg@, attributes(record, values)),
            ),
        }
    }

    open spec fn priority_of(&self, record: &Record, values: &KvList, p: Priority) -> bool {
        p == self.priority.spec_priority(record)
    }

    fn fmt(&self, out: &mut String, record: &Record, values: &KvList) -> (r: Result<(), FormatError>) {
        let ghost before = out@;
        match self.format {
            MsgFormatConfig::Basic => {
                write_basic(out, record);
                assert(out@.skip(before.len() as int) =~= record.msg@);
            },
            MsgFormatConfig::Default => {
                write_default(out, record, values);
                assert(out@.skip(before.len() as int) =~= default_text(
                    record.msg@,
                    attributes(record, values),
                ));
            },
        }
        Ok(())
    }

    fn priority(&self, record: &Record, values: &KvList) -> (p: Priority) {
        let configured = match record.level() {
            Severity::Critical => self.priority.critical,
            Severity::Error => self.priority.error,
            Severity::Warning => self.priority.warning,
            Severity::Debug => self.priority.debug,
            Severity::Trace => self.priority.trace,
            Severity::Info => self.priority.info,
        };
        match (configured, self.priority.all) {
            (Some(p), Some(all)) => p.overlay(all),
            (None, Some(all)) => all,
            (Some(p), None) => p,
            (None, None) => default_priority_of(record),
        }
    }
}

impl From<MsgFormatConfig> for ConfiguredAdapter {
    fn from(format: MsgFormatConfig) -> (r: ConfiguredAdapter) {
        ConfiguredAdapter { format, priority: PriorityConfig::new() }
    }
}

impl vstd::std_specs::convert::FromSpecImpl<MsgFormatConfig> for ConfiguredAdapter {
    open spec fn obeys_from_spec() -> bool {
        true
    }

    open spec fn from_spec(format: MsgFormatConfig) -> ConfiguredAdapter {
        ConfiguredAdapter { format, priority: PriorityConfig::spec_empty() }
    }
}

impl From<PriorityConfig> for ConfiguredAdapter {
    fn from(priority: PriorityConfig) -> (r: ConfiguredAdapter) {
        ConfiguredAdapter { format: MsgFormatConfig::Default, priority }
    }
}

impl vstd::std_specs::convert::FromSpecImpl<PriorityConfig> for ConfiguredAdapter {
    open spec fn obeys_from_spec() -> bool {
        true
    }

    open spec fn from_spec(priority: PriorityConfig) -> ConfiguredAdapter {
        ConfiguredAdapter { format: MsgFormatConfig::Default, priority }
    }
}

impl From<(Option<MsgFormatConfig>, Option<PriorityConfig>)> for ConfiguredAdapter {
    fn from(pair: (Option<MsgFormatConfig>, Option<PriorityConfig>)) -> (r: ConfiguredAdapter) {
        let format = match pair.0 {
            Some(f) => f,
            None => MsgFormatConfig::Default,
        };
        let priority = match pair.1 {
            Some(p) => p,
            None => PriorityConfig::new(),
        };
        ConfiguredAdapter { format, priority }
    }
}

impl vstd::std_specs::convert::FromSpecImpl<(Option<MsgFormatConfig>, Option<PriorityConfig>)> for ConfiguredAdapter {
    open spec fn obeys_from_spec() -> bool {
        true
    }

    open spec fn from_spec(pair: (Option<MsgFormatConfig>, Option<PriorityConfig>)) -> ConfiguredAdapter {
        ConfiguredAdapter {
            format: match pair.0 {
                Some(f) => f,
                None => MsgFormatConfig::Default,
            },
            priority: match pair.1 {
                Some(p) => p,
                None => PriorityConfig::spec_empty(),
            },
        }
    }
}

impl From<(MsgFormatConfig, PriorityConfig)> for ConfiguredAdapter {
    fn from(pair: (MsgFormatConfig, PriorityConfig)) -> (r: ConfiguredAdapter) {
        ConfiguredAdapter { format: pair.0, priority: pair.1 }
    }
}

impl vstd::std_specs::convert::FromSpecImpl<(MsgFormatConfig, PriorityConfig)> for ConfiguredAdapter {
    open spec fn obeys_from_spec() -> bool {
        true
    }

    open spec fn from_spec(pair: (MsgFormatConfig, PriorityConfig)) -> ConfiguredAdapter {
        ConfiguredAdapter { format: pair.0, priority: pair.1 }
    }
}

/// Configuration of a `SyslogDrain`, as read from a configuration file.
#[derive(Debug)]
pub struct SyslogConfig {
    /// How to format messages.
    pub format: MsgFormatConfig,
    /// The facility.
    pub facility: Facility,
    /// The program name.
    pub ident: Option<Ident>,
    /// Include the process ID in log messages.
    pub log_pid: bool,
    /// Whether to connect at once (`true`) or to wait for the first message
    /// before connecting (`false`); `None` keeps the platform's default.
    pub log_delay: Option<bool>,
    /// Also write each message to standard error.
    pub log_perror: bool,
    /// The priorities.
    pub priority: PriorityConfig,
}

/// The option flags that a configuration asks for.
pub open spec fn config_option(log_pid: bool, log_delay: Option<bool>, log_perror: bool) -> i32 {
    let o1: i32 = if log_pid {
        0i32 | LOG_PID
    } else {
        0i32
    };
    let o2: i32 = match log_delay {
        Some(true) => (o1 & !LOG_ODELAY) | LOG_NDELAY,
        Some(false) => (o1 & !LOG_NDELAY) | LOG_ODELAY,
        None => o1,
    };
    if log_perror {
        o2 | LOG_PERROR
    } else {
        o2
    }
}

impl SyslogConfig {
    /// Creates a configuration with the default settings.
    pub fn new() -> (r: SyslogConfig)
        ensures
            r.format == MsgFormatConfig::Default,
            r.facility == Facility::User,
            r.ident is None,
            !r.log_pid,
            r.log_delay is None,
            !r.log_perror,
            r.priority == PriorityConfig::spec_empty(),
    {
        SyslogConfig {
            format: MsgFormatConfig::Default,
            facility: Facility::User,
            ident: None,
            log_pid: false,
            log_delay: None,
            log_perror: false,
            priority: PriorityConfig::new(),
        }
    }

    /// Creates a builder with the settings.
    pub fn into_builder(self) -> (r: SyslogBuilder<ConfiguredAdapter>)
        ensures
            r.adapter == (ConfiguredAdapter { format: self.format, priority: self.priority }),
            r.facility == self.facility,
            r.ident == self.ident,
            r.option == config_option(self.log_pid, self.log_delay, self.log_perror),
            r.filter is None,
    {
        let b = SyslogBuilder::new().facility(self.facility).adapter(
            ConfiguredAdapter::from((self.format, self.priority)),
        );
        let b = match self.ident {
            Some(ident) => b.ident(ident),
            None => b,
        };
        let b = match self.log_pid {
            true => b.log_pid(),
            false => b,
        };
        let b = match self.log_delay {
            Some(true) => b.log_ndelay(),
            Some(false) => b.log_odelay(),
            None => b,
        };
        let b = match self.log_perror {
            true => b.log_perror(),
            false => b,
        };
        b
    }

    /// Creates a drain with the settings.
    pub fn build(self) -> (r: SyslogDrain<ConfiguredAdapter>)
        ensures
            r.spec_adapter() == (ConfiguredAdapter { format: self.format, priority: self.priority }),
            r.spec_facility() == self.facility,
            r.spec_ident() == self.ident,
            r.spec_option() == config_option(self.log_pid, self.log_delay, self.log_perror),
            r.spec_filter() is None,
    {
        self.into_builder().build()
    }
}

impl Default for SyslogConfig {
    fn default() -> (r: SyslogConfig)
        ensures
            r.format == MsgFormatConfig::Default,
            r.facility == Facility::User,
            r.ident is None,
            !r.log_pid,
            r.log_delay is None,
            !r.log_perror,
            r.priority == PriorityConfig::spec_empty(),
    {
        SyslogConfig::new()
    }
}

} // verus!
