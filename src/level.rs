//! Syslog severity levels, and the application-level severities that are
//! mapped to them.

use vstd::prelude::*;
use crate::text::{ascii_lower, str_eq, to_ascii_lowercase};
use vstd::string::StringExecFns;

verus! {

/// Numeric code of the `emerg` level.
pub const LOG_EMERG: i32 = 0;

/// Numeric code of the `alert` level.
pub const LOG_ALERT: i32 = 1;

/// Numeric code of the `crit` level.
pub const LOG_CRIT: i32 = 2;

/// Numeric code of the `err` level.
pub const LOG_ERR: i32 = 3;

/// Numeric code of the `warning` level.
pub const LOG_WARNING: i32 = 4;

/// Numeric code of the `notice` level.
pub const LOG_NOTICE: i32 = 5;

/// Numeric code of the `info` level.
pub const LOG_INFO: i32 = 6;

/// Numeric code of the `debug` level.
pub const LOG_DEBUG: i32 = 7;


/// The severity of an event as the application sees it, from the most to the
/// least severe.
#[derive(Clone, Copy, Debug, PartialEq, Eq, Hash, Structural)]
pub enum Severity {
    /// Critical failure.
    Critical,
    /// Error.
    Error,
    /// Warning.
    Warning,
    /// Informational message.
    Info,
    /// Debugging message.
    Debug,
    /// Tracing message.
    Trace,
}

impl Severity {
    /// The rank of the severity: 1 for `Critical` up to 6 for `Trace`.
    pub open spec fn rank(self) -> nat {
        match self {
            Severity::Critical => 1,
            Severity::Error => 2,
            Severity::Warning => 3,
            Severity::Info => 4,
            Severity::Debug => 5,
            Severity::Trace => 6,
        }
    }

    /// The rank of the severity: 1 for `Critical` up to 6 for `Trace`.
    pub fn as_usize(&self) -> (r: usize)
        ensures
            r == self.rank(),
    {
        match *self {
            Severity::Critical => 1,
            Severity::Error => 2,
            Severity::Warning => 3,
            Severity::Info => 4,
            Severity::Debug => 5,
            Severity::Trace => 6,
        }
    }

    /// Whether this severity is at least as severe as `other`.
    pub fn is_at_least(&self, other: Severity) -> (r: bool)
        ensures
            r == (self.rank() <= other.rank()),
    {
        self.as_usize() <= other.as_usize()
    }
}

/// A syslog severity level, from the least to the most severe.
#[derive(Clone, Copy, Debug, PartialEq, Eq, Hash, PartialOrd, Ord, Structural)]
pub enum Level {
    /// Verbose debugging messages.
    Debug,
    /// Normal informational messages.
    Info,
    /// The situation is not an error, but it probably needs attention.
    Notice,
    /// Warning. Something has probably gone wrong.
    Warning,
    /// Error. Something has definitely gone wrong.
    Error,
    /// Critical error. Hardware failures fall under this level.
    Crit,
    /// Something has happened that requires immediate action.
    Alert,
    /// The system has failed.
    Emerg,
}

impl Level {
    /// The name of the level.
    pub open spec fn spec_name(self) -> Seq<char> {
        match self {
            Level::Debug => "debug"@,
            Level::Info => "info"@,
            Level::Notice => "notice"@,
            Level::Warning => "warning"@,
            Level::Error => "err"@,
            Level::Crit => "crit"@,
            Level::Alert => "alert"@,
            Level::Emerg => "emerg"@,
        }
    }

    /// Whether `s` names this level, by its name or by an accepted alias.
    pub open spec fn is_named(self, s: Seq<char>) -> bool {
        match self {
            Level::Debug => s == "debug"@,
            Level::Info => s == "info"@,
            Level::Notice => s == "notice"@,
            Level::Warning => s == "warning"@ || s == "warn"@,
            Level::Error => s == "err"@ || s == "error"@,
            Level::Crit => s == "crit"@,
            Level::Alert => s == "alert"@,
            Level::Emerg => s == "emerg"@ || s == "panic"@,
        }
    }

    /// The numeric code of the level.
    pub open spec fn spec_code(self) -> i32 {
        match self {
            Level::Debug => LOG_DEBUG,
            Level::Info => LOG_INFO,
            Level::Notice => LOG_NOTICE,
            Level::Warning => LOG_WARNING,
            Level::Error => LOG_ERR,
            Level::Crit => LOG_CRIT,
            Level::Alert => LOG_ALERT,
            Level::Emerg => LOG_EMERG,
        }
    }

    /// The level that an application severity maps to: `Critical` to `Crit`,
    /// `Error` to `Error`, `Warning` to `Warning`, `Info` to `Info`, and `Debug`
    /// and `Trace` to `Debug`.
    pub open spec fn spec_from_slog(level: Severity) -> Level {
        match level {
            Severity::Critical => Level::Crit,
            Severity::Error => Level::Error,
            Severity::Warning => Level::Warning,
            Severity::Info => Level::Info,
            Severity::Debug | Severity::Trace => Level::Debug,
        }
    }

    /// Gets the name of this level, like `emerg` or `notice`.
    pub fn name(&self) -> (r: &'static str)
        ensures
            r@ == self.spec_name(),
    {
        match *self {
            Level::Debug => "debug",
            Level::Info => "info",
            Level::Notice => "notice",
            Level::Warning => "warning",
            Level::Error => "err",
            Level::Crit => "crit",
            Level::Alert => "alert",
            Level::Emerg => "emerg",
        }
    }

    /// Converts a numeric level code to a `Level`, or `None` if no level has
    /// that code.
    pub fn from_int(value: i32) -> (r: Option<Level>)
        ensures
            r matches Some(l) ==> l.spec_code() == value,
            r is None ==> forall|l: Level| #[trigger] l.spec_code() != value,
    {
        if value == LOG_EMERG {
            Some(Level::Emerg)
        } else if value == LOG_ALERT {
            Some(Level::Alert)
        } else if value == LOG_CRIT {
            Some(Level::Crit)
        } else if value == LOG_ERR {
            Some(Level::Error)
        } else if value == LOG_WARNING {
            Some(Level::Warning)
        } else if value == LOG_NOTICE {
            Some(Level::Notice)
        } else if value == LOG_INFO {
            Some(Level::Info)
        } else if value == LOG_DEBUG {
            Some(Level::Debug)
        } else {
            None
        }
    }

    /// Maps an application severity to a syslog level (see `spec_from_slog`).
    pub fn from_slog(level: Severity) -> (r: Level)
        ensures
            r == Level::spec_from_slog(level),
    {
        match level {
            Severity::Critical => Level::Crit,
            Severity::Error => Level::Error,
            Severity::Warning => Level::Warning,
            Severity::Debug | Severity::Trace => Level::Debug,
            Severity::Info => Level::Info,
        }
    }

    /// Finds the level that `s` names exactly, by name or alias.
    pub fn from_name(s: &str) -> (r: Option<Level>)
        ensures
            r matches Some(l) ==> l.is_named(s@),
            r is None ==> forall|l: Level| !(#[trigger] l.is_named(s@)),
    {
        if str_eq(s, "emerg") || str_eq(s, "panic") {
            Some(Level::Emerg)
        } else if str_eq(s, "alert") {
            Some(Level::Alert)
        } else if str_eq(s, "crit") {
            Some(Level::Crit)
        } else if str_eq(s, "err") || str_eq(s, "error") {
            Some(Level::Error)
        } else if str_eq(s, "warning") || str_eq(s, "warn") {
            Some(Level::Warning)
        } else if str_eq(s, "notice") {
            Some(Level::Notice)
        } else if str_eq(s, "info") {
            Some(Level::Info)
        } else if str_eq(s, "debug") {
            Some(Level::Debug)
        } else {
            None
        }
    }

    /// Parses a level name or alias, ignoring ASCII case.
    pub fn from_str(s: &str) -> (r: Result<Level, UnknownLevelError>)
        ensures
            r matches Ok(l) ==> l.is_named(ascii_lower(s@)),
            r matches Err(e) ==> e.name@ == ascii_lower(s@) && forall|l: Level|
                !(#[trigger] l.is_named(ascii_lower(s@))),
    {
        let lower = to_ascii_lowercase(s);
        match Level::from_name(lower.as_str()) {
            Some(l) => Ok(l),
            None => Err(UnknownLevelError { name: lower }),
        }
    }
}

impl core::str::FromStr for Level {
    type Err = UnknownLevelError;

    fn from_str(s: &str) -> Result<Level, UnknownLevelError> {
        Level::from_str(s)
    }
}

impl From<Level> for i32 {
    fn from(level: Level) -> (r: i32) {
        match level {
            Level::Debug => LOG_DEBUG,
            Level::Info => LOG_INFO,
            Level::Notice => LOG_NOTICE,
            Level::Warning => LOG_WARNING,
            Level::Error => LOG_ERR,
            Level::Crit => LOG_CRIT,
            Level::Alert => LOG_ALERT,
            Level::Emerg => LOG_EMERG,
        }
    }
}

impl vstd::std_specs::convert::FromSpecImpl<Level> for i32 {
    open spec fn obeys_from_spec() -> bool {
        true
    }

    open spec fn from_spec(level: Level) -> i32 {
        level.spec_code()
    }
}

/// Indicates that a level name could not be parsed.
#[derive(Clone, Debug, PartialEq, Eq)]
pub struct UnknownLevelError {
    /// The unrecognized name, in lowercase.
    pub name: String,
}

impl UnknownLevelError {
    /// The unrecognized level name.
    pub fn name(&self) -> (r: &str)
        ensures
            r@ == self.name@,
    {
        self.name.as_str()
    }

    /// The message that describes this error.
    pub fn to_string(&self) -> (r: String)
        ensures
            r@ == "unrecognized syslog level name `"@ + self.name@ + "`"@,
    {
        let mut r = String::from_str("unrecognized syslog level name `");
        r.append(self.name.as_str());
        r.append("`");
        r
    }
}

} // verus!
