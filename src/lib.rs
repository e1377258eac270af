//! Structured logging to the system log: formatting of events with their
//! key-value attributes, mapping of severities to syslog priorities, and the
//! bookkeeping of the process-wide syslog handle.

pub mod adapter;
pub mod builder;
pub mod config;
pub mod drain;
pub mod escape;
pub mod facility;
pub mod format;
pub mod ident;
pub mod level;
pub mod lifecycle;
pub mod priority;
pub mod record;
pub mod rfc3164;
pub mod text;

pub use builder::SyslogBuilder;
pub use drain::SyslogDrain;
pub use facility::{Facility, UnknownFacilityError};
pub use level::{Level, Severity, UnknownLevelError};
pub use priority::{Priority, PriorityKind};
pub use record::{KeyValue, KvList, Record};
