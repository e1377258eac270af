//! A drain for syslog servers reached over a Unix socket, UDP or TCP, which
//! frame each message as RFC 3164 describes.
//!
//! This module decides what is sent; opening the connection and sending are
//! done by the caller with the `syslog` crate.

use vstd::prelude::*;
use crate::facility::Facility;
use crate::ident::ConfigError;
use crate::level::{Level, Severity};
use crate::format::{default_text, write_default, FormatError};
use crate::record::{attributes, KvList, Record};
use vstd::string::StringExecFns;

verus! {

/// The least severe events that a streamer sends when no other level is
/// given. No maximum-level feature is selected in this build, so only
/// critical events are sent.
pub fn get_default_level() -> (r: Severity)
    ensures
        r == Severity::Critical,
{
    Severity::Critical
}

/// Formats an event as its message followed, when there are attributes, by
/// `[key="value" ...]` with the values escaped, as `DefaultMsgFormat` does.
#[derive(Clone, Copy, Debug, Default)]
pub struct Format3164;

impl Format3164 {
    /// Creates the format.
    pub fn new() -> (r: Format3164) {
        Format3164
    }

    /// Appends the message, then the scope attributes and the event's own
    /// attributes.
    pub fn format(&self, out: &mut String, record: &Record, values: &KvList)
        ensures
            final(out)@ == old(out)@ + default_text(record.msg@, attributes(record, values)),
    {
        write_default(out, record, values);
    }
}

/// The text of the entry that reports why an event's attributes could not
/// be written.
pub open spec fn failure_text(error: FormatError) -> Seq<char> {
    "Error fully formatting the previous log message: "@ + error.spec_message()
}

/// One message to send: its level and its text.
#[derive(Debug)]
pub struct StreamEntry {
    /// The syslog level.
    pub level: Level,
    /// The text.
    pub text: String,
}

/// Decides what each event becomes: events less severe than `level` are
/// dropped, the others are formatted with `Format3164` and sent at the level
/// that `Level::from_slog` gives.
#[derive(Clone, Copy, Debug)]
pub struct Streamer3164 {
    /// The format.
    pub format: Format3164,
    /// The least severe events that are sent.
    pub level: Severity,
}

impl Streamer3164 {
    /// Creates a streamer that sends events at least as severe as `level`.
    pub fn new_with_level(level: Severity) -> (r: Streamer3164)
        ensures
            r.level == level,
    {
        Streamer3164 { format: Format3164::new(), level }
    }

    /// Creates a streamer with the default level (see `get_default_level`).
    pub fn new() -> (r: Streamer3164)
        ensures
            r.level == Severity::Critical,
    {
        let level = get_default_level();
        Streamer3164::new_with_level(level)
    }

    /// Decides what one event becomes: nothing if it is less severe than the
    /// streamer's level, else its level and its formatted text.
    pub fn log(&self, record: &Record, values: &KvList) -> (r: Option<StreamEntry>)
        ensures
            self.level.rank() < record.level.rank() ==> r is None,
            record.level.rank() <= self.level.rank() ==> (r matches Some(e) && e.level
                == Level::spec_from_slog(record.level) && e.text@ == default_text(
                record.msg@,
                attributes(record, values),
            )),
    {
        if self.level.as_usize() < record.level.as_usize() {
            return None;
        }
        let mut text = String::new();
        self.format.format(&mut text, record, values);
        assert(text@ =~= default_text(record.msg@, attributes(record, values)));
        Some(StreamEntry { level: Level::from_slog(record.level), text })
    }

    /// Decides what an event becomes whose attributes could not be read (the
    /// source rejected them with `error`): nothing if it is less severe than
    /// the streamer's level, else the bare message at the event's level, then
    /// a report of the error at level `Error`.
    pub fn log_unformattable(&self, record: &Record, error: FormatError) -> (r: Vec<StreamEntry>)
        ensures
            self.level.rank() < record.level.rank() ==> r@.len() == 0,
            record.level.rank() <= self.level.rank() ==> {
                &&& r@.len() == 2
                &&& r@[0].level == Level::spec_from_slog(record.level)
                &&& r@[0].text@ == record.msg@
                &&& r@[1].level == Level::Error
                &&& r@[1].text@ == failure_text(error)
            },
    {
        let mut out: Vec<StreamEntry> = Vec::new();
        if self.level.as_usize() < record.level.as_usize() {
            return out;
        }
        out.push(StreamEntry { level: Level::from_slog(record.level), text: record.msg.clone() });
        let mut report = String::from_str("Error fully formatting the previous log message: ");
        let description = error.to_string();
        report.append(description.as_str());
        out.push(StreamEntry { level: Level::Error, text: report });
        out
    }
}

/// An IP address.
#[derive(Clone, Copy, Debug, PartialEq, Eq, Structural)]
pub enum IpAddress {
    /// An IPv4 address, by its four octets.
    V4(u8, u8, u8, u8),
    /// An IPv6 address, by its eight segments.
    V6(u16, u16, u16, u16, u16, u16, u16, u16),
}

/// An IP address and a port.
#[derive(Clone, Copy, Debug, PartialEq, Eq, Structural)]
pub struct SocketAddress {
    /// The address.
    pub ip: IpAddress,
    /// The port.
    pub port: u16,
}

/// Where messages are sent.
#[derive(Debug)]
pub enum SyslogKind {
    /// A Unix socket at the given path.
    Unix {
        /// The socket's path.
        path: String,
    },
    /// A TCP server.
    Tcp {
        /// The server's address.
        server: SocketAddress,
        /// The host name sent with each message.
        hostname: String,
    },
    /// A UDP server.
    Udp {
        /// The local address to send from.
        local: SocketAddress,
        /// The server's address.
        host: SocketAddress,
        /// The host name sent with each message.
        hostname: String,
    },
}

/// The host name sent with each message to this kind of server: none for a
/// Unix socket.
pub open spec fn spec_hostname(kind: SyslogKind) -> Option<Seq<char>> {
    match kind {
        SyslogKind::Unix { .. } => None,
        SyslogKind::Tcp { hostname, .. } => Some(hostname@),
        SyslogKind::Udp { hostname, .. } => Some(hostname@),
    }
}

/// What is needed to open a connection and send events to it.
#[derive(Debug)]
pub struct StreamerSetup {
    /// The facility of every message.
    pub facility: Facility,
    /// Where to send messages.
    pub kind: SyslogKind,
    /// The host name sent with each message, if any.
    pub hostname: Option<String>,
    /// The process name sent with each message, if it was given.
    pub process: Option<String>,
    /// The process ID sent with each message, if it was given.
    pub pid: Option<i32>,
    /// Decides what each event becomes.
    pub streamer: Streamer3164,
}

impl StreamerSetup {
    /// The process name to send: the one given to the builder, else the
    /// detected one.
    pub fn process_name(&self, detected: &str) -> (r: String)
        ensures
            self.process matches Some(p) ==> r@ == p@,
            self.process is None ==> r@ == detected@,
    {
        match &self.process {
            Some(p) => p.clone(),
            None => String::from_str(detected),
        }
    }

    /// The process ID to send: the one given to the builder, else the
    /// detected one.
    pub fn process_id(&self, detected: i32) -> (r: i32)
        ensures
            self.pid matches Some(p) ==> r == p,
            self.pid is None ==> r == detected,
    {
        match self.pid {
            Some(p) => p,
            None => detected,
        }
    }
}

/// Builds the setup of a streamer. A facility and a kind of server must be
/// given; the level defaults to `Trace`, which sends every event.
#[derive(Debug)]
pub struct SyslogBuilder {
    /// The facility.
    pub facility: Option<Facility>,
    /// The least severe events that are sent.
    pub level: Severity,
    /// Where messages are sent.
    pub logkind: Option<SyslogKind>,
    /// The host name to send instead of the server kind's.
    pub hostname: Option<String>,
    /// The process name to send instead of the detected one.
    pub process: Option<String>,
    /// The process ID to send instead of the detected one.
    pub pid: Option<i32>,
}

impl Default for SyslogBuilder {
    fn default() -> (r: SyslogBuilder)
        ensures
            r.facility is None,
            r.level == Severity::Trace,
            r.logkind is None,
            r.hostname is None,
            r.process is None,
            r.pid is None,
    {
        SyslogBuilder {
            facility: None,
            level: Severity::Trace,
            logkind: None,
            hostname: None,
            process: None,
            pid: None,
        }
    }
}

impl SyslogBuilder {
    /// Makes a builder with no facility and no server, sending every event.
    pub fn new() -> (r: SyslogBuilder)
        ensures
            r.facility is None,
            r.level == Severity::Trace,
            r.logkind is None,
            r.hostname is None,
            r.process is None,
            r.pid is None,
    {
        SyslogBuilder::default()
    }

    /// Sends this host name instead of the server kind's.
    pub fn hostname(self, hostname: &str) -> (r: SyslogBuilder)
        ensures
            r.facility == self.facility,
            r.level == self.level,
            r.logkind == self.logkind,
            r.hostname matches Some(h) && h@ == hostname@,
            r.process == self.process,
            r.pid == self.pid,
    {
        SyslogBuilder { hostname: Some(String::from_str(hostname)), ..self }
    }

    /// Sends this process name instead of the detected one.
    pub fn process(self, process: &str) -> (r: SyslogBuilder)
        ensures
            r.facility == self.facility,
            r.level == self.level,
            r.logkind == self.logkind,
            r.hostname == self.hostname,
            r.process matches Some(p) && p@ == process@,
            r.pid == self.pid,
    {
        SyslogBuilder { process: Some(String::from_str(process)), ..self }
    }

    /// Sends this process ID instead of the detected one.
    pub fn pid(self, pid: i32) -> (r: SyslogBuilder)
        ensures
            r == (SyslogBuilder { pid: Some(pid), ..self }),
    {
        SyslogBuilder { pid: Some(pid), ..self }
    }

    /// Sets the facility.
    pub fn facility(self, facility: Facility) -> (r: SyslogBuilder)
        ensures
            r == (SyslogBuilder { facility: Some(facility), ..self }),
    {
        SyslogBuilder { facility: Some(facility), ..self }
    }

    /// Sends only events at least as severe as `lvl`.
    pub fn level(self, lvl: Severity) -> (r: SyslogBuilder)
        ensures
            r == (SyslogBuilder { level: lvl, ..self }),
    {
        SyslogBuilder { level: lvl, ..self }
    }

    /// Sends to a UDP server.
    pub fn udp(self, local: SocketAddress, host: SocketAddress, hostname: &str) -> (r: SyslogBuilder)
        ensures
            r.facility == self.facility,
            r.level == self.level,
            r.hostname == self.hostname,
            r.process == self.process,
            r.pid == self.pid,
            (r.logkind matches Some(SyslogKind::Udp { local: l, host: h, hostname: n }) && l == local
                && h == host && n@ == hostname@),
    {
        let hostname = String::from_str(hostname);
        SyslogBuilder { logkind: Some(SyslogKind::Udp { local, host, hostname }), ..self }
    }

    /// Sends to a TCP server.
    pub fn tcp(self, server: SocketAddress, hostname: &str) -> (r: SyslogBuilder)
        ensures
            r.facility == self.facility,
            r.level == self.level,
            r.hostname == self.hostname,
            r.process == self.process,
            r.pid == self.pid,
            (r.logkind matches Some(SyslogKind::Tcp { server: s, hostname: n }) && s == server
                && n@ == hostname@),
    {
        let hostname = String::from_str(hostname);
        SyslogBuilder { logkind: Some(SyslogKind::Tcp { server, hostname }), ..self }
    }

    /// Sends to a Unix socket.
    pub fn unix(self, path: &str) -> (r: SyslogBuilder)
        ensures
            r.facility == self.facility,
            r.level == self.level,
            r.hostname == self.hostname,
            r.process == self.process,
            r.pid == self.pid,
            (r.logkind matches Some(SyslogKind::Unix { path: p }) && p@ == path@),
    {
        let path = String::from_str(path);
        SyslogBuilder { logkind: Some(SyslogKind::Unix { path }), ..self }
    }

    /// Checks the settings and returns what is needed to connect.
    pub fn start(self) -> (r: Result<StreamerSetup, ConfigError>)
        ensures
            self.facility is None ==> r == Err::<StreamerSetup, ConfigError>(
                ConfigError::MissingFacility,
            ),
            self.facility is Some && self.logkind is None ==> r == Err::<StreamerSetup, ConfigError>(
                ConfigError::MissingTransport,
            ),
            r matches Ok(s) ==> {
                &&& self.facility == Some(s.facility)
                &&& self.logkind == Some(s.kind)
                &&& s.streamer.level == self.level
                &&& s.process == self.process
                &&& s.pid == self.pid
                &&& match (self.hostname, s.hostname) {
                    (Some(given), Some(h)) => h@ == given@,
                    (None, Some(h)) => spec_hostname(s.kind) == Some(h@),
                    (None, None) => spec_hostname(s.kind) is None,
                    (Some(_), None) => false,
                }
            },
            self.facility is Some && self.logkind is Some ==> r is Ok,
    {
        let facility = match self.facility {
            Some(x) => x,
            None => {
                return Err(ConfigError::MissingFacility);
            },
        };
        let kind = match self.logkind {
            Some(l) => l,
            None => {
                return Err(ConfigError::MissingTransport);
            },
        };
        let hostname = match self.hostname {
            Some(h) => Some(h),
            None => match &kind {
                SyslogKind::Unix { .. } => None,
                SyslogKind::Tcp { hostname, .. } => Some(hostname.clone()),
                SyslogKind::Udp { hostname, .. } => Some(hostname.clone()),
            },
        };
        Ok(
            StreamerSetup {
                facility,
                kind,
                hostname,
                process: self.process,
                pid: self.pid,
                streamer: Streamer3164::new_with_level(self.level),
            },
        )
    }
}

} // verus!
