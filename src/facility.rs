//! Syslog facilities, their names and their numeric codes.
//!
//! The numeric codes are those of Linux. Facilities that Linux does not have
//! are sent with the code of a close alternative, as documented on each
//! variant.

use vstd::prelude::*;
use crate::text::{ascii_lower, str_eq, to_ascii_lowercase};
use vstd::string::StringExecFns;

verus! {

/// Numeric code of the `kern` facility.
pub const LOG_KERN: i32 = 0;

/// Numeric code of the `user` facility.
pub const LOG_USER: i32 = 8;

/// Numeric code of the `mail` facility.
pub const LOG_MAIL: i32 = 16;

/// Numeric code of the `daemon` facility.
pub const LOG_DAEMON: i32 = 24;

/// Numeric code of the `auth` facility.
pub const LOG_AUTH: i32 = 32;

/// Numeric code of the `syslog` facility.
pub const LOG_SYSLOG: i32 = 40;

/// Numeric code of the `lpr` facility.
pub const LOG_LPR: i32 = 48;

/// Numeric code of the `news` facility.
pub const LOG_NEWS: i32 = 56;

/// Numeric code of the `uucp` facility.
pub const LOG_UUCP: i32 = 64;

/// Numeric code of the `cron` facility.
pub const LOG_CRON: i32 = 72;

/// Numeric code of the `authpriv` facility.
pub const LOG_AUTHPRIV: i32 = 80;

/// Numeric code of the `ftp` facility.
pub const LOG_FTP: i32 = 88;

/// Numeric code of the `local0` facility.
pub const LOG_LOCAL0: i32 = 128;

/// Numeric code of the `local1` facility.
pub const LOG_LOCAL1: i32 = 136;

/// Numeric code of the `local2` facility.
pub const LOG_LOCAL2: i32 = 144;

/// Numeric code of the `local3` facility.
pub const LOG_LOCAL3: i32 = 152;

/// Numeric code of the `local4` facility.
pub const LOG_LOCAL4: i32 = 160;

/// Numeric code of the `local5` facility.
pub const LOG_LOCAL5: i32 = 168;

/// Numeric code of the `local6` facility.
pub const LOG_LOCAL6: i32 = 176;

/// Numeric code of the `local7` facility.
pub const LOG_LOCAL7: i32 = 184;


/// A syslog facility: the categorical origin of a log message.
#[derive(Clone, Copy, Debug, PartialEq, Eq, Hash, Structural)]
pub enum Facility {
    /// Authentication, authorization, and other security-related matters.
    Auth,
    /// Log messages containing sensitive information.
    AuthPriv,
    /// Periodic task scheduling daemons like `cron`.
    Cron,
    /// Daemons that don't fall into a more specific category.
    Daemon,
    /// FTP server.
    Ftp,
    /// Operating system kernel.
    Kern,
    /// macOS installer; becomes `User` here.
    Install,
    /// `launchd`, the macOS process supervisor; becomes `Daemon` here.
    Launchd,
    /// Reserved for local use.
    Local0,
    /// Reserved for local use.
    Local1,
    /// Reserved for local use.
    Local2,
    /// Reserved for local use.
    Local3,
    /// Reserved for local use.
    Local4,
    /// Reserved for local use.
    Local5,
    /// Reserved for local use.
    Local6,
    /// Reserved for local use.
    Local7,
    /// Print server.
    Lpr,
    /// Mail transport and delivery agents.
    Mail,
    /// Network Time Protocol daemon; becomes `Daemon` here.
    Ntp,
    /// NeXT/early macOS `NetInfo` system; becomes `Daemon` here.
    NetInfo,
    /// Usenet news system.
    News,
    /// macOS Remote Access Service; becomes `User` here.
    Ras,
    /// macOS remote authentication and authorization; becomes `Daemon` here.
    RemoteAuth,
    /// Security subsystems; becomes `Auth` here.
    Security,
    /// Messages generated internally by the syslog daemon.
    Syslog,
    /// General user processes. This is the default facility.
    User,
    /// Unix-to-Unix Copy system.
    Uucp,
}

impl Facility {
    /// The lowercase name of the facility.
    pub open spec fn spec_name(self) -> Seq<char> {
        match self {
            Facility::Auth => "auth"@,
            Facility::AuthPriv => "authpriv"@,
            Facility::Cron => "cron"@,
            Facility::Daemon => "daemon"@,
            Facility::Ftp => "ftp"@,
            Facility::Kern => "kern"@,
            Facility::Install => "install"@,
            Facility::Launchd => "launchd"@,
            Facility::Local0 => "local0"@,
            Facility::Local1 => "local1"@,
            Facility::Local2 => "local2"@,
            Facility::Local3 => "local3"@,
            Facility::Local4 => "local4"@,
            Facility::Local5 => "local5"@,
            Facility::Local6 => "local6"@,
            Facility::Local7 => "local7"@,
            Facility::Lpr => "lpr"@,
            Facility::Mail => "mail"@,
            Facility::Ntp => "ntp"@,
            Facility::NetInfo => "netinfo"@,
            Facility::News => "news"@,
            Facility::Ras => "ras"@,
            Facility::RemoteAuth => "remoteauth"@,
            Facility::Security => "security"@,
            Facility::Syslog => "syslog"@,
            Facility::User => "user"@,
            Facility::Uucp => "uucp"@,
        }
    }

    /// The numeric code with which the facility is sent on this platform.
    pub open spec fn spec_code(self) -> i32 {
        match self {
            Facility::Auth => LOG_AUTH,
            Facility::AuthPriv => LOG_AUTHPRIV,
            Facility::Cron => LOG_CRON,
            Facility::Daemon => LOG_DAEMON,
            Facility::Ftp => LOG_FTP,
            Facility::Kern => LOG_KERN,
            Facility::Install => LOG_USER,
            Facility::Launchd => LOG_DAEMON,
            Facility::Local0 => LOG_LOCAL0,
            Facility::Local1 => LOG_LOCAL1,
            Facility::Local2 => LOG_LOCAL2,
            Facility::Local3 => LOG_LOCAL3,
            Facility::Local4 => LOG_LOCAL4,
            Facility::Local5 => LOG_LOCAL5,
            Facility::Local6 => LOG_LOCAL6,
            Facility::Local7 => LOG_LOCAL7,
            Facility::Lpr => LOG_LPR,
            Facility::Mail => LOG_MAIL,
            Facility::Ntp => LOG_DAEMON,
            Facility::NetInfo => LOG_DAEMON,
            Facility::News => LOG_NEWS,
            Facility::Ras => LOG_USER,
            Facility::RemoteAuth => LOG_DAEMON,
            Facility::Security => LOG_AUTH,
            Facility::Syslog => LOG_SYSLOG,
            Facility::User => LOG_USER,
            Facility::Uucp => LOG_UUCP,
        }
    }

    /// Whether the platform has a code of its own for the facility (rather
    /// than a substitute).
    pub open spec fn is_native(self) -> bool {
        match self {
            Facility::Install => false,
            Facility::Launchd => false,
            Facility::Ntp => false,
            Facility::NetInfo => false,
            Facility::Ras => false,
            Facility::RemoteAuth => false,
            Facility::Security => false,
            _ => true,
        }
    }

    /// Gets the name of this facility, in lowercase.
    pub fn name(&self) -> (r: &'static str)
        ensures
            r@ == self.spec_name(),
    {
        match *self {
            Facility::Auth => "auth",
            Facility::AuthPriv => "authpriv",
            Facility::Cron => "cron",
            Facility::Daemon => "daemon",
            Facility::Ftp => "ftp",
            Facility::Kern => "kern",
            Facility::Install => "install",
            Facility::Launchd => "launchd",
            Facility::Local0 => "local0",
            Facility::Local1 => "local1",
            Facility::Local2 => "local2",
            Facility::Local3 => "local3",
            Facility::Local4 => "local4",
            Facility::Local5 => "local5",
            Facility::Local6 => "local6",
            Facility::Local7 => "local7",
            Facility::Lpr => "lpr",
            Facility::Mail => "mail",
            Facility::Ntp => "ntp",
            Facility::NetInfo => "netinfo",
            Facility::News => "news",
            Facility::Ras => "ras",
            Facility::RemoteAuth => "remoteauth",
            Facility::Security => "security",
            Facility::Syslog => "syslog",
            Facility::User => "user",
            Facility::Uucp => "uucp",
        }
    }

    /// Converts a numeric facility code to a `Facility`.
    ///
    /// Returns `Some` if the value is the code of a facility that this
    /// platform has, or `None` if not.
    pub fn from_int(value: i32) -> (r: Option<Facility>)
        ensures
            r matches Some(f) ==> f.is_native() && f.spec_code() == value,
            r is None ==> forall|f: Facility| #[trigger] f.is_native() ==> f.spec_code() != value,
    {
        if value == LOG_AUTH {
            Some(Facility::Auth)
        } else if value == LOG_AUTHPRIV {
            Some(Facility::AuthPriv)
        } else if value == LOG_CRON {
            Some(Facility::Cron)
        } else if value == LOG_DAEMON {
            Some(Facility::Daemon)
        } else if value == LOG_FTP {
            Some(Facility::Ftp)
        } else if value == LOG_KERN {
            Some(Facility::Kern)
        } else if value == LOG_LOCAL0 {
            Some(Facility::Local0)
        } else if value == LOG_LOCAL1 {
            Some(Facility::Local1)
        } else if value == LOG_LOCAL2 {
            Some(Facility::Local2)
        } else if value == LOG_LOCAL3 {
            Some(Facility::Local3)
        } else if value == LOG_LOCAL4 {
            Some(Facility::Local4)
        } else if value == LOG_LOCAL5 {
            Some(Facility::Local5)
        } else if value == LOG_LOCAL6 {
            Some(Facility::Local6)
        } else if value == LOG_LOCAL7 {
            Some(Facility::Local7)
        } else if value == LOG_LPR {
            Some(Facility::Lpr)
        } else if value == LOG_MAIL {
            Some(Facility::Mail)
        } else if value == LOG_NEWS {
            Some(Facility::News)
        } else if value == LOG_SYSLOG {
            Some(Facility::Syslog)
        } else if value == LOG_USER {
            Some(Facility::User)
        } else if value == LOG_UUCP {
            Some(Facility::Uucp)
        } else {
            None
        }
    }

    /// Finds the facility whose lowercase name is exactly `s`.
    pub fn from_name(s: &str) -> (r: Option<Facility>)
        ensures
            r matches Some(f) ==> f.spec_name() == s@,
            r is None ==> forall|f: Facility| #[trigger] f.spec_name() != s@,
    {
        if str_eq(s, "auth") {
            Some(Facility::Auth)
        } else if str_eq(s, "authpriv") {
            Some(Facility::AuthPriv)
        } else if str_eq(s, "cron") {
            Some(Facility::Cron)
        } else if str_eq(s, "daemon") {
            Some(Facility::Daemon)
        } else if str_eq(s, "ftp") {
            Some(Facility::Ftp)
        } else if str_eq(s, "kern") {
            Some(Facility::Kern)
        } else if str_eq(s, "install") {
            Some(Facility::Install)
        } else if str_eq(s, "launchd") {
            Some(Facility::Launchd)
        } else if str_eq(s, "local0") {
            Some(Facility::Local0)
        } else if str_eq(s, "local1") {
            Some(Facility::Local1)
        } else if str_eq(s, "local2") {
            Some(Facility::Local2)
        } else if str_eq(s, "local3") {
            Some(Facility::Local3)
        } else if str_eq(s, "local4") {
            Some(Facility::Local4)
        } else if str_eq(s, "local5") {
            Some(Facility::Local5)
        } else if str_eq(s, "local6") {
            Some(Facility::Local6)
        } else if str_eq(s, "local7") {
            Some(Facility::Local7)
        } else if str_eq(s, "lpr") {
            Some(Facility::Lpr)
        } else if str_eq(s, "mail") {
            Some(Facility::Mail)
        } else if str_eq(s, "ntp") {
            Some(Facility::Ntp)
        } else if str_eq(s, "netinfo") {
            Some(Facility::NetInfo)
        } else if str_eq(s, "news") {
            Some(Facility::News)
        } else if str_eq(s, "ras") {
            Some(Facility::Ras)
        } else if str_eq(s, "remoteauth") {
            Some(Facility::RemoteAuth)
        } else if str_eq(s, "security") {
            Some(Facility::Security)
        } else if str_eq(s, "syslog") {
            Some(Facility::Syslog)
        } else if str_eq(s, "user") {
            Some(Facility::User)
        } else if str_eq(s, "uucp") {
            Some(Facility::Uucp)
        } else {
            None
        }
    }

    /// Parses a facility name, ignoring ASCII case.
    pub fn from_str(s: &str) -> (r: Result<Facility, UnknownFacilityError>)
        ensures
            r matches Ok(f) ==> f.spec_name() == ascii_lower(s@),
            r matches Err(e) ==> e.name@ == ascii_lower(s@) && forall|f: Facility|
                #[trigger] f.spec_name() != ascii_lower(s@),
    {
        let lower = to_ascii_lowercase(s);
        match Facility::from_name(lower.as_str()) {
            Some(f) => Ok(f),
            None => Err(UnknownFacilityError { name: lower }),
        }
    }
}

impl Default for Facility {
    fn default() -> (r: Facility)
        ensures
            r == Facility::User,
    {
        Facility::User
    }
}

impl core::str::FromStr for Facility {
    type Err = UnknownFacilityError;

    fn from_str(s: &str) -> Result<Facility, UnknownFacilityError> {
        Facility::from_str(s)
    }
}

impl From<Facility> for i32 {
    fn from(facility: Facility) -> (r: i32) {
        match facility {
            Facility::Auth => LOG_AUTH,
            Facility::AuthPriv => LOG_AUTHPRIV,
            Facility::Cron => LOG_CRON,
            Facility::Daemon => LOG_DAEMON,
            Facility::Ftp => LOG_FTP,
            Facility::Kern => LOG_KERN,
            Facility::Install => LOG_USER,
            Facility::Launchd => LOG_DAEMON,
            Facility::Local0 => LOG_LOCAL0,
            Facility::Local1 => LOG_LOCAL1,
            Facility::Local2 => LOG_LOCAL2,
            Facility::Local3 => LOG_LOCAL3,
            Facility::Local4 => LOG_LOCAL4,
            Facility::Local5 => LOG_LOCAL5,
            Facility::Local6 => LOG_LOCAL6,
            Facility::Local7 => LOG_LOCAL7,
            Facility::Lpr => LOG_LPR,
            Facility::Mail => LOG_MAIL,
            Facility::Ntp => LOG_DAEMON,
            Facility::NetInfo => LOG_DAEMON,
            Facility::News => LOG_NEWS,
            Facility::Ras => LOG_USER,
            Facility::RemoteAuth => LOG_DAEMON,
            Facility::Security => LOG_AUTH,
            Facility::Syslog => LOG_SYSLOG,
            Facility::User => LOG_USER,
            Facility::Uucp => LOG_UUCP,
        }
    }
}

impl vstd::std_specs::convert::FromSpecImpl<Facility> for i32 {
    open spec fn obeys_from_spec() -> bool {
        true
    }

    open spec fn from_spec(facility: Facility) -> i32 {
        facility.spec_code()
    }
}

/// Indicates that a facility name could not be parsed.
#[derive(Clone, Debug, PartialEq, Eq)]
pub struct UnknownFacilityError {
    /// The unrecognized name, in lowercase.
    pub name: String,
}

impl UnknownFacilityError {
    /// The unrecognized facility name.
    pub fn name(&self) -> (r: &str)
        ensures
            r@ == self.name@,
    {
        self.name.as_str()
    }

    /// The message that describes this error.
    pub fn to_string(&self) -> (r: String)
        ensures
            r@ == "unrecognized syslog facility name `"@ + self.name@ + "`"@,
    {
        let mut r = String::from_str("unrecognized syslog facility name `");
        r.append(self.name.as_str());
        r.append("`");
        r
    }
}

} // verus!
