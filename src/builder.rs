//! Building a `SyslogDrain`.

use vstd::prelude::*;
use crate::adapter::{Adapter, DefaultAdapter, WithFormat, WithPriority};
use crate::drain::SyslogDrain;
use crate::facility::Facility;
use crate::format::FormatError;
use crate::ident::{has_nul, ConfigError, Ident};
use crate::level::Severity;
use crate::priority::Priority;
use crate::record::{KvList, Record};

verus! {

/// Option flag: include the process ID with each message.
pub const LOG_PID: i32 = 0x01;
/// Option flag: write to the console when the message cannot be sent.
pub const LOG_CONS: i32 = 0x02;
/// Option flag: open the connection with the first message.
pub const LOG_ODELAY: i32 = 0x04;
/// Option flag: open the connection at once.
pub const LOG_NDELAY: i32 = 0x08;
/// Option flag: do not wait for child processes.
pub const LOG_NOWAIT: i32 = 0x10;
/// Option flag: also write each message to standard error.
pub const LOG_PERROR: i32 = 0x20;

/// Builds a `SyslogDrain`. All settings have defaults: the `User` facility,
/// no program name, no option flags, every severity, and `DefaultAdapter`.
#[derive(Debug, PartialEq)]
pub struct SyslogBuilder<A: Adapter = DefaultAdapter> {
    /// Formats events and chooses their priorities.
    pub adapter: A,
    /// The facility of events whose priority has none.
    pub facility: Facility,
    /// The program name.
    pub ident: Option<Ident>,
    /// The option flags for opening the handle.
    pub option: i32,
    /// The least severe events that are sent; `None` sends all.
    pub filter: Option<Severity>,
}

impl Default for SyslogBuilder<DefaultAdapter> {
    fn default() -> (r: SyslogBuilder<DefaultAdapter>)
        ensures
            r.facility == Facility::User,
            r.ident is None,
            r.option == 0,
            r.filter is None,
    {
        SyslogBuilder {
            adapter: DefaultAdapter,
            facility: Facility::User,
            ident: None,
            option: 0,
            filter: None,
        }
    }
}

impl SyslogBuilder<DefaultAdapter> {
    /// Makes a builder with the default settings.
    pub fn new() -> (r: SyslogBuilder<DefaultAdapter>)
        ensures
            r.facility == Facility::User,
            r.ident is None,
            r.option == 0,
            r.filter is None,
    {
        SyslogBuilder::default()
    }
}

impl<A: Adapter> SyslogBuilder<A> {
    /// Sets the facility.
    pub fn facility(self, facility: Facility) -> (r: Self)
        ensures
            r == (SyslogBuilder { facility, ..self }),
    {
        SyslogBuilder { facility, ..self }
    }

    /// Sends only events at least as severe as `level`.
    pub fn level(self, level: Severity) -> (r: Self)
        ensures
            r == (SyslogBuilder { filter: Some(level), ..self }),
    {
        SyslogBuilder { filter: Some(level), ..self }
    }

    /// Sets the program name from a string, which is copied; fails if it
    /// contains a NUL character.
    pub fn ident_str(self, ident: &str) -> (r: Result<Self, ConfigError>)
        ensures
            has_nul(ident@) <==> r is Err,
            r matches Err(e) ==> e == ConfigError::NulInIdent,
            r matches Ok(b) ==> {
                &&& b.adapter == self.adapter
                &&& b.facility == self.facility
                &&& b.option == self.option
                &&& b.filter == self.filter
                &&& b.ident matches Some(i)
                &&& i.spec_text() == ident@
                &&& i.spec_owned()
            },
    {
        match Ident::owned(ident) {
            Ok(i) => Ok(self.ident(i)),
            Err(e) => Err(e),
        }
    }

    /// Sets the program name.
    pub fn ident(self, ident: Ident) -> (r: Self)
        ensures
            r == (SyslogBuilder { ident: Some(ident), ..self }),
    {
        SyslogBuilder { ident: Some(ident), ..self }
    }

    /// Includes the process ID in log messages.
    pub fn log_pid(self) -> (r: Self)
        ensures
            r == (SyslogBuilder { option: self.option | LOG_PID, ..self }),
    {
        let option = self.option | LOG_PID;
        SyslogBuilder { option, ..self }
    }

    /// Opens the connection at once rather than with the first message; this
    /// clears `LOG_ODELAY`.
    pub fn log_ndelay(self) -> (r: Self)
        ensures
            r == (SyslogBuilder { option: (self.option & !LOG_ODELAY) | LOG_NDELAY, ..self }),
            r.option & LOG_NDELAY == LOG_NDELAY,
            r.option & LOG_ODELAY == 0,
    {
        let old_option = self.option;
        let option = (old_option & !LOG_ODELAY) | LOG_NDELAY;
        assert(option & 0x08 == 0x08 && option & 0x04 == 0) by (bit_vector)
            requires
                option == (old_option & !0x04i32) | 0x08i32,
        ;
        SyslogBuilder { option, ..self }
    }

    /// Opens the connection with the first message rather than at once; this
    /// clears `LOG_NDELAY`.
    pub fn log_odelay(self) -> (r: Self)
        ensures
            r == (SyslogBuilder { option: (self.option & !LOG_NDELAY) | LOG_ODELAY, ..self }),
            r.option & LOG_ODELAY == LOG_ODELAY,
            r.option & LOG_NDELAY == 0,
    {
        let old_option = self.option;
        let option = (old_option & !LOG_NDELAY) | LOG_ODELAY;
        assert(option & 0x04 == 0x04 && option & 0x08 == 0) by (bit_vector)
            requires
                option == (old_option & !0x08i32) | 0x04i32,
        ;
        SyslogBuilder { option, ..self }
    }

    /// Does not wait for child processes that send messages.
    pub fn log_nowait(self) -> (r: Self)
        ensures
            r == (SyslogBuilder { option: self.option | LOG_NOWAIT, ..self }),
    {
        let option = self.option | LOG_NOWAIT;
        SyslogBuilder { option, ..self }
    }

    /// Also writes each message to standard error.
    pub fn log_perror(self) -> (r: Self)
        ensures
            r == (SyslogBuilder { option: self.option | LOG_PERROR, ..self }),
    {
        let option = self.option | LOG_PERROR;
        SyslogBuilder { option, ..self }
    }

    /// Replaces the adapter.
    pub fn adapter<A2: Adapter>(self, adapter: A2) -> (r: SyslogBuilder<A2>)
        ensures
            r.adapter == adapter,
            r.facility == self.facility,
            r.ident == self.ident,
            r.option == self.option,
            r.filter == self.filter,
    {
        SyslogBuilder {
            adapter,
            facility: self.facility,
            ident: self.ident,
            option: self.option,
            filter: self.filter,
        }
    }

    /// Replaces the adapter with what `f` makes of it.
    pub fn map_adapter<A2: Adapter, F: FnOnce(A) -> A2>(self, f: F) -> (r: SyslogBuilder<A2>)
        requires
            f.requires((self.adapter,)),
        ensures
            f.ensures((self.adapter,), r.adapter),
            r.facility == self.facility,
            r.ident == self.ident,
            r.option == self.option,
            r.filter == self.filter,
    {
        SyslogBuilder {
            adapter: f(self.adapter),
            facility: self.facility,
            ident: self.ident,
            option: self.option,
            filter: self.filter,
        }
    }

    /// Formats events with a function, keeping the adapter's priorities.
    pub fn format<F: Fn(&Record, &KvList) -> Result<String, FormatError>>(self, fmt_fn: F) -> (r:
        SyslogBuilder<WithFormat<A, F>>)
        requires
            forall|record: &Record, values: &KvList| fmt_fn.requires((record, values)),
        ensures
            r.adapter.spec_inner() == self.adapter,
            r.adapter.spec_fmt_fn() == fmt_fn,
            r.facility == self.facility,
            r.ident == self.ident,
            r.option == self.option,
            r.filter == self.filter,
    {
        SyslogBuilder {
            adapter: self.adapter.with_fmt(fmt_fn),
            facility: self.facility,
            ident: self.ident,
            option: self.option,
            filter: self.filter,
        }
    }

    /// Chooses priorities with a function, keeping the adapter's formatting.
    pub fn priority<P: Fn(&Record, &KvList) -> Priority>(self, priority_fn: P) -> (r: SyslogBuilder<
        WithPriority<A, P>,
    >)
        requires
            forall|record: &Record, values: &KvList| priority_fn.requires((record, values)),
        ensures
            r.adapter.spec_inner() == self.adapter,
            r.adapter.spec_priority_fn() == priority_fn,
            r.facility == self.facility,
            r.ident == self.ident,
            r.option == self.option,
            r.filter == self.filter,
    {
        SyslogBuilder {
            adapter: self.adapter.with_priority(priority_fn),
            facility: self.facility,
            ident: self.ident,
            option: self.option,
            filter: self.filter,
        }
    }

    /// Builds the drain from the settings.
    pub fn build(self) -> (r: SyslogDrain<A>)
        ensures
            r.spec_ident() == self.ident,
            r.spec_adapter() == self.adapter,
            r.spec_facility() == self.facility,
            r.spec_option() == self.option,
            r.spec_filter() == self.filter,
    {
        SyslogDrain::from_parts(self.ident, self.adapter, self.facility, self.option, self.filter)
    }
}

} // verus!
