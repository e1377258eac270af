//! The drain: what one event becomes when it is sent to syslog.

use vstd::prelude::*;
use crate::adapter::{Adapter, DefaultAdapter};
use crate::builder::SyslogBuilder;
use crate::facility::Facility;
use crate::format::FormatError;
use crate::ident::Ident;
use crate::level::{Level, Severity};
use crate::priority::{Priority, PriorityKind};
use crate::record::{KvList, Record};
use crate::text::{strip_nul, without_nul};

verus! {

/// How the text of a submission is introduced.
#[derive(Clone, Copy, Debug, PartialEq, Eq, Structural)]
pub enum SubmissionKind {
    /// The text is the message.
    Message,
    /// The text describes why the previous message could not be fully
    /// formatted.
    FormatFailure,
}

/// One message to hand to the system `syslog` function. Its text holds no NUL
/// character.
#[derive(Debug)]
pub struct Submission {
    /// The numeric priority.
    pub priority: i32,
    /// How the text is introduced.
    pub kind: SubmissionKind,
    /// The text.
    pub text: String,
}

/// Whether `s` is the submission of `text` (with NUL characters removed) at
/// `priority`.
pub open spec fn submits(s: Submission, priority: i32, kind: SubmissionKind, text: Seq<char>) -> bool {
    &&& s.priority == priority
    &&& s.kind == kind
    &&& s.text@ == without_nul(text)
}

/// The submissions for one event that passed the filter: the formatted text
/// when formatting succeeded; otherwise the bare message, then a description
/// of the error at `error_priority`.
pub open spec fn planned(
    r: Seq<Submission>,
    priority: i32,
    error_priority: i32,
    msg: Seq<char>,
    outcome: Result<Seq<char>, FormatError>,
) -> bool {
    match outcome {
        Ok(text) => r.len() == 1 && submits(r[0], priority, SubmissionKind::Message, text),
        Err(e) => {
            &&& r.len() == 2
            &&& submits(r[0], priority, SubmissionKind::Message, msg)
            &&& submits(r[1], error_priority, SubmissionKind::FormatFailure, e.spec_message())
        },
    }
}

/// A drain that sends events to the local syslog.
///
/// Opening and closing the process-wide handle is recorded with
/// `ConnectionLifecycle` by the code that performs the system calls.
#[derive(Debug)]
pub struct SyslogDrain<A: Adapter> {
    ident: Option<Ident>,
    adapter: A,
    facility: Facility,
    option: i32,
    filter: Option<Severity>,
}

impl SyslogDrain<DefaultAdapter> {
    /// Creates a drain with the default settings, as
    /// `SyslogBuilder::new().build()` does.
    pub fn new() -> (r: SyslogDrain<DefaultAdapter>)
        ensures
            r.spec_ident() is None,
            r.spec_facility() == Facility::User,
            r.spec_option() == 0,
            r.spec_filter() is None,
    {
        SyslogBuilder::new().build()
    }

    /// Creates a builder with the default settings.
    pub fn builder() -> (r: SyslogBuilder<DefaultAdapter>)
        ensures
            r.facility == Facility::User,
            r.ident is None,
            r.option == 0,
            r.filter is None,
    {
        SyslogBuilder::new()
    }
}

impl<A: Adapter> SyslogDrain<A> {
    /// The program name that the drain opens the handle with.
    pub closed spec fn spec_ident(&self) -> Option<Ident> {
        self.ident
    }

    /// The adapter that formats events and chooses their priorities.
    pub closed spec fn spec_adapter(&self) -> A {
        self.adapter
    }

    /// The facility of events whose priority has none.
    pub closed spec fn spec_facility(&self) -> Facility {
        self.facility
    }

    /// The option flags for opening the handle.
    pub closed spec fn spec_option(&self) -> i32 {
        self.option
    }

    /// The least severe events that are sent; `None` sends all.
    pub closed spec fn spec_filter(&self) -> Option<Severity> {
        self.filter
    }

    /// Whether an event of this severity is sent.
    pub open spec fn accepts(&self, level: Severity) -> bool {
        match self.spec_filter() {
            None => true,
            Some(threshold) => level.rank() <= threshold.rank(),
        }
    }

    /// The priority `p` with the drain's facility filled in when it has none.
    pub open spec fn resolved(&self, p: Priority, level: Severity) -> i32 {
        p.spec_overlay(
            Priority(PriorityKind::Normal(Level::spec_from_slog(level), Some(self.spec_facility()))),
        ).spec_raw()
    }

    /// Creates a drain from its parts.
    pub(crate) fn from_parts(
        ident: Option<Ident>,
        adapter: A,
        facility: Facility,
        option: i32,
        filter: Option<Severity>,
    ) -> (r: SyslogDrain<A>)
        ensures
            r.spec_ident() == ident,
            r.spec_adapter() == adapter,
            r.spec_facility() == facility,
            r.spec_option() == option,
            r.spec_filter() == filter,
    {
        SyslogDrain { ident, adapter, facility, option, filter }
    }

    /// The program name that the drain opens the handle with.
    pub fn ident(&self) -> (r: &Option<Ident>)
        ensures
            *r == self.spec_ident(),
    {
        &self.ident
    }

    /// The facility of events whose priority has none.
    pub fn facility(&self) -> (r: Facility)
        ensures
            r == self.spec_facility(),
    {
        self.facility
    }

    /// The option flags for opening the handle.
    pub fn option(&self) -> (r: i32)
        ensures
            r == self.spec_option(),
    {
        self.option
    }

    /// The adapter.
    pub fn adapter(&self) -> (r: &A)
        ensures
            *r == self.spec_adapter(),
    {
        &self.adapter
    }

    /// Decides what one event becomes.
    ///
    /// An event less severe than the filter becomes nothing, and is not
    /// formatted. Otherwise its priority is chosen by the adapter, with the
    /// drain's facility filled in when it has none, and it is formatted. When
    /// formatting succeeds the result is that text; when it fails, the result
    /// is the bare message and then a description of the error at the bare
    /// level `Error` (no facility), so that the event is never lost. NUL
    /// characters are removed from every text.
    pub fn log(&self, record: &Record, values: &KvList) -> (r: Vec<Submission>)
        ensures
            !self.accepts(record.level) ==> r@.len() == 0,
            self.accepts(record.level) ==> exists|p: Priority, o: Result<Seq<char>, FormatError>|
                {
                    &&& #[trigger] self.spec_adapter().priority_of(record, values, p)
                    &&& #[trigger] self.spec_adapter().outcome(record, values, o)
                    &&& planned(
                        r@,
                        self.resolved(p, record.level),
                        Level::Error.spec_code(),
                        record.msg@,
                        o,
                    )
                },
    {
        if let Some(threshold) = self.filter {
            if !record.level.is_at_least(threshold) {
                return Vec::new();
            }
        }
        let fallback = Priority::new(Level::from_slog(record.level), Some(self.facility));
        let p = self.adapter.priority(record, values);
        let priority = p.overlay(fallback).into_raw();
        let error_priority = i32::from(Level::Error);
        let mut buf = String::new();
        let result = self.adapter.fmt(&mut buf, record, values);
        let mut out: Vec<Submission> = Vec::new();
        let ghost o: Result<Seq<char>, FormatError> = if result is Ok {
            Ok(buf@)
        } else {
            Err(result->Err_0)
        };
        assert(priority == self.resolved(p, record.level));
        match result {
            Ok(()) => {
                assert(buf@.skip(0) =~= buf@);
                let text = strip_nul(buf.as_str());
                out.push(Submission { priority, kind: SubmissionKind::Message, text });
                assert(planned(out@, priority, error_priority, record.msg@, Ok(buf@)));
                assert(self.spec_adapter().outcome(record, values, Ok(buf@)));
            },
            Err(e) => {
                let text = strip_nul(record.msg.as_str());
                out.push(Submission { priority, kind: SubmissionKind::Message, text });
                let description = e.to_string();
                let text = strip_nul(description.as_str());
                out.push(Submission { priority: error_priority, kind: SubmissionKind::FormatFailure, text });
                assert(planned(out@, priority, error_priority, record.msg@, Err(e)));
            },
        }
        assert(self.spec_adapter().priority_of(record, values, p));
        assert(self.spec_adapter().outcome(record, values, o));
        assert(planned(out@, priority, error_priority, record.msg@, o));
        out
    }

    /// Decides what an event becomes whose attributes could not be read (the
    /// source rejected them with `error`): the same as when formatting fails,
    /// the bare message and then a description of the error, unless the
    /// filter drops the event.
    pub fn log_unformattable(&self, record: &Record, values: &KvList, error: FormatError) -> (r: Vec<
        Submission,
    >)
        ensures
            !self.accepts(record.level) ==> r@.len() == 0,
            self.accepts(record.level) ==> exists|p: Priority|
                {
                    &&& #[trigger] self.spec_adapter().priority_of(record, values, p)
                    &&& planned(
                        r@,
                        self.resolved(p, record.level),
                        Level::Error.spec_code(),
                        record.msg@,
                        Err(error),
                    )
                },
    {
        if let Some(threshold) = self.filter {
            if !record.level.is_at_least(threshold) {
                return Vec::new();
            }
        }
        let fallback = Priority::new(Level::from_slog(record.level), Some(self.facility));
        let p = self.adapter.priority(record, values);
        let priority = p.overlay(fallback).into_raw();
        let error_priority = i32::from(Level::Error);
        let mut out: Vec<Submission> = Vec::new();
        let text = strip_nul(record.msg.as_str());
        out.push(Submission { priority, kind: SubmissionKind::Message, text });
        let description = error.to_string();
        let text = strip_nul(description.as_str());
        out.push(Submission { priority: error_priority, kind: SubmissionKind::FormatFailure, text });
        assert(self.spec_adapter().priority_of(record, values, p));
        assert(planned(out@, priority, error_priority, record.msg@, Err(error)));
        out
    }
}

} // verus!
