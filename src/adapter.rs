//! Adapters: how an event becomes the text and the priority of a syslog
//! message.

use vstd::prelude::*;
use crate::format::{default_text, outcome_of, write_basic, write_default, FormatError};
use crate::level::Level;
use crate::priority::{Priority, PriorityKind};
use crate::record::{attributes, KvList, Record};
use vstd::string::StringExecFns;

verus! {

/// The priority that an event gets by default: the level that its severity
/// maps to, and no facility.
pub open spec fn default_priority(record: &Record) -> Priority {
    Priority(PriorityKind::Normal(Level::spec_from_slog(record.level), None))
}

/// Computes the default priority of an event.
pub fn default_priority_of(record: &Record) -> (r: Priority)
    ensures
        r == default_priority(record),
{
    Priority::from(Level::from_slog(record.level()))
}

/// Formats events into text and chooses their syslog priorities.
pub trait Adapter: Sized {
    /// Whether `r` is a possible result of formatting `record` with the scope
    /// attributes `values`: the text written, or the error.
    spec fn outcome(&self, record: &Record, values: &KvList, r: Result<Seq<char>, FormatError>) -> bool;

    /// Whether `p` is a possible priority for `record`.
    spec fn priority_of(&self, record: &Record, values: &KvList, p: Priority) -> bool;

    /// Formats `record` and its attributes, appending the text to `out`.
    fn fmt(&self, out: &mut String, record: &Record, values: &KvList) -> (r: Result<(), FormatError>)
        ensures
            r is Ok ==> final(out)@ == old(out)@ + final(out)@.skip(old(out)@.len() as int)
                && self.outcome(record, values, Ok(final(out)@.skip(old(out)@.len() as int))),
            r matches Err(e) ==> self.outcome(record, values, Err(e)),
    ;

    /// Chooses the priority of `record`.
    fn priority(&self, record: &Record, values: &KvList) -> (p: Priority)
        ensures
            self.priority_of(record, values, p),
    ;

    /// Replaces the formatting with a function, keeping this adapter's
    /// priorities.
    fn with_fmt<F: Fn(&Record, &KvList) -> Result<String, FormatError>>(self, fmt_fn: F) -> (r:
        WithFormat<Self, F>)
        requires
            forall|record: &Record, values: &KvList| fmt_fn.requires((record, values)),
        ensures
            r.spec_inner() == self,
            r.spec_fmt_fn() == fmt_fn,
    {
        WithFormat { fmt_fn, inner: self }
    }

    /// Replaces the choice of priorities with a function, keeping this
    /// adapter's formatting.
    fn with_priority<P: Fn(&Record, &KvList) -> Priority>(self, priority_fn: P) -> (r:
        WithPriority<Self, P>)
        requires
            forall|record: &Record, values: &KvList| priority_fn.requires((record, values)),
        ensures
            r.spec_inner() == self,
            r.spec_priority_fn() == priority_fn,
    {
        WithPriority { inner: self, priority_fn }
    }
}

impl<'a, T: Adapter> Adapter for &'a T {
    open spec fn outcome(&self, record: &Record, values: &KvList, r: Result<Seq<char>, FormatError>) -> bool {
        (**self).outcome(record, values, r)
    }

    open spec fn priority_of(&self, record: &Record, values: &KvList, p: Priority) -> bool {
        (**self).priority_of(record, values, p)
    }

    fn fmt(&self, out: &mut String, record: &Record, values: &KvList) -> (r: Result<(), FormatError>) {
        (**self).fmt(out, record, values)
    }

    fn priority(&self, record: &Record, values: &KvList) -> (p: Priority) {
        (**self).priority(record, values)
    }
}

impl<T: Adapter> Adapter for Box<T> {
    open spec fn outcome(&self, record: &Record, values: &KvList, r: Result<Seq<char>, FormatError>) -> bool {
        (**self).outcome(record, values, r)
    }

    open spec fn priority_of(&self, record: &Record, values: &KvList, p: Priority) -> bool {
        (**self).priority_of(record, values, p)
    }

    fn fmt(&self, out: &mut String, record: &Record, values: &KvList) -> (r: Result<(), FormatError>) {
        (**self).fmt(out, record, values)
    }

    fn priority(&self, record: &Record, values: &KvList) -> (p: Priority) {
        (**self).priority(record, values)
    }
}

impl<T: Adapter> Adapter for std::rc::Rc<T> {
    open spec fn outcome(&self, record: &Record, values: &KvList, r: Result<Seq<char>, FormatError>) -> bool {
        (**self).outcome(record, values, r)
    }

    open spec fn priority_of(&self, record: &Record, values: &KvList, p: Priority) -> bool {
        (**self).priority_of(record, values, p)
    }

    fn fmt(&self, out: &mut String, record: &Record, values: &KvList) -> (r: Result<(), FormatError>) {
        (**self).fmt(out, record, values)
    }

    fn priority(&self, record: &Record, values: &KvList) -> (p: Priority) {
        (**self).priority(record, values)
    }
}

impl<T: Adapter> Adapter for std::sync::Arc<T> {
    open spec fn outcome(&self, record: &Record, values: &KvList, r: Result<Seq<char>, FormatError>) -> bool {
        (**self).outcome(record, values, r)
    }

    open spec fn priority_of(&self, record: &Record, values: &KvList, p: Priority) -> bool {
        (**self).priority_of(record, values, p)
    }

    fn fmt(&self, out: &mut String, record: &Record, values: &KvList) -> (r: Result<(), FormatError>) {
        (**self).fmt(out, record, values)
    }

    fn priority(&self, record: &Record, values: &KvList) -> (p: Priority) {
        (**self).priority(record, values)
    }
}

/// Formats an event into `writer` with the given adapter.
pub fn format<A: Adapter>(adapter: A, writer: &mut String, record: &Record, values: &KvList) -> (r:
    Result<(), FormatError>)
    ensures
        r is Ok ==> final(writer)@ == old(writer)@ + final(writer)@.skip(old(writer)@.len() as int)
            && adapter.outcome(record, values, Ok(final(writer)@.skip(old(writer)@.len() as int))),
        r matches Err(e) ==> adapter.outcome(record, values, Err(e)),
{
    adapter.fmt(writer, record, values)
}

/// An adapter that writes the message alone, and gives the default priority.
#[derive(Clone, Copy, Debug, Default)]
pub struct BasicAdapter;

impl Adapter for BasicAdapter {
    open spec fn outcome(&self, record: &Record, values: &KvList, r: Result<Seq<char>, FormatError>) -> bool {
        r == Ok::<Seq<char>, FormatError>(record.msg@)
    }

    open spec fn priority_of(&self, record: &Record, values: &KvList, p: Priority) -> bool {
        p == default_priority(record)
    }

    fn fmt(&self, out: &mut String, record: &Record, values: &KvList) -> (r: Result<(), FormatError>) {
        let ghost before = out@;
        write_basic(out, record);
        assert(out@.skip(before.len() as int) =~= record.msg@);
        Ok(())
    }

    fn priority(&self, record: &Record, values: &KvList) -> (p: Priority) {
        default_priority_of(record)
    }
}

/// An adapter that writes the message and all attributes as
/// `[key="value" ...]`, and gives the default priority.
#[derive(Clone, Copy, Debug, Default)]
pub struct DefaultAdapter;

impl Adapter for DefaultAdapter {
    open spec fn outcome(&self, record: &Record, values: &KvList, r: Result<Seq<char>, FormatError>) -> bool {
        r == Ok::<Seq<char>, FormatError>(default_text(record.msg@, attributes(record, values)))
    }

    open spec fn priority_of(&self, record: &Record, values: &KvList, p: Priority) -> bool {
        p == default_priority(record)
    }

    fn fmt(&self, out: &mut String, record: &Record, values: &KvList) -> (r: Result<(), FormatError>) {
        let ghost before = out@;
        write_default(out, record, values);
        assert(out@.skip(before.len() as int) =~= default_text(record.msg@, attributes(record, values)));
        Ok(())
    }

    fn priority(&self, record: &Record, values: &KvList) -> (p: Priority) {
        default_priority_of(record)
    }
}

/// An adapter that formats with a function and takes its priorities from
/// another adapter.
pub struct WithFormat<A, F> where F: Fn(&Record, &KvList) -> Result<String, FormatError> {
    fmt_fn: F,
    inner: A,
}

impl<A, F> WithFormat<A, F> where F: Fn(&Record, &KvList) -> Result<String, FormatError> {
    #[verifier::type_invariant]
    spec fn callable(self) -> bool {
        forall|record: &Record, values: &KvList| self.fmt_fn.requires((record, values))
    }

    /// The formatting function.
    pub closed spec fn spec_fmt_fn(self) -> F {
        self.fmt_fn
    }

    /// The adapter that gives the priorities.
    pub closed spec fn spec_inner(self) -> A {
        self.inner
    }
}

impl<A: Adapter, F> Adapter for WithFormat<A, F> where
    F: Fn(&Record, &KvList) -> Result<String, FormatError>,
 {
    open spec fn outcome(&self, record: &Record, values: &KvList, r: Result<Seq<char>, FormatError>) -> bool {
        exists|x: Result<String, FormatError>|
            self.spec_fmt_fn().ensures((record, values), x) && r == outcome_of(x)
    }

    open spec fn priority_of(&self, record: &Record, values: &KvList, p: Priority) -> bool {
        self.spec_inner().priority_of(record, values, p)
    }

    fn fmt(&self, out: &mut String, record: &Record, values: &KvList) -> (r: Result<(), FormatError>) {
        proof {
            use_type_invariant(self);
        }
        let ghost before = out@;
        let x = (self.fmt_fn)(record, values);
        match x {
            Ok(s) => {
                out.append(s.as_str());
                assert(out@.skip(before.len() as int) =~= s@);
                assert(outcome_of(x) == Ok::<Seq<char>, FormatError>(s@));
                Ok(())
            },
            Err(e) => {
                assert(outcome_of(x) == Err::<Seq<char>, FormatError>(e));
                Err(e)
            },
        }
    }

    fn priority(&self, record: &Record, values: &KvList) -> (p: Priority) {
        self.inner.priority(record, values)
    }
}

/// An adapter that takes its priorities from a function and formats with
/// another adapter.
pub struct WithPriority<A, P> where P: Fn(&Record, &KvList) -> Priority {
    inner: A,
    priority_fn: P,
}

impl<A, P> WithPriority<A, P> where P: Fn(&Record, &KvList) -> Priority {
    #[verifier::type_invariant]
    spec fn callable(self) -> bool {
        forall|record: &Record, values: &KvList| self.priority_fn.requires((record, values))
    }

    /// The function that gives the priorities.
    pub closed spec fn spec_priority_fn(self) -> P {
        self.priority_fn
    }

    /// The adapter that formats.
    pub closed spec fn spec_inner(self) -> A {
        self.inner
    }
}

impl<A: Adapter, P> Adapter for WithPriority<A, P> where P: Fn(&Record, &KvList) -> Priority {
    open spec fn outcome(&self, record: &Record, values: &KvList, r: Result<Seq<char>, FormatError>) -> bool {
        self.spec_inner().outcome(record, values, r)
    }

    open spec fn priority_of(&self, record: &Record, values: &KvList, p: Priority) -> bool {
        self.spec_priority_fn().ensures((record, values), p)
    }

    fn fmt(&self, out: &mut String, record: &Record, values: &KvList) -> (r: Result<(), FormatError>) {
        self.inner.fmt(out, record, values)
    }

    fn priority(&self, record: &Record, values: &KvList) -> (p: Priority) {
        proof {
            use_type_invariant(self);
        }
        (self.priority_fn)(record, values)
    }
}

} // verus!
