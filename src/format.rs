//! Ways to format a log event and its attributes into one line of text.

use vstd::prelude::*;
use crate::escape::{escape, write_escaped};
use crate::record::{attributes, KeyValue, KvList, Record};
use crate::text::push_char;
use vstd::string::StringExecFns;

verus! {

/// Why formatting an event failed.
#[derive(Clone, Debug, PartialEq, Eq)]
pub enum FormatError {
    /// Writing the output failed, with the given description.
    Io(String),
    /// A value could not be formatted.
    Fmt,
    /// The source of the attributes, or a custom format, rejected the event.
    Other,
}

impl FormatError {
    /// The message that describes the error.
    pub open spec fn spec_message(&self) -> Seq<char> {
        match self {
            FormatError::Io(description) => description@,
            FormatError::Fmt => "an error occurred when formatting an argument"@,
            FormatError::Other => "Other serialization error"@,
        }
    }

    /// The message that describes the error.
    pub fn to_string(&self) -> (r: String)
        ensures
            r@ == self.spec_message(),
    {
        match self {
            FormatError::Io(description) => description.clone(),
            FormatError::Fmt => String::from_str("an error occurred when formatting an argument"),
            FormatError::Other => String::from_str("Other serialization error"),
        }
    }
}

/// One attribute as written: `key="escaped value"`.
pub open spec fn kv_text(kv: KeyValue) -> Seq<char> {
    kv.key@ + seq!['=', '"'] + escape(kv.value@) + seq!['"']
}

/// The attributes as written after the message: ` [` before the first, a
/// space before each other one.
pub open spec fn attrs_text(attrs: Seq<KeyValue>) -> Seq<char>
    decreases attrs.len(),
{
    if attrs.len() == 0 {
        Seq::empty()
    } else {
        attrs_text(attrs.drop_last()) + (if attrs.len() == 1 {
            seq![' ', '[']
        } else {
            seq![' ']
        }) + kv_text(attrs.last())
    }
}

/// The structured form of an event: the message alone when there are no
/// attributes, else `msg [k1="v1" k2="v2" ...]`.
pub open spec fn default_text(msg: Seq<char>, attrs: Seq<KeyValue>) -> Seq<char> {
    if attrs.len() == 0 {
        msg
    } else {
        msg + attrs_text(attrs) + seq![']']
    }
}

/// The attributes as `k1="v1" k2="v2" ...`, one space between each two.
pub open spec fn joined(attrs: Seq<KeyValue>) -> Seq<char>
    decreases attrs.len(),
{
    if attrs.len() == 0 {
        Seq::empty()
    } else if attrs.len() == 1 {
        kv_text(attrs[0])
    } else {
        joined(attrs.drop_last()) + seq![' '] + kv_text(attrs.last())
    }
}

proof fn lemma_attrs_text_joined(attrs: Seq<KeyValue>)
    requires
        attrs.len() > 0,
    ensures
        attrs_text(attrs) == seq![' ', '['] + joined(attrs),
    decreases attrs.len(),
{
    if attrs.len() == 1 {
        assert(attrs.drop_last().len() == 0);
        assert(attrs_text(attrs.drop_last()) == Seq::<char>::empty());
        assert(attrs.last() == attrs[0]);
        assert(attrs_text(attrs) =~= seq![' ', '['] + joined(attrs));
    } else {
        lemma_attrs_text_joined(attrs.drop_last());
        assert(attrs_text(attrs) =~= seq![' ', '['] + joined(attrs));
    }
}

/// The structured form of an event is exactly its message when there are no
/// attributes, and otherwise `msg [k1="esc(v1)" k2="esc(v2)" ...]`, the
/// attributes in the order given.
pub proof fn lemma_default_text_shape(msg: Seq<char>, attrs: Seq<KeyValue>)
    ensures
        attrs.len() == 0 ==> default_text(msg, attrs) == msg,
        attrs.len() > 0 ==> default_text(msg, attrs) == msg + seq![' ', '['] + joined(attrs) + seq![']'],
{
    if attrs.len() > 0 {
        lemma_attrs_text_joined(attrs);
        assert(default_text(msg, attrs) =~= msg + seq![' ', '['] + joined(attrs) + seq![']']);
    }
}

/// The result of formatting, with the written text as a sequence.
pub open spec fn outcome_of(r: Result<String, FormatError>) -> Result<Seq<char>, FormatError> {
    match r {
        Ok(s) => Ok(s@),
        Err(e) => Err(e),
    }
}

/// Appends one attribute, preceded by ` [` if it is the first one and by a
/// space otherwise.
fn write_pair(out: &mut String, kv: &KeyValue, first: bool)
    ensures
        final(out)@ == old(out)@ + (if first {
            seq![' ', '[']
        } else {
            seq![' ']
        }) + kv_text(*kv),
{
    push_char(out, ' ');
    if first {
        push_char(out, '[');
    }
    out.append(kv.key.as_str());
    push_char(out, '=');
    push_char(out, '"');
    write_escaped(out, kv.value.as_str());
    push_char(out, '"');
    assert(final(out)@ =~= old(out)@ + (if first {
        seq![' ', '[']
    } else {
        seq![' ']
    }) + kv_text(*kv));
}

/// Appends the message alone.
pub fn write_basic(out: &mut String, record: &Record)
    ensures
        final(out)@ == old(out)@ + record.msg@,
{
    out.append(record.msg.as_str());
}

/// Appends the structured form of the event: the message, then the scope
/// attributes and the event's own attributes in brackets.
pub fn write_default(out: &mut String, record: &Record, values: &KvList)
    ensures
        final(out)@ == old(out)@ + default_text(record.msg@, attributes(record, values)),
{
    let ghost start = out@;
    let ghost all = attributes(record, values);
    out.append(record.msg.as_str());
    let n = values.pairs.len();
    let mut i: usize = 0;
    while i < n
        invariant
            n == values.pairs@.len(),
            i <= n,
            all == values.pairs@ + record.kv@,
            out@ == start + record.msg@ + attrs_text(all.take(i as int)),
        decreases n - i,
    {
        write_pair(out, &values.pairs[i], i == 0);
        assert(all.take(i + 1).drop_last() =~= all.take(i as int));
        i = i + 1;
    }
    let m = record.kv.len();
    let mut j: usize = 0;
    while j < m
        invariant
            n == values.pairs@.len(),
            m == record.kv@.len(),
            j <= m,
            all == values.pairs@ + record.kv@,
            out@ == start + record.msg@ + attrs_text(all.take(n + j)),
        decreases m - j,
    {
        write_pair(out, &record.kv[j], n == 0 && j == 0);
        assert(all.take(n + j + 1).drop_last() =~= all.take(n + j));
        j = j + 1;
    }
    assert(all.take(n + m) =~= all);
    if n > 0 || m > 0 {
        push_char(out, ']');
    }
    assert(final(out)@ =~= start + default_text(record.msg@, all));
}

/// A way to format a log event and its attributes into text.
pub trait MsgFormat: Sized {
    /// Whether `r` is a possible result of formatting `record` with the scope
    /// attributes `values`: the text written, or the error.
    spec fn outcome(&self, record: &Record, values: &KvList, r: Result<Seq<char>, FormatError>) -> bool;

    /// Formats `record` and its attributes, appending the text to `out`.
    fn fmt(&self, out: &mut String, record: &Record, values: &KvList) -> (r: Result<(), FormatError>)
        ensures
            r is Ok ==> final(out)@ == old(out)@ + final(out)@.skip(old(out)@.len() as int)
                && self.outcome(record, values, Ok(final(out)@.skip(old(out)@.len() as int))),
            r matches Err(e) ==> self.outcome(record, values, Err(e)),
    ;
}

impl<'a, T: MsgFormat> MsgFormat for &'a T {
    open spec fn outcome(&self, record: &Record, values: &KvList, r: Result<Seq<char>, FormatError>) -> bool {
        (**self).outcome(record, values, r)
    }

    fn fmt(&self, out: &mut String, record: &Record, values: &KvList) -> (r: Result<(), FormatError>) {
        (**self).fmt(out, record, values)
    }
}

impl<T: MsgFormat> MsgFormat for Box<T> {
    open spec fn outcome(&self, record: &Record, values: &KvList, r: Result<Seq<char>, FormatError>) -> bool {
        (**self).outcome(record, values, r)
    }

    fn fmt(&self, out: &mut String, record: &Record, values: &KvList) -> (r: Result<(), FormatError>) {
        (**self).fmt(out, record, values)
    }
}

impl<T: MsgFormat> MsgFormat for std::rc::Rc<T> {
    open spec fn outcome(&self, record: &Record, values: &KvList, r: Result<Seq<char>, FormatError>) -> bool {
        (**self).outcome(record, values, r)
    }

    fn fmt(&self, out: &mut String, record: &Record, values: &KvList) -> (r: Result<(), FormatError>) {
        (**self).fmt(out, record, values)
    }
}

impl<T: MsgFormat> MsgFormat for std::sync::Arc<T> {
    open spec fn outcome(&self, record: &Record, values: &KvList, r: Result<Seq<char>, FormatError>) -> bool {
        (**self).outcome(record, values, r)
    }

    fn fmt(&self, out: &mut String, record: &Record, values: &KvList) -> (r: Result<(), FormatError>) {
        (**self).fmt(out, record, values)
    }
}

/// Formats an event into `writer` with the given format.
pub fn format<F: MsgFormat>(msg_format: F, writer: &mut String, record: &Record, values: &KvList) -> (r: Result<(), FormatError>)
    ensures
        r is Ok ==> final(writer)@ == old(writer)@ + final(writer)@.skip(old(writer)@.len() as int)
            && msg_format.outcome(record, values, Ok(final(writer)@.skip(old(writer)@.len() as int))),
        r matches Err(e) ==> msg_format.outcome(record, values, Err(e)),
{
    msg_format.fmt(writer, record, values)
}

/// A format that writes the message alone and leaves out the attributes.
#[derive(Clone, Copy, Debug, Default)]
pub struct BasicMsgFormat;

impl MsgFormat for BasicMsgFormat {
    open spec fn outcome(&self, record: &Record, values: &KvList, r: Result<Seq<char>, FormatError>) -> bool {
        r == Ok::<Seq<char>, FormatError>(record.msg@)
    }

    fn fmt(&self, out: &mut String, record: &Record, values: &KvList) -> (r: Result<(), FormatError>) {
        let ghost before = out@;
        write_basic(out, record);
        assert(out@.skip(before.len() as int) =~= record.msg@);
        Ok(())
    }
}

/// A format that writes the message, then all attributes as
/// `[key="value" ...]`, the values escaped.
#[derive(Clone, Copy, Debug, Default)]
pub struct DefaultMsgFormat;

impl MsgFormat for DefaultMsgFormat {
    open spec fn outcome(&self, record: &Record, values: &KvList, r: Result<Seq<char>, FormatError>) -> bool {
        r == Ok::<Seq<char>, FormatError>(default_text(record.msg@, attributes(record, values)))
    }

    fn fmt(&self, out: &mut String, record: &Record, values: &KvList) -> (r: Result<(), FormatError>) {
        let ghost before = out@;
        write_default(out, record, values);
        assert(out@.skip(before.len() as int) =~= default_text(record.msg@, attributes(record, values)));
        Ok(())
    }
}

/// A format that calls a function to produce the text.
pub struct CustomMsgFormat<T: Fn(&Record, &KvList) -> Result<String, FormatError>>(T);

impl<T: Fn(&Record, &KvList) -> Result<String, FormatError>> CustomMsgFormat<T> {
    #[verifier::type_invariant]
    spec fn callable(self) -> bool {
        forall|record: &Record, values: &KvList| self.0.requires((record, values))
    }

    /// The formatting function.
    pub closed spec fn func(self) -> T {
        self.0
    }

    /// Wraps a formatting function that accepts every event.
    pub fn new(f: T) -> (r: CustomMsgFormat<T>)
        requires
            forall|record: &Record, values: &KvList| f.requires((record, values)),
        ensures
            r.func() == f,
    {
        CustomMsgFormat(f)
    }
}

impl<T: Fn(&Record, &KvList) -> Result<String, FormatError>> MsgFormat for CustomMsgFormat<T> {
    /// What the function may return for the event.
    open spec fn outcome(&self, record: &Record, values: &KvList, r: Result<Seq<char>, FormatError>) -> bool {
        exists|x: Result<String, FormatError>| self.func().ensures((record, values), x) && r == outcome_of(x)
    }

    fn fmt(&self, out: &mut String, record: &Record, values: &KvList) -> (r: Result<(), FormatError>) {
        proof {
            use_type_invariant(self);
        }
        let ghost before = out@;
        let x = (self.0)(record, values);
        match x {
            Ok(s) => {
                out.append(s.as_str());
                assert(out@.skip(before.len() as int) =~= s@);
                assert(outcome_of(x) == Ok::<Seq<char>, FormatError>(s@));
                Ok(())
            },
            Err(e) => {
                assert(outcome_of(x) == Err::<Seq<char>, FormatError>(e));
                Err(e)
            },
        }
    }
}

} // verus!
