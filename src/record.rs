//! The log events that are formatted and sent: a severity, a message, and
//! ordered key-value attributes.

use vstd::prelude::*;
use crate::level::Severity;
use vstd::string::StringExecFns;

verus! {

/// One attribute of an event, its value already rendered as text.
pub struct KeyValue {
    /// The attribute's key.
    pub key: String,
    /// The attribute's value, as text.
    pub value: String,
}

impl KeyValue {
    /// Creates an attribute.
    pub fn new(key: &str, value: &str) -> (r: KeyValue)
        ensures
            r.key@ == key@,
            r.value@ == value@,
    {
        KeyValue { key: String::from_str(key), value: String::from_str(value) }
    }
}

/// One log event: its severity, its message, and its own attributes in the
/// order in which they were given.
pub struct Record {
    /// The severity of the event.
    pub level: Severity,
    /// The message text.
    pub msg: String,
    /// The event's own attributes.
    pub kv: Vec<KeyValue>,
}

impl Record {
    /// Creates an event.
    pub fn new(level: Severity, msg: &str, kv: Vec<KeyValue>) -> (r: Record)
        ensures
            r.level == level,
            r.msg@ == msg@,
            r.kv@ == kv@,
    {
        Record { level, msg: String::from_str(msg), kv }
    }

    /// The severity of the event.
    pub fn level(&self) -> (r: Severity)
        ensures
            r == self.level,
    {
        self.level
    }

    /// The message text.
    pub fn msg(&self) -> (r: &str)
        ensures
            r@ == self.msg@,
    {
        self.msg.as_str()
    }
}

/// The attributes of the scopes that an event was logged in, outermost first.
pub struct KvList {
    /// The attributes, in order.
    pub pairs: Vec<KeyValue>,
}

impl KvList {
    /// Creates a list of scope attributes.
    pub fn new(pairs: Vec<KeyValue>) -> (r: KvList)
        ensures
            r.pairs@ == pairs@,
    {
        KvList { pairs }
    }

    /// An empty list.
    pub fn empty() -> (r: KvList)
        ensures
            r.pairs@.len() == 0,
    {
        KvList { pairs: Vec::new() }
    }
}

/// All attributes of an event: the scope attributes first, then the event's
/// own.
pub open spec fn attributes(record: &Record, values: &KvList) -> Seq<KeyValue> {
    values.pairs@ + record.kv@
}

} // verus!
