//! Escaping of attribute values, similar to the PARAM-VALUE rules of
//! RFC 5424: backslash, double quote and closing bracket are each prefixed by
//! a backslash, and every other character is copied unchanged.

use vstd::prelude::*;
use crate::text::push_char;

verus! {

/// Whether the character is escaped in a value.
pub open spec fn is_special(c: char) -> bool {
    c == '\\' || c == '"' || c == ']'
}

/// What one character of a value becomes.
pub open spec fn escape_char(c: char) -> Seq<char> {
    if is_special(c) {
        seq!['\\', c]
    } else {
        seq![c]
    }
}

/// The escaped form of a value.
pub open spec fn escape(s: Seq<char>) -> Seq<char>
    decreases s.len(),
{
    if s.len() == 0 {
        Seq::empty()
    } else {
        escape_char(s[0]) + escape(s.drop_first())
    }
}

/// Reverses the escaping: a backslash and the character after it stand for
/// that character.
pub open spec fn unescape(t: Seq<char>) -> Seq<char>
    decreases t.len(),
{
    if t.len() == 0 {
        Seq::empty()
    } else if t[0] == '\\' && t.len() >= 2 {
        seq![t[1]] + unescape(t.skip(2))
    } else {
        seq![t[0]] + unescape(t.drop_first())
    }
}

/// Escaping distributes over concatenation.
pub proof fn lemma_escape_concat(a: Seq<char>, b: Seq<char>)
    ensures
        escape(a + b) == escape(a) + escape(b),
    decreases a.len(),
{
    if a.len() == 0 {
        assert(a + b =~= b);
    } else {
        assert((a + b).drop_first() =~= a.drop_first() + b);
        lemma_escape_concat(a.drop_first(), b);
        assert(escape(a + b) =~= escape(a) + escape(b));
    }
}

/// Escaping the text with one more character appends that character's
/// escaped form.
pub proof fn lemma_escape_push(s: Seq<char>, c: char)
    ensures
        escape(s.push(c)) == escape(s) + escape_char(c),
{
    lemma_escape_concat(s, seq![c]);
    assert(s.push(c) =~= s + seq![c]);
    let one = seq![c];
    assert(one.drop_first() =~= Seq::<char>::empty());
    assert(escape(one.drop_first()) == Seq::<char>::empty());
    assert(one[0] == c);
    assert(escape(one) =~= escape_char(c));
}

/// Unescaping an escaped value gives the value back.
pub proof fn lemma_unescape_escape(s: Seq<char>)
    ensures
        unescape(escape(s)) == s,
    decreases s.len(),
{
    if s.len() > 0 {
        let rest = escape(s.drop_first());
        lemma_unescape_escape(s.drop_first());
        let t = escape(s);
        if is_special(s[0]) {
            assert(t.skip(2) =~= rest);
        } else {
            assert(t.drop_first() =~= rest);
        }
        assert(unescape(t) =~= s);
    }
}

/// A value with no backslash, double quote or closing bracket is its own
/// escaped form.
pub proof fn lemma_escape_plain(s: Seq<char>)
    requires
        forall|i: int| 0 <= i < s.len() ==> !is_special(#[trigger] s[i]),
    ensures
        escape(s) == s,
    decreases s.len(),
{
    if s.len() > 0 {
        assert(forall|i: int|
            0 <= i < s.drop_first().len() ==> #[trigger] s.drop_first()[i] == s[i + 1]);
        lemma_escape_plain(s.drop_first());
        assert(escape(s) =~= s);
    }
}

/// Appends the escaped form of `s` to `out`.
pub fn write_escaped(out: &mut String, s: &str)
    ensures
        final(out)@ == old(out)@ + escape(s@),
{
    broadcast use vstd::string::group_string_axioms;

    let ghost start = out@;
    for c in it: s.chars()
        invariant
            it.seq() == s@,
            out@ == start + escape(s@.take(it.index() as int)),
    {
        proof {
            let i = it.index() as int;
            assert(s@.take(i + 1) =~= s@.take(i).push(c));
            lemma_escape_push(s@.take(i), c);
        }
        if c == '\\' || c == '"' || c == ']' {
            push_char(out, '\\');
        }
        push_char(out, c);
        proof {
            let i = it.index() as int;
            assert(out@ =~= start + escape(s@.take(i + 1)));
        }
    }
    assert(s@.take(s@.len() as int) =~= s@);
}

/// Copies text to the string it holds, escaping backslash, double quote and
/// closing bracket.
pub struct Rfc5424LikeValueEscaper(pub String);

impl Rfc5424LikeValueEscaper {
    /// Appends the escaped form of `s`. Writing into a string cannot fail.
    pub fn write_str(&mut self, s: &str) -> (r: Result<(), crate::format::FormatError>)
        ensures
            r is Ok,
            final(self).0@ == old(self).0@ + escape(s@),
    {
        write_escaped(&mut self.0, s);
        Ok(())
    }

    /// Appends the escaped form of one character.
    pub fn write_char(&mut self, c: char) -> (r: Result<(), crate::format::FormatError>)
        ensures
            r is Ok,
            final(self).0@ == old(self).0@ + escape_char(c),
    {
        if c == '\\' || c == '"' || c == ']' {
            push_char(&mut self.0, '\\');
        }
        push_char(&mut self.0, c);
        assert(final(self).0@ =~= old(self).0@ + escape_char(c));
        Ok(())
    }
}

} // verus!
