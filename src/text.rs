//! Small verified helpers on strings.

use vstd::prelude::*;
use vstd::string::StrSliceExecFns;

verus! {

/// The character with ASCII uppercase letters mapped to lowercase.
pub open spec fn lower_char(c: char) -> char {
    if 'A' <= c && c <= 'Z' {
        ((c as u32) + 32) as char
    } else {
        c
    }
}

/// The text with every ASCII uppercase letter mapped to lowercase.
pub open spec fn ascii_lower(s: Seq<char>) -> Seq<char> {
    s.map_values(|c: char| lower_char(c))
}

/// The text with every NUL character removed.
pub open spec fn without_nul(s: Seq<char>) -> Seq<char>
    decreases s.len(),
{
    if s.len() == 0 {
        Seq::empty()
    } else if s.last() == '\0' {
        without_nul(s.drop_last())
    } else {
        without_nul(s.drop_last()).push(s.last())
    }
}

/// The text with NUL characters removed holds none.
pub proof fn lemma_without_nul_has_none(s: Seq<char>)
    ensures
        forall|i: int| 0 <= i < without_nul(s).len() ==> #[trigger] without_nul(s)[i] != '\0',
    decreases s.len(),
{
    if s.len() > 0 {
        let prev = without_nul(s.drop_last());
        lemma_without_nul_has_none(s.drop_last());
        if s.last() != '\0' {
            assert(forall|i: int| 0 <= i < prev.len() ==> #[trigger] prev.push(s.last())[i] == prev[i]);
        }
    }
}

/// Copies the text with every ASCII uppercase letter mapped to lowercase.
pub fn to_ascii_lowercase(s: &str) -> (r: String)
    ensures
        r@ == ascii_lower(s@),
{
    broadcast use vstd::string::group_string_axioms;

    let mut out = String::new();
    for c in it: s.chars()
        invariant
            it.seq() == s@,
            out@ == ascii_lower(s@.take(it.index() as int)),
    {
        let lower = if 'A' <= c && c <= 'Z' {
            let b: u8 = c as u8 + 32;
            proof {
                vstd::utf8::char_u32_cast(c, c as u32);
            }
            assert((b as char) == lower_char(c)) by {
                assert(b as u32 == (c as u32) + 32);
            }
            b as char
        } else {
            c
        };
        push_char(&mut out, lower);
        proof {
            let i = it.index() as int;
            assert(ascii_lower(s@.take(i + 1)) =~= ascii_lower(s@.take(i)).push(lower_char(c)));
        }
    }
    assert(s@.take(s@.len() as int) =~= s@);
    out
}

/// Relies on `String::push`: appends one character.
#[verifier::external_body]
pub(crate) fn push_char(s: &mut String, c: char)
    ensures
        final(s)@ == old(s)@.push(c),
{
    s.push(c)
}

/// Compares two strings character by character.
pub fn str_eq(a: &str, b: &str) -> (r: bool)
    ensures
        r == (a@ == b@),
{
    let n = a.unicode_len();
    if n != b.unicode_len() {
        return false;
    }
    let mut i: usize = 0;
    while i < n
        invariant
            n == a@.len(),
            n == b@.len(),
            i <= n,
            forall|j: int| 0 <= j < i ==> a@[j] == b@[j],
        decreases n - i,
    {
        if a.get_char(i) != b.get_char(i) {
            return false;
        }
        i = i + 1;
    }
    assert(a@ =~= b@);
    true
}

/// Copies the text, leaving out every NUL character.
pub fn strip_nul(s: &str) -> (r: String)
    ensures
        r@ == without_nul(s@),
        forall|i: int| 0 <= i < r@.len() ==> #[trigger] r@[i] != '\0',
{
    broadcast use vstd::string::group_string_axioms;

    let mut out = String::new();
    for c in it: s.chars()
        invariant
            it.seq() == s@,
            out@ == without_nul(s@.take(it.index() as int)),
    {
        proof {
            let i = it.index() as int;
            assert(s@.take(i + 1).drop_last() =~= s@.take(i));
        }
        if c != '\0' {
            push_char(&mut out, c);
        }
    }
    assert(s@.take(s@.len() as int) =~= s@);
    proof {
        lemma_without_nul_has_none(s@);
    }
    out
}

} // verus!
