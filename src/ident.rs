//! Program names (the syslog "tag") and configuration errors.

use vstd::prelude::*;
use vstd::string::StringExecFns;

verus! {

/// Why a configuration was rejected.
#[derive(Clone, Copy, Debug, PartialEq, Eq, Structural)]
pub enum ConfigError {
    /// The program name contains a NUL character.
    NulInIdent,
    /// No facility was given.
    MissingFacility,
    /// No transport was given.
    MissingTransport,
}

/// Whether the text contains a NUL character.
pub open spec fn has_nul(s: Seq<char>) -> bool {
    exists|i: int| 0 <= i < s.len() && s[i] == '\0'
}

/// Tells whether the text contains a NUL character.
pub fn contains_nul(s: &str) -> (r: bool)
    ensures
        r == has_nul(s@),
{
    broadcast use vstd::string::group_string_axioms;

    let mut found = false;
    for c in it: s.chars()
        invariant
            it.seq() == s@,
            found == exists|i: int| 0 <= i < it.index() && s@[i] == '\0',
    {
        if c == '\0' {
            found = true;
        }
    }
    found
}

/// The name of the program, as syslog shows it with each message. It never
/// contains a NUL character.
///
/// An owned name belongs to the drain that is built with it, which releases
/// it when it is dropped; a static name lives as long as the program.
#[derive(Debug, PartialEq, Eq)]
pub struct Ident {
    text: String,
    owned: bool,
}

impl Ident {
    #[verifier::type_invariant]
    spec fn no_nul(self) -> bool {
        !has_nul(self.text@)
    }

    /// The text of the name.
    pub closed spec fn spec_text(self) -> Seq<char> {
        self.text@
    }

    /// Whether the name is owned by the drain that is built with it.
    pub closed spec fn spec_owned(self) -> bool {
        self.owned
    }

    /// Creates an owned name; fails if the text contains a NUL character.
    pub fn owned(s: &str) -> (r: Result<Ident, ConfigError>)
        ensures
            has_nul(s@) <==> r is Err,
            r matches Err(e) ==> e == ConfigError::NulInIdent,
            r matches Ok(i) ==> i.spec_text() == s@ && i.spec_owned(),
    {
        if contains_nul(s) {
            Err(ConfigError::NulInIdent)
        } else {
            Ok(Ident { text: String::from_str(s), owned: true })
        }
    }

    /// Creates a name from text that lives as long as the program; fails if
    /// the text contains a NUL character.
    pub fn from_static(s: &'static str) -> (r: Result<Ident, ConfigError>)
        ensures
            has_nul(s@) <==> r is Err,
            r matches Err(e) ==> e == ConfigError::NulInIdent,
            r matches Ok(i) ==> i.spec_text() == s@ && !i.spec_owned(),
    {
        if contains_nul(s) {
            Err(ConfigError::NulInIdent)
        } else {
            Ok(Ident { text: String::from_str(s), owned: false })
        }
    }

    /// The text of the name.
    pub fn as_str(&self) -> (r: &str)
        ensures
            r@ == self.spec_text(),
            !has_nul(r@),
    {
        proof {
            use_type_invariant(self);
        }
        self.text.as_str()
    }

    /// Whether the name is owned by the drain that is built with it.
    pub fn is_owned(&self) -> (r: bool)
        ensures
            r == self.spec_owned(),
    {
        self.owned
    }
}

} // verus!
