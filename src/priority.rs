//! Syslog priorities: a severity level with an optional facility, or a raw
//! numeric value.

use vstd::prelude::*;
use crate::facility::Facility;
use crate::level::Level;

verus! {

/// The two forms of a priority.
#[derive(Clone, Copy, Debug, PartialEq, Eq, Structural)]
pub enum PriorityKind {
    /// A level, and possibly a facility.
    Normal(Level, Option<Facility>),
    /// A raw numeric value.
    Raw(i32),
}

/// A syslog priority: a required severity level and an optional facility,
/// or a raw numeric value.
///
/// Two priorities are equal when their numeric values are equal.
#[derive(Clone, Copy, Debug)]
pub struct Priority(pub PriorityKind);

/// The numeric code of an optional facility, 0 when there is none.
pub open spec fn facility_code(facility: Option<Facility>) -> i32 {
    match facility {
        Some(f) => f.spec_code(),
        None => 0,
    }
}

impl Priority {
    /// The level that the priority was created with, if it is not raw.
    pub open spec fn spec_level(self) -> Option<Level> {
        match self.0 {
            PriorityKind::Normal(level, _) => Some(level),
            PriorityKind::Raw(_) => None,
        }
    }

    /// The facility that the priority was created with, if any.
    pub open spec fn spec_facility(self) -> Option<Facility> {
        match self.0 {
            PriorityKind::Normal(_, facility) => facility,
            PriorityKind::Raw(_) => None,
        }
    }

    /// The priority with the facility of `other` filled in, when `self` has a
    /// level and no facility and `other` has a facility; otherwise `self`.
    pub open spec fn spec_overlay(self, other: Priority) -> Priority {
        match (self.0, other.0) {
            (PriorityKind::Normal(level, None), PriorityKind::Normal(_, Some(facility))) => {
                Priority(PriorityKind::Normal(level, Some(facility)))
            },
            _ => self,
        }
    }

    /// The numeric value: the level's code combined by bitwise or with the
    /// facility's code, or the raw value.
    pub open spec fn spec_raw(self) -> i32 {
        match self.0 {
            PriorityKind::Normal(level, facility) => level.spec_code() | facility_code(facility),
            PriorityKind::Raw(priority) => priority,
        }
    }

    /// Creates a priority from a level and an optional facility.
    pub fn new(level: Level, facility: Option<Facility>) -> (r: Priority)
        ensures
            r == Priority(PriorityKind::Normal(level, facility)),
    {
        Priority(PriorityKind::Normal(level, facility))
    }

    /// The level that this priority was created with; `None` if it was created
    /// with `from_raw`.
    pub fn level(self) -> (r: Option<Level>)
        ensures
            r == self.spec_level(),
    {
        match self.0 {
            PriorityKind::Normal(level, _) => Some(level),
            PriorityKind::Raw(_) => None,
        }
    }

    /// The facility that this priority was created with, if any; `None` also
    /// if it was created with `from_raw`.
    pub fn facility(self) -> (r: Option<Facility>)
        ensures
            r == self.spec_facility(),
    {
        match self.0 {
            PriorityKind::Normal(_, facility) => facility,
            PriorityKind::Raw(_) => None,
        }
    }

    /// Fills in the facility from another priority.
    ///
    /// If this priority has a level and no facility, and `other` has a
    /// facility, the result has this level and that facility. Otherwise the
    /// result is this priority unchanged.
    pub fn overlay(self, other: Priority) -> (r: Priority)
        ensures
            r == self.spec_overlay(other),
    {
        match (self.0, other.0) {
            (PriorityKind::Normal(level, None), PriorityKind::Normal(_, Some(facility))) => {
                Priority::new(level, Some(facility))
            },
            _ => self,
        }
    }

    /// Creates a priority from a raw numeric value, which should be valid for
    /// the system's `syslog` function.
    pub fn from_raw(priority: i32) -> (r: Priority)
        ensures
            r == Priority(PriorityKind::Raw(priority)),
    {
        Priority(PriorityKind::Raw(priority))
    }

    /// Converts this priority into the numeric value that the system `syslog`
    /// function accepts.
    pub fn into_raw(self) -> (r: i32)
        ensures
            r == self.spec_raw(),
    {
        match self.0 {
            PriorityKind::Normal(level, facility) => {
                let code: i32 = match facility {
                    Some(f) => i32::from(f),
                    None => 0,
                };
                i32::from(level) | code
            },
            PriorityKind::Raw(priority) => priority,
        }
    }
}

/// `overlay` never replaces a facility that is already there.
pub proof fn lemma_overlay_keeps_facility(p: Priority, q: Priority)
    requires
        p.spec_facility() is Some,
    ensures
        p.spec_overlay(q) == p,
        p.spec_overlay(q).spec_facility() == p.spec_facility(),
{
}

/// `overlay` fills an absent facility from the other priority and keeps the
/// level; a raw priority, or one whose facility is absent on both sides, is
/// left as it is.
pub proof fn lemma_overlay_fills_absent_facility(p: Priority, q: Priority)
    requires
        p.spec_facility() is None,
    ensures
        p.spec_level() is Some && q.spec_facility() is Some ==> p.spec_overlay(q).spec_level()
            == p.spec_level() && p.spec_overlay(q).spec_facility() == q.spec_facility(),
        p.spec_level() is None || q.spec_facility() is None ==> p.spec_overlay(q) == p,
{
}

impl PartialEq for Priority {
    fn eq(&self, other: &Priority) -> (r: bool) {
        self.into_raw() == other.into_raw()
    }
}

impl vstd::std_specs::cmp::PartialEqSpecImpl for Priority {
    open spec fn obeys_eq_spec() -> bool {
        true
    }

    open spec fn eq_spec(&self, other: &Priority) -> bool {
        self.spec_raw() == other.spec_raw()
    }
}

impl Eq for Priority {
}

/// Relies on `i32`'s `Hash`: feeds the integer to the hasher. Nothing is
/// stated of the hasher's state.
pub assume_specification<H: core::hash::Hasher>[ <i32 as core::hash::Hash>::hash::<H> ](
    value: &i32,
    state: &mut H,
);

impl core::hash::Hash for Priority {
    fn hash<H: core::hash::Hasher>(&self, state: &mut H) {
        self.into_raw().hash(state)
    }
}

impl From<Level> for Priority {
    fn from(level: Level) -> (r: Priority) {
        Priority::new(level, None)
    }
}

impl vstd::std_specs::convert::FromSpecImpl<Level> for Priority {
    open spec fn obeys_from_spec() -> bool {
        true
    }

    open spec fn from_spec(level: Level) -> Priority {
        Priority(PriorityKind::Normal(level, None))
    }
}

impl From<(Level, Option<Facility>)> for Priority {
    fn from(pair: (Level, Option<Facility>)) -> (r: Priority) {
        Priority::new(pair.0, pair.1)
    }
}

impl vstd::std_specs::convert::FromSpecImpl<(Level, Option<Facility>)> for Priority {
    open spec fn obeys_from_spec() -> bool {
        true
    }

    open spec fn from_spec(pair: (Level, Option<Facility>)) -> Priority {
        Priority(PriorityKind::Normal(pair.0, pair.1))
    }
}

impl From<(Level, Facility)> for Priority {
    fn from(pair: (Level, Facility)) -> (r: Priority) {
        Priority::new(pair.0, Some(pair.1))
    }
}

impl vstd::std_specs::convert::FromSpecImpl<(Level, Facility)> for Priority {
    open spec fn obeys_from_spec() -> bool {
        true
    }

    open spec fn from_spec(pair: (Level, Facility)) -> Priority {
        Priority(PriorityKind::Normal(pair.0, Some(pair.1)))
    }
}

} // verus!
