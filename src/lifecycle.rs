//! Bookkeeping of the process-wide syslog handle.
//!
//! The system keeps one open configuration (facility, name, options) per
//! process; opening it again overwrites it, and closing it resets it for every
//! logger. When a drain opens the handle with a name that it owns, the system
//! may keep using that name's memory until the handle is closed or opened with
//! another name. This module records which owned name was passed last (by its
//! address, which is only ever compared), and decides what a drain that is
//! dropped must do: close the handle first if its name is the one in use, and
//! only then release the name.
//!
//! The caller holds one lock around each transition and the system call that
//! goes with it.

use vstd::prelude::*;

verus! {

/// The name that a drain passes when it opens the handle.
#[derive(Clone, Copy, Debug, PartialEq, Eq, Structural)]
pub enum IdentArg {
    /// No name: the system keeps using the name it was given last.
    Absent,
    /// A name that lives as long as the program.
    Static,
    /// A name owned by the drain, at the given address.
    Owned(usize),
}

/// One thing to do when a drain is dropped, in order.
#[derive(Clone, Copy, Debug, PartialEq, Eq, Structural)]
pub enum LifecycleStep {
    /// Close the process-wide handle.
    CloseLog,
    /// Release the drain's owned name.
    ReleaseIdent,
    /// Keep the drain's owned name allocated for the rest of the program.
    LeakIdent,
}

/// The owner recorded after the handle is opened with `ident`: the address of
/// an owned name; with no name or a static one, the owner is unchanged.
pub open spec fn spec_construct(owner: Option<usize>, ident: IdentArg) -> Option<usize> {
    match ident {
        IdentArg::Owned(addr) => Some(addr),
        _ => owner,
    }
}

/// The owner recorded after a drain whose owned name (if any) is at `owned`
/// is dropped, and the steps that the drop takes.
pub open spec fn spec_destruct(owner: Option<usize>, owned: Option<usize>) -> (Option<usize>, Seq<LifecycleStep>) {
    match owned {
        None => (owner, Seq::empty()),
        Some(addr) => if owner == Some(addr) {
            (None, seq![LifecycleStep::CloseLog, LifecycleStep::ReleaseIdent])
        } else {
            (owner, seq![LifecycleStep::ReleaseIdent])
        },
    }
}

/// Which owned name the process-wide handle was last opened with.
#[derive(Debug)]
pub struct ConnectionLifecycle {
    last_unique_ident: Option<usize>,
}

impl View for ConnectionLifecycle {
    type V = Option<usize>;

    /// The address of the owned name in use, or `None` when no owned name is.
    closed spec fn view(&self) -> Option<usize> {
        self.last_unique_ident
    }
}

impl ConnectionLifecycle {
    /// The state before any drain has opened the handle.
    pub fn new() -> (r: ConnectionLifecycle)
        ensures
            r@ is None,
    {
        ConnectionLifecycle { last_unique_ident: None }
    }

    /// The address of the owned name in use, if any.
    pub fn owner(&self) -> (r: Option<usize>)
        ensures
            r == self@,
    {
        self.last_unique_ident
    }

    /// Records that the handle was opened with `ident`.
    pub fn construct(&mut self, ident: IdentArg)
        ensures
            final(self)@ == spec_construct(old(self)@, ident),
    {
        if let IdentArg::Owned(addr) = ident {
            self.last_unique_ident = Some(addr);
        }
    }

    /// Records that a drain is dropped, whose owned name (if any) is at
    /// `owned`, and returns what the drop must do, in order.
    pub fn destruct(&mut self, owned: Option<usize>) -> (r: Vec<LifecycleStep>)
        ensures
            final(self)@ == spec_destruct(old(self)@, owned).0,
            r@ == spec_destruct(old(self)@, owned).1,
    {
        let mut steps = Vec::new();
        if let Some(addr) = owned {
            if self.last_unique_ident == Some(addr) {
                steps.push(LifecycleStep::CloseLog);
                self.last_unique_ident = None;
            }
            steps.push(LifecycleStep::ReleaseIdent);
        }
        assert(steps@ =~= spec_destruct(old(self)@, owned).1);
        steps
    }

    /// What the drop of a drain must do when the lock around the handle is
    /// broken: its owned name, if any, is never released, since the system
    /// may still use it.
    pub fn destruct_without_lock(owned: Option<usize>) -> (r: Vec<LifecycleStep>)
        ensures
            owned is None ==> r@ == Seq::<LifecycleStep>::empty(),
            owned is Some ==> r@ == seq![LifecycleStep::LeakIdent],
    {
        let mut steps = Vec::new();
        if owned.is_some() {
            steps.push(LifecycleStep::LeakIdent);
        }
        assert(owned is Some ==> steps@ =~= seq![LifecycleStep::LeakIdent]);
        steps
    }
}

/// A drain that opened the handle with an owned name and is then dropped
/// closes the handle once and then releases the name, in that order.
pub proof fn lemma_drop_owner_closes_then_releases(owner: Option<usize>, a: usize)
    ensures
        ({
            let opened = spec_construct(owner, IdentArg::Owned(a));
            let (after, steps) = spec_destruct(opened, Some(a));
            &&& steps == seq![LifecycleStep::CloseLog, LifecycleStep::ReleaseIdent]
            &&& after is None
        }),
{
}

/// When drain A (owned name at `a`) and then drain B (owned name at `b`) open
/// the handle, dropping A does not close it, since B's name is in use; A's
/// name is still released.
pub proof fn lemma_drop_replaced_owner_keeps_handle(owner: Option<usize>, a: usize, b: usize)
    requires
        a != b,
    ensures
        ({
            let opened = spec_construct(spec_construct(owner, IdentArg::Owned(a)), IdentArg::Owned(b));
            let (after, steps) = spec_destruct(opened, Some(a));
            &&& steps == seq![LifecycleStep::ReleaseIdent]
            &&& after == Some(b)
        }),
{
}

/// Dropping a drain that owns no name, or whose name is not the recorded
/// one, never closes the handle and leaves the record as it is.
pub proof fn lemma_drop_non_owner_never_closes(owner: Option<usize>, owned: Option<usize>)
    requires
        owned is None || owner != owned,
    ensures
        !spec_destruct(owner, owned).1.contains(LifecycleStep::CloseLog),
        spec_destruct(owner, owned).0 == owner,
{
    let steps = spec_destruct(owner, owned).1;
    if owned is Some {
        assert(steps[0] == LifecycleStep::ReleaseIdent);
        assert(steps.len() == 1);
    }
}

} // verus!
