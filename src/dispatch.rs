//! Decisions of the plugin dispatch layer: which entry point an event goes
//! to, the write-once cache of resolved entry points, and what a call's
//! outcome means for the daemon.

use vstd::prelude::*;

verus! {

/// The role of an entry point that a plugin module exports.
#[derive(Clone, Copy, Debug, PartialEq, Eq, Structural)]
pub enum EntryPoint {
    /// Receives every decoded ACPI event and branches on its device class.
    Acpi,
    /// Receives every raw input-device record.
    Input,
}

/// The symbol that a plugin exports for `role`.
pub open spec fn symbol_of(role: EntryPoint) -> Seq<char> {
    match role {
        EntryPoint::Acpi => "acpi_handler"@,
        EntryPoint::Input => "evdev_handler"@,
    }
}

impl EntryPoint {
    /// The name under which a plugin exports this entry point.
    pub fn symbol_name(&self) -> (r: &'static str)
        ensures
            r@ == symbol_of(*self),
    {
        match self {
            EntryPoint::Acpi => "acpi_handler",
            EntryPoint::Input => "evdev_handler",
        }
    }
}

/// The status that stands for "nothing was run".
pub const NO_OP_STATUS: i32 = 0;

/// What came of dispatching one event.
#[derive(Clone, Copy, Debug, PartialEq, Eq, Structural)]
pub enum DispatchOutcome {
    /// The module exports no entry point for the event: a normal case,
    /// reported with a diagnostic of the event and otherwise ignored.
    Unhandled,
    /// The entry point ran and returned this status.
    Completed(i32),
}

/// The outcome of a dispatch whose entry point ran with `status`, or was absent.
pub open spec fn outcome_of(called: Option<i32>) -> DispatchOutcome {
    match called {
        Some(status) => DispatchOutcome::Completed(status),
        None => DispatchOutcome::Unhandled,
    }
}

/// Interprets a dispatch: `called` is the entry point's status, or `None`
/// when the module does not export it.
pub fn dispatch_outcome(called: Option<i32>) -> (r: DispatchOutcome)
    ensures
        r == outcome_of(called),
        called is None ==> r.spec_status() == NO_OP_STATUS && r.spec_needs_diagnostic(),
{
    match called {
        Some(status) => DispatchOutcome::Completed(status),
        None => DispatchOutcome::Unhandled,
    }
}

impl DispatchOutcome {
    pub open spec fn spec_status(&self) -> i32 {
        match self {
            DispatchOutcome::Unhandled => NO_OP_STATUS,
            DispatchOutcome::Completed(s) => *s,
        }
    }

    pub open spec fn spec_needs_diagnostic(&self) -> bool {
        match self {
            DispatchOutcome::Unhandled => true,
            DispatchOutcome::Completed(s) => *s != 0,
        }
    }

    /// The status to report: the entry point's own, unchanged, or the no-op status.
    pub fn status(&self) -> (r: i32)
        ensures
            r == self.spec_status(),
    {
        match self {
            DispatchOutcome::Unhandled => NO_OP_STATUS,
            DispatchOutcome::Completed(s) => *s,
        }
    }

    /// Whether the daemon logs a diagnostic: for an unhandled event, and for
    /// a non-zero status, which is the plugin's failure and never the daemon's.
    pub fn needs_diagnostic(&self) -> (r: bool)
        ensures
            r == self.spec_needs_diagnostic(),
    {
        match self {
            DispatchOutcome::Unhandled => true,
            DispatchOutcome::Completed(s) => *s != 0,
        }
    }
}

/// Entry points resolved in one loaded module, each looked up at most once:
/// `None` for a role not looked up yet, `Some(None)` for a role the module
/// does not export.
pub struct SymbolCache<T> {
    acpi: Option<Option<T>>,
    input: Option<Option<T>>,
}

impl<T: Copy> SymbolCache<T> {
    /// What the cache holds for `role`.
    pub closed spec fn entry(&self, role: EntryPoint) -> Option<Option<T>> {
        match role {
            EntryPoint::Acpi => self.acpi,
            EntryPoint::Input => self.input,
        }
    }

    /// A cache in which nothing is resolved yet.
    pub fn new() -> (r: SymbolCache<T>)
        ensures
            forall|role: EntryPoint| r.entry(role) is None,
    {
        SymbolCache { acpi: None, input: None }
    }

    /// What was recorded for `role`, if it was looked up before.
    pub fn cached(&self, role: EntryPoint) -> (r: Option<Option<T>>)
        ensures
            r == self.entry(role),
    {
        match role {
            EntryPoint::Acpi => self.acpi,
            EntryPoint::Input => self.input,
        }
    }

    /// Records the result of looking up `role` and returns what the cache
    /// holds for it from now on. A role is recorded once: a later record
    /// keeps the first result.
    pub fn record(&mut self, role: EntryPoint, resolved: Option<T>) -> (r: Option<T>)
        ensures
            old(self).entry(role) is None ==> r == resolved,
            old(self).entry(role) is Some ==> Some(r) == old(self).entry(role),
            final(self).entry(role) == Some(r),
            forall|other: EntryPoint| other != role ==> final(self).entry(other) == old(self).entry(other),
    {
        match role {
            EntryPoint::Acpi => {
                match self.acpi {
                    Some(first) => first,
                    None => {
                        self.acpi = Some(resolved);
                        resolved
                    },
                }
            },
            EntryPoint::Input => {
                match self.input {
                    Some(first) => first,
                    None => {
                        self.input = Some(resolved);
                        resolved
                    },
                }
            },
        }
    }
}

} // verus!
