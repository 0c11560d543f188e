//! The life of a guard, for a program that fails when a guard is let go.
//!
//! A guard is live until it is discharged, by its destruction or by handing
//! its value out. To dispose of a live guard in any other way breaks the
//! contract. Verus admits a destructor only if it never unwinds, so the guard
//! of this crate does not fail by itself when it is dropped: a program that
//! wants that failure keeps a [`Phase`] beside each guard, steps it with
//! [`Phase::discharge`], and asks [`Phase::disposal_is_violation`] in its own
//! destructor.
use vstd::prelude::*;

verus! {

/// What is reported when a live guard is disposed of.
pub const VIOLATION_MESSAGE: &'static str = "Can not drop, must call destroy.";

/// Where a guard stands in its life.
#[derive(Clone, Copy, Debug, PartialEq, Eq, Structural)]
pub enum Phase {
    /// The guard holds its value, and the destruction of the value is owed.
    Live,
    /// The value was destroyed through the guard.
    Finalized,
    /// The value was taken out of the guard.
    Extracted,
}

/// The two ways to discharge a guard.
#[derive(Clone, Copy, Debug, PartialEq, Eq, Structural)]
pub enum Discharge {
    /// By destroying the value it holds.
    Finalize,
    /// By taking the value out of it.
    Extract,
}

impl Phase {
    /// Whether the destruction of the guarded value is still owed.
    pub open spec fn owes(self) -> bool {
        self is Live
    }

    /// The phase after a discharge, if the guard can be discharged at all.
    pub open spec fn spec_discharge(self, by: Discharge) -> Option<Phase> {
        match (self, by) {
            (Phase::Live, Discharge::Finalize) => Some(Phase::Finalized),
            (Phase::Live, Discharge::Extract) => Some(Phase::Extracted),
            _ => None,
        }
    }

    /// Discharges a live guard. A guard that was discharged before holds
    /// nothing that could be destroyed or taken out: the answer is `None`.
    #[verifier::when_used_as_spec(spec_discharge)]
    pub fn discharge(self, by: Discharge) -> (next: Option<Phase>)
        ensures
            next == self.spec_discharge(by),
    {
        match self {
            Phase::Live => match by {
                Discharge::Finalize => Some(Phase::Finalized),
                Discharge::Extract => Some(Phase::Extracted),
            },
            _ => None,
        }
    }

    /// Whether to dispose of a guard in this phase breaks the contract: it
    /// does exactly while the guard is live.
    pub fn disposal_is_violation(self) -> (violation: bool)
        ensures
            violation == self.owes(),
    {
        match self {
            Phase::Live => true,
            _ => false,
        }
    }
}

/// Only a live guard can be discharged, and a discharge ends the obligation
/// for good: nothing leads back to `Live`.
pub proof fn lemma_discharge_is_final(phase: Phase, by: Discharge)
    ensures
        phase.discharge(by) is Some <==> phase.owes(),
        phase.discharge(by) is Some ==> !phase.discharge(by)->0.owes(),
        phase.discharge(by) is Some ==> phase.discharge(by)->0.discharge(by) is None,
{
}

} // verus!
