//! The conservation laws checked at each improvement step: their names,
//! descriptions, and which of them apply at a given point of the history.

use vstd::prelude::*;

verus! {

/// A conservation law of the improvement process.
#[derive(Clone, Copy, Debug, PartialEq, Eq, Structural)]
pub enum LawKind {
    /// Total capability score does not decrease.
    CapabilityConservation,
    /// Improvement cost respects Landauer's principle.
    LandauerBound,
    /// No discontinuous jumps in performance.
    Continuity,
    /// Metrics monotonically improve (with tolerance).
    Monotonicity,
}

/// The name of a law.
pub open spec fn law_name(k: LawKind) -> Seq<char> {
    match k {
        LawKind::CapabilityConservation => "capability_conservation"@,
        LawKind::LandauerBound => "landauer_bound"@,
        LawKind::Continuity => "continuity"@,
        LawKind::Monotonicity => "monotonicity"@,
    }
}

/// The human-readable description of a law.
pub open spec fn law_description(k: LawKind) -> Seq<char> {
    match k {
        LawKind::CapabilityConservation => "Total capability score must not decrease"@,
        LawKind::LandauerBound => "Improvement cost respects Landauer's principle"@,
        LawKind::Continuity => "No discontinuous jumps in performance"@,
        LawKind::Monotonicity => "Metrics should monotonically improve (with tolerance)"@,
    }
}

impl LawKind {
    /// The name of this law.
    pub fn name(&self) -> (s: &'static str)
        ensures
            s@ == law_name(*self),
    {
        match self {
            LawKind::CapabilityConservation => "capability_conservation",
            LawKind::LandauerBound => "landauer_bound",
            LawKind::Continuity => "continuity",
            LawKind::Monotonicity => "monotonicity",
        }
    }

    /// The description of this law.
    pub fn description(&self) -> (s: &'static str)
        ensures
            s@ == law_description(*self),
    {
        match self {
            LawKind::CapabilityConservation => "Total capability score must not decrease",
            LawKind::LandauerBound => "Improvement cost respects Landauer's principle",
            LawKind::Continuity => "No discontinuous jumps in performance",
            LawKind::Monotonicity => "Metrics should monotonically improve (with tolerance)",
        }
    }
}

/// The laws checked on every cycle, in order: all four of them. The checker's
/// history always holds at least its baseline, so the laws that compare with
/// the previous snapshot are measured from the first check on.
pub open spec fn scheduled_laws_spec() -> Seq<LawKind> {
    seq![
        LawKind::CapabilityConservation,
        LawKind::LandauerBound,
        LawKind::Continuity,
        LawKind::Monotonicity,
    ]
}

/// The laws to check on a cycle, in order.
pub fn scheduled_laws() -> (laws: Vec<LawKind>)
    ensures
        laws@ == scheduled_laws_spec(),
{
    let mut laws: Vec<LawKind> = Vec::new();
    laws.push(LawKind::CapabilityConservation);
    laws.push(LawKind::LandauerBound);
    laws.push(LawKind::Continuity);
    laws.push(LawKind::Monotonicity);
    proof {
        assert(laws@ =~= scheduled_laws_spec());
    }
    laws
}

/// Every cycle checks four laws, each of the four kinds exactly once.
pub proof fn lemma_schedule_complete(k: LawKind)
    ensures
        scheduled_laws_spec().len() == 4,
        scheduled_laws_spec().contains(k),
        scheduled_laws_spec().no_duplicates(),
{
    let s = scheduled_laws_spec();
    assert(s[0] == LawKind::CapabilityConservation);
    assert(s[1] == LawKind::LandauerBound);
    assert(s[2] == LawKind::Continuity);
    assert(s[3] == LawKind::Monotonicity);
    match k {
        LawKind::CapabilityConservation => assert(s[0] == k),
        LawKind::LandauerBound => assert(s[1] == k),
        LawKind::Continuity => assert(s[2] == k),
        LawKind::Monotonicity => assert(s[3] == k),
    }
}

} // verus!
