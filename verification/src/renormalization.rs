//! Universality classes of the renormalization-group flow of improvement,
//! and the rule that assigns a flow to its class.

use vstd::prelude::*;

verus! {

/// Universality class of improvement flow.
#[derive(Clone, Copy, Debug, PartialEq, Eq, Structural)]
pub enum UniversalityClass {
    /// β(g) ≈ 0 — improvement is trivial / at fixed point.
    Gaussian,
    /// β(g) has non-trivial zero — near phase transition.
    WilsonFisher,
    /// β(g) → 0 as g → ∞ — gets better at getting better.
    AsymptoticFreedom,
    /// Strong flow (not yet classified).
    RelevantOperator,
    /// Insufficient data.
    Unknown,
}

/// The printed name of a universality class.
pub open spec fn class_name(c: UniversalityClass) -> Seq<char> {
    match c {
        UniversalityClass::Gaussian => "gaussian"@,
        UniversalityClass::WilsonFisher => "wilson-fisher"@,
        UniversalityClass::AsymptoticFreedom => "asymptotic_freedom"@,
        UniversalityClass::RelevantOperator => "relevant_operator"@,
        UniversalityClass::Unknown => "unknown"@,
    }
}

impl UniversalityClass {
    /// The printed name of this class.
    pub fn name(&self) -> (s: &'static str)
        ensures
            s@ == class_name(*self),
    {
        match self {
            UniversalityClass::Gaussian => "gaussian",
            UniversalityClass::WilsonFisher => "wilson-fisher",
            UniversalityClass::AsymptoticFreedom => "asymptotic_freedom",
            UniversalityClass::RelevantOperator => "relevant_operator",
            UniversalityClass::Unknown => "unknown",
        }
    }

    /// The printed name of this class, as an owned string.
    pub fn to_string(&self) -> (s: String)
        ensures
            s@ == class_name(*self),
    {
        String::from_str(self.name())
    }
}

/// Distinct classes print differently.
pub proof fn lemma_class_names_distinct(a: UniversalityClass, b: UniversalityClass)
    requires
        a != b,
    ensures
        class_name(a) != class_name(b),
{
    reveal_strlit("gaussian");
    reveal_strlit("wilson-fisher");
    reveal_strlit("asymptotic_freedom");
    reveal_strlit("relevant_operator");
    reveal_strlit("unknown");
    assert(class_name(a)[0] != class_name(b)[0] || class_name(a).len() != class_name(b).len());
}

/// How strong the mean RG flow |β| is, against the two thresholds of the
/// classification (0.01 for a fixed point, 0.1 for a phase transition).
#[derive(Clone, Copy, Debug, PartialEq, Eq, Structural)]
pub enum FlowStrength {
    /// No β could be computed (fewer than two scales, or no metrics).
    Absent,
    /// Mean |β| below the fixed-point threshold.
    Marginal,
    /// Mean |β| at or above the fixed-point threshold, below the transition threshold.
    Weak,
    /// Mean |β| at or above the transition threshold.
    Strong,
}

/// Least number of recorded scales for which deceleration of the flow is examined.
pub const DECELERATION_MIN_SCALES: usize = 4;

/// The class that the classification assigns to a flow of the given strength,
/// over `n_scales` recorded scales, where `decelerating` tells whether the
/// latest step change is smaller than the earliest one in the last window.
pub open spec fn classify_flow_spec(
    strength: FlowStrength,
    n_scales: nat,
    decelerating: bool,
) -> UniversalityClass {
    match strength {
        FlowStrength::Absent => UniversalityClass::Unknown,
        FlowStrength::Marginal => UniversalityClass::Gaussian,
        FlowStrength::Weak => UniversalityClass::WilsonFisher,
        FlowStrength::Strong => if n_scales >= DECELERATION_MIN_SCALES && decelerating {
            UniversalityClass::AsymptoticFreedom
        } else {
            UniversalityClass::RelevantOperator
        },
    }
}

/// Classify the universality class of an improvement flow.
pub fn classify_flow(strength: FlowStrength, n_scales: usize, decelerating: bool) -> (c:
    UniversalityClass)
    ensures
        c == classify_flow_spec(strength, n_scales as nat, decelerating),
{
    match strength {
        FlowStrength::Absent => UniversalityClass::Unknown,
        FlowStrength::Marginal => UniversalityClass::Gaussian,
        FlowStrength::Weak => UniversalityClass::WilsonFisher,
        FlowStrength::Strong => {
            if n_scales >= DECELERATION_MIN_SCALES && decelerating {
                UniversalityClass::AsymptoticFreedom
            } else {
                UniversalityClass::RelevantOperator
            }
        },
    }
}

/// The window of scale transitions `i -> i + 1`, `lo <= i < hi`, examined for
/// deceleration: the last three transitions, when there are at least four scales.
pub fn deceleration_window(n_scales: usize) -> (w: Option<(usize, usize)>)
    ensures
        n_scales < DECELERATION_MIN_SCALES ==> w is None,
        n_scales >= DECELERATION_MIN_SCALES ==> w == Some(
            ((n_scales - 4) as usize, (n_scales - 1) as usize),
        ),
{
    if n_scales < DECELERATION_MIN_SCALES {
        None
    } else {
        Some((n_scales - 4, n_scales - 1))
    }
}

/// The transitions `i -> i + 1` that an average of |β| over the scale range
/// `start..end` takes: those with `start <= i`, `i + 1 < end` and `i + 1 < n_scales`,
/// and none when the range holds fewer than two scales.
pub open spec fn in_transition_range(start: int, end: int, n_scales: int, i: int) -> bool {
    &&& end > start + 1
    &&& start <= i
    &&& i + 1 < end
    &&& i + 1 < n_scales
}

/// The transitions of `start..end` as a half-open index span `lo..hi`.
pub fn transition_span(start: usize, end: usize, n_scales: usize) -> (span: (usize, usize))
    ensures
        span.0 <= span.1,
        span.0 == start,
        end == start + 2 && start + 1 < n_scales ==> span == (start, (start + 1) as usize),
        span.0 < span.1 ==> span.1 == if end - 1 < n_scales - 1 {
            end - 1
        } else {
            n_scales - 1
        },
        forall|i: int|
            span.0 <= i < span.1 <==> in_transition_range(
                start as int,
                end as int,
                n_scales as int,
                i,
            ),
{
    if end <= start || end - start <= 1 || n_scales == 0 {
        (start, start)
    } else {
        let by_range = end - 1;
        let by_scales = n_scales - 1;
        let hi = if by_range < by_scales { by_range } else { by_scales };
        if hi < start {
            (start, start)
        } else {
            (start, hi)
        }
    }
}

/// The two halves of the scale history compared to tell whether the flow
/// approaches a fixed point: `(0, n/2)` and `(n/2, n)`, when there are at least four scales.
pub fn approach_halves(n_scales: usize) -> (h: Option<((usize, usize), (usize, usize))>)
    ensures
        n_scales < 4 ==> h is None,
        n_scales >= 4 ==> h == Some(
            ((0usize, n_scales / 2), (n_scales / 2, n_scales)),
        ),
{
    if n_scales < 4 {
        None
    } else {
        Some(((0, n_scales / 2), (n_scales / 2, n_scales)))
    }
}

/// The class depends on the strength first: no flow is Unknown, a marginal
/// flow Gaussian and a weak flow WilsonFisher, whatever the number of scales
/// and the deceleration; only a strong flow is examined for deceleration, and
/// it is AsymptoticFreedom exactly when at least four scales are recorded and
/// it decelerates, RelevantOperator otherwise.
pub proof fn lemma_classification_by_strength(n_scales: nat, decelerating: bool)
    ensures
        classify_flow_spec(FlowStrength::Absent, n_scales, decelerating) == UniversalityClass::Unknown,
        classify_flow_spec(FlowStrength::Marginal, n_scales, decelerating)
            == UniversalityClass::Gaussian,
        classify_flow_spec(FlowStrength::Weak, n_scales, decelerating)
            == UniversalityClass::WilsonFisher,
        (classify_flow_spec(FlowStrength::Strong, n_scales, decelerating)
            == UniversalityClass::AsymptoticFreedom) <==> (n_scales >= 4 && decelerating),
        (classify_flow_spec(FlowStrength::Strong, n_scales, decelerating)
            == UniversalityClass::RelevantOperator) <==> !(n_scales >= 4 && decelerating),
{
}

/// Only a strong flow is ever classified AsymptoticFreedom or RelevantOperator.
pub proof fn lemma_strong_classes_need_strong_flow(
    strength: FlowStrength,
    n_scales: nat,
    decelerating: bool,
)
    ensures
        classify_flow_spec(strength, n_scales, decelerating) == UniversalityClass::AsymptoticFreedom
            || classify_flow_spec(strength, n_scales, decelerating)
            == UniversalityClass::RelevantOperator ==> strength == FlowStrength::Strong,
{
}

/// A range of scales lying inside the history covers exactly the transitions
/// between consecutive scales of the range: `i -> i + 1` for
/// `start <= i < end - 1`; in particular a range of two scales covers the one
/// transition `start -> start + 1`, and a range of one scale covers none.
pub proof fn lemma_transition_range_inside_history(start: int, end: int, n_scales: int, i: int)
    requires
        0 <= start,
        end <= n_scales,
    ensures
        in_transition_range(start, end, n_scales, i) <==> (start <= i && i + 1 < end),
        end == start + 2 ==> (in_transition_range(start, end, n_scales, i) <==> i == start),
        end <= start + 1 ==> !in_transition_range(start, end, n_scales, i),
{
}

} // verus!
