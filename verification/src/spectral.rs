//! Capability dimensions, eigenmode naming and the coupling pattern of the
//! capability correlation matrix.

use vstd::prelude::*;
use crate::text::{decimal, push_decimal};

verus! {

/// Number of named capability dimensions.
pub const N_NAMED_CAPABILITIES: usize = 8;

/// Name of the `i`-th default capability dimension.
pub open spec fn capability_name_spec(i: int) -> Seq<char> {
    if i == 0 { "reasoning"@ }
    else if i == 1 { "tool_use"@ }
    else if i == 2 { "error_handling"@ }
    else if i == 3 { "efficiency"@ }
    else if i == 4 { "robustness"@ }
    else if i == 5 { "generalization"@ }
    else if i == 6 { "creativity"@ }
    else { "consistency"@ }
}

/// The `i`-th default capability dimension name.
pub fn capability_name(i: usize) -> (name: &'static str)
    requires
        i < N_NAMED_CAPABILITIES,
    ensures
        name@ == capability_name_spec(i as int),
{
    match i {
        0 => "reasoning",
        1 => "tool_use",
        2 => "error_handling",
        3 => "efficiency",
        4 => "robustness",
        5 => "generalization",
        6 => "creativity",
        _ => "consistency",
    }
}

/// Label used for an eigenvector whose dominant component has no name.
pub open spec fn unknown_label() -> Seq<char> {
    "unknown"@
}

/// Spectral analyzer: the capability dimensions that performance is decomposed over.
pub struct SpectralAnalyzer {
    /// Number of capability dimensions.
    pub n_capabilities: usize,
    /// Capability dimension names.
    pub capability_names: Vec<String>,
}

/// How strongly two capability dimensions are coupled in the correlation matrix.
#[derive(Clone, Copy, Debug, PartialEq, Eq, Structural)]
pub enum Coupling {
    /// A dimension with itself (diagonal entry).
    SelfCoupling,
    /// Neighbouring dimensions (index distance 1).
    Adjacent,
    /// Dimensions at index distance 2 or 3.
    Near,
    /// Dimensions further apart: uncoupled.
    Uncoupled,
}

/// Distance between two dimension indices.
pub open spec fn index_distance(i: int, j: int) -> int {
    if i >= j { i - j } else { j - i }
}

/// The coupling of dimensions `i` and `j`.
pub open spec fn coupling_spec(i: int, j: int) -> Coupling {
    let d = index_distance(i, j);
    if d == 0 {
        Coupling::SelfCoupling
    } else if d == 1 {
        Coupling::Adjacent
    } else if d <= 3 {
        Coupling::Near
    } else {
        Coupling::Uncoupled
    }
}

/// The coupling of dimensions `i` and `j` of the capability correlation matrix.
pub fn coupling(i: usize, j: usize) -> (c: Coupling)
    ensures
        c == coupling_spec(i as int, j as int),
{
    let d = if i >= j { i - j } else { j - i };
    if d == 0 {
        Coupling::SelfCoupling
    } else if d == 1 {
        Coupling::Adjacent
    } else if d <= 3 {
        Coupling::Near
    } else {
        Coupling::Uncoupled
    }
}

/// The correlation pattern is symmetric: dimension `i` is coupled to `j`
/// exactly as `j` is coupled to `i`, and only a dimension with itself is
/// self-coupled.
pub proof fn lemma_coupling_symmetric(i: int, j: int)
    ensures
        coupling_spec(i, j) == coupling_spec(j, i),
        (coupling_spec(i, j) == Coupling::SelfCoupling) <==> i == j,
{
}

/// The coupling by distance: only a dimension with itself is self-coupled,
/// dimensions one apart are adjacent, two or three apart near, and four or
/// more apart uncoupled.
pub proof fn lemma_coupling_by_distance(i: int, j: int)
    ensures
        (coupling_spec(i, j) == Coupling::SelfCoupling) <==> i == j,
        (coupling_spec(i, j) == Coupling::Adjacent) <==> (i - j == 1 || j - i == 1),
        (coupling_spec(i, j) == Coupling::Near) <==> (i - j == 2 || i - j == 3 || j - i == 2
            || j - i == 3),
        (coupling_spec(i, j) == Coupling::Uncoupled) <==> (i - j >= 4 || j - i >= 4),
{
}

/// Name of the eigenmode of rank `rank` whose dominant dimension is `label`.
pub open spec fn mode_name_spec(rank: nat, label: Seq<char>) -> Seq<char> {
    "mode_"@ + decimal(rank) + "_"@ + label
}

impl Default for SpectralAnalyzer {
    /// An analyzer over the eight default capability dimensions.
    fn default() -> (a: Self)
        ensures
            a.n_capabilities == N_NAMED_CAPABILITIES,
            a.capability_names.len() == N_NAMED_CAPABILITIES,
            forall|i: int|
                0 <= i < a.capability_names.len() ==> #[trigger] a.capability_names[i]@
                    == capability_name_spec(i),
    {
        Self::new(N_NAMED_CAPABILITIES)
    }
}

impl SpectralAnalyzer {
    /// Create a new analyzer for `n_capabilities` dimensions; the first
    /// `min(n_capabilities, 8)` default names are taken.
    pub fn new(n_capabilities: usize) -> (a: Self)
        ensures
            a.n_capabilities == n_capabilities,
            a.capability_names.len() == if n_capabilities < N_NAMED_CAPABILITIES {
                n_capabilities
            } else {
                N_NAMED_CAPABILITIES
            },
            forall|i: int|
                0 <= i < a.capability_names.len() ==> #[trigger] a.capability_names[i]@
                    == capability_name_spec(i),
    {
        let count = if n_capabilities < N_NAMED_CAPABILITIES {
            n_capabilities
        } else {
            N_NAMED_CAPABILITIES
        };
        let mut capability_names: Vec<String> = Vec::new();
        let mut i: usize = 0;
        while i < count
            invariant
                i <= count,
                count <= N_NAMED_CAPABILITIES,
                capability_names.len() == i,
                forall|k: int|
                    0 <= k < i ==> #[trigger] capability_names[k]@ == capability_name_spec(k),
            decreases count - i,
        {
            capability_names.push(String::from_str(capability_name(i)));
            i = i + 1;
        }
        SpectralAnalyzer { n_capabilities, capability_names }
    }

    /// The name of dimension `index`, or `"unknown"` where it has none.
    pub fn dimension_label(&self, index: usize) -> (label: String)
        ensures
            label@ == if index < self.capability_names.len() {
                self.capability_names[index as int]@
            } else {
                unknown_label()
            },
    {
        if index < self.capability_names.len() {
            self.capability_names[index].clone()
        } else {
            String::from_str("unknown")
        }
    }

    /// The name of the eigenmode of rank `rank` (0 for the strongest) whose
    /// dominant capability dimension is `dominant_index`.
    pub fn mode_name(&self, rank: usize, dominant_index: usize) -> (name: String)
        ensures
            name@ == mode_name_spec(
                rank as nat,
                if dominant_index < self.capability_names.len() {
                    self.capability_names[dominant_index as int]@
                } else {
                    unknown_label()
                },
            ),
    {
        let label = self.dimension_label(dominant_index);
        let mut name = String::from_str("mode_");
        push_decimal(&mut name, rank as u64);
        name.append("_");
        name.append(label.as_str());
        name
    }
}

} // verus!
