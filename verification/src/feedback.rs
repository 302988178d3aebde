//! Feedback prompt text: the spectral analysis report and the eigenmode listing.
//!
//! Numbers are handed in already rendered, so that the text produced here is
//! exactly determined by its arguments.

use vstd::prelude::*;
use crate::text::{decimal, push_decimal};

verus! {

/// Enhanced feedback for the meta/feedback agents.
pub struct FeedbackEnhancer;

/// Status line of the convergence section.
pub open spec fn convergence_status(converging: bool) -> Seq<char> {
    if converging { "✓ CONVERGING"@ } else { "⚠ NOT CONVERGING"@ }
}

/// Status line of the conservation section.
pub open spec fn conservation_status(holds: bool) -> Seq<char> {
    if holds { "✓ All laws hold"@ } else { "✗ VIOLATED — restore capabilities"@ }
}

/// Second instruction: about conservation.
pub open spec fn conservation_instruction(holds: bool) -> Seq<char> {
    if holds { "Respect conservation laws"@ } else { "RESTORE lost capabilities FIRST"@ }
}

/// Third instruction: about convergence.
pub open spec fn convergence_instruction(converging: bool) -> Seq<char> {
    if converging { "Continue current trajectory"@ } else { "CHANGE strategy — not converging"@ }
}

/// The report up to and including the target mode in its heading.
pub open spec fn report_head(target: Seq<char>) -> Seq<char> {
    "## SPECTRAL IMPROVEMENT ANALYSIS (SIA²)\n\n### Target Mode: "@ + target
}

/// The report up to and including the convergence status line.
pub open spec fn report_upto_convergence(target: Seq<char>, contraction: Seq<char>, converging: bool) -> Seq<char> {
    report_head(target)
        + "\nThis is the WEAKEST eigenmode. Focus improvements here.\n\n### Convergence\n- Banach contraction: "@
        + contraction + "\n- "@ + convergence_status(converging)
}

/// The report up to and including the conservation status line.
pub open spec fn report_upto_conservation(
    target: Seq<char>,
    contraction: Seq<char>,
    converging: bool,
    holds: bool,
    gap: Seq<char>,
) -> Seq<char> {
    report_upto_convergence(target, contraction, converging) + "\n- Spectral gap: "@ + gap
        + "\n\n### Conservation\n- "@ + conservation_status(holds)
}

/// The full spectral analysis report.
pub open spec fn report_spec(
    target: Seq<char>,
    contraction: Seq<char>,
    converging: bool,
    holds: bool,
    gap: Seq<char>,
    gain: Seq<char>,
    universality: Seq<char>,
) -> Seq<char> {
    report_upto_conservation(target, contraction, converging, holds, gap)
        + "\n\n### Information Geometry\n- Fisher information gained: "@ + gain
        + "\n\n### Renormalization\n- Universality class: "@ + universality
        + "\n\n### INSTRUCTIONS\n1. Focus on **"@ + target + "**\n2. "@
        + conservation_instruction(holds) + "\n3. "@ + convergence_instruction(converging) + "\n"@
}

/// `needle` occurs in `hay` as a contiguous block.
pub open spec fn occurs_in(needle: Seq<char>, hay: Seq<char>) -> bool {
    exists|i: int|
        0 <= i && i + needle.len() <= hay.len() && #[trigger] hay.subrange(i, i + needle.len())
            == needle
}

/// What ends a prefix of a text occurs in the text.
proof fn lemma_suffix_of_prefix_occurs(a: Seq<char>, b: Seq<char>, rest: Seq<char>)
    ensures
        occurs_in(b, a + b + rest),
{
    let hay = a + b + rest;
    assert(hay.subrange(a.len() as int, (a.len() + b.len()) as int) =~= b);
}

/// Marker of a mode by its strength.
pub open spec fn mode_marker(weak: bool) -> Seq<char> {
    if weak { "🔴 WEAK"@ } else { "🟢 strong"@ }
}

/// The listing line of the mode at position `i` (numbered from 1).
pub open spec fn mode_line(i: nat, name: Seq<char>, value: Seq<char>, weak: bool) -> Seq<char> {
    "  "@ + decimal(i + 1) + ". "@ + name + " λ="@ + value + " ("@ + mode_marker(weak) + ")"@
}

/// The listing of `modes`: one line per mode, separated by newlines.
pub open spec fn mode_lines(modes: Seq<(String, String, bool)>) -> Seq<char>
    decreases modes.len(),
{
    if modes.len() == 0 {
        Seq::empty()
    } else {
        let k = (modes.len() - 1) as nat;
        let line = mode_line(k, modes[k as int].0@, modes[k as int].1@, modes[k as int].2);
        if k == 0 {
            line
        } else {
            mode_lines(modes.drop_last()) + "\n"@ + line
        }
    }
}

impl FeedbackEnhancer {
    /// The spectral analysis section of the feedback prompt. `contraction`,
    /// `spectral_gap` and `information_gain` are the rendered numbers;
    /// `converging` tells whether the Banach contraction is below one.
    pub fn render_report(
        target_mode: &str,
        contraction: &str,
        converging: bool,
        conservation_holds: bool,
        spectral_gap: &str,
        information_gain: &str,
        universality: &str,
    ) -> (report: String)
        ensures
            report@ == report_spec(
                target_mode@,
                contraction@,
                converging,
                conservation_holds,
                spectral_gap@,
                information_gain@,
                universality@,
            ),
    {
        let mut r = String::from_str("## SPECTRAL IMPROVEMENT ANALYSIS (SIA²)\n\n### Target Mode: ");
        r.append(target_mode);
        r.append(
            "\nThis is the WEAKEST eigenmode. Focus improvements here.\n\n### Convergence\n- Banach contraction: ",
        );
        r.append(contraction);
        r.append("\n- ");
        if converging {
            r.append("✓ CONVERGING");
        } else {
            r.append("⚠ NOT CONVERGING");
        }
        r.append("\n- Spectral gap: ");
        r.append(spectral_gap);
        r.append("\n\n### Conservation\n- ");
        if conservation_holds {
            r.append("✓ All laws hold");
        } else {
            r.append("✗ VIOLATED — restore capabilities");
        }
        r.append("\n\n### Information Geometry\n- Fisher information gained: ");
        r.append(information_gain);
        r.append("\n\n### Renormalization\n- Universality class: ");
        r.append(universality);
        r.append("\n\n### INSTRUCTIONS\n1. Focus on **");
        r.append(target_mode);
        r.append("**\n2. ");
        if conservation_holds {
            r.append("Respect conservation laws");
        } else {
            r.append("RESTORE lost capabilities FIRST");
        }
        r.append("\n3. ");
        if converging {
            r.append("Continue current trajectory");
        } else {
            r.append("CHANGE strategy — not converging");
        }
        r.append("\n");
        r
    }

    /// The listing of eigenmodes `(name, rendered eigenvalue, weak)`, one
    /// numbered line per mode; empty for no modes.
    pub fn render_mode_lines(modes: &Vec<(String, String, bool)>) -> (listing: String)
        ensures
            listing@ == mode_lines(modes@),
    {
        let mut out = String::new();
        let mut i: usize = 0;
        while i < modes.len()
            invariant
                i <= modes.len(),
                out@ == mode_lines(modes@.take(i as int)),
            decreases modes.len() - i,
        {
            let ghost before = out@;
            if i > 0 {
                out.append("\n");
            }
            out.append("  ");
            push_decimal(&mut out, (i + 1) as u64);
            out.append(". ");
            out.append(modes[i].0.as_str());
            out.append(" λ=");
            out.append(modes[i].1.as_str());
            out.append(" (");
            if modes[i].2 {
                out.append("🔴 WEAK");
            } else {
                out.append("🟢 strong");
            }
            out.append(")");
            proof {
                let next = modes@.take(i + 1);
                assert(next.drop_last() =~= modes@.take(i as int));
                assert(next[i as int] == modes@[i as int]);
                let line = mode_line(i as nat, modes@[i as int].0@, modes@[i as int].1@, modes@[i as int].2);
                if i == 0 {
                    assert(out@ =~= line);
                } else {
                    assert(out@ =~= before + "\n"@ + line);
                }
            }
            i = i + 1;
        }
        assert(modes@.take(modes.len() as int) =~= modes@);
        out
    }
}

/// The report names the target mode, states whether the improvement
/// converges, and states whether the conservation laws hold.
pub proof fn lemma_report_mentions(
    target: Seq<char>,
    contraction: Seq<char>,
    converging: bool,
    holds: bool,
    gap: Seq<char>,
    gain: Seq<char>,
    universality: Seq<char>,
)
    ensures
        occurs_in(target, report_spec(target, contraction, converging, holds, gap, gain, universality)),
        occurs_in(
            convergence_status(converging),
            report_spec(target, contraction, converging, holds, gap, gain, universality),
        ),
        occurs_in(
            conservation_status(holds),
            report_spec(target, contraction, converging, holds, gap, gain, universality),
        ),
{
    let full = report_spec(target, contraction, converging, holds, gap, gain, universality);
    let head = report_head(target);
    lemma_suffix_of_prefix_occurs(
        "## SPECTRAL IMPROVEMENT ANALYSIS (SIA²)\n\n### Target Mode: "@,
        target,
        full.subrange(head.len() as int, full.len() as int),
    );
    assert(full =~= "## SPECTRAL IMPROVEMENT ANALYSIS (SIA²)\n\n### Target Mode: "@ + target
        + full.subrange(head.len() as int, full.len() as int));
    let upc = report_upto_convergence(target, contraction, converging);
    let pre_c = upc.subrange(0, upc.len() - convergence_status(converging).len());
    assert(upc =~= pre_c + convergence_status(converging));
    lemma_suffix_of_prefix_occurs(pre_c, convergence_status(converging), full.subrange(upc.len() as int, full.len() as int));
    assert(full =~= pre_c + convergence_status(converging) + full.subrange(upc.len() as int, full.len() as int));
    let upk = report_upto_conservation(target, contraction, converging, holds, gap);
    let pre_k = upk.subrange(0, upk.len() - conservation_status(holds).len());
    assert(upk =~= pre_k + conservation_status(holds));
    lemma_suffix_of_prefix_occurs(pre_k, conservation_status(holds), full.subrange(upk.len() as int, full.len() as int));
    assert(full =~= pre_k + conservation_status(holds) + full.subrange(upk.len() as int, full.len() as int));
}

/// `tail` ends `text`.
pub open spec fn ends_with(text: Seq<char>, tail: Seq<char>) -> bool {
    tail.len() <= text.len() && text.subrange(text.len() - tail.len(), text.len() as int) == tail
}

/// `head` begins `text`.
pub open spec fn starts_with(text: Seq<char>, head: Seq<char>) -> bool {
    head.len() <= text.len() && text.subrange(0, head.len() as int) == head
}

/// The instructions that close the report: the second follows whether the
/// conservation laws hold, and the third whether the improvement converges,
/// each alone: a converging report ends "Continue current trajectory"
/// whatever the conservation laws say, and a report asks to change strategy
/// only when it does not converge.
pub proof fn lemma_report_instructions(
    target: Seq<char>,
    contraction: Seq<char>,
    converging: bool,
    holds: bool,
    gap: Seq<char>,
    gain: Seq<char>,
    universality: Seq<char>,
)
    ensures
        ends_with(
            report_spec(target, contraction, converging, holds, gap, gain, universality),
            "**\n2. "@ + (if holds {
                "Respect conservation laws"@
            } else {
                "RESTORE lost capabilities FIRST"@
            }) + "\n3. "@ + (if converging {
                "Continue current trajectory"@
            } else {
                "CHANGE strategy — not converging"@
            }) + "\n"@,
        ),
        converging ==> ends_with(
            report_spec(target, contraction, converging, holds, gap, gain, universality),
            "\n3. "@ + "Continue current trajectory"@ + "\n"@,
        ),
        !converging ==> ends_with(
            report_spec(target, contraction, converging, holds, gap, gain, universality),
            "\n3. "@ + "CHANGE strategy — not converging"@ + "\n"@,
        ),
{
    let r = report_spec(target, contraction, converging, holds, gap, gain, universality);
    let ci = conservation_instruction(holds);
    let cv = convergence_instruction(converging);
    let pre = report_upto_conservation(target, contraction, converging, holds, gap)
        + "\n\n### Information Geometry\n- Fisher information gained: "@ + gain
        + "\n\n### Renormalization\n- Universality class: "@ + universality
        + "\n\n### INSTRUCTIONS\n1. Focus on **"@ + target;
    let tail = "**\n2. "@ + ci + "\n3. "@ + cv + "\n"@;
    assert(r =~= pre + tail);
    lemma_ends_with_concat(pre, tail);
    let short = "\n3. "@ + cv + "\n"@;
    let pre2 = pre + "**\n2. "@ + ci;
    assert(r =~= pre2 + short);
    lemma_ends_with_concat(pre2, short);
}

/// A text ends with what is appended to it.
proof fn lemma_ends_with_concat(a: Seq<char>, b: Seq<char>)
    ensures
        ends_with(a + b, b),
{
    assert((a + b).subrange(a.len() as int, (a + b).len() as int) =~= b);
}

/// The report opens with its heading and target mode, then the rendered
/// contraction, then a status line chosen by convergence alone, then the
/// rendered spectral gap, then a status line chosen by conservation alone.
pub proof fn lemma_report_opening(
    target: Seq<char>,
    contraction: Seq<char>,
    converging: bool,
    holds: bool,
    gap: Seq<char>,
    gain: Seq<char>,
    universality: Seq<char>,
)
    ensures
        starts_with(
            report_spec(target, contraction, converging, holds, gap, gain, universality),
            "## SPECTRAL IMPROVEMENT ANALYSIS (SIA²)\n\n### Target Mode: "@ + target
                + "\nThis is the WEAKEST eigenmode. Focus improvements here.\n\n### Convergence\n- Banach contraction: "@
                + contraction + "\n- "@ + (if converging {
                "✓ CONVERGING"@
            } else {
                "⚠ NOT CONVERGING"@
            }) + "\n- Spectral gap: "@ + gap + "\n\n### Conservation\n- "@ + (if holds {
                "✓ All laws hold"@
            } else {
                "✗ VIOLATED — restore capabilities"@
            }),
        ),
{
    let r = report_spec(target, contraction, converging, holds, gap, gain, universality);
    let head = report_upto_conservation(target, contraction, converging, holds, gap);
    let rest = r.subrange(head.len() as int, r.len() as int);
    assert(r =~= head + rest);
    assert(r.subrange(0, head.len() as int) =~= head);
}

/// Listing one more mode after at least one appends a newline and then the
/// new mode's line: two spaces, its number (one past the modes before it), a
/// dot, its name, `λ=` and its value, and its marker in brackets.
pub proof fn lemma_mode_lines_push(modes: Seq<(String, String, bool)>, m: (String, String, bool))
    requires
        modes.len() >= 1,
    ensures
        mode_lines(modes.push(m)) == mode_lines(modes) + "\n"@ + "  "@ + decimal(modes.len() + 1)
            + ". "@ + m.0@ + " λ="@ + m.1@ + " ("@ + (if m.2 {
            "🔴 WEAK"@
        } else {
            "🟢 strong"@
        }) + ")"@,
{
    let ms = modes.push(m);
    assert(ms.drop_last() =~= modes);
    assert(ms[modes.len() as int] == m);
}

/// The listing of a single mode is its line, numbered 1, with no newline;
/// the listing of no modes is empty.
pub proof fn lemma_mode_lines_single(m: (String, String, bool))
    ensures
        mode_lines(Seq::empty().push(m)) == "  "@ + decimal(1) + ". "@ + m.0@ + " λ="@ + m.1@
            + " ("@ + (if m.2 {
            "🔴 WEAK"@
        } else {
            "🟢 strong"@
        }) + ")"@,
        mode_lines(Seq::<(String, String, bool)>::empty()) == Seq::<char>::empty(),
{
    let ms = Seq::<(String, String, bool)>::empty().push(m);
    assert(ms[0] == m);
}

} // verus!
