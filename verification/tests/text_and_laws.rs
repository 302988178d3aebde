use lau_sia2_engine::conservation::{scheduled_laws, LawKind};
use lau_sia2_engine::feedback::FeedbackEnhancer;
use lau_sia2_engine::pde::laplacian_neighbors;
use lau_sia2_engine::text::{decimal_string, push_decimal};
use lau_sia2_engine::trajectory::{chrono_now, stamp_of};

#[test]
fn decimal_rendering() {
    assert_eq!(decimal_string(0), "0");
    assert_eq!(decimal_string(7), "7");
    assert_eq!(decimal_string(10), "10");
    assert_eq!(decimal_string(1234567890), "1234567890");
    assert_eq!(decimal_string(u64::MAX), u64::MAX.to_string());
    let mut s = String::from("n=");
    push_decimal(&mut s, 305);
    assert_eq!(s, "n=305");
}

#[test]
fn chrono_now_is_seconds_since_epoch() {
    let stamp = chrono_now();
    let secs: u64 = stamp.parse().unwrap();
    // Later than 2020-01-01.
    assert!(secs > 1_577_836_800);
    assert_eq!(decimal_string(secs), stamp);
}

#[test]
fn four_laws_every_cycle() {
    let expected = vec![
        LawKind::CapabilityConservation,
        LawKind::LandauerBound,
        LawKind::Continuity,
        LawKind::Monotonicity,
    ];
    assert_eq!(scheduled_laws(), expected);
    let names: Vec<&str> = scheduled_laws().iter().map(|k| k.name()).collect();
    assert_eq!(
        names,
        vec!["capability_conservation", "landauer_bound", "continuity", "monotonicity"]
    );
}

#[test]
fn stamps_of_clock_readings() {
    assert_eq!(stamp_of(Some(1725029869)), "1725029869");
    assert_eq!(stamp_of(Some(0)), "0");
    assert_eq!(stamp_of(None), "0");
}

#[test]
fn law_names_and_descriptions() {
    assert_eq!(LawKind::CapabilityConservation.name(), "capability_conservation");
    assert_eq!(LawKind::LandauerBound.name(), "landauer_bound");
    assert_eq!(LawKind::Continuity.name(), "continuity");
    assert_eq!(LawKind::Monotonicity.name(), "monotonicity");
    assert_eq!(
        LawKind::CapabilityConservation.description(),
        "Total capability score must not decrease"
    );
    assert_eq!(
        LawKind::Monotonicity.description(),
        "Metrics should monotonically improve (with tolerance)"
    );
}

#[test]
fn laplacian_neighbors_reflect_at_ends() {
    assert_eq!(laplacian_neighbors(0, 4), (0, 1));
    assert_eq!(laplacian_neighbors(2, 4), (1, 3));
    assert_eq!(laplacian_neighbors(3, 4), (2, 3));
    assert_eq!(laplacian_neighbors(0, 1), (0, 0));
}

fn report(target: &str, contraction: &str, converging: bool, holds: bool, gap: &str, gain: &str, univ: &str) -> String {
    FeedbackEnhancer::render_report(target, contraction, converging, holds, gap, gain, univ)
}

#[test]
fn report_converging_conserved() {
    let result = report("mode_0_reasoning", "0.7000", true, true, "0.3000", "0.1500", "gaussian");
    assert!(result.contains("CONVERGING"));
    assert!(!result.contains("NOT CONVERGING"));
    assert!(result.contains("All laws hold"));
    assert!(result.contains("mode_0_reasoning"));
    assert!(result.contains("1. Focus on **mode_0_reasoning**"));
}

#[test]
fn report_not_converging() {
    let result = report("mode_1", "1.3000", false, true, "0.1000", "0.0500", "relevant_operator");
    assert!(result.contains("NOT CONVERGING"));
    assert!(result.contains("CHANGE strategy"));
}

#[test]
fn report_violated_conservation() {
    let result = report("mode_2", "0.8000", true, false, "0.2000", "0.1000", "wilson-fisher");
    assert!(result.contains("VIOLATED"));
    assert!(result.contains("RESTORE"));
}

#[test]
fn report_exact_text() {
    let result = report("mode_0", "0.5000", true, true, "0.4200", "0.1000", "asymptotic_freedom");
    let expected = "## SPECTRAL IMPROVEMENT ANALYSIS (SIA²)\n\
\n\
### Target Mode: mode_0\n\
This is the WEAKEST eigenmode. Focus improvements here.\n\
\n\
### Convergence\n\
- Banach contraction: 0.5000\n\
- ✓ CONVERGING\n\
- Spectral gap: 0.4200\n\
\n\
### Conservation\n\
- ✓ All laws hold\n\
\n\
### Information Geometry\n\
- Fisher information gained: 0.1000\n\
\n\
### Renormalization\n\
- Universality class: asymptotic_freedom\n\
\n\
### INSTRUCTIONS\n\
1. Focus on **mode_0**\n\
2. Respect conservation laws\n\
3. Continue current trajectory\n";
    assert_eq!(result, expected);
    assert!(result.contains("INSTRUCTIONS"));
    assert!(result.contains("0.42"));
}

#[test]
fn mode_listing() {
    let modes = vec![
        ("mode_0".to_string(), "0.9000".to_string(), false),
        ("mode_1".to_string(), "0.0500".to_string(), true),
    ];
    let formatted = FeedbackEnhancer::render_mode_lines(&modes);
    assert_eq!(
        formatted,
        "  1. mode_0 λ=0.9000 (🟢 strong)\n  2. mode_1 λ=0.0500 (🔴 WEAK)"
    );
}

#[test]
fn mode_listing_empty() {
    let modes: Vec<(String, String, bool)> = vec![];
    assert!(FeedbackEnhancer::render_mode_lines(&modes).is_empty());
}
