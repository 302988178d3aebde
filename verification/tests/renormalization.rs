use lau_sia2_engine::renormalization::{
    approach_halves, classify_flow, deceleration_window, transition_span, FlowStrength,
    UniversalityClass,
};

#[test]
fn test_universality_display() {
    assert_eq!(UniversalityClass::Gaussian.to_string(), "gaussian");
    assert_eq!(UniversalityClass::WilsonFisher.to_string(), "wilson-fisher");
    assert_eq!(UniversalityClass::AsymptoticFreedom.to_string(), "asymptotic_freedom");
}

#[test]
fn universality_names_of_remaining_classes() {
    assert_eq!(UniversalityClass::RelevantOperator.to_string(), "relevant_operator");
    assert_eq!(UniversalityClass::Unknown.to_string(), "unknown");
    assert_eq!(UniversalityClass::Unknown.name(), "unknown");
}

#[test]
fn universality_names_are_distinct() {
    let all = [
        UniversalityClass::Gaussian,
        UniversalityClass::WilsonFisher,
        UniversalityClass::AsymptoticFreedom,
        UniversalityClass::RelevantOperator,
        UniversalityClass::Unknown,
    ];
    for a in all.iter() {
        for b in all.iter() {
            if a != b {
                assert_ne!(a.to_string(), b.to_string());
            }
        }
    }
}

#[test]
fn classify_absent_flow_is_unknown() {
    assert_eq!(classify_flow(FlowStrength::Absent, 0, false), UniversalityClass::Unknown);
    assert_eq!(classify_flow(FlowStrength::Absent, 10, true), UniversalityClass::Unknown);
}

#[test]
fn classify_by_strength() {
    assert_eq!(classify_flow(FlowStrength::Marginal, 2, false), UniversalityClass::Gaussian);
    assert_eq!(classify_flow(FlowStrength::Weak, 2, true), UniversalityClass::WilsonFisher);
    assert_eq!(classify_flow(FlowStrength::Strong, 6, false), UniversalityClass::RelevantOperator);
}

#[test]
fn classify_strong_decelerating_flow() {
    assert_eq!(classify_flow(FlowStrength::Strong, 5, true), UniversalityClass::AsymptoticFreedom);
    assert_eq!(classify_flow(FlowStrength::Strong, 4, true), UniversalityClass::AsymptoticFreedom);
    // Fewer than four scales: deceleration is not examined.
    assert_eq!(classify_flow(FlowStrength::Strong, 3, true), UniversalityClass::RelevantOperator);
}

#[test]
fn deceleration_window_needs_four_scales() {
    assert_eq!(deceleration_window(0), None);
    assert_eq!(deceleration_window(3), None);
    assert_eq!(deceleration_window(4), Some((0, 3)));
    assert_eq!(deceleration_window(6), Some((2, 5)));
}

#[test]
fn transition_span_cases() {
    // Range of fewer than two scales: nothing.
    assert_eq!(transition_span(2, 3, 10), (2, 2));
    assert_eq!(transition_span(3, 2, 10), (3, 3));
    // Full range inside the history.
    assert_eq!(transition_span(0, 3, 6), (0, 2));
    assert_eq!(transition_span(3, 6, 6), (3, 5));
    // Range running past the history is cut at the last transition.
    assert_eq!(transition_span(1, 10, 4), (1, 3));
    // Empty history.
    assert_eq!(transition_span(0, 5, 0), (0, 0));
}

#[test]
fn approach_halves_cases() {
    assert_eq!(approach_halves(3), None);
    assert_eq!(approach_halves(6), Some(((0, 3), (3, 6))));
    assert_eq!(approach_halves(5), Some(((0, 2), (2, 5))));
}
