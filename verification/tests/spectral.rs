use lau_sia2_engine::spectral::{capability_name, coupling, Coupling, SpectralAnalyzer};

#[test]
fn test_analyzer_creation() {
    let analyzer = SpectralAnalyzer::new(8);
    assert_eq!(analyzer.n_capabilities, 8);
    assert_eq!(analyzer.capability_names.len(), 8);
}

#[test]
fn analyzer_names_in_order() {
    let analyzer = SpectralAnalyzer::new(3);
    assert_eq!(analyzer.n_capabilities, 3);
    assert_eq!(analyzer.capability_names, vec!["reasoning", "tool_use", "error_handling"]);
    let wide = SpectralAnalyzer::new(12);
    assert_eq!(wide.n_capabilities, 12);
    assert_eq!(wide.capability_names.len(), 8);
    assert_eq!(wide.capability_names[7], "consistency");
    let none = SpectralAnalyzer::new(0);
    assert!(none.capability_names.is_empty());
}

#[test]
fn analyzer_default_has_eight_dimensions() {
    let analyzer = SpectralAnalyzer::default();
    assert_eq!(analyzer.n_capabilities, 8);
    assert_eq!(analyzer.capability_names[5], "generalization");
}

#[test]
fn capability_names_table() {
    let names: Vec<&str> = (0..8).map(capability_name).collect();
    assert_eq!(
        names,
        vec![
            "reasoning",
            "tool_use",
            "error_handling",
            "efficiency",
            "robustness",
            "generalization",
            "creativity",
            "consistency"
        ]
    );
}

#[test]
fn dimension_label_and_unknown() {
    let analyzer = SpectralAnalyzer::new(8);
    assert_eq!(analyzer.dimension_label(1), "tool_use");
    assert_eq!(analyzer.dimension_label(8), "unknown");
    let small = SpectralAnalyzer::new(2);
    assert_eq!(small.dimension_label(2), "unknown");
}

#[test]
fn mode_names() {
    let analyzer = SpectralAnalyzer::new(8);
    assert_eq!(analyzer.mode_name(0, 0), "mode_0_reasoning");
    assert_eq!(analyzer.mode_name(3, 1), "mode_3_tool_use");
    assert_eq!(analyzer.mode_name(12, 9), "mode_12_unknown");
}

#[test]
fn coupling_pattern() {
    assert_eq!(coupling(2, 2), Coupling::SelfCoupling);
    assert_eq!(coupling(2, 3), Coupling::Adjacent);
    assert_eq!(coupling(3, 2), Coupling::Adjacent);
    assert_eq!(coupling(0, 2), Coupling::Near);
    assert_eq!(coupling(0, 3), Coupling::Near);
    assert_eq!(coupling(0, 4), Coupling::Uncoupled);
    assert_eq!(coupling(7, 0), Coupling::Uncoupled);
}

#[test]
fn coupling_is_symmetric() {
    for i in 0..8 {
        for j in 0..8 {
            assert_eq!(coupling(i, j), coupling(j, i));
        }
    }
}
