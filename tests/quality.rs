use ralph::quality::gates::{CoverageProbe, GateResult, QualityGateChecker};
use ralph::quality::profiles::{
    CiConfig, Profile, ProfileLevel, QualityConfig, SecurityConfig, TestingConfig,
};

fn create_test_profile(coverage: u8, lint: bool, format: bool, audit: bool) -> Profile {
    Profile {
        description: "Test profile".to_string(),
        testing: TestingConfig { coverage_threshold: coverage, unit_tests: true, integration_tests: false },
        ci: CiConfig { required: true, lint_check: lint, format_check: format },
        security: SecurityConfig { cargo_audit: audit, cargo_deny: false, sast: false },
        ..Default::default()
    }
}

#[test]
fn test_gate_result_pass() {
    let result = GateResult::pass("test_gate", "Test passed");
    assert!(result.passed);
    assert_eq!(result.gate_name, "test_gate");
    assert_eq!(result.message, "Test passed");
    assert!(result.details.is_none());
}

#[test]
fn test_gate_result_fail() {
    let result = GateResult::fail("test_gate", "Test failed", Some("Error details".to_string()));
    assert!(!result.passed);
    assert_eq!(result.gate_name, "test_gate");
    assert_eq!(result.message, "Test failed");
    assert_eq!(result.details, Some("Error details".to_string()));
}

#[test]
fn test_gate_result_skipped() {
    let result = GateResult::skipped("test_gate", "Not enabled");
    assert!(result.passed);
    assert_eq!(result.gate_name, "test_gate");
    assert!(result.message.contains("Skipped"));
}

#[test]
fn test_checker_run_all_minimal() {
    let profile = create_test_profile(0, false, false, false);
    let checker = QualityGateChecker::new(profile, "/tmp/test");
    let results = checker.run_all(&CoverageProbe::NoTool);

    assert_eq!(results.len(), 4);
    assert!(QualityGateChecker::all_passed(&results));
}

#[test]
fn test_checker_run_all_comprehensive() {
    let profile = create_test_profile(90, true, true, true);
    let checker = QualityGateChecker::new(profile, "/tmp/test");
    let results = checker.run_all(&CoverageProbe::NoTool);

    assert_eq!(results.len(), 4);
}

#[test]
fn test_all_passed_true() {
    let results = vec![GateResult::pass("gate1", "Passed"), GateResult::pass("gate2", "Passed")];
    assert!(QualityGateChecker::all_passed(&results));
}

#[test]
fn test_all_passed_false() {
    let results = vec![GateResult::pass("gate1", "Passed"), GateResult::fail("gate2", "Failed", None)];
    assert!(!QualityGateChecker::all_passed(&results));
}

#[test]
fn test_summary_all_passed() {
    let results = vec![GateResult::pass("gate1", "Passed"), GateResult::pass("gate2", "Passed")];
    let summary = QualityGateChecker::summary(&results);
    assert_eq!(summary, "All 2 gates passed");
}

#[test]
fn test_summary_some_failed() {
    let results = vec![
        GateResult::pass("gate1", "Passed"),
        GateResult::fail("gate2", "Failed", None),
        GateResult::fail("gate3", "Failed", None),
    ];
    let summary = QualityGateChecker::summary(&results);
    assert!(summary.contains("1/3 gates passed"));
    assert!(summary.contains("gate2"));
    assert!(summary.contains("gate3"));
}

#[test]
fn summary_lists_failures_in_order() {
    let results = vec![
        GateResult::fail("gate1", "Failed", None),
        GateResult::pass("gate2", "Passed"),
        GateResult::fail("gate3", "Failed", None),
    ];
    assert_eq!(QualityGateChecker::summary(&results), "1/3 gates passed. Failed: gate1, gate3");
    assert_eq!(QualityGateChecker::summary(&vec![]), "All 0 gates passed");
}

#[test]
fn test_check_coverage_zero_threshold_skipped() {
    let profile = create_test_profile(0, false, false, false);
    let checker = QualityGateChecker::new(profile, "/tmp/test");
    let result = checker.check_coverage(&CoverageProbe::NoTool);

    assert!(result.passed);
    assert_eq!(result.gate_name, "coverage");
    assert!(result.message.contains("Skipped"));
    assert!(result.message.contains("threshold is 0"));
}

#[test]
fn test_check_coverage_with_threshold() {
    let profile = create_test_profile(70, false, false, false);
    let checker = QualityGateChecker::new(profile, "/tmp/test");
    let result = checker.check_coverage(&CoverageProbe::NoTool);

    assert_eq!(result.gate_name, "coverage");
    if !result.passed {
        assert!(
            result.message.contains("No coverage tool")
                || result.message.contains("failed")
                || result.message.contains("below threshold"),
            "Unexpected failure message: {}",
            result.message
        );
    }
}

#[test]
fn test_evaluate_coverage_pass() {
    let profile = create_test_profile(70, false, false, false);
    let checker = QualityGateChecker::new(profile, "/tmp/test");
    let result = checker.evaluate_coverage(8000, "test-tool");

    assert!(result.passed);
    assert!(result.message.contains("80.00%"));
    assert!(result.message.contains("meets threshold"));
    assert!(result.message.contains("70%"));
}

#[test]
fn test_evaluate_coverage_fail() {
    let profile = create_test_profile(70, false, false, false);
    let checker = QualityGateChecker::new(profile, "/tmp/test");
    let result = checker.evaluate_coverage(5000, "test-tool");

    assert!(!result.passed);
    assert!(result.message.contains("50.00%"));
    assert!(result.message.contains("below threshold"));
    assert!(result.details.is_some());
    assert!(result.details.unwrap().contains("test-tool"));
}

#[test]
fn test_evaluate_coverage_exact_threshold() {
    let profile = create_test_profile(70, false, false, false);
    let checker = QualityGateChecker::new(profile, "/tmp/test");
    let result = checker.evaluate_coverage(7000, "test-tool");

    assert!(result.passed, "Coverage at exactly threshold should pass");
}

#[test]
fn evaluate_coverage_exact_messages() {
    let profile = create_test_profile(70, false, false, false);
    let checker = QualityGateChecker::new(profile, "/tmp/test");
    assert_eq!(
        checker.evaluate_coverage(7550, "llvm").message,
        "Coverage 75.50% meets threshold of 70% (via llvm)"
    );
    let low = checker.evaluate_coverage(6999, "llvm");
    assert_eq!(low.message, "Coverage 69.99% is below threshold of 70%");
    assert_eq!(
        low.details,
        Some("Measured with llvm. Increase test coverage to meet the threshold.".to_string())
    );
    assert_eq!(checker.evaluate_coverage(5, "t").message, "Coverage 0.05% is below threshold of 70%");
}

#[test]
fn check_coverage_reports_probe_outcomes() {
    let checker = QualityGateChecker::new(create_test_profile(70, false, false, false), "/tmp/test");
    let none = checker.check_coverage(&CoverageProbe::NoTool);
    assert!(!none.passed);
    assert_eq!(none.message, "No coverage tool available");
    let failed = checker.check_coverage(&CoverageProbe::ToolFailed {
        message: "cargo llvm-cov failed".to_string(),
        details: "stderr: boom".to_string(),
    });
    assert!(!failed.passed);
    assert_eq!(failed.details, Some("stderr: boom".to_string()));
    let measured =
        checker.check_coverage(&CoverageProbe::Measured { tool: "cargo-tarpaulin".to_string(), hundredths: 9000 });
    assert!(measured.passed);
}

#[test]
fn run_all_reports_skipped_gates() {
    let checker = QualityGateChecker::new(create_test_profile(0, true, false, true), "/tmp/test");
    let results = checker.run_all(&CoverageProbe::NoTool);
    assert_eq!(results[1].message, "Skipped: Lint checking not yet implemented");
    assert_eq!(results[2].message, "Skipped: Format checking not enabled in profile");
    assert_eq!(results[3].gate_name, "security_audit");
    assert_eq!(results[3].message, "Skipped: Security audit not yet implemented");
    assert_eq!(checker.project_root(), "/tmp/test");
    assert_eq!(checker.profile().testing.coverage_threshold, 0);
}

#[test]
fn test_profile_level_default() {
    assert_eq!(ProfileLevel::default(), ProfileLevel::Standard);
}

#[test]
fn profiles_are_found_by_level_and_name() {
    let mut minimal = Profile::default();
    minimal.description = "min".to_string();
    let mut standard = Profile::default();
    standard.description = "std".to_string();
    let mut config = QualityConfig::new();
    config.insert("minimal".to_string(), minimal);
    config.insert("standard".to_string(), Profile::default());
    config.insert("standard".to_string(), standard);
    assert_eq!(config.get_profile(ProfileLevel::Minimal).unwrap().description, "min");
    assert_eq!(config.get_profile(ProfileLevel::Standard).unwrap().description, "std");
    assert!(config.get_profile(ProfileLevel::Comprehensive).is_none());
    assert_eq!(config.get_profile_by_name("standard").unwrap().description, "std");
    assert!(config.get_profile_by_name("other").is_none());
    assert_eq!(config.profile_names(), vec!["minimal".to_string(), "standard".to_string()]);
}
