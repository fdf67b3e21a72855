use ralph::audit::dependencies::{DependencyEcosystem, DependencyParser};
use ralph::audit::inventory::{DirectoryPurpose, InventoryScanner, ProjectType};
use ralph::audit::languages::{LanguageAnalyzer, LanguageDetector, LanguageSupport};

#[test]
fn test_ecosystem_default() {
    assert_eq!(DependencyEcosystem::default(), DependencyEcosystem::Unknown);
}

#[test]
fn test_dependency_parser_new() {
    let parser = DependencyParser::new("/test".to_string());
    assert_eq!(parser.root(), &"/test".to_string());
}

#[test]
fn test_project_type_default() {
    assert_eq!(ProjectType::default(), ProjectType::Unknown);
}

#[test]
fn test_directory_purpose_default() {
    assert_eq!(DirectoryPurpose::default(), DirectoryPurpose::Unknown);
}

#[test]
fn test_inventory_scanner_new() {
    let scanner = InventoryScanner::new("/test".to_string());
    assert_eq!(scanner.root(), &"/test".to_string());
}

#[test]
fn test_language_support_default() {
    assert_eq!(LanguageSupport::default(), LanguageSupport::Minimal);
}

#[test]
fn test_language_detector_rust() {
    let detector = LanguageDetector::new();
    assert_eq!(detector.detect_from_extension("rs"), Some("Rust".to_string()));
}

#[test]
fn test_language_detector_unknown() {
    let detector = LanguageDetector::new();
    assert_eq!(detector.detect_from_extension("xyz"), None);
}

#[test]
fn language_detector_maps_every_alias() {
    let detector = LanguageDetector::new();
    assert_eq!(detector.detect_from_extension("h"), Some("C".to_string()));
    assert_eq!(detector.detect_from_extension("cxx"), Some("C++".to_string()));
    assert_eq!(detector.detect_from_extension("kts"), Some("Kotlin".to_string()));
    assert_eq!(detector.detect_from_extension("cs"), Some("C#".to_string()));
    assert_eq!(detector.detect_from_extension(""), None);
}

#[test]
fn stub_analyses_are_empty() {
    let parser = DependencyParser::new("/p".to_string());
    let analysis = parser.parse().unwrap();
    assert!(analysis.dependencies.is_empty());
    assert_eq!(analysis.outdated_count, 0);
    let inventory = InventoryScanner::new("/p".to_string()).scan().unwrap();
    assert_eq!(inventory.project_type, ProjectType::Unknown);
    assert_eq!(inventory.total_files, 0);
    let analyzer = LanguageAnalyzer::new("/p".to_string());
    assert!(analyzer.analyze().unwrap().is_empty());
    assert_eq!(analyzer.root(), &"/p".to_string());
    assert_eq!(analyzer.detector().detect_from_extension("py"), Some("Python".to_string()));
}
