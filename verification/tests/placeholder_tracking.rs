use c0dl3_privacy::placeholder_tracking::{
    ImplementationEffort, PlaceholderEntry, PlaceholderStatus, PlaceholderTrackingSystem, PlaceholderType,
    PriorityLevel, ProductionRequirement, ProductionRequirementStatus, ProductionRequirementType, SecurityImpact,
    SimplifiedImplementation, SimplifiedImplementationStatus, SimplifiedImplementationType,
};

fn entry(id: &str, priority: PriorityLevel, impact: SecurityImpact) -> PlaceholderEntry {
    PlaceholderEntry {
        entry_id: id.to_string(),
        component_name: "Component".to_string(),
        file_path: "src/x.rs".to_string(),
        line_number: 1,
        placeholder_type: PlaceholderType::Other("custom".to_string()),
        description: "d".to_string(),
        security_impact: impact,
        priority_level: priority,
        status: PlaceholderStatus::Identified,
        created_at: 5,
        updated_at: 5,
    }
}

#[test]
fn test_placeholder_tracking_system_creation() {
    let _tracking = PlaceholderTrackingSystem::new();
    assert!(true, "Placeholder tracking system should be created successfully");
}

#[test]
fn test_placeholder_entries() {
    let tracking = PlaceholderTrackingSystem::new();
    let entries = tracking.get_placeholder_entries().unwrap();

    assert!(!entries.is_empty());
    assert!(entries.iter().any(|e| e.component_name == "BoojumStarkProofSystem"));
}

#[test]
fn test_simplified_implementations() {
    let tracking = PlaceholderTrackingSystem::new();
    let implementations = tracking.get_simplified_implementations().unwrap();

    assert!(!implementations.is_empty());
    assert!(implementations.iter().any(|i| i.component_name == "ProductionStarkProofSystem"));
}

#[test]
fn test_production_requirements() {
    let tracking = PlaceholderTrackingSystem::new();
    let requirements = tracking.get_production_requirements().unwrap();

    assert!(!requirements.is_empty());
    assert!(requirements.iter().any(|r| r.component_name == "BoojumStarkProofSystem"));
}

#[test]
fn test_integration_status() {
    let tracking = PlaceholderTrackingSystem::new();
    let status = tracking.get_integration_status().unwrap();

    assert!(!status.critical_issues.is_empty());
    assert!(!status.high_priority_issues.is_empty());
}

#[test]
fn test_placeholder_report_generation() {
    let tracking = PlaceholderTrackingSystem::new();
    let report = tracking.generate_placeholder_report().unwrap();

    assert!(!report.report_id.is_empty());
    assert!(!report.placeholders.is_empty());
    assert!(!report.simplified_implementations.is_empty());
    assert!(!report.production_requirements.is_empty());
    assert!(report.summary.contains("PLACEHOLDER TRACKING REPORT"));
}

#[test]
fn test_status_updates() {
    let mut tracking = PlaceholderTrackingSystem::new();

    tracking.update_placeholder_status("boojum_stark_proof_1", PlaceholderStatus::InProgress).unwrap();
    tracking
        .update_simplified_implementation_status("stark_proof_simplified", SimplifiedImplementationStatus::InProgress)
        .unwrap();
    tracking
        .update_production_requirement_status("boojum_integration", ProductionRequirementStatus::InProgress)
        .unwrap();

    assert!(true);
}

#[test]
fn builtin_registries_have_the_known_records() {
    let t = PlaceholderTrackingSystem::new();
    let mut ids: Vec<String> = t.get_placeholder_entries().unwrap().into_iter().map(|e| e.entry_id).collect();
    ids.sort();
    assert_eq!(ids, vec!["boojum_stark_proof_1", "crypto_op_1", "perf_opt_1"]);
    assert_eq!(t.get_simplified_implementations().unwrap().len(), 2);
    assert_eq!(t.get_production_requirements().unwrap().len(), 2);
    let s = t.get_integration_status().unwrap();
    assert_eq!(s.critical_issues, vec!["Boojum STARK proof integration needed", "Production cryptographic operations needed"]);
    assert_eq!(s.integration_timeline.overall_timeline, "Total: 4-6 weeks");
}

#[test]
fn update_changes_only_the_named_record() {
    let mut t = PlaceholderTrackingSystem::new();
    t.update_placeholder_status("crypto_op_1", PlaceholderStatus::Completed).unwrap();
    let entries = t.get_placeholder_entries().unwrap();
    for e in entries {
        if e.entry_id == "crypto_op_1" {
            assert_eq!(e.status, PlaceholderStatus::Completed);
            assert!(e.updated_at >= e.created_at);
        } else {
            assert_eq!(e.status, PlaceholderStatus::Identified);
        }
    }
}

#[test]
fn update_of_unknown_identifier_changes_nothing() {
    let mut t = PlaceholderTrackingSystem::new();
    let before = t.get_placeholder_entries().unwrap().len();
    t.update_placeholder_status("no_such_entry", PlaceholderStatus::Removed).unwrap();
    t.update_simplified_implementation_status("no_such", SimplifiedImplementationStatus::Removed).unwrap();
    t.update_production_requirement_status("no_such", ProductionRequirementStatus::Removed).unwrap();
    let after = t.get_placeholder_entries().unwrap();
    assert_eq!(after.len(), before);
    assert!(after.iter().all(|e| e.status == PlaceholderStatus::Identified));
}

#[test]
fn added_entry_is_listed_and_replaces_same_identifier() {
    let mut t = PlaceholderTrackingSystem::new();
    t.add_placeholder_entry(entry("new_one", PriorityLevel::Low, SecurityImpact::High)).unwrap();
    t.add_placeholder_entry(entry("new_one", PriorityLevel::Critical, SecurityImpact::High)).unwrap();
    let entries = t.get_placeholder_entries().unwrap();
    assert_eq!(entries.len(), 4);
    let e = entries.iter().find(|e| e.entry_id == "new_one").unwrap();
    assert_eq!(e.priority_level, PriorityLevel::Critical);
}

#[test]
fn summary_counts_by_priority_and_impact() {
    let t = PlaceholderTrackingSystem::new();
    let entries = vec![
        entry("a", PriorityLevel::Critical, SecurityImpact::Critical),
        entry("b", PriorityLevel::Critical, SecurityImpact::Medium),
        entry("c", PriorityLevel::Low, SecurityImpact::NoImpact),
    ];
    let summary = t.generate_report_summary(&entries, &[], &[]).unwrap();
    let expected = "=== PLACEHOLDER TRACKING REPORT ===\n\n\
Total Placeholders: 3\n\
Total Simplified Implementations: 0\n\
Total Production Requirements: 0\n\
\nPriority Distribution:\n  Critical: 2\n  High: 0\n  Medium: 0\n  Low: 1\n\
\nSecurity Impact Distribution:\n  Critical: 1\n  High: 0\n  Medium: 1\n";
    assert_eq!(summary, expected);
}

#[test]
fn report_summary_matches_builtin_records() {
    let t = PlaceholderTrackingSystem::new();
    let report = t.generate_placeholder_report().unwrap();
    assert_eq!(report.report_id.len(), 64);
    assert!(report.summary.contains("Total Placeholders: 3\n"));
    assert!(report.summary.contains("  Critical: 1\n  High: 1\n  Medium: 1\n  Low: 0\n"));
    assert!(report.summary.ends_with("  Critical: 0\n  High: 0\n  Medium: 2\n"));
}

#[test]
fn added_implementation_and_requirement_are_listed() {
    let mut tracking = PlaceholderTrackingSystem::new();
    let impls_before = tracking.get_simplified_implementations().unwrap().len();
    let reqs_before = tracking.get_production_requirements().unwrap().len();

    let imp = SimplifiedImplementation {
        impl_id: "custom_impl".to_string(),
        component_name: "CustomComponent".to_string(),
        file_path: "src/custom.rs".to_string(),
        impl_type: SimplifiedImplementationType::StarkProofImplementation,
        description: "d".to_string(),
        current_implementation: "mock".to_string(),
        production_implementation_needed: "real".to_string(),
        security_implications: "s".to_string(),
        performance_implications: "p".to_string(),
        status: SimplifiedImplementationStatus::Identified,
        created_at: 1,
        updated_at: 1,
    };
    tracking.add_simplified_implementation(imp).unwrap();
    let impls = tracking.get_simplified_implementations().unwrap();
    assert_eq!(impls.len(), impls_before + 1);
    assert!(impls.iter().any(|i| i.impl_id == "custom_impl" && i.component_name == "CustomComponent"));

    let req = ProductionRequirement {
        req_id: "custom_req".to_string(),
        component_name: "CustomComponent".to_string(),
        req_type: ProductionRequirementType::BoojumIntegration,
        description: "d".to_string(),
        requirements: vec!["r1".to_string()],
        dependencies: vec![],
        implementation_effort: ImplementationEffort::Low,
        security_requirements: vec![],
        performance_requirements: vec![],
        status: ProductionRequirementStatus::Identified,
        created_at: 2,
        updated_at: 2,
    };
    tracking.add_production_requirement(req).unwrap();
    let reqs = tracking.get_production_requirements().unwrap();
    assert_eq!(reqs.len(), reqs_before + 1);
    assert!(reqs.iter().any(|r| r.req_id == "custom_req" && r.requirements == vec!["r1".to_string()]));
}

#[test]
fn builtin_requirements_carry_their_fields() {
    let tracking = PlaceholderTrackingSystem::new();
    let requirements = tracking.get_production_requirements().unwrap();
    let boojum = requirements.iter().find(|r| r.req_id == "boojum_integration").unwrap();
    assert!(matches!(boojum.req_type, ProductionRequirementType::BoojumIntegration));
    assert_eq!(boojum.description, "Integrate Boojum STARK prover for production-grade proofs");
    assert_eq!(boojum.requirements.len(), 4);
    assert_eq!(boojum.dependencies, vec!["Boojum library", "Production constraint systems", "Optimized field operations"]);
    assert_eq!(boojum.implementation_effort, ImplementationEffort::High);
    assert_eq!(boojum.status, ProductionRequirementStatus::Identified);
    assert_eq!(boojum.created_at, boojum.updated_at);
    let crypto = requirements.iter().find(|r| r.req_id == "crypto_library").unwrap();
    assert!(matches!(crypto.req_type, ProductionRequirementType::CryptographicLibrary));
    assert_eq!(crypto.performance_requirements, vec!["Fast encryption/decryption", "Low memory usage"]);
    assert_eq!(crypto.implementation_effort, ImplementationEffort::Medium);
    assert_eq!(crypto.created_at, boojum.created_at);
}
