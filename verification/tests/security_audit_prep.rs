use c0dl3_privacy::security_audit_prep::SecurityAuditPrep;

#[test]
fn test_security_audit_prep_creation() {
    let _audit_prep = SecurityAuditPrep::new();
    assert!(true, "Security audit preparation should be created successfully");
}

#[test]
fn test_audit_report_generation() {
    let audit_prep = SecurityAuditPrep::new();
    let report = audit_prep.generate_audit_report();

    assert!(report.contains("SECURITY AUDIT REPORT"));
    assert!(report.contains("ARCHITECTURE OVERVIEW"));
    assert!(report.contains("CRYPTOGRAPHIC PRIMITIVES"));
    assert!(report.contains("THREAT MODEL"));
}

#[test]
fn test_security_validation() {
    let audit_prep = SecurityAuditPrep::new();
    let validation_result = audit_prep.validate_security_implementation().unwrap();

    assert_eq!(validation_result.overall_status, "PASS");
    assert!(validation_result.critical_issues.is_empty());
}

#[test]
fn builtin_validation_has_no_warnings_or_recommendations() {
    let v = SecurityAuditPrep::new().validate_security_implementation().unwrap();
    assert!(v.warnings.is_empty());
    assert!(v.recommendations.is_empty());
    assert!(v.validation_items.is_empty());
}

#[test]
fn report_at_a_given_time_has_the_documented_layout() {
    let report = SecurityAuditPrep::new().audit_report_at(1234);
    assert!(report.starts_with("=== SECURITY AUDIT REPORT ===\n\nGenerated: 1234\n\n## ARCHITECTURE OVERVIEW\n"));
    assert!(report.contains(
        "### ChaCha20Poly1305\nType: AEAD Encryption\nSecurity Level: 256 bits\n"
    ));
    assert!(report.contains("### STARK Proofs\nType: Zero-Knowledge Proof\nSecurity Level: 128 bits\n"));
    assert!(report.contains("- Encryption: Encrypt all sensitive data using ChaCha20Poly1305\n"));
    assert!(report.contains("- [x] Verify ChaCha20Poly1305 implementation: Cryptography\n"));
    assert!(report.contains("## RISK ASSESSMENT\nOverall Risk Level: Low\n\nHigh Risks:\n"));
    assert!(report.ends_with("\nHigh Risks:\n\n"));
    let a = report.find("## CRYPTOGRAPHIC PRIMITIVES").unwrap();
    let b = report.find("## THREAT MODEL").unwrap();
    let c = report.find("## SECURITY CONTROLS").unwrap();
    let d = report.find("## AUDIT CHECKLIST").unwrap();
    assert!(a < b && b < c && c < d);
}

#[test]
fn generated_report_is_stamped_with_the_clock() {
    let report = SecurityAuditPrep::new().generate_audit_report();
    let line = report.lines().nth(2).unwrap();
    let t: u64 = line.strip_prefix("Generated: ").unwrap().parse().unwrap();
    assert!(t > 1_600_000_000);
}

#[test]
fn test_security_metrics() {
    let audit_prep = SecurityAuditPrep::new();
    let metrics = audit_prep.get_security_metrics();

    assert!(metrics.total_cryptographic_primitives > 0);
    assert!(metrics.total_security_controls > 0);
    let control_coverage_percent = if metrics.total_security_controls > 0 {
        (metrics.implemented_controls as f64 / metrics.total_security_controls as f64) * 100.0
    } else {
        0.0
    };
    assert!(control_coverage_percent > 0.0);
}

#[test]
fn builtin_security_metrics_counts() {
    let m = SecurityAuditPrep::new().get_security_metrics();
    assert_eq!(m.total_cryptographic_primitives, 3);
    assert_eq!(m.total_security_controls, 4);
    assert_eq!(m.implemented_controls, 4);
    assert_eq!(m.high_risks, 0);
    assert_eq!(m.medium_risks, 1);
    assert_eq!(m.low_risks, 1);
    assert_eq!(m.audit_items_completed, 3);
    assert_eq!(m.total_audit_items, 3);
}

#[test]
fn metrics_of_a_new_system_count_every_control() {
    let audit_prep = SecurityAuditPrep::new();
    let metrics = audit_prep.get_security_metrics();
    assert_eq!(metrics.total_cryptographic_primitives, 3);
    assert_eq!(metrics.total_security_controls, 4);
    assert_eq!(metrics.implemented_controls, 4);
    assert_eq!(metrics.total_audit_items, 3);
    assert_eq!(metrics.audit_items_completed, 3);
}
