use c0dl3_privacy::phase5_security_audit::{
    ComplianceStatusType, SecurityAuditManager, SeverityLevel, VulnerabilityStatus,
};

#[test]
fn test_security_audit_manager_creation() {
    let manager = SecurityAuditManager::new().unwrap();
    assert!(manager.get_security_metrics().is_ok());
}

#[test]
fn test_security_audit_execution() {
    let mut manager = SecurityAuditManager::new().unwrap();
    let report = manager.run_security_audit().unwrap();

    assert!(!report.audit_id.is_empty());
    assert!(report.total_tests > 0);
    assert!(report.security_score > 0);
}

#[test]
fn audit_report_values() {
    let mut manager = SecurityAuditManager::new().unwrap();
    let report = manager.run_security_audit().unwrap();
    assert_eq!(report.total_tests, 36);
    assert_eq!(report.passed_tests, 36);
    assert_eq!(report.failed_tests, 0);
    assert_eq!(report.total_vulnerabilities, 5);
    assert_eq!(report.critical_vulnerabilities, 0);
    assert_eq!(report.security_score, 100);
    assert_eq!(report.recommendations.len(), 8);
    assert!(report.audit_id.starts_with("audit_"));
    assert!(report.audit_id[6..].chars().all(|c| c.is_ascii_digit()));
    let again = manager.run_security_audit().unwrap();
    assert_eq!(again.total_tests, 72);
}

#[test]
fn vulnerability_analysis_records_fixed_reports() {
    let mut manager = SecurityAuditManager::new().unwrap();
    assert!(manager.get_vulnerability_report("CVE-2024-0001").unwrap().is_none());
    manager.run_security_audit().unwrap();
    let metrics = manager.get_security_metrics().unwrap();
    assert_eq!(metrics.total_vulnerabilities, 5);
    assert_eq!(metrics.fixed_vulnerabilities, 5);
    let v = manager.get_vulnerability_report("CVE-2024-0003").unwrap().unwrap();
    assert_eq!(v.title, "Security Issue CVE-2024-0003");
    assert_eq!(v.severity, SeverityLevel::Fixed);
    assert_eq!(v.status, VulnerabilityStatus::Fixed);
    assert_eq!(v.affected_components, vec!["core", "mining"]);
    assert!(manager.get_vulnerability_report("CVE-2024-0006").unwrap().is_none());
}

#[test]
fn compliance_report_after_audit() {
    let mut manager = SecurityAuditManager::new().unwrap();
    assert_eq!(manager.get_compliance_status().unwrap().overall_score, 0);
    manager.run_security_audit().unwrap();
    let c = manager.get_compliance_status().unwrap();
    assert_eq!(c.overall_score, 95);
    assert_eq!(c.requirements.len(), 5);
    assert_eq!(c.requirements[0].id, "SEC-001");
    assert!(c.requirements.iter().all(|r| r.status == ComplianceStatusType::Compliant));
    assert_eq!(c.next_audit_date, c.last_audit_date + 90 * 24 * 60 * 60);
}
