use c0dl3_privacy::production_privacy_monitoring::ProductionPrivacyMonitoringSystem;

#[test]
fn test_production_privacy_monitoring_system_creation() {
    let monitoring = ProductionPrivacyMonitoringSystem::new();
    let metrics = monitoring.get_production_real_time_metrics();
    assert_eq!(metrics.current_privacy_level, 100);
    assert_eq!(metrics.system_health_score_tenths as f64 / 10.0, 100.0);
}

#[test]
fn test_production_real_time_metrics() {
    let monitoring = ProductionPrivacyMonitoringSystem::new();
    let metrics = monitoring.get_production_real_time_metrics();

    assert_eq!(metrics.current_privacy_level, 100);
    assert_eq!(metrics.system_health_score_tenths as f64 / 10.0, 100.0);
}

#[test]
fn test_production_privacy_violations() {
    let monitoring = ProductionPrivacyMonitoringSystem::new();
    let violations = monitoring.get_production_privacy_violations();

    assert!(violations.is_empty());
}

#[test]
fn test_production_privacy_analytics() {
    let monitoring = ProductionPrivacyMonitoringSystem::new();
    let analytics = monitoring.get_production_privacy_analytics();

    assert!(analytics.privacy_trends.is_empty());
}

#[test]
fn test_production_dashboard_data() {
    let monitoring = ProductionPrivacyMonitoringSystem::new();
    let dashboard = monitoring.get_production_dashboard_data();

    assert_eq!(dashboard.dashboard_metrics.privacy_level, 100);
    assert_eq!(dashboard.dashboard_metrics.overall_privacy_score as f64, 100.0);
}

#[test]
fn test_production_privacy_report_generation() {
    let monitoring = ProductionPrivacyMonitoringSystem::new();
    let report = monitoring.generate_production_privacy_report().unwrap();

    assert!(!report.report_id.is_empty());
    assert_eq!(report.real_time_metrics.current_privacy_level, 100);
    assert!(report.summary.contains("PRODUCTION PRIVACY REPORT"));
}

#[test]
fn production_monitoring_report_after_a_transaction() {
    let mut monitoring = ProductionPrivacyMonitoringSystem::new();
    monitoring.monitor_production_transaction("tx_hash").unwrap();

    let metrics = monitoring.get_production_real_time_metrics();
    assert_eq!(metrics.transactions_per_second_tenths, 10);
    assert_eq!(metrics.system_health_score_tenths, 985);
    assert!(monitoring.get_production_privacy_violations().is_empty());

    let analytics = monitoring.get_production_privacy_analytics();
    assert_eq!(analytics.privacy_trends.len(), 1);
    assert_eq!(analytics.performance_trends.len(), 1);
    assert_eq!(analytics.performance_trends[0].performance.throughput_tps_tenths, 20000);

    let dashboard = monitoring.get_production_dashboard_data();
    assert_eq!(dashboard.dashboard_metrics.system_health_tenths, 985);
    assert_eq!(dashboard.dashboard_status.security_status, "Secure");

    let report = monitoring.generate_production_privacy_report().unwrap();
    assert_eq!(
        report.summary,
        "=== PRODUCTION PRIVACY REPORT ===\n\nPrivacy Level: 100%\nSystem Health: 98.5%\nActive Violations: 0\n\
         Transactions/sec: 1.0\nProof Generation: 25.0ms\nProof Verification: 2.0ms\nThroughput: 2000.0 TPS\n"
    );
}

#[test]
fn production_monitoring_summary_before_any_transaction() {
    let monitoring = ProductionPrivacyMonitoringSystem::new();
    let report = monitoring.generate_production_privacy_report().unwrap();
    assert_eq!(
        report.summary,
        "=== PRODUCTION PRIVACY REPORT ===\n\nPrivacy Level: 100%\nSystem Health: 100.0%\nActive Violations: 0\n\
         Transactions/sec: 0.0\nProof Generation: 0.0ms\nProof Verification: 0.0ms\nThroughput: 0.0 TPS\n"
    );
}
