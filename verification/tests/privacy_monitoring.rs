use c0dl3_privacy::privacy_monitoring::PrivacyMonitoringSystem;

#[test]
fn test_privacy_monitoring_system_creation() {
    let _monitoring = PrivacyMonitoringSystem::new();
    assert!(true, "Privacy monitoring system should be created successfully");
}

#[test]
fn test_real_time_metrics() {
    let monitoring = PrivacyMonitoringSystem::new();
    let metrics = monitoring.get_real_time_metrics().unwrap();

    assert_eq!(metrics.current_privacy_level, 100);
    assert_eq!(metrics.system_health_score as f64, 100.0);
}

#[test]
fn test_privacy_violations() {
    let monitoring = PrivacyMonitoringSystem::new();
    let violations = monitoring.get_privacy_violations().unwrap();

    assert!(violations.is_empty());
}

#[test]
fn test_privacy_analytics() {
    let monitoring = PrivacyMonitoringSystem::new();
    let analytics = monitoring.get_privacy_analytics().unwrap();

    assert!(analytics.privacy_trends.is_empty());
}

#[test]
fn test_dashboard_data() {
    let monitoring = PrivacyMonitoringSystem::new();
    let dashboard = monitoring.get_dashboard_data().unwrap();

    assert_eq!(dashboard.dashboard_metrics.privacy_level, 100);
    assert_eq!(dashboard.dashboard_metrics.overall_privacy_score as f64, 100.0);
}

#[test]
fn test_privacy_report_generation() {
    let monitoring = PrivacyMonitoringSystem::new();
    let report = monitoring.generate_privacy_report().unwrap();

    assert!(!report.report_id.is_empty());
    assert_eq!(report.real_time_metrics.current_privacy_level, 100);
    assert!(report.summary.contains("Privacy Level: 100%"));
}

#[test]
fn privacy_monitoring_counts_transactions_without_violations() {
    let mut monitoring = PrivacyMonitoringSystem::new();
    monitoring.monitor_transaction("tx_a").unwrap();
    monitoring.monitor_transaction("tx_b").unwrap();

    let metrics = monitoring.get_real_time_metrics().unwrap();
    assert_eq!(metrics.transactions_per_second, 2);
    assert_eq!(metrics.current_privacy_level, 100);
    assert!(monitoring.get_privacy_violations().unwrap().is_empty());

    let analytics = monitoring.get_privacy_analytics().unwrap();
    assert_eq!(analytics.privacy_trends.len(), 2);
    assert_eq!(analytics.anonymity_trends.len(), 2);
    assert_eq!(analytics.mixing_trends.len(), 2);
    assert_eq!(analytics.privacy_trends[1].privacy_level, 100);
    assert_eq!(analytics.mixing_trends[0].mixing_pool_size, 100);

    let report = monitoring.generate_privacy_report().unwrap();
    assert_eq!(report.report_id.len(), 64);
    assert_eq!(
        report.summary,
        "Privacy Level: 100%\nSystem Health: 100.0%\nActive Violations: 0\nTransactions/sec: 2.0\n"
    );
    assert_eq!(report.analytics.privacy_trends.len(), 2);
    assert_eq!(report.dashboard.dashboard_status.system_status, "Healthy");
}
