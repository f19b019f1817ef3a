use c0dl3_privacy::production_deployment_prep::{
    ProductionDeploymentEnvironment, ProductionDeploymentPrep, ProductionDeploymentStrategy,
};

#[test]
fn test_production_deployment_prep_creation() {
    let deployment_prep = ProductionDeploymentPrep::new();
    assert_eq!(
        deployment_prep.get_production_deployment_checklist().overall_completion_percentage as f64,
        100.0
    );
}

#[test]
fn test_production_readiness_check() {
    let mut deployment_prep = ProductionDeploymentPrep::new();
    let report = deployment_prep.perform_production_readiness_check().unwrap();

    assert!(report.overall_readiness_score_hundredths as f64 / 100.0 > 90.0);
    assert!(report.deployment_ready);
}

#[test]
fn test_production_system_validation() {
    let mut deployment_prep = ProductionDeploymentPrep::new();
    let report = deployment_prep.validate_production_systems().unwrap();

    assert!(report.overall_validation_score_hundredths as f64 / 100.0 > 90.0);
    assert!(report.all_systems_valid);
}

#[test]
fn test_production_deployment_checklist() {
    let deployment_prep = ProductionDeploymentPrep::new();
    let checklist = deployment_prep.get_production_deployment_checklist();

    assert_eq!(checklist.overall_completion_percentage as f64, 100.0);
    assert!(!checklist.checklist_items.is_empty());
}

#[test]
fn test_production_readiness_assessment() {
    let deployment_prep = ProductionDeploymentPrep::new();
    let assessment = deployment_prep.get_production_readiness_assessment();

    assert!(assessment.overall_readiness_score_hundredths as f64 / 100.0 > 90.0);
    assert!(assessment.readiness_by_category.iter().any(|(name, _)| name == "security"));
}

#[test]
fn test_production_deployment_config() {
    let deployment_prep = ProductionDeploymentPrep::new();
    let config = deployment_prep.get_production_deployment_config();

    assert!(matches!(config.deployment_environment, ProductionDeploymentEnvironment::Production));
    assert!(matches!(config.deployment_strategy, ProductionDeploymentStrategy::BlueGreen));
}

#[test]
fn production_readiness_scores_and_averages() {
    let mut prep = ProductionDeploymentPrep::new();
    let report = prep.perform_production_readiness_check().unwrap();
    let scores: Vec<(&str, u64)> =
        report.readiness_by_category.iter().map(|(n, s)| (n.as_str(), *s)).collect();
    assert_eq!(
        scores,
        vec![
            ("security", 95),
            ("performance", 92),
            ("privacy", 100),
            ("infrastructure", 88),
            ("monitoring", 90),
            ("documentation", 85),
            ("testing", 98)
        ]
    );
    // 648 / 7 = 92.57...
    assert_eq!(report.overall_readiness_score_hundredths, 9257);
    assert_eq!(prep.get_production_readiness_assessment().overall_readiness_score_hundredths, 9257);
    assert_eq!(report.report_id.len(), 64);

    let validation = prep.validate_production_systems().unwrap();
    // (95 + 90 + 92 + 88) / 4 = 91.25
    assert_eq!(validation.overall_validation_score_hundredths, 9125);
    let names: Vec<&str> = validation.system_validations.iter().map(|(n, _)| n.as_str()).collect();
    assert_eq!(names, vec!["boojum_system", "cross_chain_system", "monitoring_system", "performance_system"]);

    let checklist = prep.get_production_deployment_checklist();
    assert_eq!(checklist.checklist_items.len(), 3);
    assert!(checklist.completion_status.iter().all(|(_, done)| *done));
    let config = prep.get_production_deployment_config();
    assert_eq!(config.requirements.minimum_system_requirements.min_cpu_cores, 8);
    assert_eq!(config.requirements.network_requirements.protocols, vec!["HTTPS", "WSS"]);
}
