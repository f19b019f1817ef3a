use c0dl3_privacy::phase6_production_deployment::{
    DeploymentStatus, InfrastructureHealth, ProductionDeploymentManager,
};

#[test]
fn test_production_deployment_manager_creation() {
    let manager = ProductionDeploymentManager::new().unwrap();
    assert!(manager.get_deployment_status().is_ok());
}

#[test]
fn test_production_deployment() {
    let mut manager = ProductionDeploymentManager::new().unwrap();
    let result = manager.deploy_to_production().unwrap();

    assert!(result.success);
    assert_eq!(result.status, DeploymentStatus::Completed);
}

#[test]
fn test_readiness_score() {
    let mut manager = ProductionDeploymentManager::new().unwrap();
    manager.deploy_to_production().unwrap();

    let score = manager.get_readiness_score().unwrap();
    assert_eq!(score, 100);
}

#[test]
fn test_infrastructure_health() {
    let mut manager = ProductionDeploymentManager::new().unwrap();
    manager.deploy_to_production().unwrap();

    let health = manager.get_infrastructure_health().unwrap();
    assert_eq!(health, InfrastructureHealth::Healthy);
}

#[test]
fn new_manager_has_an_empty_checklist() {
    let manager = ProductionDeploymentManager::new().unwrap();
    assert_eq!(manager.get_readiness_score().unwrap(), 0);
    assert_eq!(manager.get_deployment_status().unwrap(), DeploymentStatus::Completed);
    assert!(manager.progress_lines().is_empty());
}

#[test]
fn deployment_writes_its_progress() {
    let mut manager = ProductionDeploymentManager::new().unwrap();
    let result = manager.deploy_to_production().unwrap();
    assert!(result.deployment_id.starts_with("deploy_"));
    assert_eq!(result.message, "Production deployment successful");
    let lines = manager.progress_lines();
    assert_eq!(lines.len(), 3 + 5 * 8 + 2 + 1);
    assert_eq!(lines[0], "🚀 Starting production deployment...");
    assert_eq!(lines[3], "🔍 Running pre-deployment checks...");
    assert_eq!(lines[4], "   ✅ Infrastructure Readiness: Validate infrastructure components");
    assert_eq!(lines[lines.len() - 2], "   ✅ Deployment status updated");
    assert!(lines[lines.len() - 1].starts_with("✅ Production deployment completed in "));
}
