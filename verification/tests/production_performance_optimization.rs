use c0dl3_privacy::production_boojum_integration::ProductionBoojumStarkSystem;
use c0dl3_privacy::production_cross_chain_privacy::ProductionCrossChainPrivacyCoordinator;
use c0dl3_privacy::production_performance_optimization::ProductionPerformanceOptimizationSystem;
use c0dl3_privacy::production_privacy_monitoring::ProductionPrivacyMonitoringSystem;

#[test]
fn test_production_performance_optimization_system_creation() {
    let optimization_system = ProductionPerformanceOptimizationSystem::new();
    assert_eq!(
        optimization_system.get_production_optimization_metrics().overall_performance_score as f64,
        100.0
    );
}

#[test]
fn test_production_optimization_metrics() {
    let optimization_system = ProductionPerformanceOptimizationSystem::new();
    let metrics = optimization_system.get_production_optimization_metrics();

    assert_eq!(metrics.overall_performance_score as f64, 100.0);
    assert_eq!(metrics.optimization_effectiveness_percent as f64 / 100.0, 1.0);
}

#[test]
fn test_cache_performance_metrics() {
    let optimization_system = ProductionPerformanceOptimizationSystem::new();
    let metrics = optimization_system.get_cache_performance_metrics();

    assert_eq!(metrics.total_requests, 0);
    assert_eq!(metrics.hit_rate_percent as f64 / 100.0, 0.0);
}

#[test]
fn test_batch_processing_metrics() {
    let optimization_system = ProductionPerformanceOptimizationSystem::new();
    let metrics = optimization_system.get_batch_processing_metrics();

    assert_eq!(metrics.total_batches, 0);
    assert_eq!(metrics.batch_efficiency_percent as f64 / 100.0, 0.0);
}

#[test]
fn test_parallel_processing_metrics() {
    let optimization_system = ProductionPerformanceOptimizationSystem::new();
    let metrics = optimization_system.get_parallel_processing_metrics();

    assert_eq!(metrics.total_tasks, 0);
    assert_eq!(metrics.parallel_efficiency_percent as f64 / 100.0, 0.0);
}

#[test]
fn production_optimization_passes_move_the_metrics() {
    let mut system = ProductionPerformanceOptimizationSystem::new();
    let mut boojum = ProductionBoojumStarkSystem::new().unwrap();
    let r = system.optimize_proof_generation(&mut boojum).unwrap();
    assert_eq!(r.optimization_type, "proof_generation");
    assert_eq!(r.performance_improvement_percent, 25);
    assert_eq!(r.optimization_time_ms, 10);
    let m = system.get_production_optimization_metrics();
    assert_eq!(m.overall_performance_score, 125);
    assert_eq!(m.optimization_effectiveness_percent, 125);
    assert_eq!(system.get_cache_performance_metrics().hit_rate_percent, 40);
    assert_eq!(system.get_parallel_processing_metrics().parallel_efficiency_percent, 35);

    let mut coordinator = ProductionCrossChainPrivacyCoordinator::new().unwrap();
    let r = system.optimize_cross_chain_privacy(&mut coordinator).unwrap();
    assert_eq!(r.optimization_type, "cross_chain_privacy");
    assert_eq!(system.get_production_optimization_metrics().overall_performance_score, 130);
    assert_eq!(system.get_production_optimization_metrics().optimization_effectiveness_percent, 155);

    let mut monitoring = ProductionPrivacyMonitoringSystem::new();
    let r = system.optimize_privacy_monitoring(&mut monitoring).unwrap();
    assert_eq!(r.optimization_type, "privacy_monitoring");
    assert_eq!(r.optimization_time_ms, 8);
    let m = system.get_production_optimization_metrics();
    assert_eq!(m.overall_performance_score, 120);
    assert_eq!(m.optimization_effectiveness_percent, 175);

    // Caps: hit rate at most 100, effectiveness at most 200.
    let _ = system.optimize_proof_generation(&mut boojum).unwrap();
    let _ = system.optimize_proof_generation(&mut boojum).unwrap();
    assert_eq!(system.get_cache_performance_metrics().hit_rate_percent, 100);
    assert_eq!(system.get_parallel_processing_metrics().parallel_efficiency_percent, 100);
    assert_eq!(system.get_production_optimization_metrics().optimization_effectiveness_percent, 200);
}
