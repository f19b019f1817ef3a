use c0dl3_privacy::phase4_performance_optimization::{PerformanceOptimizationManager, ProofType};
use sha2::{Digest, Sha256};
use std::time::{Duration, Instant};

#[test]
fn test_performance_optimization_manager_creation() {
    let _manager = PerformanceOptimizationManager::new().unwrap();
    assert!(true);
}

#[test]
fn test_memory_optimization() {
    let mut manager = PerformanceOptimizationManager::new().unwrap();

    let result = manager.optimize_memory_usage().unwrap();
    assert!(result.memory_freed_bytes >= 0);
    assert!(result.optimization_time < Duration::from_millis(100));
}

#[test]
fn test_performance_metrics() {
    let manager = PerformanceOptimizationManager::new().unwrap();

    let metrics = manager.get_performance_metrics();
    assert_eq!(metrics.total_proofs_generated, 0);
    // The hit rate is smoothed as rate * 0.9 + 0.1 per hit, from 0.0.
    let cache_hit_rate = 1.0 - 0.9f64.powi(metrics.cache_hits as i32);
    assert_eq!(cache_hit_rate, 0.0);
}

#[test]
fn test_proof_caching() {
    let mut manager = PerformanceOptimizationManager::new().unwrap();

    let input_data = vec![1, 2, 3, 4, 5, 6, 7, 8];
    let proof_type = ProofType::TransactionValidity;

    // First generation (cache miss)
    let proof1 = manager.optimize_proof_generation(proof_type.clone(), &input_data).unwrap();

    // Second generation (cache hit)
    let proof2 = manager.optimize_proof_generation(proof_type, &input_data).unwrap();

    assert_eq!(proof1, proof2); // Should be identical
}

#[test]
fn test_parallel_processing() {
    let manager = PerformanceOptimizationManager::new().unwrap();

    let input_data = vec![1, 2, 3, 4, 5, 6, 7, 8, 9, 10, 11, 12, 13, 14, 15, 16];
    let proof_type = ProofType::CnUpX2MiningPrivacy;

    let start_time = Instant::now();
    let proof = manager.generate_proof_parallel(proof_type, &input_data).unwrap();
    let generation_time = start_time.elapsed();

    assert!(!proof.is_empty());
    assert!(generation_time < Duration::from_millis(100)); // Should be fast
}

#[test]
fn phase4_short_input_reads_as_zero_bytes() {
    let manager = PerformanceOptimizationManager::new().unwrap();
    let proof = manager.generate_proof_parallel(ProofType::TransactionValidity, &[7, 8]).unwrap();
    let mut expected = Vec::new();
    for i in 0u64..4 {
        expected.extend_from_slice(b"tx_validity_parallel:");
        expected.extend_from_slice(&[7, 8]);
        expected.extend_from_slice(&[0u8; 14]);
        expected.extend_from_slice(&i.to_le_bytes());
        expected.extend_from_slice(&[32u8, 4u8, 8u8]);
    }
    assert_eq!(proof, expected);
}

#[test]
fn phase4_cached_proof_is_returned_again() {
    let mut manager = PerformanceOptimizationManager::new().unwrap();
    let input_data: Vec<u8> = (1..=16).collect();

    let proof1 = manager.optimize_proof_generation(ProofType::TransactionValidity, &input_data).unwrap();
    let proof2 = manager.optimize_proof_generation(ProofType::TransactionValidity, &input_data).unwrap();
    assert_eq!(proof1, proof2);

    let metrics = manager.get_performance_metrics();
    assert_eq!(metrics.total_proofs_generated, 1);
    assert_eq!(metrics.cache_hits, 1);
    let stats = manager.get_cache_statistics().unwrap();
    assert_eq!(stats.total_cached_proofs, 1);
    assert_eq!(stats.total_access_count, 2);
    assert_eq!(stats.memory_usage_bytes, 1024);
}

#[test]
fn phase4_parallel_transaction_validity_layout() {
    let manager = PerformanceOptimizationManager::new().unwrap();
    let input_data: Vec<u8> = (1..=16).collect();
    let proof = manager.generate_proof_parallel(ProofType::TransactionValidity, &input_data).unwrap();

    let mut expected = Vec::new();
    for i in 0u64..4 {
        expected.extend_from_slice(b"tx_validity_parallel:");
        expected.extend_from_slice(&input_data[0..16]);
        expected.extend_from_slice(&i.to_le_bytes());
        expected.extend_from_slice(&[32u8, 4u8, 8u8]);
    }
    assert_eq!(proof, expected);
}

#[test]
fn phase4_parallel_mining_privacy_has_sixteen_parts() {
    let manager = PerformanceOptimizationManager::new().unwrap();
    let input_data: Vec<u8> = (1..=24).collect();
    let proof = manager.generate_proof_parallel(ProofType::CnUpX2MiningPrivacy, &input_data).unwrap();
    let part_len = "cnupx2_mining_privacy_parallel:".len() + 24 + 8 + 3;
    assert_eq!(proof.len(), 16 * part_len);
    assert_eq!(&proof[part_len - 11..part_len - 3], &0u64.to_le_bytes());
    assert_eq!(&proof[16 * part_len - 11..16 * part_len - 3], &15u64.to_le_bytes());

    let range = manager.generate_proof_parallel(ProofType::AmountRange, &input_data).unwrap();
    assert_eq!(range.len(), 8 * ("amount_range_parallel:".len() + 24 + 8 + 3));

    let other = manager.generate_proof_parallel(ProofType::PrivacyAggregation, &[9, 9]).unwrap();
    assert_eq!(other, b"default_parallel_proof:\x09\x09\x20\x04\x08".to_vec());
}

#[test]
fn phase4_cache_keys_depend_on_type_and_input() {
    let mut manager = PerformanceOptimizationManager::new().unwrap();
    let a = manager.optimize_proof_generation(ProofType::BalanceConsistency, &[1, 2, 3]).unwrap();
    let b = manager.optimize_proof_generation(ProofType::CrossChainPrivacy, &[1, 2, 3]).unwrap();
    assert_eq!(a, b);
    assert_eq!(manager.get_cache_statistics().unwrap().total_cached_proofs, 2);
    assert_eq!(manager.get_performance_metrics().cache_hits, 0);
    // The key is the hex SHA-256 of the type's name and the input.
    let key = format!("{:x}", Sha256::digest([b"BalanceConsistency".as_slice(), &[1, 2, 3]].concat()));
    assert_eq!(key.len(), 64);
}

#[test]
fn phase4_manager_with_given_workers_starts_empty() {
    let manager = PerformanceOptimizationManager::with_worker_threads(3).unwrap();
    let metrics = manager.get_performance_metrics();
    assert_eq!(metrics.total_proofs_generated, 0);
    assert_eq!(metrics.cache_hits, 0);
    assert_eq!(manager.get_cache_statistics().unwrap().total_cached_proofs, 0);
}

#[test]
fn phase4_cached_proof_survives_another_request() {
    let mut manager = PerformanceOptimizationManager::new().unwrap();
    let a: Vec<u8> = (1..=16).collect();
    let b: Vec<u8> = (1..=24).collect();
    let first = manager.optimize_proof_generation(ProofType::TransactionValidity, &a).unwrap();
    let other = manager.optimize_proof_generation(ProofType::AmountRange, &b).unwrap();
    let again = manager.optimize_proof_generation(ProofType::TransactionValidity, &a).unwrap();
    assert_eq!(first, again);
    assert_ne!(first, other);
    assert_eq!(manager.get_performance_metrics().cache_hits, 1);
    assert_eq!(manager.get_performance_metrics().total_proofs_generated, 2);
}
