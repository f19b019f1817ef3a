use c0dl3_privacy::advanced_privacy_features::PrivateTransaction;
use c0dl3_privacy::performance_optimization::{BatchStats, CacheStats, OptimizedPrivacySystem};

fn tx(hash: &str, commitment: Vec<u8>) -> PrivateTransaction {
    PrivateTransaction {
        hash: hash.to_string(),
        amount_commitment: commitment,
        encrypted_sender: vec![1, 2, 3],
        encrypted_recipient: vec![4, 5, 6],
        encrypted_timestamp: vec![7, 8, 9],
    }
}

fn expected_proof(hash: &str) -> Vec<u8> {
    let mut v = hash.as_bytes().to_vec();
    v.extend_from_slice(&[1, 2, 3, 4, 5]);
    v
}

#[test]
fn test_optimized_privacy_system() {
    let system = OptimizedPrivacySystem::new().unwrap();

    let metrics = system.get_performance_metrics().unwrap();
    assert_eq!(metrics.avg_proof_generation_ms, 0);
    assert_eq!(metrics.avg_proof_verification_ms, 0);
}

#[test]
fn test_cache_operations() {
    let mut system = OptimizedPrivacySystem::new().unwrap();

    system.optimize_cache().unwrap();

    let stats = system.get_cache_stats().unwrap();
    assert_eq!(stats.hits, 0);
    assert_eq!(stats.misses, 0);
}

#[test]
fn test_new_system_statistics_start_at_zero() {
    let system = OptimizedPrivacySystem::new().unwrap();
    let stats = system.get_cache_stats().unwrap();
    assert_eq!(stats, CacheStats { hits: 0, misses: 0, hit_rate_percent: 0, avg_access_time_ms: 0 });
    let batch = system.get_batch_stats().unwrap();
    assert_eq!(
        batch,
        BatchStats {
            total_batches: 0,
            successful_batches: 0,
            failed_batches: 0,
            avg_processing_time_ms: 0,
            avg_batch_size: 0,
        }
    );
    let metrics = system.get_performance_metrics().unwrap();
    assert!(metrics.proof_generation_times.is_empty());
    assert!(metrics.proof_verification_times.is_empty());
}

#[test]
fn test_generated_proof_is_hash_then_tail() {
    let mut system = OptimizedPrivacySystem::new().unwrap();
    let proof = system.generate_optimized_proof(&tx("abc", vec![9, 9])).unwrap();
    assert_eq!(proof, vec![b'a', b'b', b'c', 1, 2, 3, 4, 5]);
    let stats = system.get_cache_stats().unwrap();
    assert_eq!(stats.misses, 1);
    assert_eq!(stats.hits, 0);
}

#[test]
fn test_second_request_is_answered_from_cache() {
    let mut system = OptimizedPrivacySystem::new().unwrap();
    let t = tx("tx_hash_1", vec![1, 2, 3]);
    let first = system.generate_optimized_proof(&t).unwrap();
    let second = system.generate_optimized_proof(&t).unwrap();
    assert_eq!(first, second);
    assert_eq!(first, expected_proof("tx_hash_1"));
    let stats = system.get_cache_stats().unwrap();
    assert_eq!(stats.hits, 1);
    assert_eq!(stats.misses, 1);
}

#[test]
fn test_other_commitment_is_another_key() {
    let mut system = OptimizedPrivacySystem::new().unwrap();
    system.generate_optimized_proof(&tx("same", vec![1])).unwrap();
    let p = system.generate_optimized_proof(&tx("same", vec![2])).unwrap();
    assert_eq!(p, expected_proof("same"));
    let stats = system.get_cache_stats().unwrap();
    assert_eq!(stats.misses, 2);
    assert_eq!(stats.hits, 0);
}

#[test]
fn test_generation_time_recorded_and_averaged() {
    let mut system = OptimizedPrivacySystem::new().unwrap();
    system.generate_optimized_proof(&tx("g1", vec![1])).unwrap();
    system.generate_optimized_proof(&tx("g2", vec![2])).unwrap();
    let metrics = system.get_performance_metrics().unwrap();
    assert_eq!(metrics.proof_generation_times.len(), 2);
    let sum: u64 = metrics.proof_generation_times.iter().sum();
    assert_eq!(metrics.avg_proof_generation_ms, sum / 2);
    assert!(metrics.proof_verification_times.is_empty());
}

#[test]
fn test_verify_optimized_proof() {
    let mut system = OptimizedPrivacySystem::new().unwrap();
    assert!(system.verify_optimized_proof(&[1, 2, 3]).unwrap());
    assert!(!system.verify_optimized_proof(&[]).unwrap());
    let metrics = system.get_performance_metrics().unwrap();
    assert_eq!(metrics.proof_verification_times.len(), 2);
    let sum: u64 = metrics.proof_verification_times.iter().sum();
    assert_eq!(metrics.avg_proof_verification_ms, sum / 2);
    assert!(metrics.proof_generation_times.is_empty());
}

#[test]
fn test_process_transaction_batch() {
    let mut system = OptimizedPrivacySystem::new().unwrap();
    let txs = vec![tx("b1", vec![1]), tx("b22", vec![2]), tx("b333", vec![3])];
    let proofs = system.process_transaction_batch(txs).unwrap();
    assert_eq!(proofs, vec![expected_proof("b1"), expected_proof("b22"), expected_proof("b333")]);
    let stats = system.get_batch_stats().unwrap();
    assert_eq!(stats.total_batches, 1);
    assert_eq!(stats.successful_batches, 1);
    assert_eq!(stats.failed_batches, 0);
    assert_eq!(stats.avg_batch_size, 3);

    let empty = system.process_transaction_batch(Vec::new()).unwrap();
    assert!(empty.is_empty());
    let stats = system.get_batch_stats().unwrap();
    assert_eq!(stats.total_batches, 2);
    assert_eq!(stats.avg_batch_size, 1);
    // Batches do not touch the proof cache.
    assert_eq!(system.get_cache_stats().unwrap().misses, 0);
}

#[test]
fn test_optimize_cache_sets_hit_rate() {
    let mut system = OptimizedPrivacySystem::new().unwrap();
    let t = tx("rate", vec![4]);
    system.generate_optimized_proof(&t).unwrap();
    system.optimize_cache().unwrap();
    assert_eq!(system.get_cache_stats().unwrap().hit_rate_percent, 0);
    system.generate_optimized_proof(&t).unwrap();
    system.generate_optimized_proof(&t).unwrap();
    // A fresh proof lives for an hour, so it survives the optimisation.
    system.optimize_cache().unwrap();
    let stats = system.get_cache_stats().unwrap();
    assert_eq!(stats.hits, 2);
    assert_eq!(stats.misses, 1);
    assert_eq!(stats.hit_rate_percent, 66);
    system.generate_optimized_proof(&t).unwrap();
    assert_eq!(system.get_cache_stats().unwrap().hits, 3);
}
