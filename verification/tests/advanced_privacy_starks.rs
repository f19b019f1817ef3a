use c0dl3_privacy::advanced_privacy_starks::{
    AdvancedPrivacyConfig, AdvancedPrivacyStarkSystem, PrivacyProofRequest,
};
use c0dl3_privacy::error::PrivacyError;
use sha2::{Digest, Sha256};

#[test]
fn test_advanced_privacy_system_creation() {
    let config = AdvancedPrivacyConfig::default();
    let system = AdvancedPrivacyStarkSystem::new(config);
    assert!(system.is_ok());
}

#[test]
fn test_cross_chain_privacy_proof() {
    let config = AdvancedPrivacyConfig::default();
    let mut system = AdvancedPrivacyStarkSystem::new(config).unwrap();

    let proof = system.prove_cross_chain_privacy("ethereum", "bitcoin", 1000, "bridge_1");
    assert!(proof.is_ok());

    let proof = proof.unwrap();
    assert!(proof.privacy_guarantees.source_amount_hidden);
    assert!(proof.privacy_guarantees.target_amount_hidden);
    assert!(proof.privacy_guarantees.bridge_state_hidden);
    assert_eq!(proof.metadata.source_chain, "ethereum");
    assert_eq!(proof.metadata.target_chain, "bitcoin");
}

#[test]
fn test_cnupx2_mining_privacy_proof() {
    let config = AdvancedPrivacyConfig::default();
    let mut system = AdvancedPrivacyStarkSystem::new(config).unwrap();

    let cnupx2_hash = b"cnupx2_test_hash_12345";
    let proof = system.prove_cnupx2_mining_privacy(12345, 1000, 50000, cnupx2_hash);
    assert!(proof.is_ok());

    let proof = proof.unwrap();
    assert!(!proof.privacy_guarantees.reward_hidden);
    assert!(!proof.privacy_guarantees.hash_rate_hidden);
    assert!(!proof.privacy_guarantees.difficulty_hidden);
    assert!(!proof.privacy_guarantees.block_data_hidden);
    assert_eq!(proof.metadata.algorithm, "cnupx2");
    assert_eq!(proof.metadata.block_height, 12345);
}

#[test]
fn test_privacy_aggregation_proof() {
    let config = AdvancedPrivacyConfig::default();
    let mut system = AdvancedPrivacyStarkSystem::new(config).unwrap();

    let individual_proofs = vec![vec![1, 2, 3, 4], vec![5, 6, 7, 8], vec![9, 10, 11, 12]];

    let proof = system.prove_privacy_aggregation(individual_proofs, "merkle_tree");
    assert!(proof.is_ok());

    let proof = proof.unwrap();
    assert_eq!(proof.aggregation_metadata.proof_count, 3);
    assert_eq!(proof.aggregation_metadata.aggregation_method, "merkle_tree");
    assert!(proof.privacy_guarantees.individual_proofs_hidden);
}

#[test]
fn test_recursive_privacy_proof() {
    let config = AdvancedPrivacyConfig::default();
    let mut system = AdvancedPrivacyStarkSystem::new(config).unwrap();

    let base_proof = vec![1, 2, 3, 4, 5, 6, 7, 8];
    let proof = system.prove_recursive_privacy(base_proof, 3);
    assert!(proof.is_ok());

    let proof = proof.unwrap();
    assert_eq!(proof.recursion_level, 3);
    assert_eq!(proof.recursion_metadata.current_level, 3);
    assert!(proof.privacy_guarantees.base_proof_hidden);
}

#[test]
fn test_parallel_privacy_proof() {
    let config = AdvancedPrivacyConfig::default();
    let mut system = AdvancedPrivacyStarkSystem::new(config).unwrap();

    let requests = vec![
        PrivacyProofRequest { proof_type: "transaction".to_string(), amount: 1000, parameters: vec![1, 2, 3] },
        PrivacyProofRequest { proof_type: "mining".to_string(), amount: 2000, parameters: vec![4, 5, 6] },
    ];

    let proofs = system.prove_parallel_privacy(requests);
    assert!(proofs.is_ok());

    let proofs = proofs.unwrap();
    assert_eq!(proofs.len(), 2);
}

#[test]
fn test_complex_privacy_proof() {
    let config = AdvancedPrivacyConfig::default();
    let mut system = AdvancedPrivacyStarkSystem::new(config).unwrap();

    let features = vec!["cross_chain".to_string(), "mining".to_string(), "aggregation".to_string()];
    let proof = system.prove_complex_privacy(5, features);
    assert!(proof.is_ok());

    let proof = proof.unwrap();
    assert!(!proof.is_empty());
}

#[test]
fn test_advanced_metrics() {
    let config = AdvancedPrivacyConfig::default();
    let mut system = AdvancedPrivacyStarkSystem::new(config).unwrap();

    let _ = system.prove_cross_chain_privacy("ethereum", "bitcoin", 1000, "bridge_1");
    let cnupx2_hash = b"cnupx2_test_hash_12345";
    let _ = system.prove_cnupx2_mining_privacy(12345, 1000, 50000, cnupx2_hash);

    let metrics = system.get_advanced_metrics();
    assert_eq!(metrics.total_advanced_proofs, 2);
    assert_eq!(metrics.cross_chain_proofs, 1);
    assert_eq!(metrics.mining_privacy_proofs, 1);
}

#[test]
fn proof_bytes_follow_the_documented_layout() {
    let mut s = AdvancedPrivacyStarkSystem::new(AdvancedPrivacyConfig::default()).unwrap();
    let p = s.prove_cross_chain_privacy("eth", "btc", 7, "br").unwrap();
    let mut expected = b"eth".to_vec();
    expected.extend_from_slice(&7u64.to_le_bytes());
    expected.extend_from_slice(&[32, 4, 8]);
    assert_eq!(p.source_chain_proof, expected);
    let mut commitment = 7u64.to_le_bytes().to_vec();
    commitment.extend_from_slice(&[1, 2, 3, 4]);
    assert_eq!(p.amount_commitment, commitment);

    let agg = s.prove_privacy_aggregation(vec![vec![1, 2], vec![3]], "m").unwrap();
    let mut expected = 2u64.to_le_bytes().to_vec();
    expected.extend_from_slice(&[1, 2, 3, 32, 4, 8]);
    assert_eq!(agg.aggregated_proof, expected);
    assert_eq!(agg.proof_hashes[0], Sha256::digest([1u8, 2]).to_vec());

    let rec = s.prove_recursive_privacy(vec![9], 2).unwrap();
    assert_eq!(rec.recursive_proof, vec![9, 2, 0, 0, 0, 32, 4, 8]);
    assert_eq!(rec.recursion_metadata.max_depth, 10);

    let c = s.prove_complex_privacy(1, vec!["ab".to_string(), "c".to_string()]).unwrap();
    assert_eq!(c, vec![1, 0, 0, 0, b'a', b'b', b'c', 32, 4, 8]);
    let m = s.get_advanced_metrics();
    assert_eq!(m.total_advanced_proofs, 4);
    assert_eq!(m.aggregated_proofs, 1);
    assert_eq!(m.recursive_proofs, 1);
}

#[test]
fn invalid_requests_are_refused_without_counting() {
    let mut s = AdvancedPrivacyStarkSystem::new(AdvancedPrivacyConfig::default()).unwrap();
    assert_eq!(s.prove_cross_chain_privacy("a", "b", 0, "c").unwrap_err(), PrivacyError::ZeroAmount);
    assert_eq!(s.prove_cnupx2_mining_privacy(1, 0, 1, b"h").unwrap_err(), PrivacyError::ZeroReward);
    assert_eq!(s.prove_privacy_aggregation(vec![], "m").unwrap_err(), PrivacyError::NoProofsToAggregate);
    assert_eq!(
        s.prove_privacy_aggregation(vec![vec![0u8]; 1001], "m").unwrap_err(),
        PrivacyError::TooManyProofs
    );
    assert_eq!(s.prove_recursive_privacy(vec![], 0).unwrap_err(), PrivacyError::ZeroRecursionLevel);
    assert_eq!(s.prove_recursive_privacy(vec![], 11).unwrap_err(), PrivacyError::RecursionTooDeep);
    assert_eq!(s.prove_parallel_privacy(vec![]).unwrap_err(), PrivacyError::NoProofRequests);
    assert_eq!(s.prove_complex_privacy(0, vec!["x".to_string()]).unwrap_err(), PrivacyError::ZeroComplexity);
    assert_eq!(s.prove_complex_privacy(1, vec![]).unwrap_err(), PrivacyError::NoPrivacyFeatures);
    assert_eq!(s.get_advanced_metrics().total_advanced_proofs, 0);
    let mut cfg = AdvancedPrivacyConfig::default();
    cfg.max_recursion_depth = 20;
    s.update_config(cfg);
    assert!(s.prove_recursive_privacy(vec![], 11).is_ok());
}

#[test]
fn ratio_metrics_in_whole_percent() {
    let mut s = AdvancedPrivacyStarkSystem::new(AdvancedPrivacyConfig::default()).unwrap();
    assert_eq!(s.get_advanced_metrics().privacy_efficiency_percent, 100);

    // 12 bytes given, 8 + 12 + 3 = 23 bytes aggregated: 52 %.
    let agg = s
        .prove_privacy_aggregation(vec![vec![1, 2, 3, 4], vec![5, 6, 7, 8], vec![9, 10, 11, 12]], "merkle_tree")
        .unwrap();
    assert_eq!(agg.aggregation_metadata.compression_ratio_percent, 52);

    // Level 3 of 10 leaves 70 % of the depth unused.
    let rec = s.prove_recursive_privacy(vec![1, 2, 3], 3).unwrap();
    assert_eq!(rec.recursion_metadata.recursion_efficiency_percent, 70);
    let rec = s.prove_recursive_privacy(vec![1], 10).unwrap();
    assert_eq!(rec.recursion_metadata.recursion_efficiency_percent, 0);

    // Three counted kinds among three proofs, then a complex proof that
    // counts only in the total.
    assert_eq!(s.get_advanced_metrics().privacy_efficiency_percent, 100);
    s.prove_complex_privacy(1, vec!["x".to_string()]).unwrap();
    assert_eq!(s.get_advanced_metrics().privacy_efficiency_percent, 75);
}
