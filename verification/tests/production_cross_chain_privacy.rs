use c0dl3_privacy::production_cross_chain_privacy::{
    CrossChainProofPerformanceMetrics, ProductionCrossChainPrivacyCoordinator, ProductionCrossChainPrivacyProof,
    ProductionCrossChainProofMetadata,
};
use sha2::{Digest, Sha256};

#[test]
fn test_production_cross_chain_coordinator_creation() {
    let coordinator = ProductionCrossChainPrivacyCoordinator::new().unwrap();
    assert_eq!(coordinator.get_production_cross_chain_metrics().supported_networks_count, 3);
}

#[test]
fn test_production_cross_chain_proof_creation() {
    let mut coordinator = ProductionCrossChainPrivacyCoordinator::new().unwrap();

    let result = coordinator.create_production_cross_chain_proof(
        "test_tx_hash",
        "ethereum",
        "0x1234567890123456789012345678901234567890",
    );
    assert!(result.is_ok());

    let proof = result.unwrap();
    assert_eq!(proof.proof_metadata.destination_chain, "ethereum");
    assert_eq!(proof.proof_metadata.privacy_level, 100);
    assert!(proof.performance_metrics.generation_time_ms > 0);
}

#[test]
fn test_production_cross_chain_proof_verification() {
    let mut coordinator = ProductionCrossChainPrivacyCoordinator::new().unwrap();

    let proof = ProductionCrossChainPrivacyProof {
        cross_chain_proof_data: b"PRODUCTION_CROSS_CHAIN_PROOF_V1:test_data".to_vec(),
        source_chain_proof: vec![1, 2, 3],
        destination_chain_proof: vec![4, 5, 6],
        privacy_preservation_proof: vec![7, 8, 9],
        public_inputs: vec![10, 11, 12],
        proof_metadata: ProductionCrossChainProofMetadata {
            timestamp: 1234567890,
            version: 1,
            source_chain: "zkc0dl3".to_string(),
            destination_chain: "ethereum".to_string(),
            privacy_level: 100,
            protocol: "production_cross_chain_privacy_v1".to_string(),
            bridge_type: "production_bridge".to_string(),
            generation_time_ms: 30,
            proof_size_bytes: 100,
        },
        performance_metrics: CrossChainProofPerformanceMetrics {
            generation_time_ms: 30,
            verification_time_ms: 0,
            proof_size_bytes: 100,
            cross_chain_latency_ms: 30,
        },
    };

    let is_valid = coordinator.verify_production_cross_chain_proof(&proof).unwrap();
    assert!(is_valid);
}

#[test]
fn test_production_cross_chain_metrics() {
    let coordinator = ProductionCrossChainPrivacyCoordinator::new().unwrap();
    let metrics = coordinator.get_production_cross_chain_metrics();

    assert_eq!(metrics.supported_networks_count, 3);
    assert_eq!(metrics.avg_cross_chain_privacy_level as f64, 100.0);
}

#[test]
fn production_cross_chain_proof_layout_and_metrics() {
    let mut coordinator = ProductionCrossChainPrivacyCoordinator::new().unwrap();
    let proof = coordinator.create_production_cross_chain_proof("abc", "ethereum", "0xdef").unwrap();

    let mut expected = b"PRODUCTION_CROSS_CHAIN_PROOF_V1:abcethereum".to_vec();
    expected.extend_from_slice(Sha256::digest(b"abcethereumprivacy_preserved").as_slice());
    assert_eq!(proof.cross_chain_proof_data, expected);
    assert_eq!(proof.destination_chain_proof, b"DESTINATION_CHAIN_PROOF:ethereum0xdef".to_vec());
    let mut privacy = b"PRIVACY_PRESERVATION_PROOF:".to_vec();
    privacy.extend_from_slice(Sha256::digest(b"abcethereumprivacy_level_100").as_slice());
    assert_eq!(proof.privacy_preservation_proof, privacy);
    assert_eq!(proof.public_inputs, b"CROSS_CHAIN_PUBLIC_INPUTS:ethereum0xdef".to_vec());
    assert!(proof.source_chain_proof.starts_with(b"BOOJUM_PROOF_V1:TRANSACTION_VALIDITY:"));
    assert_eq!(proof.source_chain_proof.len(), 126);
    assert_eq!(proof.proof_metadata.source_chain, "zkc0dl3");
    assert_eq!(proof.proof_metadata.protocol, "production_cross_chain_privacy_v1");
    assert_eq!(proof.proof_metadata.bridge_type, "production_bridge");
    assert_eq!(proof.performance_metrics.cross_chain_latency_ms, proof.performance_metrics.generation_time_ms);

    let metrics = coordinator.get_production_cross_chain_metrics();
    assert_eq!(metrics.total_cross_chain_transactions, 1);
    assert_eq!(metrics.privacy_maintained_transactions, 1);
    assert_eq!(metrics.avg_cross_chain_privacy_level, 100);
    assert_eq!(metrics.total_cross_chain_latency_ms, proof.performance_metrics.generation_time_ms);

    assert!(coordinator.verify_production_cross_chain_proof(&proof).unwrap());
}

#[test]
fn production_cross_chain_rejects_low_privacy_or_untagged() {
    let mut coordinator = ProductionCrossChainPrivacyCoordinator::new().unwrap();
    let mut proof = coordinator.create_production_cross_chain_proof("abc", "ethereum", "0xdef").unwrap();
    proof.proof_metadata.privacy_level = 99;
    assert!(!coordinator.verify_production_cross_chain_proof(&proof).unwrap());
    proof.proof_metadata.privacy_level = 100;
    proof.cross_chain_proof_data[0] = b'Q';
    assert!(!coordinator.verify_production_cross_chain_proof(&proof).unwrap());
    proof.cross_chain_proof_data.clear();
    assert!(!coordinator.verify_production_cross_chain_proof(&proof).unwrap());
}
