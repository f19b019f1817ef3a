use c0dl3_privacy::error::PrivacyError;
use c0dl3_privacy::production_boojum_integration::ProductionBoojumStarkSystem;
use sha2::{Digest, Sha256};

#[test]
fn test_production_boojum_system_creation() {
    let system = ProductionBoojumStarkSystem::new().unwrap();
    assert_eq!(system.security_level(), 128);
    assert_eq!(system.boojum_version(), "main");
}

#[test]
fn test_production_transaction_validity_proof() {
    let mut system = ProductionBoojumStarkSystem::new().unwrap();
    let proof = system.prove_transaction_validity(1000, 5000).unwrap();

    assert_eq!(proof.proof_type, "production_boojum_transaction_validity");
    assert_eq!(proof.security_level, 128);
    assert!(!proof.boojum_proof_data.is_empty());
    assert!(!proof.public_inputs.is_empty());
    assert!(proof.performance_metrics.generation_time_ms > 0);
}

#[test]
fn test_production_amount_range_proof() {
    let mut system = ProductionBoojumStarkSystem::new().unwrap();
    let proof = system.prove_amount_range(1000, 100, 10000).unwrap();

    assert_eq!(proof.proof_type, "production_boojum_amount_range");
    assert_eq!(proof.security_level, 128);
    assert!(!proof.boojum_proof_data.is_empty());
    assert!(!proof.public_inputs.is_empty());
    assert!(proof.performance_metrics.generation_time_ms > 0);
}

#[test]
fn test_production_proof_verification() {
    let mut system = ProductionBoojumStarkSystem::new().unwrap();
    let proof = system.prove_transaction_validity(1000, 5000).unwrap();

    let is_valid = system.verify_proof(&proof).unwrap();
    assert!(is_valid);
}

#[test]
fn test_production_prover_statistics() {
    let mut system = ProductionBoojumStarkSystem::new().unwrap();
    let _proof = system.prove_transaction_validity(1000, 5000).unwrap();

    let stats = system.get_prover_statistics();
    assert_eq!(stats.total_proofs_generated, 1);
    let avg_generation_time_ms = stats.total_generation_time_ms as f64 / stats.total_proofs_generated as f64;
    assert!(avg_generation_time_ms > 0.0);
    let success_rate =
        (stats.total_proofs_generated - stats.error_count) as f64 / stats.total_proofs_generated as f64;
    assert_eq!(success_rate, 1.0);
}

#[test]
fn test_production_verifier_statistics() {
    let mut system = ProductionBoojumStarkSystem::new().unwrap();
    let proof = system.prove_transaction_validity(1000, 5000).unwrap();
    let _is_valid = system.verify_proof(&proof).unwrap();

    let stats = system.get_verifier_statistics();
    assert_eq!(stats.total_proofs_verified, 1);
    let avg_verification_time_ms = stats.total_verification_time_ms as f64 / stats.total_proofs_verified as f64;
    assert!(avg_verification_time_ms > 0.0);
    let success_rate = (stats.total_proofs_verified - stats.verification_error_count) as f64
        / stats.total_proofs_verified as f64;
    assert_eq!(success_rate, 1.0);
}

#[test]
fn test_production_error_handling() {
    let mut system = ProductionBoojumStarkSystem::new().unwrap();

    let result = system.prove_transaction_validity(10000, 5000);
    assert!(result.is_err());

    let result = system.prove_amount_range(1000, 2000, 5000);
    assert!(result.is_err());
}

#[test]
fn production_boojum_zero_amount_refused() {
    let mut system = ProductionBoojumStarkSystem::new().unwrap();
    assert!(matches!(system.prove_transaction_validity(0, 5000), Err(PrivacyError::ZeroAmount)));
    assert!(matches!(
        system.prove_transaction_validity(6000, 5000),
        Err(PrivacyError::InsufficientBalance)
    ));
    assert!(matches!(system.prove_amount_range(6000, 100, 5000), Err(PrivacyError::AmountOutOfRange)));
    assert_eq!(system.get_prover_statistics().total_proofs_generated, 0);
}

#[test]
fn production_boojum_validity_layout() {
    let mut system = ProductionBoojumStarkSystem::new().unwrap();
    let proof = system.prove_transaction_validity(1000, 5000).unwrap();
    let data = &proof.boojum_proof_data;
    assert_eq!(data.len(), 126);
    assert!(data.starts_with(b"BOOJUM_PROOF_V1:TRANSACTION_VALIDITY:"));
    assert_eq!(&data[37..41], &128u32.to_le_bytes());
    assert_eq!(&data[41..49], &u64::MAX.to_le_bytes());
    assert_eq!(&data[49..53], &8u32.to_le_bytes());
    assert_eq!(&data[53..57], &4u32.to_le_bytes());
    assert_eq!(&data[57..61], &2u32.to_le_bytes());
    assert_eq!(&data[61..69], &(1u64 << 20).to_le_bytes());
    let mut hasher = Sha256::new();
    hasher.update(1000u64.to_le_bytes());
    hasher.update(5000u64.to_le_bytes());
    hasher.update(128u32.to_le_bytes());
    assert_eq!(&data[69..101], hasher.finalize().as_slice());
    assert_eq!(&data[101..118], b"BOOJUM_SIGNATURE:");

    let mut inputs = b"BOOJUM_PUBLIC_INPUTS:".to_vec();
    inputs.extend_from_slice(&1000u64.to_le_bytes());
    inputs.extend_from_slice(&5000u64.to_le_bytes());
    inputs.extend_from_slice(&128u32.to_le_bytes());
    assert_eq!(proof.public_inputs, inputs);
    assert_eq!(proof.production_metadata.constraint_count, 8);
    assert_eq!(proof.production_metadata.proof_size_bytes, 126);
    assert_eq!(proof.production_metadata.prover_config.prover_type, "boojum_production_prover");
}

#[test]
fn production_boojum_range_layout_and_stats() {
    let mut system = ProductionBoojumStarkSystem::new().unwrap();
    let proof = system.prove_amount_range(1000, 100, 10000).unwrap();
    let mut expected = b"BOOJUM_RANGE_PROOF_V1:AMOUNT_RANGE:".to_vec();
    expected.extend_from_slice(&100u64.to_le_bytes());
    expected.extend_from_slice(&10000u64.to_le_bytes());
    let mut hasher = Sha256::new();
    hasher.update(1000u64.to_le_bytes());
    hasher.update(100u64.to_le_bytes());
    hasher.update(10000u64.to_le_bytes());
    expected.extend_from_slice(hasher.finalize().as_slice());
    assert_eq!(proof.boojum_proof_data, expected);
    assert_eq!(proof.production_metadata.constraint_count, 2);

    // Running average of sizes: 83, then (83 + 126) / 2.
    assert_eq!(system.get_prover_statistics().avg_proof_size_bytes, 83);
    let _ = system.prove_transaction_validity(1, 1).unwrap();
    assert_eq!(system.get_prover_statistics().avg_proof_size_bytes, 104);
    assert!(system.verify_proof(&proof).unwrap());
}

#[test]
fn production_boojum_rejects_tampered_proofs() {
    let mut system = ProductionBoojumStarkSystem::new().unwrap();
    let mut proof = system.prove_transaction_validity(1000, 5000).unwrap();
    proof.security_level = 64;
    assert!(!system.verify_proof(&proof).unwrap());
    proof.security_level = 128;
    proof.boojum_proof_data[0] = b'X';
    assert!(!system.verify_proof(&proof).unwrap());
    proof.boojum_proof_data.clear();
    assert!(!system.verify_proof(&proof).unwrap());
    let stats = system.get_verifier_statistics();
    assert_eq!(stats.total_proofs_verified, 3);
    assert_eq!(stats.verification_error_count, 3);
}
