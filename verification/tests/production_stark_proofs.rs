use c0dl3_privacy::error::PrivacyError;
use c0dl3_privacy::production_stark_proofs::ProductionStarkProofSystem;
use sha2::{Digest, Sha256};

#[test]
fn test_production_stark_system_creation() {
    let _stark_system = ProductionStarkProofSystem::new().unwrap();
    assert!(true, "Production STARK system should be created successfully");
}

#[test]
fn production_stark_proofs_test_transaction_validity_proof() {
    let stark_system = ProductionStarkProofSystem::new().unwrap();
    let proof = stark_system.prove_transaction_validity(1000, 5000).unwrap();

    assert_eq!(proof.proof_type, "transaction_validity");
    assert_eq!(proof.security_level, 128);
    assert!(!proof.fri_proof.is_empty());
    assert!(!proof.public_inputs.is_empty());
    assert_eq!(proof.metadata.constraint_count, 4);
}

#[test]
fn production_stark_proofs_test_amount_range_proof() {
    let stark_system = ProductionStarkProofSystem::new().unwrap();
    let proof = stark_system.prove_amount_range(1000, 500, 2000).unwrap();

    assert_eq!(proof.proof_type, "amount_range");
    assert_eq!(proof.security_level, 128);
    assert!(!proof.fri_proof.is_empty());
    assert!(!proof.public_inputs.is_empty());
    assert_eq!(proof.metadata.constraint_count, 2);
}

#[test]
fn production_stark_proofs_test_balance_consistency_proof() {
    let stark_system = ProductionStarkProofSystem::new().unwrap();
    let proof = stark_system.prove_balance_consistency(1000, 1000).unwrap();

    assert_eq!(proof.proof_type, "balance_consistency");
    assert_eq!(proof.security_level, 128);
    assert!(!proof.fri_proof.is_empty());
    assert!(!proof.public_inputs.is_empty());
    assert_eq!(proof.metadata.constraint_count, 1);
}

#[test]
fn test_transaction_privacy_proof() {
    let stark_system = ProductionStarkProofSystem::new().unwrap();
    let proof = stark_system.prove_transaction_privacy(1000, 5000).unwrap();

    assert_eq!(proof.proof_type, "transaction_privacy");
    assert_eq!(proof.security_level, 128);
    assert!(!proof.fri_proof.is_empty());
    assert!(!proof.public_inputs.is_empty());
    assert_eq!(proof.metadata.constraint_count, 3);
}

#[test]
fn production_stark_proofs_test_proof_verification() {
    let stark_system = ProductionStarkProofSystem::new().unwrap();
    let proof = stark_system.prove_transaction_validity(1000, 5000).unwrap();

    let is_valid = stark_system.verify_proof(&proof).unwrap();
    assert!(is_valid);
}

#[test]
fn test_error_handling() {
    let stark_system = ProductionStarkProofSystem::new().unwrap();

    let result = stark_system.prove_transaction_validity(10000, 5000);
    assert!(result.is_err());

    let result = stark_system.prove_amount_range(1000, 2000, 5000);
    assert!(result.is_err());

    let result = stark_system.prove_balance_consistency(1000, 2000);
    assert!(result.is_err());
}

#[test]
fn field_element_layout() {
    let s = ProductionStarkProofSystem::new().unwrap();
    let p = s.prove_transaction_validity(3, 10).unwrap();
    let mut data = 3u64.to_le_bytes().to_vec();
    data.extend_from_slice(&10u64.to_le_bytes());
    data.extend_from_slice(&7u64.to_le_bytes());
    let mut sealed = data.clone();
    sealed.extend_from_slice(&Sha256::digest(&data));
    assert_eq!(p.fri_proof, sealed);
    assert_eq!(p.metadata.field_size, 0xffff_ffff_0000_0001);
    // Only the low 32 bits enter the field; the distance below the minimum
    // wraps modulo the field's prime.
    let r = s.prove_amount_range(5, 5, 5 + (1u64 << 32)).unwrap();
    assert_eq!(&r.fri_proof[0..8], &5u64.to_le_bytes());
    assert_eq!(&r.fri_proof[8..16], &0u64.to_le_bytes());
    assert!(s.verify_proof(&r).unwrap());
}

#[test]
fn tampered_proofs_fail_verification() {
    let s = ProductionStarkProofSystem::new().unwrap();
    let mut p = s.prove_transaction_privacy(1, 2).unwrap();
    assert!(s.verify_proof(&p).unwrap());
    p.fri_proof[0] ^= 1;
    assert!(!s.verify_proof(&p).unwrap());
    let mut q = s.prove_balance_consistency(2, 1).unwrap();
    q.fri_proof.truncate(31);
    assert!(!s.verify_proof(&q).unwrap());
    assert_eq!(s.prove_balance_consistency(1, 2).unwrap_err(), PrivacyError::InvalidBalanceTransition);
}
