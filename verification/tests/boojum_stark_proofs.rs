use c0dl3_privacy::boojum_stark_proofs::BoojumStarkProofSystem;
use c0dl3_privacy::error::PrivacyError;

#[test]
fn test_boojum_stark_system_creation() {
    let _boojum_system = BoojumStarkProofSystem::new().unwrap();
    assert!(true, "Boojum STARK system should be created successfully");
}

#[test]
fn test_boojum_transaction_validity_proof() {
    let boojum_system = BoojumStarkProofSystem::new().unwrap();
    let proof = boojum_system.prove_transaction_validity(1000, 5000).unwrap();

    assert_eq!(proof.proof_type, "boojum_transaction_validity");
    assert_eq!(proof.security_level, 128);
    assert!(!proof.boojum_proof_data.is_empty());
    assert!(!proof.public_inputs.is_empty());
    assert_eq!(proof.boojum_metadata.boojum_version, "main");
}

#[test]
fn test_boojum_amount_range_proof() {
    let boojum_system = BoojumStarkProofSystem::new().unwrap();
    let proof = boojum_system.prove_amount_range(1000, 100, 10000).unwrap();

    assert_eq!(proof.proof_type, "boojum_amount_range");
    assert_eq!(proof.security_level, 128);
    assert!(!proof.boojum_proof_data.is_empty());
    assert!(!proof.public_inputs.is_empty());
}

#[test]
fn test_boojum_balance_consistency_proof() {
    let boojum_system = BoojumStarkProofSystem::new().unwrap();
    let proof = boojum_system.prove_balance_consistency(5000, 1000).unwrap();

    assert_eq!(proof.proof_type, "boojum_balance_consistency");
    assert_eq!(proof.security_level, 128);
    assert!(!proof.boojum_proof_data.is_empty());
    assert!(!proof.public_inputs.is_empty());
}

#[test]
fn test_boojum_transaction_privacy_proof() {
    let boojum_system = BoojumStarkProofSystem::new().unwrap();
    let proof = boojum_system.prove_transaction_privacy(1000, 5000).unwrap();

    assert_eq!(proof.proof_type, "boojum_transaction_privacy");
    assert_eq!(proof.security_level, 128);
    assert!(!proof.boojum_proof_data.is_empty());
    assert!(!proof.public_inputs.is_empty());
}

#[test]
fn test_boojum_proof_verification() {
    let boojum_system = BoojumStarkProofSystem::new().unwrap();
    let proof = boojum_system.prove_transaction_validity(1000, 5000).unwrap();

    let is_valid = boojum_system.verify_proof(&proof).unwrap();
    assert!(is_valid);
}

#[test]
fn test_boojum_error_handling() {
    let boojum_system = BoojumStarkProofSystem::new().unwrap();

    let result = boojum_system.prove_transaction_validity(10000, 5000);
    assert!(result.is_err());

    let result = boojum_system.prove_amount_range(1000, 2000, 5000);
    assert!(result.is_err());

    let result = boojum_system.prove_balance_consistency(1000, 2000);
    assert!(result.is_err());
}

#[test]
fn validity_proof_encodes_amount_and_balance() {
    let s = BoojumStarkProofSystem::new().unwrap();
    let proof = s.prove_transaction_validity(1000, 5000).unwrap();
    let mut data = b"boojum_validity_proof:".to_vec();
    data.extend_from_slice(&1000u64.to_le_bytes());
    data.extend_from_slice(&5000u64.to_le_bytes());
    data.extend_from_slice(b":boojum_end");
    assert_eq!(proof.boojum_proof_data, data);
    assert_eq!(proof.public_inputs, b"boojum_validity_inputs:1000:5000".to_vec());
    assert_eq!(proof.boojum_metadata.constraint_count, 4);
    assert_eq!(proof.boojum_metadata.field_size, u64::MAX);
    assert_eq!(proof.boojum_metadata.fri_params.folding_factor, 4);
    assert_eq!(proof.boojum_metadata.fri_params.num_queries, 2);
    assert_eq!(proof.boojum_metadata.fri_params.grinding_factor, 1);
}

#[test]
fn range_and_balance_proofs_reveal_only_public_parts() {
    let s = BoojumStarkProofSystem::new().unwrap();
    let r = s.prove_amount_range(1000, 100, 10000).unwrap();
    assert_eq!(r.public_inputs, b"boojum_range_inputs:100:10000".to_vec());
    assert_eq!(r.boojum_metadata.constraint_count, 2);
    let b = s.prove_balance_consistency(5000, 1000).unwrap();
    assert_eq!(b.public_inputs, b"boojum_balance_inputs:1000".to_vec());
    let mut data = b"boojum_balance_proof:".to_vec();
    data.extend_from_slice(&5000u64.to_le_bytes());
    data.extend_from_slice(&1000u64.to_le_bytes());
    data.extend_from_slice(&4000u64.to_le_bytes());
    data.extend_from_slice(b":boojum_end");
    assert_eq!(b.boojum_proof_data, data);
    assert_eq!(b.boojum_metadata.constraint_count, 1);
}

#[test]
fn privacy_proof_carries_nothing_private() {
    let s = BoojumStarkProofSystem::new().unwrap();
    let p = s.prove_transaction_privacy(1000, 5000).unwrap();
    assert_eq!(p.boojum_proof_data, b"boojum_privacy_proof::boojum_end".to_vec());
    assert_eq!(p.public_inputs, b"boojum_privacy_proof:valid_transaction".to_vec());
    assert_eq!(p.boojum_metadata.constraint_count, 3);
}

#[test]
fn privacy_proofs_of_different_amounts_are_equal() {
    let s = BoojumStarkProofSystem::new().unwrap();
    let p1 = s.prove_transaction_privacy(1, 1).unwrap();
    let p2 = s.prove_transaction_privacy(2, 1).unwrap();
    let p3 = s.prove_transaction_privacy(u64::MAX, u64::MAX).unwrap();
    assert_eq!(p1.boojum_proof_data, p2.boojum_proof_data);
    assert_eq!(p1.public_inputs, p2.public_inputs);
    assert_eq!(p1.boojum_proof_data, p3.boojum_proof_data);
}

#[test]
fn privacy_proofs_are_not_verifiable_types() {
    let s = BoojumStarkProofSystem::new().unwrap();
    let p = s.prove_transaction_privacy(1, 2).unwrap();
    assert_eq!(s.verify_proof(&p).unwrap_err(), PrivacyError::UnknownProofType);
}

#[test]
fn error_variants_and_edges() {
    let s = BoojumStarkProofSystem::new().unwrap();
    assert_eq!(s.prove_transaction_validity(0, 5).unwrap_err(), PrivacyError::ZeroAmount);
    assert_eq!(s.prove_transaction_validity(6, 5).unwrap_err(), PrivacyError::InsufficientBalance);
    assert!(s.prove_transaction_validity(5, 5).is_ok());
    assert_eq!(s.prove_amount_range(5, 6, 9).unwrap_err(), PrivacyError::AmountOutOfRange);
    assert_eq!(s.prove_amount_range(10, 6, 9).unwrap_err(), PrivacyError::AmountOutOfRange);
    assert!(s.prove_amount_range(6, 6, 6).is_ok());
    assert_eq!(s.prove_balance_consistency(1, 2).unwrap_err(), PrivacyError::InsufficientBalance);
    assert!(s.prove_balance_consistency(2, 2).is_ok());
}

#[test]
fn verification_checks_nonempty_envelope() {
    let s = BoojumStarkProofSystem::new().unwrap();
    let mut p = s.prove_amount_range(1, 0, 2).unwrap();
    assert!(s.verify_proof(&p).unwrap());
    p.public_inputs.clear();
    assert!(!s.verify_proof(&p).unwrap());
    let mut q = s.prove_balance_consistency(3, 1).unwrap();
    q.boojum_proof_data.clear();
    assert!(!s.verify_proof(&q).unwrap());
}

#[test]
fn proofs_stamped_with_a_given_time() {
    let s = BoojumStarkProofSystem::new().unwrap();
    let p = s.prove_transaction_validity_at(1000, 5000, 12).unwrap();
    assert_eq!(p.boojum_metadata.timestamp, 12);
    assert_eq!(p.public_inputs, b"boojum_validity_inputs:1000:5000".to_vec());
    assert_eq!(s.prove_transaction_validity_at(0, 5, 12).unwrap_err(), PrivacyError::ZeroAmount);
    assert_eq!(s.prove_transaction_validity_at(6, 5, 12).unwrap_err(), PrivacyError::InsufficientBalance);
    assert_eq!(s.prove_amount_range_at(5, 1, 10, 13).unwrap().boojum_metadata.timestamp, 13);
    assert_eq!(s.prove_amount_range_at(11, 1, 10, 13).unwrap_err(), PrivacyError::AmountOutOfRange);
    assert_eq!(s.prove_balance_consistency_at(10, 4, 14).unwrap().boojum_metadata.timestamp, 14);
    assert_eq!(s.prove_balance_consistency_at(3, 4, 14).unwrap_err(), PrivacyError::InsufficientBalance);
    let q = s.prove_transaction_privacy_at(15);
    assert_eq!(q.boojum_proof_data, b"boojum_privacy_proof::boojum_end".to_vec());
    assert_eq!(q.boojum_metadata.timestamp, 15);
}
