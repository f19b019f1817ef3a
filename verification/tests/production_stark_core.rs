use c0dl3_privacy::error::PrivacyError;
use c0dl3_privacy::production_stark_core::{ProductionStarkProofSystem, ProofType};
use sha2::{Digest, Sha256};

#[test]
fn test_production_stark_proof_system_creation() {
    let stark_system = ProductionStarkProofSystem::new();
    assert!(stark_system.is_ok());
}

#[test]
fn production_stark_core_test_transaction_validity_proof() {
    let mut stark_system = ProductionStarkProofSystem::new().unwrap();
    let recipient_address = b"0x1234567890123456789012345678901234567890";

    let proof = stark_system.prove_transaction_validity(1000, 5000, recipient_address);
    assert!(proof.is_ok());

    let proof = proof.unwrap();
    assert_eq!(proof.proof_type, ProofType::TransactionValidity);
    assert_eq!(proof.security_level, 128);
    assert!(!proof.proof_data.is_empty());
    assert!(!proof.public_inputs.is_empty());
}

#[test]
fn production_stark_core_test_amount_range_proof() {
    let mut stark_system = ProductionStarkProofSystem::new().unwrap();

    let proof = stark_system.prove_amount_range(1000, 500, 2000);
    assert!(proof.is_ok());

    let proof = proof.unwrap();
    assert_eq!(proof.proof_type, ProofType::AmountRange);
    assert_eq!(proof.security_level, 128);
    assert!(!proof.proof_data.is_empty());
    assert!(!proof.public_inputs.is_empty());
}

#[test]
fn production_stark_core_test_balance_consistency_proof() {
    let mut stark_system = ProductionStarkProofSystem::new().unwrap();

    let proof = stark_system.prove_balance_consistency(5000, 4000, 1000);
    assert!(proof.is_ok());

    let proof = proof.unwrap();
    assert_eq!(proof.proof_type, ProofType::BalanceConsistency);
    assert_eq!(proof.security_level, 128);
    assert!(!proof.proof_data.is_empty());
    assert!(!proof.public_inputs.is_empty());
}

#[test]
fn production_stark_core_test_proof_verification() {
    let mut stark_system = ProductionStarkProofSystem::new().unwrap();
    let recipient_address = b"0x1234567890123456789012345678901234567890";

    let proof = stark_system.prove_transaction_validity(1000, 5000, recipient_address).unwrap();
    let is_valid = stark_system.verify_proof(&proof);

    assert!(is_valid.is_ok());
    assert!(is_valid.unwrap());
}

#[test]
fn test_proof_type_identifiers() {
    assert_eq!(ProofType::TransactionValidity.identifier(), "transaction_validity");
    assert_eq!(ProofType::AmountRange.identifier(), "amount_range");
    assert_eq!(ProofType::BalanceConsistency.identifier(), "balance_consistency");
    assert_eq!(ProofType::CrossChain.identifier(), "cross_chain");
    assert_eq!(ProofType::MiningReward.identifier(), "mining_reward");
    assert_eq!(ProofType::MergeMining.identifier(), "merge_mining");
}

#[test]
fn core_proof_layout_and_hash() {
    let mut s = ProductionStarkProofSystem::new().unwrap();
    let p = s.prove_transaction_validity(7, 9, b"ab").unwrap();
    let mut expected = vec![32u8, 4, 8];
    expected.extend_from_slice(&1u64.to_le_bytes());
    expected.extend_from_slice(&7u64.to_le_bytes());
    expected.extend_from_slice(&2u64.to_le_bytes());
    expected.extend_from_slice(&9u64.to_le_bytes());
    expected.extend_from_slice(&7u64.to_le_bytes());
    assert_eq!(p.proof_data, expected);
    let mut inputs = 7u64.to_le_bytes().to_vec();
    inputs.extend_from_slice(b"ab");
    assert_eq!(p.public_inputs, inputs);
    assert_eq!(p.metadata.proof_hash, Sha256::digest(&p.proof_data).to_vec());
    assert_eq!(p.metadata.prover_id, "c0dl3-stark-prover");
    assert_eq!(p.field_size, 0xffff_ffff_0000_0001);
    assert_eq!(p.constraint_count, 2);
    let r = s.prove_amount_range(5, 1, 10).unwrap();
    let mut inputs = 1u64.to_le_bytes().to_vec();
    inputs.extend_from_slice(&10u64.to_le_bytes());
    assert_eq!(r.public_inputs, inputs);
    assert_eq!(r.constraint_count, 1);
}

#[test]
fn core_errors() {
    let mut s = ProductionStarkProofSystem::new().unwrap();
    assert_eq!(s.prove_transaction_validity(0, 5, b"a").unwrap_err(), PrivacyError::ZeroAmount);
    assert_eq!(s.prove_transaction_validity(6, 5, b"a").unwrap_err(), PrivacyError::InsufficientBalance);
    assert_eq!(s.prove_amount_range(11, 1, 10).unwrap_err(), PrivacyError::AmountOutOfRange);
    assert_eq!(s.prove_balance_consistency(1, 0, 2).unwrap_err(), PrivacyError::InsufficientBalance);
    let mut p = s.prove_balance_consistency(5, 3, 2).unwrap();
    p.public_inputs.clear();
    assert_eq!(s.verify_proof(&p).unwrap_err(), PrivacyError::EmptyPublicInputs);
    p.proof_data.clear();
    assert_eq!(s.verify_proof(&p).unwrap_err(), PrivacyError::EmptyProofData);
}
