use c0dl3_privacy::amount_commitments::{AmountCommitment, CommitmentBatch, RangeProof};
use c0dl3_privacy::error::PrivacyError;
use sha2::{Digest, Sha256};

#[test]
fn test_amount_commitment_creation() {
    let commitment = AmountCommitment::new(1000).unwrap();

    assert!(!commitment.commitment.is_empty());
    assert!(!commitment.blinding_factor.is_empty());
    assert_eq!(commitment.metadata.version, 1);
}

#[test]
fn amount_commitments_test_commitment_verification() {
    let commitment = AmountCommitment::new(1000).unwrap();
    let is_valid = commitment.verify_commitment(1000).unwrap();

    assert!(is_valid);
}

#[test]
fn test_range_proof_generation() {
    let commitment = AmountCommitment::new(1000).unwrap();
    let range_proof = commitment.prove_amount_range(1000, 10000).unwrap();

    assert_eq!(range_proof.min_amount, 0);
    assert_eq!(range_proof.max_amount, 10000);
    assert!(!range_proof.proof_data.is_empty());
    assert!(!range_proof.public_inputs.is_empty());
}

#[test]
fn test_range_proof_verification() {
    let commitment = AmountCommitment::new(1000).unwrap();
    let range_proof = commitment.prove_amount_range(1000, 10000).unwrap();
    let is_valid = commitment.verify_range_proof(&range_proof).unwrap();

    assert!(is_valid);
}

#[test]
fn amount_commitments_test_commitment_hash() {
    let commitment = AmountCommitment::new(1000).unwrap();
    let hash = commitment.get_commitment_hash();

    assert!(!hash.is_empty());
    assert_eq!(hash.len(), 64);
}

#[test]
fn test_commitment_batch() {
    let commitments = vec![
        AmountCommitment::new(1000).unwrap(),
        AmountCommitment::new(2000).unwrap(),
        AmountCommitment::new(3000).unwrap(),
    ];

    let batch = CommitmentBatch::new(commitments).unwrap();
    let is_valid = batch.verify_batch().unwrap();

    assert!(is_valid);
    assert_eq!(batch.metadata.count, 3);
}

#[test]
fn test_zero_amount_error() {
    let result = AmountCommitment::new(0);
    assert!(result.is_err());
}

#[test]
fn test_invalid_range_proof() {
    let commitment = AmountCommitment::new(1000).unwrap();
    let result = commitment.prove_amount_range(1000, 500);

    assert!(result.is_err());
}

#[test]
fn commitment_is_sha256_of_amount_and_blinding() {
    let c = AmountCommitment::new(1000).unwrap();
    let mut h = Sha256::new();
    h.update(1000u64.to_le_bytes());
    h.update(&c.blinding_factor);
    assert_eq!(c.commitment, h.finalize().to_vec());
    assert_eq!(c.blinding_factor.len(), 32);
    assert_eq!(c.metadata.max_amount, u64::MAX);
}

#[test]
fn commitment_does_not_open_to_another_amount() {
    let c = AmountCommitment::new(1000).unwrap();
    assert!(!c.verify_commitment(1001).unwrap());
    assert!(c.open_commitment(1000).unwrap());
}

#[test]
fn commitment_hash_is_hex_sha256_of_commitment_and_blinding() {
    let c = AmountCommitment::new(42).unwrap();
    let mut h = Sha256::new();
    h.update(&c.commitment);
    h.update(&c.blinding_factor);
    assert_eq!(c.get_commitment_hash(), hex::encode(h.finalize()));
}

#[test]
fn range_proof_data_and_inputs_have_the_documented_format() {
    let c = AmountCommitment::new(7).unwrap();
    let p = c.prove_amount_range(7, 90).unwrap();
    let expected = format!("range_proof:0:90:{}", c.get_commitment_hash());
    assert_eq!(p.proof_data, expected.as_bytes().to_vec());
    assert_eq!(p.public_inputs, b"range_inputs:0:90".to_vec());
}

#[test]
fn range_proof_does_not_reveal_the_amount() {
    let c = AmountCommitment::new(5).unwrap();
    let p1 = c.prove_amount_range(1, 10).unwrap();
    let p2 = c.prove_amount_range(2, 10).unwrap();
    assert_eq!(p1.proof_data, p2.proof_data);
    assert_eq!(p1.public_inputs, p2.public_inputs);
    assert_eq!(p1.min_amount, p2.min_amount);
    assert_eq!(p1.max_amount, p2.max_amount);
}

#[test]
fn range_proof_errors_are_distinguished() {
    let c = AmountCommitment::new(7).unwrap();
    assert_eq!(c.prove_amount_range(0, 10).unwrap_err(), PrivacyError::ZeroAmount);
    assert_eq!(c.prove_amount_range(11, 10).unwrap_err(), PrivacyError::AmountExceedsMaximum);
    assert!(c.prove_amount_range(10, 10).is_ok());
}

#[test]
fn malformed_range_proofs_fail_verification() {
    let c = AmountCommitment::new(7).unwrap();
    let empty = RangeProof { proof_data: vec![], public_inputs: vec![1], min_amount: 0, max_amount: 1 };
    assert!(!c.verify_range_proof(&empty).unwrap());
    let inverted = RangeProof { proof_data: vec![1], public_inputs: vec![1], min_amount: 5, max_amount: 1 };
    assert!(!c.verify_range_proof(&inverted).unwrap());
}

#[test]
fn batch_proof_lists_commitment_hashes() {
    let a = AmountCommitment::new(1).unwrap();
    let b = AmountCommitment::new(2).unwrap();
    let hashes = vec![a.get_commitment_hash(), b.get_commitment_hash()];
    let batch = CommitmentBatch::new(vec![a, b]).unwrap();
    let expected = format!("batch_proof:{:?}", hashes);
    assert_eq!(batch.batch_proof, expected.as_bytes().to_vec());
}

#[test]
fn empty_commitment_batch_is_refused() {
    assert_eq!(CommitmentBatch::new(Vec::new()).unwrap_err(), PrivacyError::EmptyBatch);
}

#[test]
fn batch_with_empty_commitment_fails_verification() {
    let mut a = AmountCommitment::new(1).unwrap();
    a.commitment.clear();
    let batch = CommitmentBatch::new(vec![a]).unwrap();
    assert!(!batch.verify_batch().unwrap());
}

#[test]
fn commitment_with_given_blinding_and_time() {
    let blinding = vec![7u8; 32];
    let c = AmountCommitment::new_at(1000, blinding.clone(), 99).unwrap();
    let mut h = Sha256::new();
    h.update(1000u64.to_le_bytes());
    h.update(&blinding);
    assert_eq!(c.commitment, h.finalize().to_vec());
    assert_eq!(c.blinding_factor, blinding);
    assert_eq!(c.metadata.timestamp, 99);
    assert_eq!(AmountCommitment::new_at(0, blinding, 99).unwrap_err(), PrivacyError::ZeroAmount);
}

#[test]
fn commitment_batch_with_given_time() {
    let c = AmountCommitment::new_at(10, vec![1u8; 32], 3).unwrap();
    let b = CommitmentBatch::new_at(vec![c], 8).unwrap();
    assert_eq!(b.metadata.count, 1);
    assert_eq!(b.metadata.timestamp, 8);
    assert!(b.verify_batch().unwrap());
    assert_eq!(CommitmentBatch::new_at(vec![], 8).unwrap_err(), PrivacyError::EmptyBatch);
}
