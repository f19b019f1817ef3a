use c0dl3_privacy::confidential_transactions::AmountCommitment;
use c0dl3_privacy::error::PrivacyError;

#[test]
fn test_commitment_creation() {
    let amount = 1000u64;
    let commitment = AmountCommitment::new(amount).unwrap();

    assert_eq!(commitment.commitment.len(), 32);
    assert_eq!(commitment.blinding_factor.len(), 32);

    assert!(commitment.verify(amount).unwrap());
}

#[test]
fn test_commitment_hiding() {
    let amount = 5000u64;

    let c1 = AmountCommitment::new(amount).unwrap();
    let c2 = AmountCommitment::new(amount).unwrap();

    assert_ne!(c1.commitment, c2.commitment);

    assert!(c1.verify(amount).unwrap());
    assert!(c2.verify(amount).unwrap());
}

#[test]
fn confidential_transactions_test_commitment_verification() {
    let amount = 10000u64;
    let commitment = AmountCommitment::new(amount).unwrap();

    assert!(commitment.verify(amount).unwrap());

    assert!(!commitment.verify(amount + 1).unwrap());
}

#[test]
fn test_homomorphic_addition() {
    let amount1 = 1000u64;
    let amount2 = 2000u64;

    let c1 = AmountCommitment::new(amount1).unwrap();
    let c2 = AmountCommitment::new(amount2).unwrap();
    let c_sum = c1.add(&c2).unwrap();

    assert!(c_sum.verify(amount1 + amount2).unwrap());
}

#[test]
fn test_homomorphic_subtraction() {
    let amount1 = 5000u64;
    let amount2 = 2000u64;

    let c1 = AmountCommitment::new(amount1).unwrap();
    let c2 = AmountCommitment::new(amount2).unwrap();
    let c_diff = c1.subtract(&c2).unwrap();

    assert!(c_diff.verify(amount1 - amount2).unwrap());
}

#[test]
fn test_zero_amount_rejected() {
    let result = AmountCommitment::new(0);
    assert!(result.is_err());
}

#[test]
fn confidential_transactions_test_commitment_hash() {
    let commitment = AmountCommitment::new(1000).unwrap();
    let hash = commitment.hash();

    assert_eq!(hash.len(), 64);
    assert!(hash.chars().all(|c| c.is_ascii_hexdigit()));
}

#[test]
fn test_commitment_point_conversion() {
    let commitment = AmountCommitment::new(5000).unwrap();
    let point = commitment.to_point().unwrap();
    let compressed = point.compress().to_bytes();
    assert_eq!(commitment.commitment, compressed);
}

#[test]
fn test_range_proof_valid() {
    let amount = 42u64;
    let bits = 64usize;
    let commitment = AmountCommitment::new(amount).unwrap();
    let (proof_bytes, _c_bytes) = commitment.prove_range(amount, bits).unwrap();
    assert!(commitment.verify_range(&proof_bytes, bits).unwrap());
}

#[test]
fn test_range_proof_invalid_amount() {
    let amount = 500u64;
    let bits = 16usize;
    let commitment = AmountCommitment::new(amount).unwrap();
    let other = AmountCommitment::new(amount + 1).unwrap();
    let (proof_bytes, _c) = other.prove_range(amount + 1, bits).unwrap();
    assert!(!commitment.verify_range(&proof_bytes, bits).unwrap());
}

#[test]
fn bad_blinding_length_is_refused() {
    let mut c = AmountCommitment::new(3).unwrap();
    c.blinding_factor.pop();
    assert_eq!(c.verify(3).unwrap_err(), PrivacyError::InvalidBlindingLength);
}

#[test]
fn invalid_point_is_refused() {
    let mut c = AmountCommitment::new(3).unwrap();
    c.commitment = [0xFFu8; 32];
    assert_eq!(c.to_point().unwrap_err(), PrivacyError::InvalidPoint);
    let other = AmountCommitment::new(4).unwrap();
    assert_eq!(c.add(&other).unwrap_err(), PrivacyError::InvalidPoint);
    assert_eq!(other.subtract(&c).unwrap_err(), PrivacyError::InvalidPoint);
}

#[test]
fn range_bit_length_errors() {
    let c = AmountCommitment::new(3).unwrap();
    assert_eq!(c.prove_range(3, 0).unwrap_err(), PrivacyError::InvalidBitLength);
    assert_eq!(c.prove_range(3, 65).unwrap_err(), PrivacyError::InvalidBitLength);
    assert_eq!(c.prove_range(3, 12).unwrap_err(), PrivacyError::RangeProofFailed);
    assert_eq!(c.verify_range(&[0u8; 10], 0).unwrap_err(), PrivacyError::InvalidBitLength);
    assert_eq!(c.verify_range(&[0u8; 10], 64).unwrap_err(), PrivacyError::InvalidRangeProofBytes);
}

#[test]
fn range_proof_for_wrong_amount_is_refused() {
    let c = AmountCommitment::new(3).unwrap();
    assert_eq!(c.prove_range(4, 32).unwrap_err(), PrivacyError::RangeProofMismatch);
}
