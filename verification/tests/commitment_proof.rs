use c0dl3_privacy::commitment_proof::{
    compute_challenge, prove_commitment_knowledge, prove_commitment_knowledge_with_commitment, verify_commitment_knowledge,
};
use bulletproofs::PedersenGens;
use curve25519_dalek_ng::scalar::Scalar;
use sha2::{Digest, Sha256};

fn test_blinding() -> [u8; 32] {
    let mut bytes = [0u8; 64];
    rand::RngCore::fill_bytes(&mut rand::thread_rng(), &mut bytes);
    Scalar::from_bytes_mod_order_wide(&bytes).to_bytes()
}

fn value_to_scalar(value: u64) -> Scalar {
    let mut amount_padded = [0u8; 32];
    amount_padded[..8].copy_from_slice(&value.to_le_bytes());
    Scalar::from_bytes_mod_order(amount_padded)
}

#[test]
fn test_knowledge_proof_roundtrip() {
    let value = 42u64;
    let blinding = test_blinding();

    let proof = prove_commitment_knowledge(value, &blinding);
    assert!(verify_commitment_knowledge(&proof));
}

#[test]
fn test_knowledge_proof_wrong_value() {
    let blinding = test_blinding();
    let mut proof = prove_commitment_knowledge(100, &blinding);

    let gens = PedersenGens::default();
    let v_bad = value_to_scalar(999);
    let bad_commit = (v_bad * gens.B + Scalar::from_bytes_mod_order(blinding) * gens.B_blinding).compress();
    proof.commitment = *bad_commit.as_bytes();

    assert!(!verify_commitment_knowledge(&proof));
}

#[test]
fn test_knowledge_proof_wrong_blinding() {
    let blinding_a = test_blinding();
    let blinding_b = test_blinding();
    let value = 50u64;

    let mut proof = prove_commitment_knowledge(value, &blinding_a);

    let gens = PedersenGens::default();
    let v = value_to_scalar(value);
    let bad_commit = (v * gens.B + Scalar::from_bytes_mod_order(blinding_b) * gens.B_blinding).compress();
    proof.commitment = *bad_commit.as_bytes();

    assert!(!verify_commitment_knowledge(&proof));
}

#[test]
fn test_knowledge_proof_invalid_point() {
    let blinding = test_blinding();
    let mut proof = prove_commitment_knowledge(10, &blinding);

    proof.announcement = [0xFFu8; 32];

    assert!(!verify_commitment_knowledge(&proof));
}

#[test]
fn proof_for_given_commitment_verifies() {
    let blinding = test_blinding();
    let gens = PedersenGens::default();
    let c = gens.commit(value_to_scalar(77), Scalar::from_bytes_mod_order(blinding)).compress().to_bytes();
    let proof = prove_commitment_knowledge_with_commitment(77, &blinding, c);
    assert_eq!(proof.commitment, c);
    assert!(verify_commitment_knowledge(&proof));
}

#[test]
fn challenge_binds_the_announcement() {
    let blinding = test_blinding();
    let proof = prove_commitment_knowledge(5, &blinding);
    let mut h = Sha256::new();
    h.update(b"C0DL3:ck_proof:");
    h.update(proof.commitment);
    h.update(proof.announcement);
    let e = Scalar::from_bytes_mod_order(h.finalize().into());
    let gens = PedersenGens::default();
    let lhs = Scalar::from_bytes_mod_order(proof.response_v) * gens.B
        + Scalar::from_bytes_mod_order(proof.response_r) * gens.B_blinding;
    let c = curve25519_dalek_ng::ristretto::CompressedRistretto(proof.commitment).decompress().unwrap();
    let r = curve25519_dalek_ng::ristretto::CompressedRistretto(proof.announcement).decompress().unwrap();
    assert_eq!(lhs, r + e * c);
}

#[test]
fn tampered_response_fails() {
    let blinding = test_blinding();
    let mut proof = prove_commitment_knowledge(5, &blinding);
    proof.response_v[0] ^= 1;
    assert!(!verify_commitment_knowledge(&proof));
}

#[test]
fn test_knowledge_proof_deterministic_challenge() {
    let value = 77u64;
    let blinding = test_blinding();
    let gens = PedersenGens::default();

    let v = value_to_scalar(value);
    let c = (v * gens.B + Scalar::from_bytes_mod_order(blinding) * gens.B_blinding).compress();

    let k = Scalar::from(123u64);
    let r = (k * gens.B + k * gens.B_blinding).compress();

    let e1 = compute_challenge(c.as_bytes(), r.as_bytes());
    let e2 = compute_challenge(c.as_bytes(), r.as_bytes());

    assert_eq!(e1, e2, "Same inputs must produce the same challenge");
}
