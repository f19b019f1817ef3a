use c0dl3_privacy::block_commitment_proof::{
    generate_block_commitment_proof, verify_block_commitment_proof, BlockProofPublicInputs,
};
use sha2::{Digest, Sha256};

#[test]
fn test_empty_block_proof() {
    let proof = generate_block_commitment_proof(1, &[]).unwrap();
    assert_eq!(proof.tx_count, 0);
    assert_eq!(proof.proof_type, "STARK-COMMITMENT-V1");

    let inputs = BlockProofPublicInputs {
        block_height: 1,
        tx_count: 0,
        commitment_tree_root: proof.commitment_tree_root,
    };
    assert!(verify_block_commitment_proof(&proof, &inputs).unwrap());
}

#[test]
fn test_single_tx_proof() {
    let tx_commitment = b"pedersen_commitment_bytes_here".to_vec();
    let proof = generate_block_commitment_proof(42, &[tx_commitment]).unwrap();
    assert_eq!(proof.tx_count, 1);

    let inputs = BlockProofPublicInputs {
        block_height: 42,
        tx_count: 1,
        commitment_tree_root: proof.commitment_tree_root,
    };
    assert!(verify_block_commitment_proof(&proof, &inputs).unwrap());
}

#[test]
fn test_multi_tx_proof() {
    let txs: Vec<Vec<u8>> = (0u8..8).map(|i| vec![i; 32]).collect();
    let proof = generate_block_commitment_proof(100, &txs).unwrap();
    assert_eq!(proof.tx_count, 8);
    assert_eq!(proof.tx_commitment_hashes.len(), 8);

    let inputs = BlockProofPublicInputs {
        block_height: 100,
        tx_count: 8,
        commitment_tree_root: proof.commitment_tree_root,
    };
    assert!(verify_block_commitment_proof(&proof, &inputs).unwrap());
}

#[test]
fn test_tampered_proof_fails() {
    let txs = vec![b"tx1".to_vec(), b"tx2".to_vec()];
    let mut proof = generate_block_commitment_proof(5, &txs).unwrap();

    proof.tx_commitment_hashes[0][0] ^= 0xFF;

    let inputs = BlockProofPublicInputs {
        block_height: 5,
        tx_count: 2,
        commitment_tree_root: proof.commitment_tree_root,
    };
    assert!(!verify_block_commitment_proof(&proof, &inputs).unwrap());
}

#[test]
fn test_wrong_block_height_fails() {
    let proof = generate_block_commitment_proof(10, &[b"tx".to_vec()]).unwrap();
    let inputs = BlockProofPublicInputs {
        block_height: 99,
        tx_count: 1,
        commitment_tree_root: proof.commitment_tree_root,
    };
    assert!(!verify_block_commitment_proof(&proof, &inputs).unwrap());
}

#[test]
fn test_odd_tx_count_merkle() {
    let txs: Vec<Vec<u8>> = (0u8..3).map(|i| vec![i; 16]).collect();
    let proof = generate_block_commitment_proof(3, &txs).unwrap();
    let inputs = BlockProofPublicInputs {
        block_height: 3,
        tx_count: 3,
        commitment_tree_root: proof.commitment_tree_root,
    };
    assert!(verify_block_commitment_proof(&proof, &inputs).unwrap());
}

fn sha(parts: &[&[u8]]) -> [u8; 32] {
    let mut h = Sha256::new();
    for p in parts {
        h.update(p);
    }
    h.finalize().into()
}

#[test]
fn empty_block_root_is_hash_of_empty_block_tag() {
    let proof = generate_block_commitment_proof(1, &[]).unwrap();
    assert_eq!(proof.commitment_tree_root, sha(&[b"empty_block"]));
}

#[test]
fn leaves_and_root_follow_the_merkle_rule() {
    let txs: Vec<Vec<u8>> = vec![b"a".to_vec(), b"b".to_vec(), b"c".to_vec()];
    let proof = generate_block_commitment_proof(9, &txs).unwrap();
    let l: Vec<[u8; 32]> = txs.iter().map(|t| sha(&[b"tx_commitment", t])).collect();
    assert_eq!(proof.tx_commitment_hashes, l);
    let n01 = sha(&[&l[0], &l[1]]);
    let n22 = sha(&[&l[2], &l[2]]);
    let root = sha(&[&n01, &n22]);
    assert_eq!(proof.commitment_tree_root, root);
    let binding = sha(&[b"COLDL3:commitment:v1", &9u64.to_le_bytes(), &3u64.to_le_bytes(), &root]);
    assert_eq!(proof.proof_binding, binding);
}

#[test]
fn single_transaction_root_is_its_leaf() {
    let proof = generate_block_commitment_proof(4, &[b"x".to_vec()]).unwrap();
    assert_eq!(proof.commitment_tree_root, proof.tx_commitment_hashes[0]);
}

#[test]
fn wrong_count_root_or_binding_fail() {
    let txs = vec![b"tx1".to_vec(), b"tx2".to_vec()];
    let proof = generate_block_commitment_proof(5, &txs).unwrap();
    let good = BlockProofPublicInputs { block_height: 5, tx_count: 2, commitment_tree_root: proof.commitment_tree_root };
    let wrong_count = BlockProofPublicInputs { tx_count: 3, ..good.clone() };
    assert!(!verify_block_commitment_proof(&proof, &wrong_count).unwrap());
    let mut root = proof.commitment_tree_root;
    root[5] ^= 1;
    let wrong_root = BlockProofPublicInputs { commitment_tree_root: root, ..good.clone() };
    assert!(!verify_block_commitment_proof(&proof, &wrong_root).unwrap());
    let mut bad_binding = proof.clone();
    bad_binding.proof_binding[0] ^= 1;
    assert!(!verify_block_commitment_proof(&bad_binding, &good).unwrap());
    let mut dropped = proof.clone();
    dropped.tx_commitment_hashes.pop();
    assert!(!verify_block_commitment_proof(&dropped, &good).unwrap());
}

#[test]
fn large_blocks_verify() {
    for n in [5usize, 16, 17, 33] {
        let txs: Vec<Vec<u8>> = (0..n).map(|i| (i as u32).to_le_bytes().to_vec()).collect();
        let proof = generate_block_commitment_proof(n as u64, &txs).unwrap();
        let inputs = BlockProofPublicInputs {
            block_height: n as u64,
            tx_count: n as u64,
            commitment_tree_root: proof.commitment_tree_root,
        };
        assert!(verify_block_commitment_proof(&proof, &inputs).unwrap());
    }
}
