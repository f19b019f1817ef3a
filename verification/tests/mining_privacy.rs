use c0dl3_privacy::mining_privacy::{
    AnonymousRewardClaim, MergeMiningPrivacyConfig, MiningPrivacyConfig, MiningPrivacyEngine,
};
use sha2::{Digest, Sha256};

fn hex_sha(parts: &[&[u8]]) -> String {
    let mut h = Sha256::new();
    for p in parts {
        h.update(p);
    }
    hex::encode(h.finalize())
}

#[test]
fn test_private_mining_reward_creation() {
    let config = MiningPrivacyConfig::default();
    let mut engine = MiningPrivacyEngine::new(config);

    let reward = engine.create_private_reward(1000, "test_block_hash", "test_mining_proof").unwrap();

    assert!(!reward.reward_commitment.is_empty());
    assert_eq!(reward.anonymity_set.len(), 100);
    assert!(!reward.claim_proof.is_empty());
}

#[test]
fn test_anonymous_reward_claim() {
    let config = MiningPrivacyConfig::default();
    let mut engine = MiningPrivacyEngine::new(config);

    let reward = engine.create_private_reward(1000, "test_block_hash", "test_mining_proof").unwrap();

    let claim = engine.create_anonymous_claim(&reward, 1000).unwrap();

    assert!(!claim.claim_commitment.is_empty());
    assert!(!claim.anonymity_proof.is_empty());
    assert!(!claim.reward_proof.is_empty());
    assert!(!claim.mixing_proof.is_empty());
}

#[test]
fn test_reward_claim_verification() {
    let config = MiningPrivacyConfig::default();
    let mut engine = MiningPrivacyEngine::new(config);

    let reward = engine.create_private_reward(1000, "test_block_hash", "test_mining_proof").unwrap();

    let claim = engine.create_anonymous_claim(&reward, 1000).unwrap();

    let is_valid = engine.verify_reward_claim(&claim).unwrap();
    assert!(is_valid);
}

#[test]
fn test_privacy_stats() {
    let config = MiningPrivacyConfig::default();
    let mut engine = MiningPrivacyEngine::new(config);

    engine.create_private_reward(1000, "block1", "proof1").unwrap();
    engine.create_private_reward(2000, "block2", "proof2").unwrap();

    let stats = engine.get_privacy_stats().unwrap();
    assert_eq!(stats.total_rewards, 2);
    assert_eq!(stats.anonymity_set_size, 100);
    assert_eq!(stats.privacy_level, 128);
}

#[test]
fn default_configurations() {
    let c = MiningPrivacyConfig::default();
    assert!(c.private_rewards && c.reward_mixing && c.zero_knowledge_proofs);
    assert_eq!(c.anonymity_set_size, 100);
    assert_eq!(c.mixing_rounds, 3);
    assert_eq!(c.privacy_level, 128);
    let m = MergeMiningPrivacyConfig::default();
    assert!(m.fuego_privacy && m.c0dl3_privacy && m.cross_chain_privacy);
    assert_eq!(m.mining_privacy.anonymity_set_size, 100);
}

#[test]
fn reward_commitment_and_claim_proof_values() {
    let mut engine = MiningPrivacyEngine::new(MiningPrivacyConfig::default());
    let reward = engine.create_private_reward(1000, "blk", "work").unwrap();
    let expected = hex_sha(&[&1000u64.to_le_bytes(), b"blk", &[128u8]]);
    assert_eq!(reward.reward_commitment, expected);
    assert_eq!(
        reward.claim_proof,
        hex_sha(&[&1000u64.to_le_bytes(), expected.as_bytes(), b"claim_proof"])
    );
    assert_eq!(reward.block_hash, "blk");
    assert_eq!(reward.mining_proof, "work");
    for (i, member) in reward.anonymity_set.iter().enumerate() {
        let t = reward.timestamp;
        // Members are stamped with the clock when made; allow the second to move on.
        let ok = (t.saturating_sub(2)..=t + 2)
            .any(|s| *member == hex_sha(&[&(i as u32).to_le_bytes(), &s.to_le_bytes()]));
        assert!(ok);
    }
}

#[test]
fn claim_proofs_have_the_documented_values() {
    let mut engine = MiningPrivacyEngine::new(MiningPrivacyConfig::default());
    let reward = engine.create_private_reward(5, "b", "p").unwrap();
    let claim = engine.create_anonymous_claim(&reward, 5).unwrap();
    let set: Vec<u8> = reward.anonymity_set.iter().flat_map(|s| s.as_bytes().to_vec()).collect();
    assert_eq!(claim.anonymity_proof, hex_sha(&[&set, b"anonymity_proof"]));
    assert_eq!(claim.mixing_proof, hex_sha(&[&set, &[3u8], b"mixing_proof"]));
    assert_eq!(
        claim.reward_proof,
        hex_sha(&[
            reward.reward_commitment.as_bytes(),
            reward.mining_proof.as_bytes(),
            reward.block_hash.as_bytes(),
            b"reward_proof"
        ])
    );
    assert_eq!(claim.claim_commitment.len(), 64);
}

#[test]
fn a_claim_is_accepted_once() {
    let mut engine = MiningPrivacyEngine::new(MiningPrivacyConfig::default());
    let reward = engine.create_private_reward(1000, "b", "p").unwrap();
    let claim = engine.create_anonymous_claim(&reward, 1000).unwrap();
    assert!(engine.verify_reward_claim(&claim).unwrap());
    assert!(!engine.verify_reward_claim(&claim).unwrap());
    assert_eq!(engine.get_privacy_stats().unwrap().total_claims, 1);
    for _ in 0..5 {
        assert!(!engine.verify_reward_claim(&claim).unwrap());
    }
    assert_eq!(engine.get_privacy_stats().unwrap().total_claims, 1);
}

#[test]
fn reward_with_a_given_set_and_time() {
    let mut engine = MiningPrivacyEngine::new(MiningPrivacyConfig::default());
    let set = vec!["m0".to_string(), "m1".to_string()];
    let reward = engine.create_private_reward_with(1000, "b", "p", set.clone(), 42);
    assert_eq!(reward.anonymity_set, set);
    assert_eq!(reward.timestamp, 42);
    assert_eq!(reward.reward_commitment.len(), 64);
    assert_eq!(reward.block_hash, "b");
}

#[test]
fn malformed_claims_are_refused_and_not_recorded() {
    let mut engine = MiningPrivacyEngine::new(MiningPrivacyConfig::default());
    let good = "a".repeat(64);
    let claim = AnonymousRewardClaim {
        claim_commitment: "c".to_string(),
        anonymity_proof: "short".to_string(),
        reward_proof: good.clone(),
        mixing_proof: good.clone(),
    };
    assert!(!engine.verify_reward_claim(&claim).unwrap());
    let claim2 = AnonymousRewardClaim {
        claim_commitment: "c".to_string(),
        anonymity_proof: good.clone(),
        reward_proof: good.clone(),
        mixing_proof: "x".repeat(65),
    };
    assert!(!engine.verify_reward_claim(&claim2).unwrap());
    assert_eq!(engine.get_privacy_stats().unwrap().total_claims, 0);
    let claim3 = AnonymousRewardClaim {
        claim_commitment: "c".to_string(),
        anonymity_proof: good.clone(),
        reward_proof: good.clone(),
        mixing_proof: good.clone(),
    };
    assert!(engine.verify_reward_claim(&claim3).unwrap());
    assert_eq!(engine.get_privacy_stats().unwrap().total_claims, 1);
}

#[test]
fn same_commitment_replaces_the_stored_reward() {
    let mut engine = MiningPrivacyEngine::new(MiningPrivacyConfig::default());
    engine.create_private_reward(7, "same", "p1").unwrap();
    engine.create_private_reward(7, "same", "p2").unwrap();
    engine.create_private_reward(8, "same", "p3").unwrap();
    assert_eq!(engine.get_privacy_stats().unwrap().total_rewards, 2);
}

#[test]
fn reward_commitment_and_claim_proof_are_sixty_four_hex_digits() {
    let mut engine = MiningPrivacyEngine::new(MiningPrivacyConfig::default());
    let reward = engine.create_private_reward(7, "block", "proof").unwrap();
    assert_eq!(reward.reward_commitment.len(), 64);
    assert_eq!(reward.claim_proof.len(), 64);
    assert!(reward.claim_proof.chars().all(|c| c.is_ascii_hexdigit() && !c.is_ascii_uppercase()));
}
