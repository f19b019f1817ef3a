use c0dl3_privacy::advanced_privacy_starks::{AdvancedPrivacyConfig, AdvancedPrivacyProofType};
use c0dl3_privacy::privacy_engine::{PrivacyEngine, PrivacyFlags};

#[test]
fn default_flags_are_all_off() {
    let f = PrivacyFlags::default();
    assert!(!f.anonymous_validators && !f.encrypted_transactions);
    assert!(!f.private_governance && !f.cross_chain_privacy);
}

#[test]
fn engine_keeps_its_flags() {
    let flags = PrivacyFlags {
        anonymous_validators: true,
        encrypted_transactions: false,
        private_governance: true,
        cross_chain_privacy: false,
    };
    let engine = PrivacyEngine::new(flags);
    assert_eq!(*engine.get_privacy_flags(), flags);
}

#[test]
fn proof_type_identifiers() {
    let all = [
        (AdvancedPrivacyProofType::CrossChainPrivacy, "cross_chain_privacy"),
        (AdvancedPrivacyProofType::MiningPrivacy, "mining_privacy"),
        (AdvancedPrivacyProofType::PrivacyAggregation, "privacy_aggregation"),
        (AdvancedPrivacyProofType::RecursivePrivacy, "recursive_privacy"),
        (AdvancedPrivacyProofType::ParallelPrivacy, "parallel_privacy"),
        (AdvancedPrivacyProofType::ComplexPrivacy, "complex_privacy"),
    ];
    for (t, id) in all.iter() {
        assert_eq!(t.identifier(), *id);
    }
    for i in 0..all.len() {
        for j in 0..all.len() {
            if i != j {
                assert_ne!(all[i].0.identifier(), all[j].0.identifier());
            }
        }
    }
}

#[test]
fn advanced_config_default() {
    let c = AdvancedPrivacyConfig::default();
    assert!(c.cross_chain_privacy && c.mining_privacy && c.privacy_aggregation);
    assert!(c.recursive_proofs && c.parallel_processing);
    assert_eq!(c.max_aggregation_size, 1000);
    assert_eq!(c.max_recursion_depth, 10);
    assert_eq!(c.security_level, 128);
}
