use c0dl3_privacy::cross_chain_privacy::{
    privacy_level_of, BlockchainNetwork, BridgeConfiguration, BridgePrivacySettings, BridgeType,
    CrossChainPrivacyAnalytics, CrossChainPrivacyCoordinator, CrossChainPrivacyProof, CrossChainProofMetadata, NetworkType,
    PrivacyCapabilities, PrivacyStatus,
};
use c0dl3_privacy::error::PrivacyError;
use sha2::{Digest, Sha256};

fn mock_proof() -> CrossChainPrivacyProof {
    CrossChainPrivacyProof {
        proof_id: "test_proof_id".to_string(),
        source_chain: "zkc0dl3".to_string(),
        destination_chain: "ethereum".to_string(),
        cross_chain_tx_hash: "test_cross_chain_hash".to_string(),
        privacy_proof_data: vec![1, 2, 3, 4, 5],
        metadata: CrossChainProofMetadata {
            timestamp: 1234567890,
            version: 1,
            privacy_level: 100,
            protocol: "cross_chain_privacy_v1".to_string(),
            bridge_type: "lock_and_mint".to_string(),
        },
    }
}

fn polkadot() -> BlockchainNetwork {
    BlockchainNetwork {
        network_id: "polkadot".to_string(),
        network_name: "Polkadot".to_string(),
        network_type: NetworkType::Polkadot,
        privacy_capabilities: PrivacyCapabilities {
            amount_privacy: true,
            address_privacy: false,
            timing_privacy: false,
            zk_proofs: true,
            mixing: false,
            privacy_level: 70,
        },
        bridge_config: BridgeConfiguration {
            bridge_address: "dot1".to_string(),
            bridge_type: BridgeType::Custom("xcm".to_string()),
            privacy_settings: BridgePrivacySettings {
                encrypt_transactions: true,
                use_privacy_proofs: true,
                mix_transactions: false,
                bridge_privacy_level: 70,
            },
        },
    }
}

#[test]
fn test_cross_chain_privacy_coordinator_creation() {
    let coordinator = CrossChainPrivacyCoordinator::new();
    assert_eq!(coordinator.get_supported_networks().len(), 3);
}

#[test]
fn test_supported_networks() {
    let coordinator = CrossChainPrivacyCoordinator::new();
    let networks = coordinator.get_supported_networks();

    assert_eq!(networks.len(), 3);
    assert!(networks.iter().any(|n| n.network_id == "ethereum"));
    assert!(networks.iter().any(|n| n.network_id == "bitcoin"));
    assert!(networks.iter().any(|n| n.network_id == "cosmos"));
}

#[test]
fn test_cross_chain_transaction_creation() {
    let mut coordinator = CrossChainPrivacyCoordinator::new();
    let result =
        coordinator.create_cross_chain_transaction("test_tx_hash", "ethereum", "0x1234567890123456789012345678901234567890");
    assert!(result.is_ok());

    let proof = result.unwrap();
    assert_eq!(proof.destination_chain, "ethereum");
    assert_eq!(proof.metadata.privacy_level, 100);
}

#[test]
fn test_cross_chain_privacy_proof_verification() {
    let coordinator = CrossChainPrivacyCoordinator::new();
    let is_valid = coordinator.verify_cross_chain_privacy_proof(&mock_proof()).unwrap();
    assert!(is_valid);
}

#[test]
fn test_cross_chain_metrics() {
    let coordinator = CrossChainPrivacyCoordinator::new();
    let metrics = coordinator.get_cross_chain_metrics().unwrap();
    assert_eq!(metrics.supported_networks_count, 3);
}

#[test]
fn transaction_has_the_documented_hash_data_and_mapping() {
    let mut c = CrossChainPrivacyCoordinator::new();
    let p = c.create_cross_chain_transaction("src_hash", "cosmos", "addr").unwrap();
    let mut h = Sha256::new();
    h.update(b"src_hash");
    h.update(b"cosmos");
    h.update(p.metadata.timestamp.to_le_bytes());
    assert_eq!(p.cross_chain_tx_hash, hex::encode(h.finalize()));
    assert_eq!(p.privacy_proof_data, b"cross_chain_privacy_proof:src_hashcosmos:privacy_maintained".to_vec());
    assert_eq!(p.source_chain, "zkc0dl3");
    assert_eq!(p.proof_id.len(), 64);
    let mappings = c.get_transaction_mappings().unwrap();
    assert_eq!(mappings.len(), 1);
    assert_eq!(mappings[0].source_tx_hash, "src_hash");
    assert_eq!(mappings[0].destination_tx_hash, p.cross_chain_tx_hash);
    assert_eq!(mappings[0].privacy_status, PrivacyStatus::Maintained);
    let m = c.get_cross_chain_metrics().unwrap();
    assert_eq!(m.total_cross_chain_transactions, 1);
    assert_eq!(m.privacy_maintained_transactions, 1);
    assert!(c.verify_cross_chain_privacy_proof(&p).unwrap());
}

#[test]
fn unsupported_destination_is_refused() {
    let mut c = CrossChainPrivacyCoordinator::new();
    assert_eq!(
        c.create_cross_chain_transaction("h", "solana", "a").unwrap_err(),
        PrivacyError::UnsupportedChain
    );
    assert_eq!(c.get_cross_chain_metrics().unwrap().total_cross_chain_transactions, 0);
    assert!(c.get_transaction_mappings().unwrap().is_empty());
}

#[test]
fn verification_refuses_each_defect() {
    let c = CrossChainPrivacyCoordinator::new();
    let mut p = mock_proof();
    p.proof_id.clear();
    assert!(!c.verify_cross_chain_privacy_proof(&p).unwrap());
    let mut p = mock_proof();
    p.cross_chain_tx_hash.clear();
    assert!(!c.verify_cross_chain_privacy_proof(&p).unwrap());
    let mut p = mock_proof();
    p.destination_chain = "solana".to_string();
    assert!(!c.verify_cross_chain_privacy_proof(&p).unwrap());
    let mut p = mock_proof();
    p.privacy_proof_data.clear();
    assert!(!c.verify_cross_chain_privacy_proof(&p).unwrap());
    let mut p = mock_proof();
    p.metadata.privacy_level = 99;
    assert!(!c.verify_cross_chain_privacy_proof(&p).unwrap());
}

#[test]
fn networks_are_added_once() {
    let mut c = CrossChainPrivacyCoordinator::new();
    c.add_network(polkadot()).unwrap();
    assert_eq!(c.get_supported_networks().len(), 4);
    assert_eq!(c.get_cross_chain_metrics().unwrap().supported_networks_count, 4);
    assert_eq!(c.add_network(polkadot()).unwrap_err(), PrivacyError::NetworkExists);
    assert_eq!(c.get_supported_networks().len(), 4);
    let mut p = mock_proof();
    p.destination_chain = "polkadot".to_string();
    assert!(c.verify_cross_chain_privacy_proof(&p).unwrap());
}

#[test]
fn builtin_networks_and_bridge_counters() {
    let c = CrossChainPrivacyCoordinator::new();
    let nets = c.get_supported_networks();
    let btc = nets.iter().find(|n| n.network_id == "bitcoin").unwrap();
    assert_eq!(btc.privacy_capabilities.privacy_level, 80);
    assert!(!btc.privacy_capabilities.zk_proofs);
    let stats = c.get_bridge_statistics().unwrap();
    assert_eq!(stats.total_transactions, 0);
    assert_eq!(privacy_level_of(PrivacyStatus::Maintained), 100);
    assert_eq!(privacy_level_of(PrivacyStatus::Partial), 50);
    assert_eq!(privacy_level_of(PrivacyStatus::Lost), 0);
    assert_eq!(privacy_level_of(PrivacyStatus::Unknown), 25);
}

#[test]
fn test_cross_chain_privacy_analytics() {
    let mut analytics = CrossChainPrivacyAnalytics::new();
    let coordinator = CrossChainPrivacyCoordinator::new();

    let analytics_data = analytics.analyze_privacy_data(&coordinator).unwrap();
    assert!(analytics_data.privacy_level_distribution.is_empty());
}

#[test]
fn analytics_count_levels_and_chains() {
    let mut coordinator = CrossChainPrivacyCoordinator::new();
    coordinator.create_cross_chain_transaction("tx_a", "ethereum", "0xabc").unwrap();
    coordinator.create_cross_chain_transaction("tx_b", "cosmos", "cosmos1abc").unwrap();
    coordinator.create_cross_chain_transaction("tx_c", "ethereum", "0xdef").unwrap();

    let mut analytics = CrossChainPrivacyAnalytics::new();
    let data = analytics.analyze_privacy_data(&coordinator).unwrap();
    assert_eq!(data.privacy_level_distribution, vec![(100u8, 3u64)]);
    let mut popularity = data.chain_popularity.clone();
    popularity.sort();
    assert_eq!(popularity, vec![("cosmos".to_string(), 1), ("ethereum".to_string(), 2)]);
    let mut volume = data.cross_chain_volume.clone();
    volume.sort();
    assert_eq!(volume, popularity);
    assert_eq!(data.privacy_trends.len(), 1);
    assert_eq!(data.privacy_trends[0].privacy_level_total, 300);
    assert_eq!(data.privacy_trends[0].transaction_count, 3);
    let avg = data.privacy_trends[0].privacy_level_total as f64 / data.privacy_trends[0].transaction_count as f64;
    assert_eq!(avg, 100.0);

    // A second analysis counts the same mappings again.
    let data = analytics.analyze_privacy_data(&coordinator).unwrap();
    assert_eq!(data.privacy_level_distribution, vec![(100u8, 6u64)]);
    assert_eq!(data.privacy_trends.len(), 2);
    assert_eq!(data.privacy_trends[1].privacy_level_total, 600);
    assert_eq!(data.privacy_trends[1].transaction_count, 3);
}
