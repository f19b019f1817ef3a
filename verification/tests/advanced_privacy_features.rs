use c0dl3_privacy::advanced_privacy_features::{AdvancedPrivacyFeatures, PrivacyGovernance, PrivateTransaction};
use c0dl3_privacy::error::PrivacyError;

fn mock_tx(hash: &str) -> PrivateTransaction {
    PrivateTransaction {
        hash: hash.to_string(),
        amount_commitment: vec![7, 8, 9],
        encrypted_sender: vec![1, 2, 3],
        encrypted_recipient: vec![4, 5, 6],
        encrypted_timestamp: vec![13, 14, 15],
    }
}

#[test]
fn test_advanced_privacy_features_creation() {
    let _features = AdvancedPrivacyFeatures::new().unwrap();
    assert!(true, "Advanced privacy features should be created successfully");
}

#[test]
fn test_mixing_pool_operations() {
    let mut features = AdvancedPrivacyFeatures::new().unwrap();
    let result = features.add_to_mixing_pool(mock_tx("test_hash"));
    assert!(result.is_ok());
}

#[test]
fn test_privacy_governance() {
    let mut governance = PrivacyGovernance::new();
    let is_compliant = governance.check_compliance(&mock_tx("test_hash")).unwrap();
    assert!(is_compliant);

    let metrics = governance.get_compliance_metrics().unwrap();
    assert_eq!(metrics.total_checked, 1);
    assert_eq!(metrics.compliant_transactions, 1);
    let compliance_rate = metrics.compliant_transactions as f64 / metrics.total_checked as f64;
    assert_eq!(compliance_rate, 1.0);
}

#[test]
fn advanced_privacy_mixing_at_ten_transactions() {
    let mut features = AdvancedPrivacyFeatures::new().unwrap();
    for i in 0..9 {
        assert_eq!(features.add_to_mixing_pool(mock_tx(&format!("tx{i}"))).unwrap(), format!("tx{i}"));
    }
    assert!(matches!(features.trigger_mixing(), Err(PrivacyError::NotEnoughTransactionsForMixing)));
    assert!(features.get_anonymity_sets().unwrap().is_empty());
    features.add_to_mixing_pool(mock_tx("tx9")).unwrap();

    let sets = features.get_anonymity_sets().unwrap();
    assert_eq!(sets.len(), 1);
    assert_eq!(sets[0].size, 10);
    assert_eq!(sets[0].mixing_round, 1);
    assert_eq!(sets[0].transactions[0], "tx0");
    assert_eq!(sets[0].transactions[9], "tx9");
    assert_eq!(sets[0].expires_at, sets[0].created_at + 3600);

    let metrics = features.get_privacy_metrics().unwrap();
    assert_eq!(metrics.total_transactions, 10);
    assert_eq!(metrics.mixed_transactions, 10);
    assert_eq!(metrics.privacy_level, 100);

    assert_eq!(features.cleanup_expired_sets().unwrap(), 0);
    assert_eq!(features.get_anonymity_sets().unwrap().len(), 1);
}

#[test]
fn advanced_privacy_proofs_verify() {
    let features = AdvancedPrivacyFeatures::new().unwrap();
    let proof = features.generate_privacy_proof(&mock_tx("h")).unwrap();
    assert_eq!(proof.proof_type, "transaction_privacy");
    assert_eq!(proof.privacy_guarantees.anonymity_level, 100);
    let mut expected = 1000u64.to_le_bytes().to_vec();
    expected.extend_from_slice(&5000u64.to_le_bytes());
    assert_eq!(&proof.proof_data[0..16], expected.as_slice());
}

#[test]
fn advanced_privacy_governance_rejects_missing_ciphertexts() {
    let mut governance = PrivacyGovernance::new();
    let mut tx = mock_tx("h");
    tx.encrypted_timestamp.clear();
    assert!(!governance.check_compliance(&tx).unwrap());
    let mut tx = mock_tx("h");
    tx.amount_commitment.clear();
    assert!(!governance.check_compliance(&tx).unwrap());
    let metrics = governance.get_compliance_metrics().unwrap();
    assert_eq!(metrics.total_checked, 0);
}

#[test]
fn mixing_efficiency_and_average_set_size() {
    let mut features = AdvancedPrivacyFeatures::new().unwrap();
    for i in 0..9 {
        features.add_to_mixing_pool(mock_tx(&format!("tx_{}", i))).unwrap();
    }
    let m = features.get_privacy_metrics().unwrap();
    assert_eq!(m.total_transactions, 9);
    assert_eq!(m.mixing_efficiency_percent, 0);
    assert_eq!(m.avg_anonymity_set_size, 0);

    // The tenth transaction mixes the pool; the mixing counts 10 mixed
    // transactions against the 9 counted before it.
    features.add_to_mixing_pool(mock_tx("tx_9")).unwrap();
    let m = features.get_privacy_metrics().unwrap();
    assert_eq!(m.total_transactions, 10);
    assert_eq!(m.mixed_transactions, 10);
    assert_eq!(m.mixing_efficiency_percent, 111);
    assert_eq!(m.avg_anonymity_set_size, 10);
}
