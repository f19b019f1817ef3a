//! Privacy layer of the C0DL3 sequencer: commitments, address encryption,
//! block commitment proofs, proof envelopes and mining-reward privacy.
#![allow(unused_imports)]

pub mod crypto;
pub mod text;
pub mod error;
pub mod block_commitment_proof;
pub mod amount_commitments;
pub mod address_encryption;
pub mod boojum_stark_proofs;
pub mod mining_privacy;
pub mod privacy_engine;
pub mod security_audit_prep;
pub mod advanced_privacy_starks;
pub mod curve;
pub mod confidential_transactions;
pub mod commitment_proof;
pub mod registry;
pub mod placeholder_tracking;
pub mod cross_chain_privacy;
pub mod phase5_security_audit;
pub mod phase6_production_deployment;
pub mod stark_field;
pub mod production_stark_proofs;
pub mod production_stark_core;
pub mod production_boojum_integration;
pub mod production_cross_chain_privacy;
pub mod privacy_monitoring;
pub mod production_privacy_monitoring;
pub mod production_performance_optimization;
pub mod phase4_performance_optimization;
pub mod production_deployment_prep;
pub mod advanced_privacy_features;
pub mod performance_optimization;
