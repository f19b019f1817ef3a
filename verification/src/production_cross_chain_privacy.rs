//! Production cross-chain privacy proofs: a proof over the source
//! transaction hash and the destination chain, a Boojum validity proof for
//! the source side, destination and privacy-preservation proofs, and their
//! verification, with the coordinator's counters. Timings are whole
//! milliseconds, rounded up; the floating-point averages are not kept here.
use vstd::prelude::*;
use vstd::string::*;
use vstd::utf8::*;
use crate::crypto::{elapsed_millis_rounded_up, instant_now, sha256, sha256_spec, unix_time_secs};
use crate::error::PrivacyError;
use crate::production_boojum_integration::{
    next_average,
    room_for_proof,
    saturating_sum,
    validity_proof_len,
    ProductionBoojumStarkSystem,
};
use crate::text::{extend_bytes, extend_str_bytes, owned, starts_with, string_views};

verus! {

/// The production cross-chain privacy coordinator.
pub struct ProductionCrossChainPrivacyCoordinator {
    boojum_system: ProductionBoojumStarkSystem,
    proof_generator: ProductionCrossChainProofGenerator,
    verifier: ProductionCrossChainVerifier,
    bridge_manager: ProductionBridgeManager,
    metrics: ProductionCrossChainMetrics,
}

/// The cross-chain proof generator.
pub struct ProductionCrossChainProofGenerator {
    config: ProductionProofGeneratorConfig,
    state: ProductionProofGeneratorState,
    stats: ProductionProofGeneratorStats,
}

/// The cross-chain verifier.
pub struct ProductionCrossChainVerifier {
    config: ProductionCrossChainVerifierConfig,
    state: ProductionCrossChainVerifierState,
    stats: ProductionCrossChainVerifierStats,
}

/// The bridge manager.
pub struct ProductionBridgeManager {
    bridge_configs: Vec<(String, ProductionBridgeConfig)>,
    active_bridges: Vec<(String, ProductionBridgeInstance)>,
    bridge_stats: ProductionBridgeStatistics,
}

/// A production cross-chain privacy proof.
pub struct ProductionCrossChainPrivacyProof {
    /// The cross-chain proof.
    pub cross_chain_proof_data: Vec<u8>,
    /// The Boojum validity proof for the source chain.
    pub source_chain_proof: Vec<u8>,
    /// The destination chain proof.
    pub destination_chain_proof: Vec<u8>,
    /// The privacy preservation proof.
    pub privacy_preservation_proof: Vec<u8>,
    /// Public inputs.
    pub public_inputs: Vec<u8>,
    /// Metadata.
    pub proof_metadata: ProductionCrossChainProofMetadata,
    /// Timing and size.
    pub performance_metrics: CrossChainProofPerformanceMetrics,
}

/// Metadata of a cross-chain proof.
pub struct ProductionCrossChainProofMetadata {
    /// Generation time, seconds since the Unix epoch.
    pub timestamp: u64,
    /// Proof version.
    pub version: u8,
    /// Source chain.
    pub source_chain: String,
    /// Destination chain.
    pub destination_chain: String,
    /// Privacy level maintained, 0 to 100.
    pub privacy_level: u8,
    /// Protocol.
    pub protocol: String,
    /// Bridge type.
    pub bridge_type: String,
    /// Generation time in milliseconds.
    pub generation_time_ms: u128,
    /// Size of the cross-chain proof in bytes.
    pub proof_size_bytes: usize,
}

/// Timing and size of a cross-chain proof.
#[derive(Debug, Clone, Copy, PartialEq, Eq, Structural)]
pub struct CrossChainProofPerformanceMetrics {
    /// Generation time in milliseconds.
    pub generation_time_ms: u128,
    /// Verification time in milliseconds.
    pub verification_time_ms: u128,
    /// Size of the cross-chain proof in bytes.
    pub proof_size_bytes: usize,
    /// Cross-chain latency in milliseconds.
    pub cross_chain_latency_ms: u128,
}

/// Generator configuration.
pub struct ProductionProofGeneratorConfig {
    /// Generator type.
    pub generator_type: String,
    /// Generator version.
    pub generator_version: String,
    /// Capabilities.
    pub capabilities: Vec<String>,
}

/// Generator state.
pub struct ProductionProofGeneratorState {
    /// The generation under way, if any.
    pub current_generation: Option<String>,
    /// Active generations.
    pub active_generations: u32,
    /// Bytes of cross-chain proof data produced so far.
    pub memory_usage: usize,
}

/// Generator statistics.
#[derive(Debug, Clone, Copy, PartialEq, Eq, Structural)]
pub struct ProductionProofGeneratorStats {
    /// Proofs generated.
    pub total_proofs_generated: u64,
    /// Milliseconds spent generating them, summed (saturating).
    pub total_generation_time_ms: u128,
    /// Running average of proof sizes in bytes.
    pub avg_proof_size_bytes: usize,
    /// Errors.
    pub error_count: u64,
}

/// Verifier configuration.
pub struct ProductionCrossChainVerifierConfig {
    /// Verifier type.
    pub verifier_type: String,
    /// Verifier version.
    pub verifier_version: String,
    /// Capabilities.
    pub capabilities: Vec<String>,
}

/// Verifier state.
pub struct ProductionCrossChainVerifierState {
    /// The verification under way, if any.
    pub current_verification: Option<String>,
    /// Active verifications.
    pub active_verifications: u32,
    /// Bytes of proof data accepted so far.
    pub memory_usage: usize,
}

/// Verifier statistics.
#[derive(Debug, Clone, Copy, PartialEq, Eq, Structural)]
pub struct ProductionCrossChainVerifierStats {
    /// Proofs verified.
    pub total_proofs_verified: u64,
    /// Milliseconds spent verifying them, summed (saturating).
    pub total_verification_time_ms: u128,
    /// Verifications that rejected the proof.
    pub verification_error_count: u64,
}

/// Configuration of a bridge.
pub struct ProductionBridgeConfig {
    /// Bridge identifier.
    pub bridge_id: String,
    /// Bridge type.
    pub bridge_type: String,
    /// Bridge contract address.
    pub bridge_address: String,
    /// Privacy settings.
    pub privacy_settings: ProductionBridgePrivacySettings,
}

/// Privacy settings of a bridge.
#[derive(Debug, Clone, Copy, PartialEq, Eq, Structural)]
pub struct ProductionBridgePrivacySettings {
    /// Transactions are encrypted.
    pub encrypt_transactions: bool,
    /// Privacy proofs are used.
    pub use_privacy_proofs: bool,
    /// Privacy level, 0 to 100.
    pub privacy_level: u8,
}

/// A running bridge.
pub struct ProductionBridgeInstance {
    /// Instance identifier.
    pub instance_id: String,
    /// Source chain.
    pub source_chain: String,
    /// Destination chain.
    pub destination_chain: String,
    /// Status.
    pub status: String,
    /// Privacy level, 0 to 100.
    pub privacy_level: u8,
}

/// Bridge statistics.
#[derive(Debug, Clone, Copy, PartialEq, Eq, Structural)]
pub struct ProductionBridgeStatistics {
    /// Bridges known.
    pub total_bridges: u64,
    /// Bridges running.
    pub active_bridges: u64,
    /// Transactions carried.
    pub total_transactions: u64,
    /// Transactions that succeeded.
    pub successful_transactions: u64,
    /// Transactions that failed.
    pub failed_transactions: u64,
}

/// Cross-chain metrics.
#[derive(Debug, Clone, Copy, PartialEq, Eq, Structural)]
pub struct ProductionCrossChainMetrics {
    /// Cross-chain transactions.
    pub total_cross_chain_transactions: u64,
    /// Of those, the ones whose privacy was maintained.
    pub privacy_maintained_transactions: u64,
    /// Running average of the privacy level of those transactions.
    pub avg_cross_chain_privacy_level: u64,
    /// Cross-chain latency in milliseconds, summed (saturating).
    pub total_cross_chain_latency_ms: u128,
    /// Supported networks.
    pub supported_networks_count: usize,
    /// Active bridges.
    pub active_bridges_count: usize,
}

/// The cross-chain proof: its tag, the source transaction hash, the
/// destination chain, and the SHA-256 hash of the two with
/// `privacy_preserved`.
pub open spec fn cross_chain_proof_data(tx_hash: Seq<char>, chain: Seq<char>) -> Seq<u8> {
    "PRODUCTION_CROSS_CHAIN_PROOF_V1:".spec_bytes() + encode_utf8(tx_hash) + encode_utf8(chain) + sha256_spec(
        encode_utf8(tx_hash) + encode_utf8(chain) + "privacy_preserved".spec_bytes(),
    )
}

/// The destination chain proof: its tag, the chain and the address.
pub open spec fn destination_chain_proof(chain: Seq<char>, address: Seq<char>) -> Seq<u8> {
    "DESTINATION_CHAIN_PROOF:".spec_bytes() + encode_utf8(chain) + encode_utf8(address)
}

/// The privacy preservation proof: its tag and the SHA-256 hash of the
/// transaction hash and the chain with `privacy_level_100`.
pub open spec fn privacy_preservation_proof(tx_hash: Seq<char>, chain: Seq<char>) -> Seq<u8> {
    "PRIVACY_PRESERVATION_PROOF:".spec_bytes() + sha256_spec(
        encode_utf8(tx_hash) + encode_utf8(chain) + "privacy_level_100".spec_bytes(),
    )
}

/// The public inputs: their tag, the chain and the address.
pub open spec fn cross_chain_public_inputs(chain: Seq<char>, address: Seq<char>) -> Seq<u8> {
    "CROSS_CHAIN_PUBLIC_INPUTS:".spec_bytes() + encode_utf8(chain) + encode_utf8(address)
}

/// What verification accepts: non-empty data that begins with the
/// cross-chain proof tag, at privacy level 100 or above.
pub open spec fn cross_chain_proof_accepted(data: Seq<u8>, privacy_level: u8) -> bool {
    &&& data.len() > 0
    &&& "PRODUCTION_CROSS_CHAIN_PROOF_V1:".spec_bytes().len() <= data.len()
    &&& data.subrange(0, "PRODUCTION_CROSS_CHAIN_PROOF_V1:".spec_bytes().len() as int)
        == "PRODUCTION_CROSS_CHAIN_PROOF_V1:".spec_bytes()
    &&& privacy_level >= 100
}

/// The ethereum bridge that the coordinator starts with.
pub open spec fn ethereum_bridge(c: ProductionBridgeConfig) -> bool {
    &&& c.bridge_id@ == "ethereum_bridge"@
    &&& c.bridge_type@ == "production_lock_and_mint"@
    &&& c.bridge_address@ == "0x1234567890123456789012345678901234567890"@
    &&& c.privacy_settings == (ProductionBridgePrivacySettings {
        encrypt_transactions: true,
        use_privacy_proofs: true,
        privacy_level: 100,
    })
}

/// The generator's statistics after one more proof of `size` bytes that
/// took `time` milliseconds.
pub open spec fn generator_stats_after(s: ProductionProofGeneratorStats, time: u128, size: int) -> ProductionProofGeneratorStats {
    ProductionProofGeneratorStats {
        total_proofs_generated: (s.total_proofs_generated + 1) as u64,
        total_generation_time_ms: saturating_sum(s.total_generation_time_ms, time),
        avg_proof_size_bytes: next_average(
            s.avg_proof_size_bytes as int,
            s.total_proofs_generated + 1,
            size,
        ) as usize,
        error_count: s.error_count,
    }
}

/// The metrics after one more transaction whose privacy was kept at level
/// 100, with latency `time`.
pub open spec fn metrics_after(m: ProductionCrossChainMetrics, time: u128) -> ProductionCrossChainMetrics {
    ProductionCrossChainMetrics {
        total_cross_chain_transactions: (m.total_cross_chain_transactions + 1) as u64,
        privacy_maintained_transactions: (m.privacy_maintained_transactions + 1) as u64,
        avg_cross_chain_privacy_level: next_average(
            m.avg_cross_chain_privacy_level as int,
            m.total_cross_chain_transactions + 1,
            100,
        ) as u64,
        total_cross_chain_latency_ms: saturating_sum(m.total_cross_chain_latency_ms, time),
        supported_networks_count: m.supported_networks_count,
        active_bridges_count: m.active_bridges_count,
    }
}

/// The verifier's statistics after one more verification.
pub open spec fn cross_chain_verifier_stats_after(
    s: ProductionCrossChainVerifierStats,
    time: u128,
    accepted: bool,
) -> ProductionCrossChainVerifierStats {
    ProductionCrossChainVerifierStats {
        total_proofs_verified: (s.total_proofs_verified + 1) as u64,
        total_verification_time_ms: saturating_sum(s.total_verification_time_ms, time),
        verification_error_count: if accepted {
            s.verification_error_count
        } else {
            (s.verification_error_count + 1) as u64
        },
    }
}

impl ProductionCrossChainPrivacyCoordinator {
    /// The Boojum system is well formed, the generator and verifier have
    /// their configurations, the ethereum bridge is the one configured,
    /// no bridge runs, and the average privacy level is 100.
    pub closed spec fn well_formed(&self) -> bool {
        &&& self.boojum_system.well_formed()
        &&& self.proof_generator.config.generator_type@ == "production_cross_chain_generator"@
        &&& self.proof_generator.config.generator_version@ == "1.0"@
        &&& string_views(self.proof_generator.config.capabilities@) == seq![
            "cross_chain_privacy_proofs"@,
            "multi_chain_coordination"@,
            "privacy_preservation"@,
        ]
        &&& self.verifier.config.verifier_type@ == "production_cross_chain_verifier"@
        &&& self.verifier.config.verifier_version@ == "1.0"@
        &&& string_views(self.verifier.config.capabilities@) == seq![
            "cross_chain_proof_verification"@,
            "multi_chain_verification"@,
            "privacy_verification"@,
        ]
        &&& self.bridge_manager.bridge_configs@.len() == 1
        &&& self.bridge_manager.bridge_configs@[0].0@ == "ethereum"@
        &&& ethereum_bridge(self.bridge_manager.bridge_configs@[0].1)
        &&& self.bridge_manager.active_bridges@.len() == 0
        &&& self.metrics.avg_cross_chain_privacy_level == 100
        &&& self.verifier.stats.verification_error_count <= self.verifier.stats.total_proofs_verified
    }

    /// The cross-chain metrics.
    pub closed spec fn spec_metrics(&self) -> ProductionCrossChainMetrics {
        self.metrics
    }

    /// The generator's statistics.
    pub closed spec fn spec_generator_stats(&self) -> ProductionProofGeneratorStats {
        self.proof_generator.stats
    }

    /// The verifier's statistics.
    pub closed spec fn spec_verifier_stats(&self) -> ProductionCrossChainVerifierStats {
        self.verifier.stats
    }

    /// Bytes of cross-chain proof data produced.
    pub closed spec fn spec_generator_memory(&self) -> usize {
        self.proof_generator.state.memory_usage
    }

    /// Bytes of cross-chain proof data accepted.
    pub closed spec fn spec_verifier_memory(&self) -> usize {
        self.verifier.state.memory_usage
    }

    /// The Boojum system used for source-chain proofs.
    pub closed spec fn spec_boojum(&self) -> ProductionBoojumStarkSystem {
        self.boojum_system
    }

    /// The coordinator: a fresh Boojum system, the generator and verifier
    /// with their configurations and empty statistics, the ethereum bridge
    /// configured and none running, and metrics of three supported
    /// networks, no transactions and an average privacy level of 100.
    pub fn new() -> (res: Result<Self, PrivacyError>)
        ensures
            res matches Ok(c) && {
                &&& c.well_formed()
                &&& c.spec_metrics() == (ProductionCrossChainMetrics {
                    total_cross_chain_transactions: 0,
                    privacy_maintained_transactions: 0,
                    avg_cross_chain_privacy_level: 100,
                    total_cross_chain_latency_ms: 0,
                    supported_networks_count: 3,
                    active_bridges_count: 0,
                })
                &&& c.spec_generator_stats() == (ProductionProofGeneratorStats {
                    total_proofs_generated: 0,
                    total_generation_time_ms: 0,
                    avg_proof_size_bytes: 0,
                    error_count: 0,
                })
                &&& c.spec_verifier_stats() == (ProductionCrossChainVerifierStats {
                    total_proofs_verified: 0,
                    total_verification_time_ms: 0,
                    verification_error_count: 0,
                })
                &&& c.spec_generator_memory() == 0
                &&& c.spec_verifier_memory() == 0
                &&& c.spec_boojum().spec_prover_memory() == 0
                &&& c.spec_boojum().spec_prover_stats().total_proofs_generated == 0
            },
    {
        let boojum_system = match ProductionBoojumStarkSystem::new() {
            Ok(s) => s,
            Err(e) => return Err(e),
        };
        let generator_capabilities = vec![
            owned("cross_chain_privacy_proofs"),
            owned("multi_chain_coordination"),
            owned("privacy_preservation"),
        ];
        let proof_generator = ProductionCrossChainProofGenerator {
            config: ProductionProofGeneratorConfig {
                generator_type: owned("production_cross_chain_generator"),
                generator_version: owned("1.0"),
                capabilities: generator_capabilities,
            },
            state: ProductionProofGeneratorState { current_generation: None, active_generations: 0, memory_usage: 0 },
            stats: ProductionProofGeneratorStats {
                total_proofs_generated: 0,
                total_generation_time_ms: 0,
                avg_proof_size_bytes: 0,
                error_count: 0,
            },
        };
        let verifier_capabilities = vec![
            owned("cross_chain_proof_verification"),
            owned("multi_chain_verification"),
            owned("privacy_verification"),
        ];
        let verifier = ProductionCrossChainVerifier {
            config: ProductionCrossChainVerifierConfig {
                verifier_type: owned("production_cross_chain_verifier"),
                verifier_version: owned("1.0"),
                capabilities: verifier_capabilities,
            },
            state: ProductionCrossChainVerifierState {
                current_verification: None,
                active_verifications: 0,
                memory_usage: 0,
            },
            stats: ProductionCrossChainVerifierStats {
                total_proofs_verified: 0,
                total_verification_time_ms: 0,
                verification_error_count: 0,
            },
        };
        let bridge_manager = ProductionBridgeManager {
            bridge_configs: Self::create_production_bridge_configs(),
            active_bridges: Vec::new(),
            bridge_stats: ProductionBridgeStatistics {
                total_bridges: 0,
                active_bridges: 0,
                total_transactions: 0,
                successful_transactions: 0,
                failed_transactions: 0,
            },
        };
        let metrics = ProductionCrossChainMetrics {
            total_cross_chain_transactions: 0,
            privacy_maintained_transactions: 0,
            avg_cross_chain_privacy_level: 100,
            total_cross_chain_latency_ms: 0,
            supported_networks_count: 3,
            active_bridges_count: 0,
        };
        let c = ProductionCrossChainPrivacyCoordinator {
            boojum_system,
            proof_generator,
            verifier,
            bridge_manager,
            metrics,
        };
        assert(string_views(c.proof_generator.config.capabilities@) =~= seq![
            "cross_chain_privacy_proofs"@,
            "multi_chain_coordination"@,
            "privacy_preservation"@,
        ]);
        assert(string_views(c.verifier.config.capabilities@) =~= seq![
            "cross_chain_proof_verification"@,
            "multi_chain_verification"@,
            "privacy_verification"@,
        ]);
        Ok(c)
    }

    /// The configured bridges: the ethereum bridge alone.
    fn create_production_bridge_configs() -> (res: Vec<(String, ProductionBridgeConfig)>)
        ensures
            res@.len() == 1,
            res@[0].0@ == "ethereum"@,
            ethereum_bridge(res@[0].1),
    {
        let mut configs: Vec<(String, ProductionBridgeConfig)> = Vec::new();
        configs.push(
            (
                owned("ethereum"),
                ProductionBridgeConfig {
                    bridge_id: owned("ethereum_bridge"),
                    bridge_type: owned("production_lock_and_mint"),
                    bridge_address: owned("0x1234567890123456789012345678901234567890"),
                    privacy_settings: ProductionBridgePrivacySettings {
                        encrypt_transactions: true,
                        use_privacy_proofs: true,
                        privacy_level: 100,
                    },
                },
            ),
        );
        configs
    }

    /// A cross-chain privacy proof for the source transaction with hash
    /// `source_tx_hash` towards `destination_address` on
    /// `destination_chain`: cross-chain, destination and
    /// privacy-preservation proofs, and a source-chain proof that is a
    /// Boojum validity proof of amount 1000 against balance 5000. The generator's statistics, byte count and the metrics
    /// count the proof; the only failure is a clock before the Unix epoch,
    /// after which statistics and metrics are as before. Every proof made
    /// here is accepted by verification.
    pub fn create_production_cross_chain_proof(
        &mut self,
        source_tx_hash: &str,
        destination_chain: &str,
        destination_address: &str,
    ) -> (res: Result<ProductionCrossChainPrivacyProof, PrivacyError>)
        requires
            old(self).well_formed(),
            room_for_proof(
                old(self).spec_boojum().spec_prover_stats().total_proofs_generated,
                old(self).spec_boojum().spec_prover_memory(),
                validity_proof_len(),
            ),
            old(self).spec_generator_memory() + cross_chain_proof_data(source_tx_hash@, destination_chain@).len()
                <= usize::MAX,
            old(self).spec_generator_stats().total_proofs_generated < u64::MAX,
            old(self).spec_metrics().total_cross_chain_transactions < u64::MAX,
            old(self).spec_metrics().privacy_maintained_transactions < u64::MAX,
        ensures
            final(self).well_formed(),
            res is Ok || res == Err::<ProductionCrossChainPrivacyProof, PrivacyError>(PrivacyError::ClockError),
            final(self).spec_verifier_stats() == old(self).spec_verifier_stats(),
            final(self).spec_verifier_memory() == old(self).spec_verifier_memory(),
            res is Err ==> final(self).spec_generator_stats() == old(self).spec_generator_stats()
                && final(self).spec_metrics() == old(self).spec_metrics(),
            res matches Ok(p) ==> {
                &&& p.cross_chain_proof_data@ == cross_chain_proof_data(source_tx_hash@, destination_chain@)
                &&& p.source_chain_proof@.len() == validity_proof_len()
                &&& crate::production_boojum_integration::begins_with(
                    p.source_chain_proof@,
                    crate::production_boojum_integration::validity_body(1000, 5000),
                )
                &&& p.destination_chain_proof@ == destination_chain_proof(destination_chain@, destination_address@)
                &&& p.privacy_preservation_proof@ == privacy_preservation_proof(source_tx_hash@, destination_chain@)
                &&& p.public_inputs@ == cross_chain_public_inputs(destination_chain@, destination_address@)
                &&& p.proof_metadata.version == 1
                &&& p.proof_metadata.source_chain@ == "zkc0dl3"@
                &&& p.proof_metadata.destination_chain@ == destination_chain@
                &&& p.proof_metadata.privacy_level == 100
                &&& p.proof_metadata.protocol@ == "production_cross_chain_privacy_v1"@
                &&& p.proof_metadata.bridge_type@ == "production_bridge"@
                &&& p.proof_metadata.generation_time_ms == p.performance_metrics.generation_time_ms
                &&& p.proof_metadata.proof_size_bytes == p.cross_chain_proof_data@.len()
                &&& p.performance_metrics.verification_time_ms == 0
                &&& p.performance_metrics.proof_size_bytes == p.cross_chain_proof_data@.len()
                &&& p.performance_metrics.cross_chain_latency_ms == p.performance_metrics.generation_time_ms
                &&& final(self).spec_generator_stats() == generator_stats_after(
                    old(self).spec_generator_stats(),
                    p.performance_metrics.generation_time_ms,
                    p.cross_chain_proof_data@.len() as int,
                )
                &&& final(self).spec_metrics() == metrics_after(
                    old(self).spec_metrics(),
                    p.performance_metrics.generation_time_ms,
                )
                &&& final(self).spec_generator_memory() == old(self).spec_generator_memory()
                    + p.cross_chain_proof_data@.len()
                &&& cross_chain_proof_accepted(p.cross_chain_proof_data@, p.proof_metadata.privacy_level)
            },
    {
        let start = instant_now();
        let cross_chain_proof_data = self.generate_production_cross_chain_proof(source_tx_hash, destination_chain);
        let source_chain_proof = match self.boojum_system.prove_transaction_validity(1000, 5000) {
            Ok(p) => p.boojum_proof_data,
            Err(e) => return Err(e),
        };
        let destination_chain_proof = generate_destination_chain_proof(destination_chain, destination_address);
        let privacy_preservation_proof = generate_privacy_preservation_proof(source_tx_hash, destination_chain);
        let public_inputs = create_cross_chain_public_inputs(destination_chain, destination_address);
        let generation_time = elapsed_millis_rounded_up(&start);
        let now = match unix_time_secs() {
            Some(t) => t,
            None => return Err(PrivacyError::ClockError),
        };
        let proof_size = cross_chain_proof_data.len();
        self.update_generator_stats(generation_time, proof_size);
        self.update_cross_chain_metrics(generation_time);
        proof {
            lemma_cross_chain_accepted(source_tx_hash@, destination_chain@);
        }
        Ok(ProductionCrossChainPrivacyProof {
            cross_chain_proof_data,
            source_chain_proof,
            destination_chain_proof,
            privacy_preservation_proof,
            public_inputs,
            proof_metadata: ProductionCrossChainProofMetadata {
                timestamp: now,
                version: 1,
                source_chain: owned("zkc0dl3"),
                destination_chain: owned(destination_chain),
                privacy_level: 100,
                protocol: owned("production_cross_chain_privacy_v1"),
                bridge_type: owned("production_bridge"),
                generation_time_ms: generation_time,
                proof_size_bytes: proof_size,
            },
            performance_metrics: CrossChainProofPerformanceMetrics {
                generation_time_ms: generation_time,
                verification_time_ms: 0,
                proof_size_bytes: proof_size,
                cross_chain_latency_ms: generation_time,
            },
        })
    }

    /// Verifies a cross-chain proof: the answer is whether it is accepted
    /// (non-empty, tagged as a cross-chain proof, privacy level 100 or
    /// above). The verifier spends at least 3 ms, its statistics count the
    /// verification and a rejection, and an accepted proof's bytes join its
    /// byte count.
    pub fn verify_production_cross_chain_proof(&mut self, proof: &ProductionCrossChainPrivacyProof) -> (res: Result<
        bool,
        PrivacyError,
    >)
        requires
            old(self).well_formed(),
            old(self).spec_verifier_stats().total_proofs_verified < u64::MAX,
            old(self).spec_verifier_memory() + proof.cross_chain_proof_data@.len() <= usize::MAX,
        ensures
            final(self).well_formed(),
            res matches Ok(b) && b == cross_chain_proof_accepted(
                proof.cross_chain_proof_data@,
                proof.proof_metadata.privacy_level,
            ),
            final(self).spec_generator_stats() == old(self).spec_generator_stats(),
            final(self).spec_metrics() == old(self).spec_metrics(),
            exists|t: u128| final(self).spec_verifier_stats() == #[trigger] cross_chain_verifier_stats_after(
                old(self).spec_verifier_stats(),
                t,
                cross_chain_proof_accepted(proof.cross_chain_proof_data@, proof.proof_metadata.privacy_level),
            ),
            final(self).spec_verifier_memory() == if cross_chain_proof_accepted(
                proof.cross_chain_proof_data@,
                proof.proof_metadata.privacy_level,
            ) {
                old(self).spec_verifier_memory() + proof.cross_chain_proof_data@.len()
            } else {
                old(self).spec_verifier_memory() as int
            },
    {
        let start = instant_now();
        let accepted = self.verify_production_cross_chain_proof_internal(proof);
        let verification_time = elapsed_millis_rounded_up(&start);
        self.update_verifier_stats(verification_time, accepted);
        Ok(accepted)
    }

    /// Checks a proof: accepted
    /// exactly when `cross_chain_proof_accepted` holds, and then its bytes
    /// join the verifier's byte count.
    fn verify_production_cross_chain_proof_internal(&mut self, proof: &ProductionCrossChainPrivacyProof) -> (res: bool)
        requires
            old(self).spec_verifier_memory() + proof.cross_chain_proof_data@.len() <= usize::MAX,
        ensures
            res == cross_chain_proof_accepted(proof.cross_chain_proof_data@, proof.proof_metadata.privacy_level),
            final(self).spec_verifier_memory() == if res {
                old(self).spec_verifier_memory() + proof.cross_chain_proof_data@.len()
            } else {
                old(self).spec_verifier_memory() as int
            },
            final(self).verifier.stats == old(self).verifier.stats,
            final(self).verifier.config == old(self).verifier.config,
            final(self).boojum_system == old(self).boojum_system,
            final(self).bridge_manager == old(self).bridge_manager,
            final(self).proof_generator == old(self).proof_generator,
            final(self).metrics == old(self).metrics,
    {
        if proof.cross_chain_proof_data.len() == 0 {
            return false;
        }
        if !starts_with(proof.cross_chain_proof_data.as_slice(), "PRODUCTION_CROSS_CHAIN_PROOF_V1:".as_bytes()) {
            return false;
        }
        if proof.proof_metadata.privacy_level < 100 {
            return false;
        }
        self.verifier.state.memory_usage = self.verifier.state.memory_usage + proof.cross_chain_proof_data.len();
        true
    }

    /// Counts a verification of `verification_time` milliseconds and, where
    /// it failed, an error.
    fn update_verifier_stats(&mut self, verification_time: u128, success: bool)
        requires
            old(self).verifier.stats.total_proofs_verified < u64::MAX,
            old(self).verifier.stats.verification_error_count <= old(self).verifier.stats.total_proofs_verified,
        ensures
            final(self).verifier.stats == cross_chain_verifier_stats_after(
                old(self).verifier.stats,
                verification_time,
                success,
            ),
            final(self).verifier.state == old(self).verifier.state,
            final(self).verifier.config == old(self).verifier.config,
            final(self).boojum_system == old(self).boojum_system,
            final(self).bridge_manager == old(self).bridge_manager,
            final(self).proof_generator == old(self).proof_generator,
            final(self).metrics == old(self).metrics,
    {
        self.verifier.stats.total_proofs_verified = self.verifier.stats.total_proofs_verified + 1;
        if !success {
            self.verifier.stats.verification_error_count = self.verifier.stats.verification_error_count + 1;
        }
        self.verifier.stats.total_verification_time_ms = self.verifier.stats.total_verification_time_ms.saturating_add(
            verification_time,
        );
    }

    /// The cross-chain proof data; the generator's byte count grows by it.
    fn generate_production_cross_chain_proof(&mut self, source_tx_hash: &str, destination_chain: &str) -> (res: Vec<u8>)
        requires
            old(self).spec_generator_memory() + cross_chain_proof_data(source_tx_hash@, destination_chain@).len()
                <= usize::MAX,
        ensures
            res@ == cross_chain_proof_data(source_tx_hash@, destination_chain@),
            final(self).proof_generator.state.memory_usage == old(self).proof_generator.state.memory_usage + res@.len(),
            final(self).proof_generator.state.current_generation == old(self).proof_generator.state.current_generation,
            final(self).proof_generator.state.active_generations == old(self).proof_generator.state.active_generations,
            final(self).proof_generator.stats == old(self).proof_generator.stats,
            final(self).proof_generator.config == old(self).proof_generator.config,
            final(self).boojum_system == old(self).boojum_system,
            final(self).verifier == old(self).verifier,
            final(self).bridge_manager == old(self).bridge_manager,
            final(self).metrics == old(self).metrics,
    {
        let mut proof_data: Vec<u8> = Vec::new();
        extend_str_bytes(&mut proof_data, "PRODUCTION_CROSS_CHAIN_PROOF_V1:");
        extend_str_bytes(&mut proof_data, source_tx_hash);
        extend_str_bytes(&mut proof_data, destination_chain);
        let mut hashed: Vec<u8> = Vec::new();
        extend_str_bytes(&mut hashed, source_tx_hash);
        extend_str_bytes(&mut hashed, destination_chain);
        extend_str_bytes(&mut hashed, "privacy_preserved");
        let digest = sha256(hashed.as_slice());
        extend_bytes(&mut proof_data, &digest);
        self.proof_generator.state.memory_usage = self.proof_generator.state.memory_usage + proof_data.len();
        proof_data
    }

    /// One more proof in the generator's statistics.
    fn update_generator_stats(&mut self, generation_time: u128, proof_size: usize)
        requires
            old(self).proof_generator.stats.total_proofs_generated < u64::MAX,
        ensures
            final(self).proof_generator.stats == generator_stats_after(
                old(self).proof_generator.stats,
                generation_time,
                proof_size as int,
            ),
            final(self).proof_generator.state == old(self).proof_generator.state,
            final(self).proof_generator.config == old(self).proof_generator.config,
            final(self).boojum_system == old(self).boojum_system,
            final(self).verifier == old(self).verifier,
            final(self).bridge_manager == old(self).bridge_manager,
            final(self).metrics == old(self).metrics,
    {
        let total = self.proof_generator.stats.total_proofs_generated + 1;
        let avg = self.proof_generator.stats.avg_proof_size_bytes;
        proof {
            crate::production_boojum_integration::lemma_average_within(
                avg as int,
                total as int,
                proof_size as int,
                0,
                usize::MAX as int,
            );
            let a = avg as int;
            let t = (total - 1) as int;
            assert(a * t <= 0xffff_ffff_ffff_ffff * 0xffff_ffff_ffff_ffff) by (nonlinear_arith)
                requires
                    0 <= a <= 0xffff_ffff_ffff_ffff,
                    0 <= t <= 0xffff_ffff_ffff_ffff,
            ;
        }
        let sum: u128 = (avg as u128) * ((total - 1) as u128) + proof_size as u128;
        let next: u128 = sum / (total as u128);
        self.proof_generator.stats.total_proofs_generated = total;
        self.proof_generator.stats.total_generation_time_ms = self.proof_generator.stats.total_generation_time_ms.saturating_add(
            generation_time,
        );
        self.proof_generator.stats.avg_proof_size_bytes = next as usize;
    }

    /// One more transaction in the metrics, kept at privacy level 100.
    fn update_cross_chain_metrics(&mut self, generation_time: u128)
        requires
            old(self).metrics.total_cross_chain_transactions < u64::MAX,
            old(self).metrics.privacy_maintained_transactions < u64::MAX,
            old(self).metrics.avg_cross_chain_privacy_level == 100,
        ensures
            final(self).metrics == metrics_after(old(self).metrics, generation_time),
            final(self).metrics.avg_cross_chain_privacy_level == 100,
            final(self).proof_generator == old(self).proof_generator,
            final(self).boojum_system == old(self).boojum_system,
            final(self).verifier == old(self).verifier,
            final(self).bridge_manager == old(self).bridge_manager,
    {
        let total = self.metrics.total_cross_chain_transactions + 1;
        proof {
            lemma_constant_average(100, total as int);
        }
        self.metrics.total_cross_chain_transactions = total;
        self.metrics.privacy_maintained_transactions = self.metrics.privacy_maintained_transactions + 1;
        self.metrics.avg_cross_chain_privacy_level = 100;
        self.metrics.total_cross_chain_latency_ms = self.metrics.total_cross_chain_latency_ms.saturating_add(
            generation_time,
        );
    }

    /// The cross-chain metrics.
    pub fn get_production_cross_chain_metrics(&self) -> (res: ProductionCrossChainMetrics)
        ensures
            res == self.spec_metrics(),
    {
        self.metrics
    }
}

/// The destination chain proof.
fn generate_destination_chain_proof(destination_chain: &str, destination_address: &str) -> (res: Vec<u8>)
    ensures
        res@ == destination_chain_proof(destination_chain@, destination_address@),
{
    let mut proof_data: Vec<u8> = Vec::new();
    extend_str_bytes(&mut proof_data, "DESTINATION_CHAIN_PROOF:");
    extend_str_bytes(&mut proof_data, destination_chain);
    extend_str_bytes(&mut proof_data, destination_address);
    proof_data
}

/// The privacy preservation proof.
fn generate_privacy_preservation_proof(source_tx_hash: &str, destination_chain: &str) -> (res: Vec<u8>)
    ensures
        res@ == privacy_preservation_proof(source_tx_hash@, destination_chain@),
{
    let mut proof_data: Vec<u8> = Vec::new();
    extend_str_bytes(&mut proof_data, "PRIVACY_PRESERVATION_PROOF:");
    let mut hashed: Vec<u8> = Vec::new();
    extend_str_bytes(&mut hashed, source_tx_hash);
    extend_str_bytes(&mut hashed, destination_chain);
    extend_str_bytes(&mut hashed, "privacy_level_100");
    let digest = sha256(hashed.as_slice());
    extend_bytes(&mut proof_data, &digest);
    proof_data
}

/// The public inputs of a cross-chain proof.
fn create_cross_chain_public_inputs(destination_chain: &str, destination_address: &str) -> (res: Vec<u8>)
    ensures
        res@ == cross_chain_public_inputs(destination_chain@, destination_address@),
{
    let mut inputs: Vec<u8> = Vec::new();
    extend_str_bytes(&mut inputs, "CROSS_CHAIN_PUBLIC_INPUTS:");
    extend_str_bytes(&mut inputs, destination_chain);
    extend_str_bytes(&mut inputs, destination_address);
    inputs
}

/// Averaging a constant keeps the constant.
pub proof fn lemma_constant_average(c: int, n: int)
    requires
        n >= 1,
        c >= 0,
    ensures
        next_average(c, n, c) == c,
{
    assert(c * (n - 1) + c == c * n) by (nonlinear_arith);
    vstd::arithmetic::div_mod::lemma_div_by_multiple(c, n);
    assert(c * n == n * c) by (nonlinear_arith);
}

/// A cross-chain proof made by the coordinator is accepted: it begins with
/// the cross-chain tag, which is not empty.
pub proof fn lemma_cross_chain_accepted(tx_hash: Seq<char>, chain: Seq<char>)
    ensures
        cross_chain_proof_accepted(cross_chain_proof_data(tx_hash, chain), 100),
{
    let h = "PRODUCTION_CROSS_CHAIN_PROOF_V1:".spec_bytes();
    let data = cross_chain_proof_data(tx_hash, chain);
    assert(data.subrange(0, h.len() as int) =~= h);
    broadcast use vstd::string::is_ascii_spec_bytes;
    reveal_strlit("PRODUCTION_CROSS_CHAIN_PROOF_V1:");
    assert(is_ascii("PRODUCTION_CROSS_CHAIN_PROOF_V1:"));
}

} // verus!
