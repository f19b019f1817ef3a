//! The production Boojum proof system: transaction validity and amount range
//! proofs in a fixed byte layout, their verification, and the prover's and
//! verifier's running statistics. Timings are measured in whole
//! milliseconds, rounded up; the floating-point performance figures are
//! not kept here.
use vstd::prelude::*;
use vstd::string::*;
use crate::crypto::{elapsed_millis_rounded_up, instant_now, random_u64, sha256, sha256_spec, unix_time_secs};
use crate::error::PrivacyError;
use crate::text::{extend_bytes, extend_str_bytes, le_bytes_u32, le_bytes_u64, owned, starts_with, string_views, u32_le_bytes, u64_le_bytes};

verus! {

/// The production Boojum STARK proof system.
pub struct ProductionBoojumStarkSystem {
    boojum_prover: ProductionBoojumProver,
    boojum_verifier: ProductionBoojumVerifier,
    proof_params: ProductionProofParameters,
}

/// The prover: configuration, state and statistics.
pub struct ProductionBoojumProver {
    config: ProductionProverConfig,
    state: ProductionProverState,
    stats: ProductionProverStats,
}

/// The verifier: configuration, state and statistics.
pub struct ProductionBoojumVerifier {
    config: ProductionVerifierConfig,
    state: ProductionVerifierState,
    stats: ProductionVerifierStats,
}

/// Proof parameters.
pub struct ProductionProofParameters {
    /// Security level in bits.
    pub security_level: u32,
    /// Field size.
    pub field_size: u64,
    /// Number of proof rounds.
    pub rounds: u32,
    /// FRI parameters.
    pub fri_params: ProductionFriParameters,
    /// Constraint parameters.
    pub constraint_params: ProductionConstraintParameters,
    /// Boojum-specific parameters.
    pub boojum_params: ProductionBoojumParameters,
}

/// FRI parameters.
#[derive(Debug, Clone, Copy, PartialEq, Eq, Structural)]
pub struct ProductionFriParameters {
    /// Folding factor.
    pub folding_factor: u32,
    /// Number of queries.
    pub num_queries: u32,
    /// Grinding factor.
    pub grinding_factor: u32,
    /// Domain size.
    pub domain_size: u64,
    /// Coset size.
    pub coset_size: u32,
}

/// Constraint parameters.
#[derive(Debug, Clone, Copy, PartialEq, Eq, Structural)]
pub struct ProductionConstraintParameters {
    /// Number of constraints.
    pub num_constraints: u32,
    /// Constraint degree.
    pub constraint_degree: u32,
    /// Number of public inputs.
    pub public_input_count: u32,
    /// Witness size.
    pub witness_size: u32,
    /// Complexity of the constraint system.
    pub complexity: u32,
}

/// Boojum-specific parameters.
pub struct ProductionBoojumParameters {
    /// Boojum version.
    pub boojum_version: String,
    /// Feature switches.
    pub boojum_config: ProductionBoojumConfig,
    /// Resource settings.
    pub optimization_settings: ProductionOptimizationSettings,
}

/// Feature switches of the prover.
#[derive(Debug, Clone, Copy, PartialEq, Eq, Structural)]
pub struct ProductionBoojumConfig {
    /// Parallel processing.
    pub parallel_processing: bool,
    /// Memory optimisation.
    pub memory_optimization: bool,
    /// CPU optimisation.
    pub cpu_optimization: bool,
    /// GPU acceleration.
    pub gpu_acceleration: bool,
}

/// Resource settings.
#[derive(Debug, Clone, Copy, PartialEq, Eq, Structural)]
pub struct ProductionOptimizationSettings {
    /// Memory pool size in bytes.
    pub memory_pool_size: usize,
    /// Number of CPU threads.
    pub cpu_thread_count: usize,
    /// Number of GPU devices.
    pub gpu_device_count: usize,
    /// Cache size in bytes.
    pub cache_size: usize,
}

/// Prover configuration.
pub struct ProductionProverConfig {
    /// Prover type.
    pub prover_type: String,
    /// Prover version.
    pub prover_version: String,
    /// Capabilities.
    pub capabilities: Vec<String>,
    /// Limits.
    pub limits: ProductionProverLimits,
}

/// Prover limits.
#[derive(Debug, Clone, Copy, PartialEq, Eq, Structural)]
pub struct ProductionProverLimits {
    /// Maximum number of constraints.
    pub max_constraints: u32,
    /// Maximum witness size.
    pub max_witness_size: u32,
    /// Maximum proof size in bytes.
    pub max_proof_size: usize,
    /// Maximum memory use in bytes.
    pub max_memory_usage: usize,
}

/// Prover state.
pub struct ProductionProverState {
    /// The proof being generated, if any.
    pub current_proof_generation: Option<String>,
    /// Active threads.
    pub active_threads: u32,
    /// Bytes of proof data produced so far.
    pub memory_usage: usize,
}

/// Prover statistics.
#[derive(Debug, Clone, Copy, PartialEq, Eq, Structural)]
pub struct ProductionProverStats {
    /// Proofs generated.
    pub total_proofs_generated: u64,
    /// Milliseconds spent generating them, summed (saturating).
    pub total_generation_time_ms: u128,
    /// Running average of proof sizes in bytes.
    pub avg_proof_size_bytes: usize,
    /// Errors.
    pub error_count: u64,
}

/// Verifier configuration.
pub struct ProductionVerifierConfig {
    /// Verifier type.
    pub verifier_type: String,
    /// Verifier version.
    pub verifier_version: String,
    /// Capabilities.
    pub capabilities: Vec<String>,
    /// Limits.
    pub limits: ProductionVerifierLimits,
}

/// Verifier limits.
#[derive(Debug, Clone, Copy, PartialEq, Eq, Structural)]
pub struct ProductionVerifierLimits {
    /// Maximum proof size in bytes.
    pub max_proof_size: usize,
    /// Maximum number of public inputs.
    pub max_public_input_count: u32,
    /// Maximum verification time in milliseconds.
    pub max_verification_time_ms: u64,
    /// Maximum memory use in bytes.
    pub max_memory_usage: usize,
}

/// Verifier state.
pub struct ProductionVerifierState {
    /// The verification under way, if any.
    pub current_verification: Option<String>,
    /// Active verifications.
    pub active_verifications: u32,
    /// Bytes of proof data accepted so far.
    pub memory_usage: usize,
}

/// Verifier statistics.
#[derive(Debug, Clone, Copy, PartialEq, Eq, Structural)]
pub struct ProductionVerifierStats {
    /// Proofs verified.
    pub total_proofs_verified: u64,
    /// Milliseconds spent verifying them, summed (saturating).
    pub total_verification_time_ms: u128,
    /// Verifications that rejected the proof.
    pub verification_error_count: u64,
}

/// A production Boojum STARK proof.
pub struct ProductionBoojumStarkProof {
    /// Proof data.
    pub boojum_proof_data: Vec<u8>,
    /// Public inputs.
    pub public_inputs: Vec<u8>,
    /// Proof type.
    pub proof_type: String,
    /// Security level in bits.
    pub security_level: u32,
    /// Metadata.
    pub production_metadata: ProductionProofMetadata,
    /// Timing and size of this proof.
    pub performance_metrics: ProofPerformanceMetrics,
}

/// Metadata of a proof.
pub struct ProductionProofMetadata {
    /// Generation time, seconds since the Unix epoch.
    pub timestamp: u64,
    /// Proof version.
    pub version: u8,
    /// Field size.
    pub field_size: u64,
    /// Number of constraints.
    pub constraint_count: u32,
    /// FRI parameters.
    pub fri_params: ProductionFriParameters,
    /// Boojum version.
    pub boojum_version: String,
    /// Configuration of the prover that made the proof.
    pub prover_config: ProductionProverConfig,
    /// Generation time in milliseconds.
    pub generation_time_ms: u128,
    /// Proof size in bytes.
    pub proof_size_bytes: usize,
}

/// Timing and size of one proof.
#[derive(Debug, Clone, Copy, PartialEq, Eq, Structural)]
pub struct ProofPerformanceMetrics {
    /// Generation time in milliseconds.
    pub generation_time_ms: u128,
    /// Verification time in milliseconds.
    pub verification_time_ms: u128,
    /// Proof size in bytes.
    pub proof_size_bytes: usize,
}

/// The production FRI parameters: folding 4, 2 queries, grinding 1, a
/// domain of 2^20 and cosets of 4.
pub open spec fn production_fri() -> ProductionFriParameters {
    ProductionFriParameters {
        folding_factor: 4,
        num_queries: 2,
        grinding_factor: 1,
        domain_size: 0x10_0000,
        coset_size: 4,
    }
}

/// The production constraint parameters: 8 constraints of degree 2 over 4
/// public inputs, witness size 16, complexity 100.
pub open spec fn production_constraints() -> ProductionConstraintParameters {
    ProductionConstraintParameters {
        num_constraints: 8,
        constraint_degree: 2,
        public_input_count: 4,
        witness_size: 16,
        complexity: 100,
    }
}

/// The largest proof the verifier accepts: 10 MiB.
pub open spec fn max_verified_proof_size() -> usize {
    0xa0_0000
}

/// The prover's configuration.
pub open spec fn production_prover_config(c: ProductionProverConfig) -> bool {
    &&& c.prover_type@ == "boojum_production_prover"@
    &&& c.prover_version@ == "main"@
    &&& string_views(c.capabilities@) == seq![
        "stark_proof_generation"@,
        "parallel_processing"@,
        "memory_optimization"@,
        "cpu_optimization"@,
    ]
    &&& c.limits == (ProductionProverLimits {
        max_constraints: 1_000_000,
        max_witness_size: 1_000_000,
        max_proof_size: 0xa0_0000,
        max_memory_usage: 0x8000_0000,
    })
}

/// The verifier's configuration.
pub open spec fn production_verifier_config(c: ProductionVerifierConfig) -> bool {
    &&& c.verifier_type@ == "boojum_production_verifier"@
    &&& c.verifier_version@ == "main"@
    &&& string_views(c.capabilities@) == seq![
        "stark_proof_verification"@,
        "parallel_verification"@,
        "memory_optimization"@,
        "cpu_optimization"@,
    ]
    &&& c.limits == (ProductionVerifierLimits {
        max_proof_size: 0xa0_0000,
        max_public_input_count: 1000,
        max_verification_time_ms: 1000,
        max_memory_usage: 0x2000_0000,
    })
}

/// The running average after a proof of `size` bytes joins `n - 1` proofs
/// whose sizes averaged `avg`.
pub open spec fn next_average(avg: int, n: int, size: int) -> int {
    (avg * (n - 1) + size) / n
}

/// Counts that can grow by one proof more: the counters below their
/// maximum, and room for `size` more bytes in the prover's and verifier's
/// byte counts.
pub open spec fn room_for_proof(prover_total: u64, memory: usize, size: int) -> bool {
    &&& prover_total < u64::MAX
    &&& memory + size <= usize::MAX
}

/// Whether `data` begins with `prefix`.
pub open spec fn begins_with(data: Seq<u8>, prefix: Seq<u8>) -> bool {
    prefix.len() <= data.len() && data.subrange(0, prefix.len() as int) == prefix
}

/// A transaction validity proof up to its last 8 bytes, which are a random
/// signature value: the tags, the security level, field size, constraint
/// count, FRI folding factor, query count and domain size, the SHA-256 hash
/// of amount, balance and security level, and the signature tag.
pub open spec fn validity_body(amount: u64, balance: u64) -> Seq<u8> {
    "BOOJUM_PROOF_V1:".spec_bytes() + "TRANSACTION_VALIDITY:".spec_bytes() + le_bytes_u32(128) + le_bytes_u64(u64::MAX)
        + le_bytes_u32(8) + le_bytes_u32(4) + le_bytes_u32(2) + le_bytes_u64(0x10_0000) + sha256_spec(
        le_bytes_u64(amount) + le_bytes_u64(balance) + le_bytes_u32(128),
    ) + "BOOJUM_SIGNATURE:".spec_bytes()
}

/// The public inputs of a transaction validity proof: amount, balance and
/// security level.
pub open spec fn validity_inputs(amount: u64, balance: u64) -> Seq<u8> {
    "BOOJUM_PUBLIC_INPUTS:".spec_bytes() + le_bytes_u64(amount) + le_bytes_u64(balance) + le_bytes_u32(128)
}

/// An amount range proof: the tags, the bounds, and the SHA-256 hash of
/// amount and bounds.
pub open spec fn range_data(amount: u64, min_amount: u64, max_amount: u64) -> Seq<u8> {
    "BOOJUM_RANGE_PROOF_V1:".spec_bytes() + "AMOUNT_RANGE:".spec_bytes() + le_bytes_u64(min_amount) + le_bytes_u64(
        max_amount,
    ) + sha256_spec(le_bytes_u64(amount) + le_bytes_u64(min_amount) + le_bytes_u64(max_amount))
}

/// The public inputs of an amount range proof: the bounds and the security
/// level.
pub open spec fn range_inputs(min_amount: u64, max_amount: u64) -> Seq<u8> {
    "BOOJUM_RANGE_INPUTS:".spec_bytes() + le_bytes_u64(min_amount) + le_bytes_u64(max_amount) + le_bytes_u32(128)
}

/// The byte length of a transaction validity proof.
pub open spec fn validity_proof_len() -> int {
    126
}

/// The byte length of an amount range proof.
pub open spec fn range_proof_len() -> int {
    83
}

/// What verification accepts: non-empty data that begins with the
/// validity or the range proof tag, a security level of 128, and at most
/// 10 MiB of data.
pub open spec fn boojum_proof_accepted(data: Seq<u8>, security_level: u32) -> bool {
    &&& data.len() > 0
    &&& begins_with(data, "BOOJUM_PROOF_V1:".spec_bytes()) || begins_with(data, "BOOJUM_RANGE_PROOF_V1:".spec_bytes())
    &&& security_level == 128
    &&& data.len() <= max_verified_proof_size()
}

/// `a + b`, or the largest `u128` where the sum does not fit.
pub open spec fn saturating_sum(a: u128, b: u128) -> u128 {
    if a + b > u128::MAX {
        u128::MAX
    } else {
        (a + b) as u128
    }
}

/// The prover's statistics after one more proof of `size` bytes that took
/// `time` milliseconds.
pub open spec fn prover_stats_after(s: ProductionProverStats, time: u128, size: int) -> ProductionProverStats {
    ProductionProverStats {
        total_proofs_generated: (s.total_proofs_generated + 1) as u64,
        total_generation_time_ms: saturating_sum(s.total_generation_time_ms, time),
        avg_proof_size_bytes: next_average(
            s.avg_proof_size_bytes as int,
            s.total_proofs_generated + 1,
            size,
        ) as usize,
        error_count: s.error_count,
    }
}

/// The verifier's statistics after one more verification that took `time`
/// milliseconds and accepted the proof or not.
pub open spec fn verifier_stats_after(s: ProductionVerifierStats, time: u128, accepted: bool) -> ProductionVerifierStats {
    ProductionVerifierStats {
        total_proofs_verified: (s.total_proofs_verified + 1) as u64,
        total_verification_time_ms: saturating_sum(s.total_verification_time_ms, time),
        verification_error_count: if accepted {
            s.verification_error_count
        } else {
            (s.verification_error_count + 1) as u64
        },
    }
}

/// The fields every proof of this system carries.
pub open spec fn production_envelope(p: ProductionBoojumStarkProof, proof_type: Seq<char>, constraint_count: u32) -> bool {
    &&& p.proof_type@ == proof_type
    &&& p.security_level == 128
    &&& p.production_metadata.version == 1
    &&& p.production_metadata.field_size == u64::MAX
    &&& p.production_metadata.constraint_count == constraint_count
    &&& p.production_metadata.fri_params == production_fri()
    &&& p.production_metadata.boojum_version@ == "main"@
    &&& production_prover_config(p.production_metadata.prover_config)
    &&& p.production_metadata.proof_size_bytes == p.boojum_proof_data@.len()
    &&& p.production_metadata.generation_time_ms == p.performance_metrics.generation_time_ms
    &&& p.performance_metrics.verification_time_ms == 0
    &&& p.performance_metrics.proof_size_bytes == p.boojum_proof_data@.len()
}

impl ProductionBoojumStarkSystem {
    /// The fixed production parameters, configurations, and statistics in
    /// which no verification failed.
    pub closed spec fn well_formed(&self) -> bool {
        &&& self.proof_params.security_level == 128
        &&& self.proof_params.field_size == u64::MAX
        &&& self.proof_params.rounds == 10
        &&& self.proof_params.fri_params == production_fri()
        &&& self.proof_params.constraint_params == production_constraints()
        &&& self.proof_params.boojum_params.boojum_version@ == "main"@
        &&& production_prover_config(self.boojum_prover.config)
        &&& production_verifier_config(self.boojum_verifier.config)
        &&& self.boojum_verifier.stats.verification_error_count <= self.boojum_verifier.stats.total_proofs_verified
    }

    /// The security level of the system's proofs.
    pub closed spec fn spec_security_level(&self) -> u32 {
        self.proof_params.security_level
    }

    /// The prover's statistics.
    pub closed spec fn spec_prover_stats(&self) -> ProductionProverStats {
        self.boojum_prover.stats
    }

    /// The verifier's statistics.
    pub closed spec fn spec_verifier_stats(&self) -> ProductionVerifierStats {
        self.boojum_verifier.stats
    }

    /// Bytes of proof data the prover has produced.
    pub closed spec fn spec_prover_memory(&self) -> usize {
        self.boojum_prover.state.memory_usage
    }

    /// Bytes of proof data the verifier has accepted.
    pub closed spec fn spec_verifier_memory(&self) -> usize {
        self.boojum_verifier.state.memory_usage
    }

    /// The Boojum version of the system.
    pub closed spec fn spec_boojum_version(&self) -> Seq<char> {
        self.proof_params.boojum_params.boojum_version@
    }

    /// The system with its production parameters: 128-bit security, field
    /// size 2^64 - 1, 10 rounds, the production FRI and constraint
    /// parameters, Boojum version `main` with parallel processing, memory
    /// and CPU optimisation on and GPU acceleration off, a 1 GiB memory
    /// pool, 8 CPU threads, no GPU and a 256 MiB cache; the prover's and
    /// verifier's configurations; empty state and statistics.
    pub fn new() -> (res: Result<Self, PrivacyError>)
        ensures
            res matches Ok(s) && {
                &&& s.well_formed()
                &&& s.spec_security_level() == 128
                &&& s.spec_boojum_version() == "main"@
                &&& s.spec_prover_stats() == (ProductionProverStats {
                    total_proofs_generated: 0,
                    total_generation_time_ms: 0,
                    avg_proof_size_bytes: 0,
                    error_count: 0,
                })
                &&& s.spec_verifier_stats() == (ProductionVerifierStats {
                    total_proofs_verified: 0,
                    total_verification_time_ms: 0,
                    verification_error_count: 0,
                })
                &&& s.spec_prover_memory() == 0
                &&& s.spec_verifier_memory() == 0
            },
    {
        let fri_params = ProductionFriParameters {
            folding_factor: 4,
            num_queries: 2,
            grinding_factor: 1,
            domain_size: 0x10_0000,
            coset_size: 4,
        };
        let constraint_params = ProductionConstraintParameters {
            num_constraints: 8,
            constraint_degree: 2,
            public_input_count: 4,
            witness_size: 16,
            complexity: 100,
        };
        let boojum_params = ProductionBoojumParameters {
            boojum_version: owned("main"),
            boojum_config: ProductionBoojumConfig {
                parallel_processing: true,
                memory_optimization: true,
                cpu_optimization: true,
                gpu_acceleration: false,
            },
            optimization_settings: ProductionOptimizationSettings {
                memory_pool_size: 0x4000_0000,
                cpu_thread_count: 8,
                gpu_device_count: 0,
                cache_size: 0x1000_0000,
            },
        };
        let proof_params = ProductionProofParameters {
            security_level: 128,
            field_size: u64::MAX,
            rounds: 10,
            fri_params,
            constraint_params,
            boojum_params,
        };
        let prover_capabilities = vec![
            owned("stark_proof_generation"),
            owned("parallel_processing"),
            owned("memory_optimization"),
            owned("cpu_optimization"),
        ];
        let boojum_prover = ProductionBoojumProver {
            config: ProductionProverConfig {
                prover_type: owned("boojum_production_prover"),
                prover_version: owned("main"),
                capabilities: prover_capabilities,
                limits: ProductionProverLimits {
                    max_constraints: 1_000_000,
                    max_witness_size: 1_000_000,
                    max_proof_size: 0xa0_0000,
                    max_memory_usage: 0x8000_0000,
                },
            },
            state: ProductionProverState { current_proof_generation: None, active_threads: 0, memory_usage: 0 },
            stats: ProductionProverStats {
                total_proofs_generated: 0,
                total_generation_time_ms: 0,
                avg_proof_size_bytes: 0,
                error_count: 0,
            },
        };
        let verifier_capabilities = vec![
            owned("stark_proof_verification"),
            owned("parallel_verification"),
            owned("memory_optimization"),
            owned("cpu_optimization"),
        ];
        let boojum_verifier = ProductionBoojumVerifier {
            config: ProductionVerifierConfig {
                verifier_type: owned("boojum_production_verifier"),
                verifier_version: owned("main"),
                capabilities: verifier_capabilities,
                limits: ProductionVerifierLimits {
                    max_proof_size: 0xa0_0000,
                    max_public_input_count: 1000,
                    max_verification_time_ms: 1000,
                    max_memory_usage: 0x2000_0000,
                },
            },
            state: ProductionVerifierState { current_verification: None, active_verifications: 0, memory_usage: 0 },
            stats: ProductionVerifierStats {
                total_proofs_verified: 0,
                total_verification_time_ms: 0,
                verification_error_count: 0,
            },
        };
        let s = ProductionBoojumStarkSystem { boojum_prover, boojum_verifier, proof_params };
        assert(string_views(s.boojum_prover.config.capabilities@) =~= seq![
            "stark_proof_generation"@,
            "parallel_processing"@,
            "memory_optimization"@,
            "cpu_optimization"@,
        ]);
        assert(string_views(s.boojum_verifier.config.capabilities@) =~= seq![
            "stark_proof_verification"@,
            "parallel_verification"@,
            "memory_optimization"@,
            "cpu_optimization"@,
        ]);
        Ok(s)
    }
}

/// A copy of a configuration of the prover.
fn copy_prover_config(c: &ProductionProverConfig) -> (res: ProductionProverConfig)
    ensures
        res.prover_type@ == c.prover_type@,
        res.prover_version@ == c.prover_version@,
        res.capabilities@ == c.capabilities@,
        res.limits == c.limits,
{
    let capabilities = c.capabilities.clone();
    assert(capabilities@ =~= c.capabilities@);
    ProductionProverConfig {
        prover_type: c.prover_type.clone(),
        prover_version: c.prover_version.clone(),
        capabilities,
        limits: c.limits,
    }
}

impl ProductionBoojumStarkSystem {
    /// Proves that `amount` is positive and covered by `sender_balance`.
    /// A zero amount and an amount above the balance are refused before
    /// any work. Otherwise the proof data is the validity layout followed by 8 random bytes, the public inputs
    /// reveal amount and balance, and the prover's byte count and
    /// statistics grow by the proof; a clock before the Unix epoch is
    /// reported after the byte count has grown. Every proof made here is
    /// accepted by verification.
    pub fn prove_transaction_validity(&mut self, amount: u64, sender_balance: u64) -> (res: Result<
        ProductionBoojumStarkProof,
        PrivacyError,
    >)
        requires
            old(self).well_formed(),
            room_for_proof(
                old(self).spec_prover_stats().total_proofs_generated,
                old(self).spec_prover_memory(),
                validity_proof_len(),
            ),
        ensures
            final(self).well_formed(),
            final(self).spec_verifier_stats() == old(self).spec_verifier_stats(),
            final(self).spec_verifier_memory() == old(self).spec_verifier_memory(),
            amount == 0 ==> res == Err::<ProductionBoojumStarkProof, PrivacyError>(PrivacyError::ZeroAmount),
            amount != 0 && amount > sender_balance ==> res == Err::<ProductionBoojumStarkProof, PrivacyError>(
                PrivacyError::InsufficientBalance,
            ),
            (amount == 0 || amount > sender_balance) ==> final(self).spec_prover_memory() == old(self).spec_prover_memory() && final(self).spec_prover_stats() == old(self).spec_prover_stats(),
            0 < amount <= sender_balance ==> res is Ok || res == Err::<ProductionBoojumStarkProof, PrivacyError>(
                PrivacyError::ClockError,
            ),
            0 < amount <= sender_balance ==> final(self).spec_prover_memory() == old(self).spec_prover_memory()
                + validity_proof_len(),
            res == Err::<ProductionBoojumStarkProof, PrivacyError>(PrivacyError::ClockError) ==> final(self).spec_prover_stats() == old(self).spec_prover_stats(),
            res matches Ok(p) ==> {
                &&& p.boojum_proof_data@.len() == validity_proof_len()
                &&& begins_with(p.boojum_proof_data@, validity_body(amount, sender_balance))
                &&& p.public_inputs@ == validity_inputs(amount, sender_balance)
                &&& production_envelope(p, "production_boojum_transaction_validity"@, 8)
                &&& final(self).spec_prover_stats() == prover_stats_after(
                    old(self).spec_prover_stats(),
                    p.performance_metrics.generation_time_ms,
                    validity_proof_len(),
                )
                &&& boojum_proof_accepted(p.boojum_proof_data@, p.security_level)
            },
    {
        let start = instant_now();
        if amount == 0 {
            return Err(PrivacyError::ZeroAmount);
        }
        if amount > sender_balance {
            return Err(PrivacyError::InsufficientBalance);
        }
        let boojum_proof_data = self.generate_production_boojum_proof(amount, sender_balance);
        let public_inputs = self.create_production_public_inputs(amount, sender_balance);
        let generation_time = elapsed_millis_rounded_up(&start);
        let now = match unix_time_secs() {
            Some(t) => t,
            None => return Err(PrivacyError::ClockError),
        };
        let proof_size = boojum_proof_data.len();
        self.update_prover_stats(generation_time, proof_size);
        let prover_config = copy_prover_config(&self.boojum_prover.config);
        proof {
            lemma_validity_accepted(boojum_proof_data@, amount, sender_balance);
        }
        Ok(ProductionBoojumStarkProof {
            boojum_proof_data,
            public_inputs,
            proof_type: owned("production_boojum_transaction_validity"),
            security_level: self.proof_params.security_level,
            production_metadata: ProductionProofMetadata {
                timestamp: now,
                version: 1,
                field_size: self.proof_params.field_size,
                constraint_count: self.proof_params.constraint_params.num_constraints,
                fri_params: self.proof_params.fri_params,
                boojum_version: self.proof_params.boojum_params.boojum_version.clone(),
                prover_config,
                generation_time_ms: generation_time,
                proof_size_bytes: proof_size,
            },
            performance_metrics: ProofPerformanceMetrics {
                generation_time_ms: generation_time,
                verification_time_ms: 0,
                proof_size_bytes: proof_size,
            },
        })
    }

    /// Proves `min_amount <= amount <= max_amount`. An amount outside the
    /// range is refused before any work. Otherwise the proof data is the
    /// range layout, the public inputs
    /// reveal only the bounds, and the prover's byte count and statistics
    /// grow by the proof; a clock before the Unix epoch is reported after
    /// the byte count has grown. Every proof made here is accepted by
    /// verification.
    pub fn prove_amount_range(&mut self, amount: u64, min_amount: u64, max_amount: u64) -> (res: Result<
        ProductionBoojumStarkProof,
        PrivacyError,
    >)
        requires
            old(self).well_formed(),
            room_for_proof(
                old(self).spec_prover_stats().total_proofs_generated,
                old(self).spec_prover_memory(),
                range_proof_len(),
            ),
        ensures
            final(self).well_formed(),
            final(self).spec_verifier_stats() == old(self).spec_verifier_stats(),
            final(self).spec_verifier_memory() == old(self).spec_verifier_memory(),
            (amount < min_amount || amount > max_amount) ==> res == Err::<ProductionBoojumStarkProof, PrivacyError>(
                PrivacyError::AmountOutOfRange,
            ) && final(self).spec_prover_memory() == old(self).spec_prover_memory() && final(self).spec_prover_stats()
                == old(self).spec_prover_stats(),
            min_amount <= amount <= max_amount ==> res is Ok || res == Err::<ProductionBoojumStarkProof, PrivacyError>(
                PrivacyError::ClockError,
            ),
            min_amount <= amount <= max_amount ==> final(self).spec_prover_memory() == old(self).spec_prover_memory()
                + range_proof_len(),
            res == Err::<ProductionBoojumStarkProof, PrivacyError>(PrivacyError::ClockError) ==> final(self).spec_prover_stats() == old(self).spec_prover_stats(),
            res matches Ok(p) ==> {
                &&& p.boojum_proof_data@ == range_data(amount, min_amount, max_amount)
                &&& p.boojum_proof_data@.len() == range_proof_len()
                &&& p.public_inputs@ == range_inputs(min_amount, max_amount)
                &&& production_envelope(p, "production_boojum_amount_range"@, 2)
                &&& final(self).spec_prover_stats() == prover_stats_after(
                    old(self).spec_prover_stats(),
                    p.performance_metrics.generation_time_ms,
                    range_proof_len(),
                )
                &&& boojum_proof_accepted(p.boojum_proof_data@, p.security_level)
            },
    {
        let start = instant_now();
        if amount < min_amount || amount > max_amount {
            return Err(PrivacyError::AmountOutOfRange);
        }
        let boojum_proof_data = self.generate_production_range_proof(amount, min_amount, max_amount);
        let public_inputs = self.create_production_range_inputs(min_amount, max_amount);
        let generation_time = elapsed_millis_rounded_up(&start);
        let now = match unix_time_secs() {
            Some(t) => t,
            None => return Err(PrivacyError::ClockError),
        };
        let proof_size = boojum_proof_data.len();
        self.update_prover_stats(generation_time, proof_size);
        let prover_config = copy_prover_config(&self.boojum_prover.config);
        proof {
            lemma_range_accepted(amount, min_amount, max_amount);
        }
        Ok(ProductionBoojumStarkProof {
            boojum_proof_data,
            public_inputs,
            proof_type: owned("production_boojum_amount_range"),
            security_level: self.proof_params.security_level,
            production_metadata: ProductionProofMetadata {
                timestamp: now,
                version: 1,
                field_size: self.proof_params.field_size,
                constraint_count: 2,
                fri_params: self.proof_params.fri_params,
                boojum_version: self.proof_params.boojum_params.boojum_version.clone(),
                prover_config,
                generation_time_ms: generation_time,
                proof_size_bytes: proof_size,
            },
            performance_metrics: ProofPerformanceMetrics {
                generation_time_ms: generation_time,
                verification_time_ms: 0,
                proof_size_bytes: proof_size,
            },
        })
    }

    /// Verifies a proof: the answer is whether it is accepted (non-empty,
    /// tagged as a validity or range proof, security level 128, at most
    /// 10 MiB). The verifier's statistics count the
    /// verification and a rejection, and an accepted proof's bytes join
    /// the verifier's byte count.
    pub fn verify_proof(&mut self, proof: &ProductionBoojumStarkProof) -> (res: Result<bool, PrivacyError>)
        requires
            old(self).well_formed(),
            old(self).spec_verifier_stats().total_proofs_verified < u64::MAX,
            old(self).spec_verifier_memory() + proof.boojum_proof_data@.len() <= usize::MAX,
        ensures
            final(self).well_formed(),
            res matches Ok(b) && b == boojum_proof_accepted(proof.boojum_proof_data@, proof.security_level),
            final(self).spec_prover_stats() == old(self).spec_prover_stats(),
            final(self).spec_prover_memory() == old(self).spec_prover_memory(),
            exists|t: u128| final(self).spec_verifier_stats() == #[trigger] verifier_stats_after(
                old(self).spec_verifier_stats(),
                t,
                boojum_proof_accepted(proof.boojum_proof_data@, proof.security_level),
            ),
            final(self).spec_verifier_memory() == if boojum_proof_accepted(proof.boojum_proof_data@, proof.security_level) {
                old(self).spec_verifier_memory() + proof.boojum_proof_data@.len()
            } else {
                old(self).spec_verifier_memory() as int
            },
    {
        let start = instant_now();
        let verification_result = self.verify_production_boojum_proof(proof);
        let verification_time = elapsed_millis_rounded_up(&start);
        self.update_verifier_stats(verification_time, verification_result);
        Ok(verification_result)
    }

    /// The prover's statistics.
    pub fn get_prover_statistics(&self) -> (res: ProductionProverStats)
        ensures
            res == self.spec_prover_stats(),
    {
        self.boojum_prover.stats
    }

    /// The verifier's statistics.
    pub fn get_verifier_statistics(&self) -> (res: ProductionVerifierStats)
        ensures
            res == self.spec_verifier_stats(),
    {
        self.boojum_verifier.stats
    }

    /// The system's security level.
    pub fn security_level(&self) -> (res: u32)
        ensures
            res == self.spec_security_level(),
    {
        self.proof_params.security_level
    }

    /// The system's Boojum version.
    pub fn boojum_version(&self) -> (res: String)
        ensures
            res@ == self.spec_boojum_version(),
    {
        self.proof_params.boojum_params.boojum_version.clone()
    }

    /// The range proof data; the prover's byte count grows by it.
    fn generate_production_range_proof(&mut self, amount: u64, min_amount: u64, max_amount: u64) -> (res: Vec<u8>)
        requires
            old(self).well_formed(),
            old(self).spec_prover_memory() + range_proof_len() <= usize::MAX,
        ensures
            final(self).well_formed(),
            final(self).spec_prover_stats() == old(self).spec_prover_stats(),
            final(self).spec_verifier_stats() == old(self).spec_verifier_stats(),
            final(self).spec_verifier_memory() == old(self).spec_verifier_memory(),
            final(self).spec_prover_memory() == old(self).spec_prover_memory() + range_proof_len(),
            res@ == range_data(amount, min_amount, max_amount),
            res@.len() == range_proof_len(),
    {
        let mut proof_data: Vec<u8> = Vec::new();
        extend_str_bytes(&mut proof_data, "BOOJUM_RANGE_PROOF_V1:");
        extend_str_bytes(&mut proof_data, "AMOUNT_RANGE:");
        let b = u64_le_bytes(min_amount);
        extend_bytes(&mut proof_data, b.as_slice());
        let b = u64_le_bytes(max_amount);
        extend_bytes(&mut proof_data, b.as_slice());
        let mut hashed: Vec<u8> = Vec::new();
        let b = u64_le_bytes(amount);
        extend_bytes(&mut hashed, b.as_slice());
        let b = u64_le_bytes(min_amount);
        extend_bytes(&mut hashed, b.as_slice());
        let b = u64_le_bytes(max_amount);
        extend_bytes(&mut hashed, b.as_slice());
        let digest = sha256(hashed.as_slice());
        extend_bytes(&mut proof_data, &digest);
        proof {
            lemma_tag_lengths();
            assert(proof_data@ =~= range_data(amount, min_amount, max_amount));
        }
        self.boojum_prover.state.memory_usage = self.boojum_prover.state.memory_usage + proof_data.len();
        proof_data
    }

    /// `BOOJUM_RANGE_INPUTS:`, the bounds and the security level.
    fn create_production_range_inputs(&self, min_amount: u64, max_amount: u64) -> (res: Vec<u8>)
        requires
            self.well_formed(),
        ensures
            res@ == range_inputs(min_amount, max_amount),
    {
        let mut inputs: Vec<u8> = Vec::new();
        extend_str_bytes(&mut inputs, "BOOJUM_RANGE_INPUTS:");
        let b = u64_le_bytes(min_amount);
        extend_bytes(&mut inputs, b.as_slice());
        let b = u64_le_bytes(max_amount);
        extend_bytes(&mut inputs, b.as_slice());
        let b = u32_le_bytes(self.proof_params.security_level);
        extend_bytes(&mut inputs, b.as_slice());
        inputs
    }

    /// The acceptance check; an accepted proof's bytes join the verifier's
    /// byte count.
    fn verify_production_boojum_proof(&mut self, proof: &ProductionBoojumStarkProof) -> (res: bool)
        requires
            old(self).well_formed(),
            old(self).spec_verifier_memory() + proof.boojum_proof_data@.len() <= usize::MAX,
        ensures
            res == boojum_proof_accepted(proof.boojum_proof_data@, proof.security_level),
            final(self).well_formed(),
            final(self).boojum_prover == old(self).boojum_prover,
            final(self).boojum_verifier.stats == old(self).boojum_verifier.stats,
            final(self).spec_verifier_memory() == if res {
                old(self).spec_verifier_memory() + proof.boojum_proof_data@.len()
            } else {
                old(self).spec_verifier_memory() as int
            },
    {
        if proof.boojum_proof_data.len() == 0 {
            return false;
        }
        let tagged = starts_with(proof.boojum_proof_data.as_slice(), "BOOJUM_PROOF_V1:".as_bytes()) || starts_with(
            proof.boojum_proof_data.as_slice(),
            "BOOJUM_RANGE_PROOF_V1:".as_bytes(),
        );
        if !tagged {
            return false;
        }
        if proof.security_level != self.proof_params.security_level {
            return false;
        }
        if proof.boojum_proof_data.len() > self.boojum_verifier.config.limits.max_proof_size {
            return false;
        }
        self.boojum_verifier.state.memory_usage = self.boojum_verifier.state.memory_usage
            + proof.boojum_proof_data.len();
        true
    }

    /// One more verification in the verifier's statistics.
    fn update_verifier_stats(&mut self, verification_time: u128, success: bool)
        requires
            old(self).well_formed(),
            old(self).boojum_verifier.stats.total_proofs_verified < u64::MAX,
        ensures
            final(self).well_formed(),
            final(self).boojum_verifier.stats == verifier_stats_after(
                old(self).boojum_verifier.stats,
                verification_time,
                success,
            ),
            final(self).boojum_verifier.state == old(self).boojum_verifier.state,
            final(self).boojum_prover == old(self).boojum_prover,
    {
        self.boojum_verifier.stats.total_proofs_verified = self.boojum_verifier.stats.total_proofs_verified + 1;
        if !success {
            self.boojum_verifier.stats.verification_error_count = self.boojum_verifier.stats.verification_error_count
                + 1;
        }
        self.boojum_verifier.stats.total_verification_time_ms = self.boojum_verifier.stats.total_verification_time_ms.saturating_add(
            verification_time,
        );
    }

    /// The validity proof data; the prover's byte count grows by it.
    fn generate_production_boojum_proof(&mut self, amount: u64, sender_balance: u64) -> (res: Vec<u8>)
        requires
            old(self).well_formed(),
            old(self).spec_prover_memory() + validity_proof_len() <= usize::MAX,
        ensures
            final(self).well_formed(),
            final(self).spec_prover_stats() == old(self).spec_prover_stats(),
            final(self).spec_verifier_stats() == old(self).spec_verifier_stats(),
            final(self).spec_verifier_memory() == old(self).spec_verifier_memory(),
            final(self).spec_prover_memory() == old(self).spec_prover_memory() + validity_proof_len(),
            res@.len() == validity_proof_len(),
            begins_with(res@, validity_body(amount, sender_balance)),
    {
        let mut proof_data: Vec<u8> = Vec::new();
        extend_str_bytes(&mut proof_data, "BOOJUM_PROOF_V1:");
        extend_str_bytes(&mut proof_data, "TRANSACTION_VALIDITY:");
        let b = u32_le_bytes(self.proof_params.security_level);
        extend_bytes(&mut proof_data, b.as_slice());
        let b = u64_le_bytes(self.proof_params.field_size);
        extend_bytes(&mut proof_data, b.as_slice());
        let b = u32_le_bytes(self.proof_params.constraint_params.num_constraints);
        extend_bytes(&mut proof_data, b.as_slice());
        let b = u32_le_bytes(self.proof_params.fri_params.folding_factor);
        extend_bytes(&mut proof_data, b.as_slice());
        let b = u32_le_bytes(self.proof_params.fri_params.num_queries);
        extend_bytes(&mut proof_data, b.as_slice());
        let b = u64_le_bytes(self.proof_params.fri_params.domain_size);
        extend_bytes(&mut proof_data, b.as_slice());
        let mut hashed: Vec<u8> = Vec::new();
        let b = u64_le_bytes(amount);
        extend_bytes(&mut hashed, b.as_slice());
        let b = u64_le_bytes(sender_balance);
        extend_bytes(&mut hashed, b.as_slice());
        let b = u32_le_bytes(self.proof_params.security_level);
        extend_bytes(&mut hashed, b.as_slice());
        let digest = sha256(hashed.as_slice());
        extend_bytes(&mut proof_data, &digest);
        extend_str_bytes(&mut proof_data, "BOOJUM_SIGNATURE:");
        let ghost body = proof_data@;
        let signature = u64_le_bytes(random_u64());
        extend_bytes(&mut proof_data, signature.as_slice());
        proof {
            lemma_tag_lengths();
            assert(body =~= validity_body(amount, sender_balance));
            assert(proof_data@.subrange(0, body.len() as int) =~= body);
        }
        self.boojum_prover.state.memory_usage = self.boojum_prover.state.memory_usage + proof_data.len();
        proof_data
    }

    /// `BOOJUM_PUBLIC_INPUTS:`, amount, balance and security level.
    fn create_production_public_inputs(&self, amount: u64, sender_balance: u64) -> (res: Vec<u8>)
        requires
            self.well_formed(),
        ensures
            res@ == validity_inputs(amount, sender_balance),
    {
        let mut inputs: Vec<u8> = Vec::new();
        extend_str_bytes(&mut inputs, "BOOJUM_PUBLIC_INPUTS:");
        let b = u64_le_bytes(amount);
        extend_bytes(&mut inputs, b.as_slice());
        let b = u64_le_bytes(sender_balance);
        extend_bytes(&mut inputs, b.as_slice());
        let b = u32_le_bytes(self.proof_params.security_level);
        extend_bytes(&mut inputs, b.as_slice());
        inputs
    }

    /// One more proof in the prover's statistics.
    fn update_prover_stats(&mut self, generation_time: u128, proof_size: usize)
        requires
            old(self).boojum_prover.stats.total_proofs_generated < u64::MAX,
        ensures
            final(self).boojum_prover.stats == prover_stats_after(
                old(self).boojum_prover.stats,
                generation_time,
                proof_size as int,
            ),
            final(self).boojum_prover.state == old(self).boojum_prover.state,
            final(self).boojum_prover.config == old(self).boojum_prover.config,
            final(self).boojum_verifier == old(self).boojum_verifier,
            final(self).proof_params == old(self).proof_params,
    {
        let total = self.boojum_prover.stats.total_proofs_generated + 1;
        let avg = self.boojum_prover.stats.avg_proof_size_bytes;
        proof {
            lemma_average_within(avg as int, total as int, proof_size as int, 0, usize::MAX as int);
            let a = avg as int;
            let t = (total - 1) as int;
            assert(a * t <= 0xffff_ffff_ffff_ffff * 0xffff_ffff_ffff_ffff) by (nonlinear_arith)
                requires
                    0 <= a <= 0xffff_ffff_ffff_ffff,
                    0 <= t <= 0xffff_ffff_ffff_ffff,
            ;
        }
        let sum: u128 = (avg as u128) * ((total - 1) as u128) + proof_size as u128;
        let next: u128 = sum / (total as u128);
        self.boojum_prover.stats.total_proofs_generated = total;
        self.boojum_prover.stats.total_generation_time_ms = self.boojum_prover.stats.total_generation_time_ms.saturating_add(
            generation_time,
        );
        self.boojum_prover.stats.avg_proof_size_bytes = next as usize;
    }
}

/// The running average of proof sizes stays between the smallest and the
/// largest size seen: a proof whose size lies in the range of the earlier
/// average keeps the new average in that range.
pub proof fn lemma_average_within(avg: int, n: int, size: int, lo: int, hi: int)
    requires
        n >= 1,
        0 <= lo <= avg <= hi,
        lo <= size <= hi,
    ensures
        lo <= next_average(avg, n, size) <= hi,
{
    assert(lo * n <= avg * (n - 1) + size) by (nonlinear_arith)
        requires
            n >= 1,
            lo <= avg,
            lo <= size,
            0 <= lo,
    ;
    assert(avg * (n - 1) + size <= hi * n) by (nonlinear_arith)
        requires
            n >= 1,
            avg <= hi,
            size <= hi,
    ;
    vstd::arithmetic::div_mod::lemma_div_is_ordered(lo * n, avg * (n - 1) + size, n);
    vstd::arithmetic::div_mod::lemma_div_is_ordered(avg * (n - 1) + size, hi * n, n);
    vstd::arithmetic::div_mod::lemma_div_by_multiple(lo, n);
    vstd::arithmetic::div_mod::lemma_div_by_multiple(hi, n);
}

/// A transaction validity proof is accepted by verification: it begins
/// with the validity tag and is far below the size limit.
pub proof fn lemma_validity_accepted(data: Seq<u8>, amount: u64, balance: u64)
    requires
        data.len() == validity_proof_len(),
        begins_with(data, validity_body(amount, balance)),
    ensures
        boojum_proof_accepted(data, 128),
{
    lemma_tag_lengths();
    let h = "BOOJUM_PROOF_V1:".spec_bytes();
    let body = validity_body(amount, balance);
    assert(body.subrange(0, h.len() as int) =~= h);
    assert(data.subrange(0, h.len() as int) =~= body.subrange(0, h.len() as int));
}

/// An amount range proof is accepted by verification.
pub proof fn lemma_range_accepted(amount: u64, min_amount: u64, max_amount: u64)
    requires
        range_data(amount, min_amount, max_amount).len() == range_proof_len(),
    ensures
        boojum_proof_accepted(range_data(amount, min_amount, max_amount), 128),
{
    lemma_tag_lengths();
    let h = "BOOJUM_RANGE_PROOF_V1:".spec_bytes();
    assert(range_data(amount, min_amount, max_amount).subrange(0, h.len() as int) =~= h);
}

/// The byte lengths of the tags that the proofs carry.
pub proof fn lemma_tag_lengths()
    ensures
        "BOOJUM_PROOF_V1:".spec_bytes().len() == 16,
        "TRANSACTION_VALIDITY:".spec_bytes().len() == 21,
        "BOOJUM_SIGNATURE:".spec_bytes().len() == 17,
        "BOOJUM_RANGE_PROOF_V1:".spec_bytes().len() == 22,
        "AMOUNT_RANGE:".spec_bytes().len() == 13,
{
    broadcast use vstd::string::is_ascii_spec_bytes;
    reveal_strlit("BOOJUM_PROOF_V1:");
    reveal_strlit("TRANSACTION_VALIDITY:");
    reveal_strlit("BOOJUM_SIGNATURE:");
    reveal_strlit("BOOJUM_RANGE_PROOF_V1:");
    reveal_strlit("AMOUNT_RANGE:");
    assert(is_ascii("BOOJUM_PROOF_V1:"));
    assert(is_ascii("TRANSACTION_VALIDITY:"));
    assert(is_ascii("BOOJUM_SIGNATURE:"));
    assert(is_ascii("BOOJUM_RANGE_PROOF_V1:"));
    assert(is_ascii("AMOUNT_RANGE:"));
}

} // verus!
