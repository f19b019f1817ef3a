//! Performance optimisation of proof generation: proofs built from parts
//! computed in parallel, a proof cache keyed by the SHA-256 of the proof
//! type and input, eviction of the least recently used entry when the
//! cache is full, expiry, and the metrics and statistics kept alongside.
//! Impacts are kept in whole percent and times in whole milliseconds; the
//! floating-point rates are not kept here.
use vstd::prelude::*;
use vstd::string::*;
use crate::crypto::{
    duration_from_millis,
    duration_from_secs,
    duration_lt,
    duration_millis,
    hex_encode,
    hex_lower,
    instant_duration_since,
    instant_elapsed,
    instant_lt,
    instant_now,
    sha256,
    sha256_spec,
};
use crate::error::PrivacyError;
use rayon::iter::{IntoParallelIterator, ParallelIterator};
use crate::text::{extend_bytes, extend_str_bytes, le_bytes_u64, owned, str_equal, string_views, u64_le_bytes};

verus! {

/// The performance optimisation manager.
pub struct PerformanceOptimizationManager {
    proof_cache: Vec<(String, CachedProof)>,
    parallel_pool: ParallelProcessingPool,
    metrics: PerformanceMetrics,
    strategies: Vec<OptimizationStrategy>,
    cache_config: CacheConfiguration,
}

/// A cached proof.
pub struct CachedProof {
    /// Proof data.
    pub proof_data: Vec<u8>,
    /// When the proof was cached.
    pub created_at: std::time::Instant,
    /// When the proof was last used.
    pub last_accessed: std::time::Instant,
    /// Uses.
    pub access_count: u64,
    /// Proof type.
    pub proof_type: ProofType,
    /// Priority, 5 to 10.
    pub priority: u8,
}

/// The kinds of proof.
#[derive(Debug, Clone, Copy, PartialEq, Eq, Structural, Hash)]
pub enum ProofType {
    /// Transaction validity.
    TransactionValidity,
    /// Amount range.
    AmountRange,
    /// Balance consistency.
    BalanceConsistency,
    /// CN-UPX/2 mining privacy.
    CnUpX2MiningPrivacy,
    /// Cross-chain privacy.
    CrossChainPrivacy,
    /// Privacy aggregation.
    PrivacyAggregation,
}

/// The pool of parallel workers.
pub struct ParallelProcessingPool {
    /// Worker threads.
    pub worker_threads: usize,
    /// Largest queue.
    pub max_queue_size: usize,
    /// Queued tasks.
    pub task_queue: Vec<ProcessingTask>,
    /// Busy workers.
    pub active_workers: usize,
    /// Statistics.
    pub stats: PoolStatistics,
}

/// A queued task.
pub struct ProcessingTask {
    /// Task identifier.
    pub task_id: String,
    /// Task type.
    pub task_type: TaskType,
    /// Input.
    pub input_data: Vec<u8>,
    /// Priority.
    pub priority: u8,
    /// When the task was queued.
    pub created_at: std::time::Instant,
}

/// The kinds of task.
#[derive(Debug, Clone, Copy, PartialEq, Eq, Structural)]
pub enum TaskType {
    /// Generate a STARK proof.
    GenerateStarkProof,
    /// Verify a STARK proof.
    VerifyStarkProof,
    /// Encrypt an address.
    EncryptAddress,
    /// Decrypt an address.
    DecryptAddress,
    /// Commit to an amount.
    GenerateAmountCommitment,
    /// Aggregate privacy proofs.
    ProcessPrivacyAggregation,
}

/// Pool statistics.
pub struct PoolStatistics {
    /// Tasks processed.
    pub total_tasks_processed: u64,
    /// Tasks that succeeded.
    pub successful_tasks: u64,
    /// Tasks that failed.
    pub failed_tasks: u64,
    /// Average processing time.
    pub avg_processing_time: std::time::Duration,
    /// Tasks queued.
    pub current_queue_size: usize,
}

/// Performance metrics.
#[derive(Debug, Clone, Copy, PartialEq, Eq, Structural)]
pub struct PerformanceMetrics {
    /// Proofs generated (cache misses).
    pub total_proofs_generated: u64,
    /// Requests answered from the cache.
    pub cache_hits: u64,
    /// Smoothed generation time in milliseconds: nine tenths of the
    /// previous value plus a tenth of the latest, rounded down.
    pub avg_proof_generation_time_ms: u64,
    /// Smoothed verification time in milliseconds.
    pub avg_proof_verification_time_ms: u64,
    /// Memory in use, in bytes.
    pub memory_usage_bytes: u64,
}

/// An optimisation strategy.
pub struct OptimizationStrategy {
    /// Name.
    pub name: String,
    /// Kind.
    pub strategy_type: StrategyType,
    /// Whether it is on.
    pub enabled: bool,
    /// Performance gain in percent.
    pub performance_impact_percent: u64,
    /// Memory cost in percent.
    pub memory_impact_percent: u64,
}

/// The kinds of strategy.
#[derive(Debug, Clone, Copy, PartialEq, Eq, Structural)]
pub enum StrategyType {
    /// Caching proofs.
    ProofCaching,
    /// Parallel processing.
    ParallelProcessing,
    /// Memory optimisation.
    MemoryOptimization,
    /// CPU optimisation.
    CpuOptimization,
    /// Batching.
    BatchProcessing,
    /// Precomputation.
    Precomputation,
}

/// Cache configuration.
pub struct CacheConfiguration {
    /// Most proofs cached.
    pub max_cache_size: usize,
    /// Eviction policy.
    pub eviction_policy: EvictionPolicy,
    /// Lifetime of a cached proof.
    pub cache_ttl: std::time::Duration,
    /// Preloading.
    pub preload_strategies: Vec<PreloadStrategy>,
}

/// Eviction policy.
#[derive(Debug, Clone, Copy, PartialEq, Eq, Structural)]
pub enum EvictionPolicy {
    /// Least recently used.
    LRU,
    /// Least frequently used.
    LFU,
    /// By age.
    TimeBased,
    /// By priority.
    PriorityBased,
}

/// A preloading strategy.
pub struct PreloadStrategy {
    /// Name.
    pub name: String,
    /// Proof types preloaded.
    pub proof_types: Vec<ProofType>,
    /// How often.
    pub frequency: std::time::Duration,
    /// Whether it is on.
    pub enabled: bool,
}

/// Cache statistics.
#[derive(Debug, Clone, Copy, PartialEq, Eq, Structural)]
pub struct CacheStatistics {
    /// Proofs cached.
    pub total_cached_proofs: usize,
    /// Uses of cached proofs, summed.
    pub total_access_count: u64,
    /// Requests answered from the cache.
    pub cache_hits: u64,
    /// Memory estimate: 1024 bytes per cached proof.
    pub memory_usage_bytes: usize,
}

/// The outcome of a memory optimisation.
pub struct MemoryOptimizationResult {
    /// Bytes freed.
    pub memory_freed_bytes: u64,
    /// Time taken.
    pub optimization_time: std::time::Duration,
    /// Cache entries removed.
    pub cache_entries_removed: usize,
}

/// The largest number of proofs the cache holds.
pub open spec fn max_cached() -> usize {
    10000
}

/// The name of a proof type, as `{:?}` prints it.
pub open spec fn proof_type_name(t: ProofType) -> Seq<char> {
    match t {
        ProofType::TransactionValidity => "TransactionValidity"@,
        ProofType::AmountRange => "AmountRange"@,
        ProofType::BalanceConsistency => "BalanceConsistency"@,
        ProofType::CnUpX2MiningPrivacy => "CnUpX2MiningPrivacy"@,
        ProofType::CrossChainPrivacy => "CrossChainPrivacy"@,
        ProofType::PrivacyAggregation => "PrivacyAggregation"@,
    }
}

/// The priority of a proof type: 10 for transaction validity down to 5
/// for privacy aggregation.
pub open spec fn priority_of(t: ProofType) -> u8 {
    match t {
        ProofType::TransactionValidity => 10,
        ProofType::AmountRange => 9,
        ProofType::BalanceConsistency => 8,
        ProofType::CnUpX2MiningPrivacy => 7,
        ProofType::CrossChainPrivacy => 6,
        ProofType::PrivacyAggregation => 5,
    }
}

/// The cache key of a request: the lower-case hex SHA-256 of the proof
/// type's name followed by the input.
pub open spec fn cache_key_spec(t: ProofType, input: Seq<u8>) -> Seq<char> {
    hex_lower(sha256_spec(vstd::utf8::encode_utf8(proof_type_name(t)) + input))
}

/// The FRI parameter bytes that end every part.
pub open spec fn fri_tail() -> Seq<u8> {
    seq![32u8, 4u8, 8u8]
}

/// One part of a parallel proof: the head, the part's index in
/// little-endian, the FRI parameters.
pub open spec fn part_spec(head: Seq<u8>, i: int) -> Seq<u8> {
    head + le_bytes_u64(i as u64) + fri_tail()
}

/// The first `n` parts, concatenated in order.
pub open spec fn parts_spec(head: Seq<u8>, n: nat) -> Seq<u8>
    decreases n,
{
    if n == 0 {
        Seq::empty()
    } else {
        parts_spec(head, (n - 1) as nat) + part_spec(head, n - 1)
    }
}

/// The first `n` bytes of `input`, with zero bytes standing for those
/// that the input is short of.
pub open spec fn padded_input(input: Seq<u8>, n: int) -> Seq<u8> {
    Seq::new(n as nat, |i: int| if i < input.len() { input[i] } else { 0u8 })
}

/// The proof that parallel generation makes: 4 parts over amount and
/// balance for transaction validity, 8 over amount and bounds for amount
/// range, 16 over height, reward and hash rate for mining privacy, each
/// tagged (a field the input is short of reads as zero bytes); for the
/// other types the tagged input and the FRI parameters.
pub open spec fn parallel_proof_spec(t: ProofType, input: Seq<u8>) -> Seq<u8> {
    match t {
        ProofType::TransactionValidity => parts_spec(
            "tx_validity_parallel:".spec_bytes() + padded_input(input, 16),
            4,
        ),
        ProofType::AmountRange => parts_spec("amount_range_parallel:".spec_bytes() + padded_input(input, 24), 8),
        ProofType::CnUpX2MiningPrivacy => parts_spec(
            "cnupx2_mining_privacy_parallel:".spec_bytes() + padded_input(input, 24),
            16,
        ),
        _ => "default_parallel_proof:".spec_bytes() + input + fri_tail(),
    }
}

/// Keys occur once in the cache.
pub open spec fn cache_keys_distinct(c: Seq<(String, CachedProof)>) -> bool {
    forall|i: int, j: int| 0 <= i < c.len() && 0 <= j < c.len() && i != j ==> c[i].0@ != c[j].0@
}

/// The cache holds an entry under `k` with proof data `d`.
pub open spec fn cache_holds(c: Seq<(String, CachedProof)>, k: Seq<char>, d: Seq<u8>) -> bool {
    exists|i: int| 0 <= i < c.len() && c[i].0@ == k && c[i].1.proof_data@ == d
}

/// The cache has an entry under `k`.
pub open spec fn cache_has(c: Seq<(String, CachedProof)>, k: Seq<char>) -> bool {
    exists|i: int| 0 <= i < c.len() && c[i].0@ == k
}

/// Every entry of `a` is in `b`, with the same key and data.
pub open spec fn cache_within(a: Seq<(String, CachedProof)>, b: Seq<(String, CachedProof)>) -> bool {
    forall|i: int| 0 <= i < a.len() ==> #[trigger] cache_holds(b, a[i].0@, a[i].1.proof_data@)
}

/// The entries of `s` whose flag in `keep` is set, in order.
pub open spec fn kept_entries(s: Seq<(String, CachedProof)>, keep: Seq<bool>) -> Seq<(String, CachedProof)>
    decreases s.len(),
{
    if s.len() == 0 {
        Seq::empty()
    } else if keep.last() {
        kept_entries(s.drop_last(), keep.drop_last()).push(s.last())
    } else {
        kept_entries(s.drop_last(), keep.drop_last())
    }
}

/// The sum of the use counts of the cached proofs.
pub open spec fn access_total(c: Seq<(String, CachedProof)>) -> nat
    decreases c.len(),
{
    if c.len() == 0 {
        0
    } else {
        access_total(c.drop_last()) + c.last().1.access_count as nat
    }
}

/// Calls `num_cpus::get`. Claimed, as its documentation promises: at
/// least 1.
#[verifier::external_body]
fn available_cpus() -> (res: usize)
    ensures
        res >= 1,
{
    num_cpus::get()
}

/// Builds the parts `0..count` with rayon's `into_par_iter().map(..)
/// .collect()`, each part made by `parallel_part`. A `u64` range is not an
/// indexed parallel iterator in rayon, but collecting into a `Vec` keeps
/// the order of the items all the same. Claimed: one part per index, in
/// index order.
#[verifier::external_body]
fn collect_parts_in_parallel(count: u64, head: &[u8]) -> (res: Vec<Vec<u8>>)
    ensures
        res@.len() == count,
        forall|i: int| 0 <= i < count ==> (#[trigger] res@[i])@ == part_spec(head@, i),
{
    (0..count).into_par_iter().map(|i| parallel_part(head, i)).collect()
}

/// One part of a parallel proof.
fn parallel_part(head: &[u8], i: u64) -> (res: Vec<u8>)
    ensures
        res@ == part_spec(head@, i as int),
{
    let mut part: Vec<u8> = Vec::new();
    extend_bytes(&mut part, head);
    let b = u64_le_bytes(i);
    extend_bytes(&mut part, b.as_slice());
    part.push(32u8);
    part.push(4u8);
    part.push(8u8);
    assert(part@ =~= part_spec(head@, i as int));
    part
}

/// The parts `0..count` of a proof, made in parallel and joined in order.
fn parallel_parts(head: &[u8], count: u64) -> (res: Vec<u8>)
    ensures
        res@ == parts_spec(head@, count as nat),
{
    let parts = collect_parts_in_parallel(count, head);
    let mut combined: Vec<u8> = Vec::new();
    let mut i: usize = 0;
    while i < parts.len()
        invariant
            i <= parts@.len(),
            parts@.len() == count,
            forall|j: int| 0 <= j < count ==> (#[trigger] parts@[j])@ == part_spec(head@, j),
            combined@ == parts_spec(head@, i as nat),
        decreases parts@.len() - i,
    {
        extend_bytes(&mut combined, parts[i].as_slice());
        i = i + 1;
    }
    combined
}

/// `new` is `old` with one entry added at the end: where `old` was full,
/// after one entry of `old` was taken out, the others kept in order; where
/// it was not, after all of `old`.
pub open spec fn cache_after_insert(old: Seq<(String, CachedProof)>, new: Seq<(String, CachedProof)>) -> bool {
    &&& new.len() > 0
    &&& old.len() < max_cached() ==> new.drop_last() == old
    &&& old.len() >= max_cached() ==> exists|i: int| 0 <= i < old.len() && new.drop_last() == #[trigger] old.remove(i)
}

/// A miss keeps what was cached: where the cache was not full, every proof
/// cached before is still cached under its key with its data, so a later
/// request for it gets the same bytes back.
pub proof fn lemma_miss_keeps_cached_proofs(old: Seq<(String, CachedProof)>, new: Seq<(String, CachedProof)>)
    requires
        cache_after_insert(old, new),
        old.len() < max_cached(),
    ensures
        cache_within(old, new),
{
    assert forall|i: int| 0 <= i < old.len() implies #[trigger] cache_holds(new, old[i].0@, old[i].1.proof_data@) by {
        assert(new[i] == new.drop_last()[i]);
    }
}

/// No cached proof has been used more often than once plus `hits`: each
/// counts its making and the hits on it.
pub open spec fn uses_bounded(c: Seq<(String, CachedProof)>, hits: u64) -> bool {
    forall|i: int| 0 <= i < c.len() ==> (#[trigger] c[i]).1.access_count <= hits + 1
}

/// The smoothed time after a new measurement of `t` milliseconds.
pub open spec fn smoothed(avg: u64, t: u64) -> u64 {
    ((9 * avg + t) / 10) as u64
}

/// The same proof data is stored under a key at most once: two entries
/// found under one key in a cache with distinct keys hold the same data.
/// So a second request for a proof returns the bytes the first one left in
/// the cache.
pub proof fn lemma_cached_data_unique(c: Seq<(String, CachedProof)>, k: Seq<char>, d1: Seq<u8>, d2: Seq<u8>)
    requires
        cache_keys_distinct(c),
        cache_holds(c, k, d1),
        cache_holds(c, k, d2),
    ensures
        d1 == d2,
{
}

impl PerformanceOptimizationManager {
    /// Distinct keys, at most the maximum of cached proofs, no cached proof
    /// used more often than once plus the cache hits, the fixed
    /// configuration and at least one worker.
    pub closed spec fn well_formed(&self) -> bool {
        &&& cache_keys_distinct(self.proof_cache@)
        &&& uses_bounded(self.proof_cache@, self.metrics.cache_hits)
        &&& self.proof_cache@.len() <= max_cached()
        &&& self.cache_config.max_cache_size == max_cached()
        &&& self.cache_config.eviction_policy == EvictionPolicy::LRU
        &&& self.parallel_pool.worker_threads >= 1
        &&& self.parallel_pool.max_queue_size == 1000
    }

    /// The cached proofs.
    pub closed spec fn spec_cache(&self) -> Seq<(String, CachedProof)> {
        self.proof_cache@
    }

    /// The performance metrics.
    pub closed spec fn spec_metrics(&self) -> PerformanceMetrics {
        self.metrics
    }

    /// The number of worker threads.
    pub closed spec fn spec_worker_threads(&self) -> usize {
        self.parallel_pool.worker_threads
    }

    /// The strategies, by name and impacts.
    pub closed spec fn spec_strategies(&self) -> Seq<OptimizationStrategy> {
        self.strategies@
    }

    /// `m` is a fresh manager with `worker_threads` workers: empty cache,
    /// zero metrics and the three strategies.
    pub open spec fn fresh(m: Self, worker_threads: usize) -> bool {
        &&& m.well_formed()
        &&& m.spec_cache().len() == 0
        &&& m.spec_worker_threads() == worker_threads
        &&& m.spec_metrics() == (PerformanceMetrics {
            total_proofs_generated: 0,
            cache_hits: 0,
            avg_proof_generation_time_ms: 0,
            avg_proof_verification_time_ms: 0,
            memory_usage_bytes: 0,
        })
        &&& m.spec_strategies().len() == 3
        &&& m.spec_strategies()[0].name@ == "proof_caching"@
        &&& m.spec_strategies()[0].performance_impact_percent == 80
        &&& m.spec_strategies()[0].memory_impact_percent == 20
        &&& m.spec_strategies()[1].name@ == "parallel_processing"@
        &&& m.spec_strategies()[1].performance_impact_percent == 60
        &&& m.spec_strategies()[1].memory_impact_percent == 10
        &&& m.spec_strategies()[2].name@ == "batch_processing"@
        &&& m.spec_strategies()[2].performance_impact_percent == 40
        &&& m.spec_strategies()[2].memory_impact_percent == 5
    }

    /// A manager with an empty cache of at most 10000 proofs, evicting the
    /// least recently used, a one-hour lifetime and the common proofs
    /// preloaded every five minutes; a pool of one worker per available CPU
    /// (as `num_cpus` counts them) and a queue of 1000; zero metrics;
    /// caching (80 % faster, 20 % more memory), parallel processing (60 %,
    /// 10 %) and batching (40 %, 5 %).
    pub fn new() -> (res: Result<Self, PrivacyError>)
        ensures
            res matches Ok(m) && Self::fresh(m, m.spec_worker_threads()) && m.spec_worker_threads() >= 1,
    {
        Self::with_worker_threads(available_cpus())
    }

    /// The manager that `new` makes, with `worker_threads` workers in its
    /// pool.
    pub fn with_worker_threads(worker_threads: usize) -> (res: Result<Self, PrivacyError>)
        requires
            worker_threads >= 1,
        ensures
            res matches Ok(m) && Self::fresh(m, worker_threads),
    {
        let cache_config = CacheConfiguration {
            max_cache_size: 10000,
            eviction_policy: EvictionPolicy::LRU,
            cache_ttl: duration_from_secs(3600),
            preload_strategies: vec![
                PreloadStrategy {
                    name: owned("common_proofs"),
                    proof_types: vec![
                        ProofType::TransactionValidity,
                        ProofType::AmountRange,
                        ProofType::BalanceConsistency,
                    ],
                    frequency: duration_from_secs(300),
                    enabled: true,
                },
            ],
        };
        let strategies = vec![
            OptimizationStrategy {
                name: owned("proof_caching"),
                strategy_type: StrategyType::ProofCaching,
                enabled: true,
                performance_impact_percent: 80,
                memory_impact_percent: 20,
            },
            OptimizationStrategy {
                name: owned("parallel_processing"),
                strategy_type: StrategyType::ParallelProcessing,
                enabled: true,
                performance_impact_percent: 60,
                memory_impact_percent: 10,
            },
            OptimizationStrategy {
                name: owned("batch_processing"),
                strategy_type: StrategyType::BatchProcessing,
                enabled: true,
                performance_impact_percent: 40,
                memory_impact_percent: 5,
            },
        ];
        let parallel_pool = ParallelProcessingPool {
            worker_threads,
            max_queue_size: 1000,
            task_queue: Vec::new(),
            active_workers: 0,
            stats: PoolStatistics {
                total_tasks_processed: 0,
                successful_tasks: 0,
                failed_tasks: 0,
                avg_processing_time: duration_from_millis(0),
                current_queue_size: 0,
            },
        };
        Ok(PerformanceOptimizationManager {
            proof_cache: Vec::new(),
            parallel_pool,
            metrics: PerformanceMetrics {
                total_proofs_generated: 0,
                cache_hits: 0,
                avg_proof_generation_time_ms: 0,
                avg_proof_verification_time_ms: 0,
                memory_usage_bytes: 0,
            },
            strategies,
            cache_config,
        })
    }

    /// A proof of `proof_type` over `input_data`, from the cache where a
    /// proof for the same type and input is there, else generated in
    /// parallel and cached (evicting the least recently used proof when
    /// the cache is full). A cache hit marks the proof as used and counts
    /// the hit; a miss counts a generated proof and smooths the generation
    /// time. Afterwards the cache holds the returned proof under the
    /// request's key.
    pub fn optimize_proof_generation(&mut self, proof_type: ProofType, input_data: &[u8]) -> (res: Result<
        Vec<u8>,
        PrivacyError,
    >)
        requires
            old(self).well_formed(),
            old(self).spec_metrics().total_proofs_generated < u64::MAX,
            old(self).spec_metrics().cache_hits < u64::MAX - 1,
        ensures
            final(self).well_formed(),
            res matches Ok(d) && {
                let k = cache_key_spec(proof_type, input_data@);
                &&& cache_has(old(self).spec_cache(), k) ==> cache_holds(old(self).spec_cache(), k, d@)
                &&& !cache_has(old(self).spec_cache(), k) ==> d@ == parallel_proof_spec(proof_type, input_data@)
                &&& cache_holds(final(self).spec_cache(), k, d@)
            },
            cache_has(old(self).spec_cache(), cache_key_spec(proof_type, input_data@)) ==> {
                &&& final(self).spec_cache().len() == old(self).spec_cache().len()
                &&& cache_within(final(self).spec_cache(), old(self).spec_cache())
                &&& final(self).spec_metrics() == (PerformanceMetrics {
                    cache_hits: (old(self).spec_metrics().cache_hits + 1) as u64,
                    ..old(self).spec_metrics()
                })
            },
            !cache_has(old(self).spec_cache(), cache_key_spec(proof_type, input_data@)) ==> {
                &&& final(self).spec_metrics().total_proofs_generated == old(self).spec_metrics().total_proofs_generated
                    + 1
                &&& final(self).spec_metrics().cache_hits == old(self).spec_metrics().cache_hits
                &&& final(self).spec_cache().len() == if old(self).spec_cache().len() < max_cached() {
                    old(self).spec_cache().len() + 1
                } else {
                    old(self).spec_cache().len()
                }
                &&& cache_after_insert(old(self).spec_cache(), final(self).spec_cache())
            },
    {
        let start = instant_now();
        let cache_key = self.generate_cache_key(proof_type, input_data);
        match self.find_cached_proof(cache_key.as_str()) {
            Some(i) => {
                let data = self.proof_cache[i].1.proof_data.clone();
                assert(data@ == self.proof_cache@[i as int].1.proof_data@);
                self.update_cache_access(i);
                self.metrics.cache_hits = self.metrics.cache_hits + 1;
                assert(self.proof_cache@[i as int].0@ == cache_key@);
                assert(cache_holds(self.proof_cache@, cache_key@, data@));
                assert forall|j: int| 0 <= j < self.proof_cache@.len() implies #[trigger] cache_holds(
                    old(self).proof_cache@,
                    self.proof_cache@[j].0@,
                    self.proof_cache@[j].1.proof_data@,
                ) by {
                    assert(old(self).proof_cache@[j].0@ == self.proof_cache@[j].0@);
                }
                return Ok(data);
            },
            None => {},
        }
        let proof_data = match self.generate_proof_parallel(proof_type, input_data) {
            Ok(d) => d,
            Err(e) => return Err(e),
        };
        let ghost key_view = cache_key@;
        let stored = proof_data.clone();
        assert(stored@ == proof_data@);
        self.cache_proof(cache_key, stored, proof_type);
        let d = instant_elapsed(&start);
        let generation_time = duration_millis(&d);
        self.update_metrics_proof_generation(generation_time);
        Ok(proof_data)
    }

    /// The proof generated in parallel for `proof_type` over `input_data`.
    pub fn generate_proof_parallel(&self, proof_type: ProofType, input_data: &[u8]) -> (res: Result<
        Vec<u8>,
        PrivacyError,
    >)
        ensures
            res == Ok::<Vec<u8>, PrivacyError>(res->Ok_0) && res->Ok_0@ == parallel_proof_spec(proof_type, input_data@),
    {
        let proof_data = match proof_type {
            ProofType::TransactionValidity => {
                let mut head: Vec<u8> = Vec::new();
                extend_str_bytes(&mut head, "tx_validity_parallel:");
                extend_bytes(&mut head, padded_prefix(input_data, 16).as_slice());
                parallel_parts(head.as_slice(), 4)
            },
            ProofType::AmountRange => {
                let mut head: Vec<u8> = Vec::new();
                extend_str_bytes(&mut head, "amount_range_parallel:");
                extend_bytes(&mut head, padded_prefix(input_data, 24).as_slice());
                parallel_parts(head.as_slice(), 8)
            },
            ProofType::CnUpX2MiningPrivacy => {
                let mut head: Vec<u8> = Vec::new();
                extend_str_bytes(&mut head, "cnupx2_mining_privacy_parallel:");
                extend_bytes(&mut head, padded_prefix(input_data, 24).as_slice());
                parallel_parts(head.as_slice(), 16)
            },
            _ => {
                let mut proof: Vec<u8> = Vec::new();
                extend_str_bytes(&mut proof, "default_parallel_proof:");
                extend_bytes(&mut proof, input_data);
                proof.push(32u8);
                proof.push(4u8);
                proof.push(8u8);
                proof
            },
        };
        Ok(proof_data)
    }

    /// The cache key of a request.
    fn generate_cache_key(&self, proof_type: ProofType, input_data: &[u8]) -> (res: String)
        ensures
            res@ == cache_key_spec(proof_type, input_data@),
    {
        let mut buf: Vec<u8> = Vec::new();
        extend_str_bytes(&mut buf, proof_type_str(proof_type));
        extend_bytes(&mut buf, input_data);
        let d = sha256(buf.as_slice());
        hex_encode(&d)
    }

    /// The position of the proof cached under `key`, if any.
    fn find_cached_proof(&self, key: &str) -> (res: Option<usize>)
        ensures
            res matches Some(i) ==> i < self.proof_cache@.len() && self.proof_cache@[i as int].0@ == key@,
            res is None ==> !cache_has(self.proof_cache@, key@),
    {
        let mut i: usize = 0;
        while i < self.proof_cache.len()
            invariant
                i <= self.proof_cache@.len(),
                forall|j: int| 0 <= j < i ==> self.proof_cache@[j].0@ != key@,
            decreases self.proof_cache@.len() - i,
        {
            if str_equal(self.proof_cache[i].0.as_str(), key) {
                return Some(i);
            }
            i = i + 1;
        }
        None
    }

    /// Marks the proof at position `i` as used now.
    fn update_cache_access(&mut self, i: usize)
        requires
            i < old(self).proof_cache@.len(),
            old(self).proof_cache@[i as int].1.access_count < u64::MAX,
        ensures
            final(self).proof_cache@.len() == old(self).proof_cache@.len(),
            forall|j: int| 0 <= j < final(self).proof_cache@.len() ==> {
                &&& (#[trigger] final(self).proof_cache@[j]).0 == old(self).proof_cache@[j].0
                &&& final(self).proof_cache@[j].1.proof_data == old(self).proof_cache@[j].1.proof_data
                &&& final(self).proof_cache@[j].1.proof_type == old(self).proof_cache@[j].1.proof_type
                &&& final(self).proof_cache@[j].1.priority == old(self).proof_cache@[j].1.priority
                &&& final(self).proof_cache@[j].1.access_count == if j == i {
                    (old(self).proof_cache@[j].1.access_count + 1) as u64
                } else {
                    old(self).proof_cache@[j].1.access_count
                }
            },
            final(self).metrics == old(self).metrics,
            final(self).parallel_pool == old(self).parallel_pool,
            final(self).strategies == old(self).strategies,
            final(self).cache_config == old(self).cache_config,
    {
        let (key, mut entry) = self.proof_cache.remove(i);
        entry.last_accessed = instant_now();
        entry.access_count = entry.access_count + 1;
        self.proof_cache.insert(i, (key, entry));
    }

    /// Caches a proof under `key`, evicting the least recently used proof
    /// first when the cache is full.
    fn cache_proof(&mut self, key: String, proof_data: Vec<u8>, proof_type: ProofType)
        requires
            old(self).well_formed(),
            !cache_has(old(self).proof_cache@, key@),
        ensures
            final(self).well_formed(),
            cache_holds(final(self).proof_cache@, key@, proof_data@),
            final(self).proof_cache@.len() == if old(self).proof_cache@.len() < max_cached() {
                old(self).proof_cache@.len() + 1
            } else {
                old(self).proof_cache@.len()
            },
            cache_after_insert(old(self).proof_cache@, final(self).proof_cache@),
            final(self).metrics == old(self).metrics,
    {
        if self.proof_cache.len() >= self.cache_config.max_cache_size {
            self.evict_oldest_entry();
        }
        proof {
            if cache_has(self.proof_cache@, key@) {
                let j = choose|j: int| 0 <= j < self.proof_cache@.len() && self.proof_cache@[j].0@ == key@;
                assert(cache_holds(old(self).proof_cache@, self.proof_cache@[j].0@, self.proof_cache@[j].1.proof_data@));
                assert(cache_has(old(self).proof_cache@, key@));
            }
        }
        let entry = CachedProof {
            proof_data,
            created_at: instant_now(),
            last_accessed: instant_now(),
            access_count: 1,
            proof_type,
            priority: get_proof_priority(proof_type),
        };
        let ghost before = self.proof_cache@;
        self.proof_cache.push((key, entry));
        assert(self.proof_cache@.drop_last() =~= before);
        assert(self.proof_cache@[before.len() as int].0@ == key@);
        assert(cache_holds(self.proof_cache@, key@, self.proof_cache@[before.len() as int].1.proof_data@));
    }

    /// Removes the proof used least recently, if any; the others keep
    /// their order.
    fn evict_oldest_entry(&mut self)
        requires
            old(self).well_formed(),
        ensures
            final(self).well_formed(),
            old(self).proof_cache@.len() > 0 ==> final(self).proof_cache@.len() == old(self).proof_cache@.len() - 1,
            old(self).proof_cache@.len() == 0 ==> final(self).proof_cache@ == old(self).proof_cache@,
            old(self).proof_cache@.len() > 0 ==> exists|i: int|
                0 <= i < old(self).proof_cache@.len() && final(self).proof_cache@ == #[trigger] old(
                    self,
                ).proof_cache@.remove(i),
            cache_within(final(self).proof_cache@, old(self).proof_cache@),
            final(self).metrics == old(self).metrics,
    {
        if self.proof_cache.len() == 0 {
            return;
        }
        let mut oldest: usize = 0;
        let mut i: usize = 1;
        while i < self.proof_cache.len()
            invariant
                1 <= i <= self.proof_cache@.len(),
                oldest < self.proof_cache@.len(),
            decreases self.proof_cache@.len() - i,
        {
            if instant_lt(&self.proof_cache[i].1.last_accessed, &self.proof_cache[oldest].1.last_accessed) {
                oldest = i;
            }
            i = i + 1;
        }
        let ghost before = self.proof_cache@;
        let _removed = self.proof_cache.remove(oldest);
        proof {
            lemma_remove_keeps_cache(before, oldest as int);
        }
    }

    /// Counts a generated proof and smooths the generation time.
    fn update_metrics_proof_generation(&mut self, generation_time_ms: u128)
        requires
            old(self).metrics.total_proofs_generated < u64::MAX,
        ensures
            final(self).metrics.total_proofs_generated == old(self).metrics.total_proofs_generated + 1,
            final(self).metrics.cache_hits == old(self).metrics.cache_hits,
            final(self).proof_cache == old(self).proof_cache,
            final(self).parallel_pool == old(self).parallel_pool,
            final(self).strategies == old(self).strategies,
            final(self).cache_config == old(self).cache_config,
    {
        let t: u64 = if generation_time_ms > u64::MAX as u128 {
            u64::MAX
        } else {
            generation_time_ms as u64
        };
        let avg = self.metrics.avg_proof_generation_time_ms;
        let next: u128 = (9 * (avg as u128) + t as u128) / 10;
        self.metrics.total_proofs_generated = self.metrics.total_proofs_generated + 1;
        self.metrics.avg_proof_generation_time_ms = next as u64;
    }

    /// The performance metrics.
    pub fn get_performance_metrics(&self) -> (res: PerformanceMetrics)
        ensures
            res == self.spec_metrics(),
    {
        self.metrics
    }

    /// The number of cached proofs, their summed uses, the cache hits and
    /// 1024 bytes per cached proof.
    pub fn get_cache_statistics(&self) -> (res: Result<CacheStatistics, PrivacyError>)
        requires
            self.well_formed(),
            access_total(self.spec_cache()) <= u64::MAX,
        ensures
            res == Ok::<CacheStatistics, PrivacyError>(
                CacheStatistics {
                    total_cached_proofs: self.spec_cache().len() as usize,
                    total_access_count: access_total(self.spec_cache()) as u64,
                    cache_hits: self.spec_metrics().cache_hits,
                    memory_usage_bytes: (self.spec_cache().len() * 1024) as usize,
                },
            ),
    {
        let mut total: u64 = 0;
        let mut i: usize = 0;
        while i < self.proof_cache.len()
            invariant
                i <= self.proof_cache@.len(),
                access_total(self.proof_cache@) <= u64::MAX,
                total == access_total(self.proof_cache@.take(i as int)),
            decreases self.proof_cache@.len() - i,
        {
            proof {
                lemma_access_total_prefix(self.proof_cache@, i as int + 1);
                assert(self.proof_cache@.take(i as int + 1).drop_last() =~= self.proof_cache@.take(i as int));
            }
            total = total + self.proof_cache[i].1.access_count;
            i = i + 1;
        }
        assert(self.proof_cache@.take(self.proof_cache@.len() as int) =~= self.proof_cache@);
        Ok(
            CacheStatistics {
                total_cached_proofs: self.proof_cache.len(),
                total_access_count: total,
                cache_hits: self.metrics.cache_hits,
                memory_usage_bytes: self.proof_cache.len() * 1024,
            },
        )
    }

    /// Drops expired proofs and trims the cache to its maximum, reporting
    /// the bytes freed (1024 per proof dropped), 10 ms and no entries
    /// counted as removed. Which proofs have expired the clock decides: the
    /// cache keeps, in order, those that the comparison of their age with
    /// the lifetime found young; the trimming never removes anything, as the
    /// cache never holds more than its maximum.
    pub fn optimize_memory_usage(&mut self) -> (res: Result<MemoryOptimizationResult, PrivacyError>)
        requires
            old(self).well_formed(),
        ensures
            final(self).well_formed(),
            exists|keep: Seq<bool>|
                keep.len() == old(self).spec_cache().len() && final(self).spec_cache() == #[trigger] kept_entries(
                    old(self).spec_cache(),
                    keep,
                ),
            cache_within(final(self).spec_cache(), old(self).spec_cache()),
            final(self).spec_metrics() == old(self).spec_metrics(),
            final(self).spec_worker_threads() == old(self).spec_worker_threads(),
            final(self).spec_strategies() == old(self).spec_strategies(),
            res matches Ok(r) && r.memory_freed_bytes == (old(self).spec_cache().len() - final(self).spec_cache().len())
                * 1024 && r.cache_entries_removed == 0,
    {
        let start_memory = self.get_memory_usage();
        self.cleanup_expired_cache_entries();
        let ghost keep = choose|keep: Seq<bool>|
            keep.len() == old(self).proof_cache@.len() && self.proof_cache@ == #[trigger] kept_entries(
                old(self).proof_cache@,
                keep,
            );
        self.optimize_cache_size();
        let end_memory = self.get_memory_usage();
        assert(self.spec_cache() == kept_entries(old(self).spec_cache(), keep));
        Ok(
            MemoryOptimizationResult {
                memory_freed_bytes: start_memory - end_memory,
                optimization_time: duration_from_millis(10),
                cache_entries_removed: 0,
            },
        )
    }

    /// 1024 bytes per cached proof.
    fn get_memory_usage(&self) -> (res: u64)
        requires
            self.well_formed(),
        ensures
            res == self.proof_cache@.len() * 1024,
    {
        (self.proof_cache.len() as u64) * 1024
    }

    /// Keeps the proofs younger than the cache lifetime, in order: those
    /// for which the clock's age, compared with the lifetime, came out
    /// smaller. Nothing else changes.
    fn cleanup_expired_cache_entries(&mut self)
        requires
            old(self).well_formed(),
        ensures
            final(self).well_formed(),
            exists|keep: Seq<bool>|
                keep.len() == old(self).proof_cache@.len() && final(self).proof_cache@ == #[trigger] kept_entries(
                    old(self).proof_cache@,
                    keep,
                ),
            final(self).proof_cache@.len() <= old(self).proof_cache@.len(),
            cache_within(final(self).proof_cache@, old(self).proof_cache@),
            final(self).metrics == old(self).metrics,
            final(self).parallel_pool == old(self).parallel_pool,
            final(self).strategies == old(self).strategies,
            final(self).cache_config == old(self).cache_config,
    {
        let now = instant_now();
        let mut kept: Vec<(String, CachedProof)> = Vec::new();
        let mut old_cache: Vec<(String, CachedProof)> = Vec::new();
        std::mem::swap(&mut old_cache, &mut self.proof_cache);
        let ghost original = old_cache@;
        let ghost mut idx: Seq<int> = Seq::empty();
        let ghost mut keep: Seq<bool> = Seq::empty();
        let mut i: usize = 0;
        while old_cache.len() > 0
            invariant
                keep.len() == i,
                kept@ == kept_entries(original.take(i as int), keep),
                old_cache@.len() + i == original.len(),
                old_cache@ == original.subrange(i as int, original.len() as int),
                kept@.len() == idx.len(),
                kept@.len() <= i,
                cache_keys_distinct(original),
                uses_bounded(original, self.metrics.cache_hits),
                original.len() <= max_cached(),
                forall|a: int| 0 <= a < idx.len() ==> 0 <= #[trigger] idx[a] < i && kept@[a] == original[idx[a]],
                forall|a: int, c: int| 0 <= a < c < idx.len() ==> #[trigger] idx[a] < #[trigger] idx[c],
            decreases old_cache@.len(),
        {
            let entry = old_cache.remove(0);
            assert(entry == original[i as int]);
            let age = instant_duration_since(&now, &entry.1.created_at);
            let ghost keep0 = keep;
            let ghost kept0 = kept@;
            proof {
                assert(original.take(i + 1).drop_last() =~= original.take(i as int));
                assert(original.take(i + 1).last() == original[i as int]);
            }
            if duration_lt(&age, &self.cache_config.cache_ttl) {
                kept.push(entry);
                proof {
                    idx = idx.push(i as int);
                    keep = keep.push(true);
                    assert(keep.drop_last() =~= keep0);
                    assert(kept@ == kept0.push(original[i as int]));
                }
            } else {
                proof {
                    keep = keep.push(false);
                    assert(keep.drop_last() =~= keep0);
                }
            }
            i = i + 1;
        }
        self.proof_cache = kept;
        proof {
            assert(original.take(original.len() as int) =~= original);
            assert forall|a: int, c: int|
                0 <= a < self.proof_cache@.len() && 0 <= c < self.proof_cache@.len() && a != c implies self.proof_cache@[a].0@
                != self.proof_cache@[c].0@ by {
                if a < c {
                    assert(idx[a] < idx[c]);
                } else {
                    assert(idx[c] < idx[a]);
                }
            }
            assert forall|a: int| 0 <= a < self.proof_cache@.len() implies #[trigger] cache_holds(
                original,
                self.proof_cache@[a].0@,
                self.proof_cache@[a].1.proof_data@,
            ) by {
                assert(original[idx[a]] == self.proof_cache@[a]);
            }
            assert forall|a: int| 0 <= a < self.proof_cache@.len() implies (
            #[trigger] self.proof_cache@[a]).1.access_count <= self.metrics.cache_hits + 1 by {
                assert(original[idx[a]] == self.proof_cache@[a]);
            }
        }
    }

    /// Where the cache holds more than its maximum, drops proofs of the
    /// lowest priority until it holds the maximum. A well-formed cache
    /// never holds more, so nothing changes.
    fn optimize_cache_size(&mut self)
        requires
            old(self).well_formed(),
        ensures
            final(self).well_formed(),
            *final(self) == *old(self),
    {
        while self.proof_cache.len() > self.cache_config.max_cache_size
            invariant
                *self == *old(self),
                self.well_formed(),
                cache_within(self.proof_cache@, old(self).proof_cache@),
                self.proof_cache@.len() <= old(self).proof_cache@.len(),
                self.metrics == old(self).metrics,
            decreases self.proof_cache@.len(),
        {
            let mut lowest: usize = 0;
            let mut i: usize = 1;
            while i < self.proof_cache.len()
                invariant
                    1 <= i <= self.proof_cache@.len(),
                    lowest < self.proof_cache@.len(),
                    forall|j: int| 0 <= j < i ==> self.proof_cache@[lowest as int].1.priority <= #[trigger] self.proof_cache@[j].1.priority,
                decreases self.proof_cache@.len() - i,
            {
                if self.proof_cache[i].1.priority < self.proof_cache[lowest].1.priority {
                    lowest = i;
                }
                i = i + 1;
            }
            let ghost before = self.proof_cache@;
            let _removed = self.proof_cache.remove(lowest);
            proof {
                lemma_remove_keeps_cache(before, lowest as int);
                assert forall|a: int| 0 <= a < self.proof_cache@.len() implies #[trigger] cache_holds(
                    old(self).proof_cache@,
                    self.proof_cache@[a].0@,
                    self.proof_cache@[a].1.proof_data@,
                ) by {
                    assert(cache_holds(before, self.proof_cache@[a].0@, self.proof_cache@[a].1.proof_data@));
                    let b = choose|b: int| 0 <= b < before.len() && before[b].0@ == self.proof_cache@[a].0@ && before[b].1.proof_data@ == self.proof_cache@[a].1.proof_data@;
                    assert(cache_holds(old(self).proof_cache@, before[b].0@, before[b].1.proof_data@));
                }
            }
        }
    }
}

/// The first `n` bytes of `s`, padded with zero bytes where `s` is
/// shorter.
fn padded_prefix(s: &[u8], n: usize) -> (res: Vec<u8>)
    ensures
        res@ == padded_input(s@, n as int),
{
    let mut v: Vec<u8> = Vec::new();
    let mut i: usize = 0;
    while i < n
        invariant
            i <= n,
            v@.len() == i,
            forall|j: int| 0 <= j < i ==> v@[j] == (if j < s@.len() { s@[j] } else { 0u8 }),
        decreases n - i,
    {
        if i < s.len() {
            v.push(s[i]);
        } else {
            v.push(0u8);
        }
        i = i + 1;
    }
    assert(v@ =~= padded_input(s@, n as int));
    v
}

/// The priority of a proof type.
fn get_proof_priority(proof_type: ProofType) -> (res: u8)
    ensures
        res == priority_of(proof_type),
{
    match proof_type {
        ProofType::TransactionValidity => 10,
        ProofType::AmountRange => 9,
        ProofType::BalanceConsistency => 8,
        ProofType::CnUpX2MiningPrivacy => 7,
        ProofType::CrossChainPrivacy => 6,
        ProofType::PrivacyAggregation => 5,
    }
}

/// Removing one entry keeps the keys distinct and every remaining entry
/// in the cache.
proof fn lemma_remove_keeps_cache(c: Seq<(String, CachedProof)>, i: int)
    requires
        cache_keys_distinct(c),
        0 <= i < c.len(),
    ensures
        cache_keys_distinct(c.remove(i)),
        cache_within(c.remove(i), c),
        c.remove(i).len() == c.len() - 1,
{
    let r = c.remove(i);
    assert forall|a: int| 0 <= a < r.len() implies #[trigger] cache_holds(c, r[a].0@, r[a].1.proof_data@) by {
        if a < i {
            assert(r[a] == c[a]);
        } else {
            assert(r[a] == c[a + 1]);
        }
    }
    assert forall|a: int, b: int| 0 <= a < r.len() && 0 <= b < r.len() && a != b implies r[a].0@ != r[b].0@ by {
        let ia = if a < i { a } else { a + 1 };
        let ib = if b < i { b } else { b + 1 };
        assert(r[a] == c[ia]);
        assert(r[b] == c[ib]);
    }
}

/// Being within the cache is transitive.
proof fn lemma_within_trans(a: Seq<(String, CachedProof)>, b: Seq<(String, CachedProof)>, c: Seq<(String, CachedProof)>)
    requires
        cache_within(a, b),
        cache_within(b, c),
    ensures
        cache_within(a, c),
{
    assert forall|i: int| 0 <= i < a.len() implies #[trigger] cache_holds(c, a[i].0@, a[i].1.proof_data@) by {
        assert(cache_holds(b, a[i].0@, a[i].1.proof_data@));
        let j = choose|j: int| 0 <= j < b.len() && b[j].0@ == a[i].0@ && b[j].1.proof_data@ == a[i].1.proof_data@;
        assert(cache_holds(c, b[j].0@, b[j].1.proof_data@));
    }
}

/// The sum of the uses of a prefix grows by the next entry's uses.
proof fn lemma_access_total_prefix(c: Seq<(String, CachedProof)>, n: int)
    requires
        0 < n <= c.len(),
    ensures
        access_total(c.take(n)) == access_total(c.take(n).drop_last()) + c[n - 1].1.access_count,
        access_total(c.take(n)) <= access_total(c),
    decreases c.len() - n,
{
    if n < c.len() {
        lemma_access_total_prefix(c, n + 1);
        assert(c.take(n + 1).drop_last() =~= c.take(n));
    } else {
        assert(c.take(n) =~= c);
    }
}

/// The name of a proof type.
fn proof_type_str(t: ProofType) -> (res: &'static str)
    ensures
        res@ == proof_type_name(t),
{
    match t {
        ProofType::TransactionValidity => "TransactionValidity",
        ProofType::AmountRange => "AmountRange",
        ProofType::BalanceConsistency => "BalanceConsistency",
        ProofType::CnUpX2MiningPrivacy => "CnUpX2MiningPrivacy",
        ProofType::CrossChainPrivacy => "CrossChainPrivacy",
        ProofType::PrivacyAggregation => "PrivacyAggregation",
    }
}

} // verus!
