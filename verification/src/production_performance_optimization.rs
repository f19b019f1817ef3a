//! Production performance optimisation: the optimiser, cache manager,
//! batch processor and parallel processor with their statistics, the
//! optimisation passes for proof generation, cross-chain privacy and
//! monitoring, and the metrics they move. Rates and improvements, which
//! are fractions with two decimals, are kept in whole percent; times are
//! whole milliseconds.
use vstd::prelude::*;
use vstd::string::*;
use crate::crypto::{duration_from_secs, duration_millis, instant_elapsed, instant_now};
use crate::error::PrivacyError;
use crate::production_boojum_integration::{saturating_sum, ProductionBoojumStarkSystem};
use crate::production_cross_chain_privacy::ProductionCrossChainPrivacyCoordinator;
use crate::production_privacy_monitoring::ProductionPrivacyMonitoringSystem;
use crate::text::{owned, string_views};

verus! {

/// The production performance optimisation system.
pub struct ProductionPerformanceOptimizationSystem {
    optimizer: ProductionPerformanceOptimizer,
    cache_manager: ProductionCacheManager,
    batch_processor: ProductionBatchProcessor,
    parallel_processor: ProductionParallelProcessor,
    performance_metrics: ProductionOptimizationMetrics,
}

/// The optimiser.
pub struct ProductionPerformanceOptimizer {
    config: ProductionOptimizerConfig,
    state: ProductionOptimizerState,
    stats: ProductionOptimizerStats,
}

/// The cache manager.
pub struct ProductionCacheManager {
    config: ProductionCacheConfig,
    state: ProductionCacheState,
    stats: ProductionCacheStats,
}

/// The batch processor.
pub struct ProductionBatchProcessor {
    config: ProductionBatchConfig,
    state: ProductionBatchState,
    stats: ProductionBatchStats,
}

/// The parallel processor.
pub struct ProductionParallelProcessor {
    config: ProductionParallelConfig,
    state: ProductionParallelState,
    stats: ProductionParallelStats,
}

/// Optimisation metrics.
#[derive(Debug, Clone, Copy, PartialEq, Eq, Structural)]
pub struct ProductionOptimizationMetrics {
    /// Overall performance score: 100 plus the last improvement in
    /// percent, at most 200.
    pub overall_performance_score: u64,
    /// Effectiveness of the optimisations in percent, at most 200.
    pub optimization_effectiveness_percent: u64,
    /// Last improvement in percent.
    pub performance_improvement_percent: u64,
    /// Resource utilisation in percent.
    pub resource_utilization_percent: u64,
    /// Throughput improvement in percent.
    pub throughput_improvement_percent: u64,
    /// Latency reduction in percent.
    pub latency_reduction_percent: u64,
}

/// Optimiser configuration.
pub struct ProductionOptimizerConfig {
    /// Optimiser type.
    pub optimizer_type: String,
    /// Optimiser version.
    pub optimizer_version: String,
    /// Optimisation level.
    pub optimization_level: ProductionOptimizationLevel,
    /// What is optimised.
    pub optimization_targets: Vec<String>,
}

/// Optimisation level.
#[derive(Debug, Clone, Copy, PartialEq, Eq, Structural)]
pub enum ProductionOptimizationLevel {
    /// Minimum.
    Minimum,
    /// Medium.
    Medium,
    /// Maximum.
    Maximum,
}

/// Optimiser state.
pub struct ProductionOptimizerState {
    /// The optimisation under way, if any.
    pub current_optimization: Option<String>,
    /// Active optimisations.
    pub active_optimizations: u32,
    /// Memory in use, in bytes.
    pub memory_usage: usize,
    /// CPU use in percent.
    pub cpu_usage_percent: u64,
}

/// Optimiser statistics.
#[derive(Debug, Clone, Copy, PartialEq, Eq, Structural)]
pub struct ProductionOptimizerStats {
    /// Optimisations run.
    pub total_optimizations: u64,
    /// Optimisations that succeeded.
    pub successful_optimizations: u64,
    /// Optimisations that failed.
    pub failed_optimizations: u64,
    /// Milliseconds spent optimising, summed (saturating).
    pub total_optimization_time_ms: u128,
}

/// Cache configuration.
pub struct ProductionCacheConfig {
    /// Cache type.
    pub cache_type: String,
    /// Cache size in bytes.
    pub cache_size: usize,
    /// Eviction strategy.
    pub cache_strategy: ProductionCacheStrategy,
    /// Time to live.
    pub cache_ttl: std::time::Duration,
}

/// Cache eviction strategy.
#[derive(Debug, Clone, Copy, PartialEq, Eq, Structural)]
pub enum ProductionCacheStrategy {
    /// Least recently used.
    LRU,
    /// Least frequently used.
    LFU,
    /// First in, first out.
    FIFO,
    /// Random.
    Random,
}

/// Cache state.
#[derive(Debug, Clone, Copy, PartialEq, Eq, Structural)]
pub struct ProductionCacheState {
    /// Hits.
    pub cache_hits: u64,
    /// Misses.
    pub cache_misses: u64,
    /// Entries.
    pub cache_size: usize,
    /// Utilisation in percent.
    pub cache_utilization_percent: u64,
}

/// Cache statistics.
#[derive(Debug, Clone, Copy, PartialEq, Eq, Structural)]
pub struct ProductionCacheStats {
    /// Requests.
    pub total_requests: u64,
    /// Hit rate in percent, at most 100.
    pub hit_rate_percent: u64,
    /// Cache efficiency in percent.
    pub cache_efficiency_percent: u64,
}

/// Batch configuration.
pub struct ProductionBatchConfig {
    /// Batch type.
    pub batch_type: String,
    /// Batch size.
    pub batch_size: usize,
    /// Batch timeout.
    pub batch_timeout_ms: u64,
    /// Batching strategy.
    pub batch_strategy: ProductionBatchStrategy,
}

/// Batching strategy.
#[derive(Debug, Clone, Copy, PartialEq, Eq, Structural)]
pub enum ProductionBatchStrategy {
    /// By time.
    TimeBased,
    /// By size.
    SizeBased,
    /// Both.
    Hybrid,
}

/// Batch state.
pub struct ProductionBatchState {
    /// The batch under way, if any.
    pub current_batch: Option<String>,
    /// Active batches.
    pub active_batches: u32,
    /// Items waiting.
    pub pending_items: u32,
}

/// Batch statistics.
#[derive(Debug, Clone, Copy, PartialEq, Eq, Structural)]
pub struct ProductionBatchStats {
    /// Batches.
    pub total_batches: u64,
    /// Batches that succeeded.
    pub successful_batches: u64,
    /// Batches that failed.
    pub failed_batches: u64,
    /// Batch efficiency in percent.
    pub batch_efficiency_percent: u64,
}

/// Parallel processing configuration.
pub struct ProductionParallelConfig {
    /// Processor type.
    pub parallel_type: String,
    /// Threads.
    pub thread_count: u32,
    /// Scheduling strategy.
    pub parallel_strategy: ProductionParallelStrategy,
}

/// Scheduling strategy.
#[derive(Debug, Clone, Copy, PartialEq, Eq, Structural)]
pub enum ProductionParallelStrategy {
    /// Work stealing.
    WorkStealing,
    /// Round robin.
    RoundRobin,
    /// By priority.
    PriorityBased,
}

/// Parallel processing state.
#[derive(Debug, Clone, Copy, PartialEq, Eq, Structural)]
pub struct ProductionParallelState {
    /// Active threads.
    pub active_threads: u32,
    /// Queued tasks.
    pub queued_tasks: u32,
    /// Completed tasks.
    pub completed_tasks: u32,
}

/// Parallel processing statistics.
#[derive(Debug, Clone, Copy, PartialEq, Eq, Structural)]
pub struct ProductionParallelStats {
    /// Tasks.
    pub total_tasks: u64,
    /// Tasks that succeeded.
    pub successful_tasks: u64,
    /// Tasks that failed.
    pub failed_tasks: u64,
    /// Parallel efficiency in percent, at most 100.
    pub parallel_efficiency_percent: u64,
}

/// The outcome of an optimisation pass.
pub struct ProductionOptimizationResult {
    /// What was optimised.
    pub optimization_type: String,
    /// Performance improvement in percent.
    pub performance_improvement_percent: u64,
    /// Memory reduction in percent.
    pub memory_optimization_percent: u64,
    /// CPU reduction in percent.
    pub cpu_optimization_percent: u64,
    /// Cache hit rate improvement in percent.
    pub cache_optimization_percent: u64,
    /// Parallel efficiency improvement in percent.
    pub parallel_optimization_percent: u64,
    /// Time the pass takes, in milliseconds.
    pub optimization_time_ms: u64,
}

/// `a + b`, at most `cap`.
pub open spec fn capped(a: int, b: int, cap: int) -> int {
    if a + b <= cap {
        a + b
    } else {
        cap
    }
}

/// The metrics after a pass that improved performance by `p` percent:
/// the score is 100 plus `p` (at most 200) and the effectiveness grows by
/// `p` (at most 200).
pub open spec fn metrics_after_pass(m: ProductionOptimizationMetrics, p: u64) -> ProductionOptimizationMetrics {
    ProductionOptimizationMetrics {
        overall_performance_score: capped(100, p as int, 200) as u64,
        optimization_effectiveness_percent: capped(m.optimization_effectiveness_percent as int, p as int, 200) as u64,
        performance_improvement_percent: p,
        ..m
    }
}

/// The optimiser's statistics after one more successful pass that took
/// `time` milliseconds.
pub open spec fn optimizer_stats_after(s: ProductionOptimizerStats, time: u128) -> ProductionOptimizerStats {
    ProductionOptimizerStats {
        total_optimizations: (s.total_optimizations + 1) as u64,
        successful_optimizations: (s.successful_optimizations + 1) as u64,
        failed_optimizations: s.failed_optimizations,
        total_optimization_time_ms: saturating_sum(s.total_optimization_time_ms, time),
    }
}

/// The outcome that a pass reports.
pub open spec fn pass_result(
    r: ProductionOptimizationResult,
    kind: Seq<char>,
    improvement: u64,
    memory: u64,
    cpu: u64,
    cache: u64,
    parallel: u64,
    time: u64,
) -> bool {
    &&& r.optimization_type@ == kind
    &&& r.performance_improvement_percent == improvement
    &&& r.memory_optimization_percent == memory
    &&& r.cpu_optimization_percent == cpu
    &&& r.cache_optimization_percent == cache
    &&& r.parallel_optimization_percent == parallel
    &&& r.optimization_time_ms == time
}

impl ProductionPerformanceOptimizationSystem {
    /// The fixed configurations; rates within their caps; successful
    /// optimisations never more than those run.
    pub closed spec fn well_formed(&self) -> bool {
        &&& self.optimizer.config.optimizer_type@ == "production_performance_optimizer"@
        &&& self.optimizer.config.optimizer_version@ == "1.0"@
        &&& self.optimizer.config.optimization_level == ProductionOptimizationLevel::Maximum
        &&& string_views(self.optimizer.config.optimization_targets@) == seq![
            "proof_generation"@,
            "proof_verification"@,
            "memory_usage"@,
            "cpu_usage"@,
            "throughput"@,
            "latency"@,
        ]
        &&& self.cache_manager.config.cache_type@ == "production_memory_cache"@
        &&& self.cache_manager.config.cache_size == 0x4000_0000
        &&& self.cache_manager.config.cache_strategy == ProductionCacheStrategy::LRU
        &&& self.batch_processor.config.batch_type@ == "production_batch_processor"@
        &&& self.batch_processor.config.batch_size == 100
        &&& self.batch_processor.config.batch_timeout_ms == 100
        &&& self.batch_processor.config.batch_strategy == ProductionBatchStrategy::TimeBased
        &&& self.parallel_processor.config.parallel_type@ == "production_parallel_processor"@
        &&& self.parallel_processor.config.thread_count == 8
        &&& self.parallel_processor.config.parallel_strategy == ProductionParallelStrategy::WorkStealing
        &&& self.cache_manager.stats.hit_rate_percent <= 100
        &&& self.parallel_processor.stats.parallel_efficiency_percent <= 100
        &&& self.performance_metrics.overall_performance_score <= 200
        &&& self.performance_metrics.optimization_effectiveness_percent <= 200
        &&& self.optimizer.stats.successful_optimizations <= self.optimizer.stats.total_optimizations
    }

    /// The optimisation metrics.
    pub closed spec fn spec_metrics(&self) -> ProductionOptimizationMetrics {
        self.performance_metrics
    }

    /// The optimiser's statistics.
    pub closed spec fn spec_optimizer_stats(&self) -> ProductionOptimizerStats {
        self.optimizer.stats
    }

    /// The cache statistics.
    pub closed spec fn spec_cache_stats(&self) -> ProductionCacheStats {
        self.cache_manager.stats
    }

    /// The batch statistics.
    pub closed spec fn spec_batch_stats(&self) -> ProductionBatchStats {
        self.batch_processor.stats
    }

    /// The parallel processing statistics.
    pub closed spec fn spec_parallel_stats(&self) -> ProductionParallelStats {
        self.parallel_processor.stats
    }

    /// The optimiser's memory and CPU use.
    pub closed spec fn spec_optimizer_usage(&self) -> (usize, u64) {
        (self.optimizer.state.memory_usage, self.optimizer.state.cpu_usage_percent)
    }

    /// The system at rest: the maximum-level optimiser over proof
    /// generation and verification, memory, CPU, throughput and latency; a
    /// 1 GiB LRU memory cache with a one-hour lifetime; a time-based batch
    /// processor of 100 items and 100 ms; an 8-thread work-stealing
    /// processor; zero statistics; score 100 and effectiveness 100 %.
    pub fn new() -> (res: Self)
        ensures
            res.well_formed(),
            res.spec_metrics() == (ProductionOptimizationMetrics {
                overall_performance_score: 100,
                optimization_effectiveness_percent: 100,
                performance_improvement_percent: 0,
                resource_utilization_percent: 0,
                throughput_improvement_percent: 0,
                latency_reduction_percent: 0,
            }),
            res.spec_optimizer_stats() == (ProductionOptimizerStats {
                total_optimizations: 0,
                successful_optimizations: 0,
                failed_optimizations: 0,
                total_optimization_time_ms: 0,
            }),
            res.spec_cache_stats() == (ProductionCacheStats {
                total_requests: 0,
                hit_rate_percent: 0,
                cache_efficiency_percent: 0,
            }),
            res.spec_batch_stats() == (ProductionBatchStats {
                total_batches: 0,
                successful_batches: 0,
                failed_batches: 0,
                batch_efficiency_percent: 0,
            }),
            res.spec_parallel_stats() == (ProductionParallelStats {
                total_tasks: 0,
                successful_tasks: 0,
                failed_tasks: 0,
                parallel_efficiency_percent: 0,
            }),
            res.spec_optimizer_usage() == (0usize, 0u64),
    {
        let targets = vec![
            owned("proof_generation"),
            owned("proof_verification"),
            owned("memory_usage"),
            owned("cpu_usage"),
            owned("throughput"),
            owned("latency"),
        ];
        let res = ProductionPerformanceOptimizationSystem {
            optimizer: ProductionPerformanceOptimizer {
                config: ProductionOptimizerConfig {
                    optimizer_type: owned("production_performance_optimizer"),
                    optimizer_version: owned("1.0"),
                    optimization_level: ProductionOptimizationLevel::Maximum,
                    optimization_targets: targets,
                },
                state: ProductionOptimizerState {
                    current_optimization: None,
                    active_optimizations: 0,
                    memory_usage: 0,
                    cpu_usage_percent: 0,
                },
                stats: ProductionOptimizerStats {
                    total_optimizations: 0,
                    successful_optimizations: 0,
                    failed_optimizations: 0,
                    total_optimization_time_ms: 0,
                },
            },
            cache_manager: ProductionCacheManager {
                config: ProductionCacheConfig {
                    cache_type: owned("production_memory_cache"),
                    cache_size: 0x4000_0000,
                    cache_strategy: ProductionCacheStrategy::LRU,
                    cache_ttl: duration_from_secs(3600),
                },
                state: ProductionCacheState {
                    cache_hits: 0,
                    cache_misses: 0,
                    cache_size: 0,
                    cache_utilization_percent: 0,
                },
                stats: ProductionCacheStats { total_requests: 0, hit_rate_percent: 0, cache_efficiency_percent: 0 },
            },
            batch_processor: ProductionBatchProcessor {
                config: ProductionBatchConfig {
                    batch_type: owned("production_batch_processor"),
                    batch_size: 100,
                    batch_timeout_ms: 100,
                    batch_strategy: ProductionBatchStrategy::TimeBased,
                },
                state: ProductionBatchState { current_batch: None, active_batches: 0, pending_items: 0 },
                stats: ProductionBatchStats {
                    total_batches: 0,
                    successful_batches: 0,
                    failed_batches: 0,
                    batch_efficiency_percent: 0,
                },
            },
            parallel_processor: ProductionParallelProcessor {
                config: ProductionParallelConfig {
                    parallel_type: owned("production_parallel_processor"),
                    thread_count: 8,
                    parallel_strategy: ProductionParallelStrategy::WorkStealing,
                },
                state: ProductionParallelState { active_threads: 0, queued_tasks: 0, completed_tasks: 0 },
                stats: ProductionParallelStats {
                    total_tasks: 0,
                    successful_tasks: 0,
                    failed_tasks: 0,
                    parallel_efficiency_percent: 0,
                },
            },
            performance_metrics: ProductionOptimizationMetrics {
                overall_performance_score: 100,
                optimization_effectiveness_percent: 100,
                performance_improvement_percent: 0,
                resource_utilization_percent: 0,
                throughput_improvement_percent: 0,
                latency_reduction_percent: 0,
            },
        };
        assert(string_views(res.optimizer.config.optimization_targets@) =~= seq![
            "proof_generation"@,
            "proof_verification"@,
            "memory_usage"@,
            "cpu_usage"@,
            "throughput"@,
            "latency"@,
        ]);
        res
    }

    /// Optimises proof generation: memory use drops to 70 %, CPU use to
    /// 80 %, the cache hit rate rises by 40 points and the parallel
    /// efficiency by 35 (each at most 100); the pass reports a 25 %
    /// improvement, 30 % less memory, 20 % less CPU, 40 % more cache hits,
    /// 35 % more parallel efficiency in 10 ms; the optimiser counts a
    /// successful pass and the metrics take the improvement.
    pub fn optimize_proof_generation(&mut self, boojum_system: &mut ProductionBoojumStarkSystem) -> (res: Result<
        ProductionOptimizationResult,
        PrivacyError,
    >)
        requires
            old(self).well_formed(),
            old(self).spec_optimizer_stats().total_optimizations < u64::MAX,
        ensures
            final(self).well_formed(),
            *final(boojum_system) == *old(boojum_system),
            res matches Ok(r) && pass_result(r, "proof_generation"@, 25, 30, 20, 40, 35, 10),
            final(self).spec_metrics() == metrics_after_pass(old(self).spec_metrics(), 25),
            exists|t: u128| final(self).spec_optimizer_stats() == #[trigger] optimizer_stats_after(
                old(self).spec_optimizer_stats(),
                t,
            ),
            final(self).spec_optimizer_usage() == (
                (old(self).spec_optimizer_usage().0 * 7 / 10) as usize,
                (old(self).spec_optimizer_usage().1 * 8 / 10) as u64,
            ),
            final(self).spec_cache_stats() == (ProductionCacheStats {
                hit_rate_percent: capped(old(self).spec_cache_stats().hit_rate_percent as int, 40, 100) as u64,
                ..old(self).spec_cache_stats()
            }),
            final(self).spec_parallel_stats() == (ProductionParallelStats {
                parallel_efficiency_percent: capped(
                    old(self).spec_parallel_stats().parallel_efficiency_percent as int,
                    35,
                    100,
                ) as u64,
                ..old(self).spec_parallel_stats()
            }),
            final(self).spec_batch_stats() == old(self).spec_batch_stats(),
    {
        let start = instant_now();
        let result = self.apply_proof_generation_optimizations(boojum_system);
        let d = instant_elapsed(&start);
        let optimization_time = duration_millis(&d);
        self.update_optimizer_stats(optimization_time);
        self.update_performance_metrics(result.performance_improvement_percent);
        Ok(result)
    }

    /// Optimises cross-chain privacy: the pass reports a 30 % improvement,
    /// 25 % less memory, 15 % less CPU, 35 % more cache hits, 40 % more
    /// parallel efficiency in 15 ms; the optimiser counts a successful pass
    /// and the metrics take the improvement.
    pub fn optimize_cross_chain_privacy(&mut self, cross_chain_coordinator: &mut ProductionCrossChainPrivacyCoordinator) -> (res: Result<
        ProductionOptimizationResult,
        PrivacyError,
    >)
        requires
            old(self).well_formed(),
            old(self).spec_optimizer_stats().total_optimizations < u64::MAX,
        ensures
            final(self).well_formed(),
            *final(cross_chain_coordinator) == *old(cross_chain_coordinator),
            res matches Ok(r) && pass_result(r, "cross_chain_privacy"@, 30, 25, 15, 35, 40, 15),
            final(self).spec_metrics() == metrics_after_pass(old(self).spec_metrics(), 30),
            exists|t: u128| final(self).spec_optimizer_stats() == #[trigger] optimizer_stats_after(
                old(self).spec_optimizer_stats(),
                t,
            ),
            final(self).spec_optimizer_usage() == old(self).spec_optimizer_usage(),
            final(self).spec_cache_stats() == old(self).spec_cache_stats(),
            final(self).spec_parallel_stats() == old(self).spec_parallel_stats(),
            final(self).spec_batch_stats() == old(self).spec_batch_stats(),
    {
        let start = instant_now();
        let result = self.apply_cross_chain_optimizations(cross_chain_coordinator);
        let d = instant_elapsed(&start);
        let optimization_time = duration_millis(&d);
        self.update_optimizer_stats(optimization_time);
        self.update_performance_metrics(result.performance_improvement_percent);
        Ok(result)
    }

    /// Optimises privacy monitoring: the pass reports a 20 % improvement,
    /// 20 % less memory, 25 % less CPU, 30 % more cache hits, 30 % more
    /// parallel efficiency in 8 ms; the optimiser counts a successful pass
    /// and the metrics take the improvement.
    pub fn optimize_privacy_monitoring(&mut self, monitoring_system: &mut ProductionPrivacyMonitoringSystem) -> (res: Result<
        ProductionOptimizationResult,
        PrivacyError,
    >)
        requires
            old(self).well_formed(),
            old(self).spec_optimizer_stats().total_optimizations < u64::MAX,
        ensures
            final(self).well_formed(),
            *final(monitoring_system) == *old(monitoring_system),
            res matches Ok(r) && pass_result(r, "privacy_monitoring"@, 20, 20, 25, 30, 30, 8),
            final(self).spec_metrics() == metrics_after_pass(old(self).spec_metrics(), 20),
            exists|t: u128| final(self).spec_optimizer_stats() == #[trigger] optimizer_stats_after(
                old(self).spec_optimizer_stats(),
                t,
            ),
            final(self).spec_optimizer_usage() == old(self).spec_optimizer_usage(),
            final(self).spec_cache_stats() == old(self).spec_cache_stats(),
            final(self).spec_parallel_stats() == old(self).spec_parallel_stats(),
            final(self).spec_batch_stats() == old(self).spec_batch_stats(),
    {
        let start = instant_now();
        let result = self.apply_monitoring_optimizations(monitoring_system);
        let d = instant_elapsed(&start);
        let optimization_time = duration_millis(&d);
        self.update_optimizer_stats(optimization_time);
        self.update_performance_metrics(result.performance_improvement_percent);
        Ok(result)
    }

    /// The optimisation metrics.
    pub fn get_production_optimization_metrics(&self) -> (res: ProductionOptimizationMetrics)
        ensures
            res == self.spec_metrics(),
    {
        self.performance_metrics
    }

    /// The cache statistics.
    pub fn get_cache_performance_metrics(&self) -> (res: ProductionCacheStats)
        ensures
            res == self.spec_cache_stats(),
    {
        self.cache_manager.stats
    }

    /// The batch statistics.
    pub fn get_batch_processing_metrics(&self) -> (res: ProductionBatchStats)
        ensures
            res == self.spec_batch_stats(),
    {
        self.batch_processor.stats
    }

    /// The parallel processing statistics.
    pub fn get_parallel_processing_metrics(&self) -> (res: ProductionParallelStats)
        ensures
            res == self.spec_parallel_stats(),
    {
        self.parallel_processor.stats
    }

    /// The cross-chain pass: its latency, throughput and memory steps
    /// change nothing here, and it reports its fixed figures.
    fn apply_cross_chain_optimizations(&self, _cross_chain_coordinator: &ProductionCrossChainPrivacyCoordinator) -> (res: ProductionOptimizationResult)
        ensures
            pass_result(res, "cross_chain_privacy"@, 30, 25, 15, 35, 40, 15),
    {
        ProductionOptimizationResult {
            optimization_type: owned("cross_chain_privacy"),
            performance_improvement_percent: 30,
            memory_optimization_percent: 25,
            cpu_optimization_percent: 15,
            cache_optimization_percent: 35,
            parallel_optimization_percent: 40,
            optimization_time_ms: 15,
        }
    }

    /// The monitoring pass: its metrics, analytics and alert steps change
    /// nothing here, and it reports its fixed figures.
    fn apply_monitoring_optimizations(&self, _monitoring_system: &ProductionPrivacyMonitoringSystem) -> (res: ProductionOptimizationResult)
        ensures
            pass_result(res, "privacy_monitoring"@, 20, 20, 25, 30, 30, 8),
    {
        ProductionOptimizationResult {
            optimization_type: owned("privacy_monitoring"),
            performance_improvement_percent: 20,
            memory_optimization_percent: 20,
            cpu_optimization_percent: 25,
            cache_optimization_percent: 30,
            parallel_optimization_percent: 30,
            optimization_time_ms: 8,
        }
    }

    /// Memory to 70 %, CPU to 80 %, cache hit rate and parallel efficiency
    /// up by 40 and 35 points, and the pass's report.
    fn apply_proof_generation_optimizations(&mut self, boojum_system: &mut ProductionBoojumStarkSystem) -> (res: ProductionOptimizationResult)
        requires
            old(self).well_formed(),
        ensures
            final(self).well_formed(),
            *final(boojum_system) == *old(boojum_system),
            pass_result(res, "proof_generation"@, 25, 30, 20, 40, 35, 10),
            final(self).optimizer.stats == old(self).optimizer.stats,
            final(self).performance_metrics == old(self).performance_metrics,
            final(self).batch_processor == old(self).batch_processor,
            final(self).spec_optimizer_usage() == (
                (old(self).spec_optimizer_usage().0 * 7 / 10) as usize,
                (old(self).spec_optimizer_usage().1 * 8 / 10) as u64,
            ),
            final(self).spec_cache_stats() == (ProductionCacheStats {
                hit_rate_percent: capped(old(self).spec_cache_stats().hit_rate_percent as int, 40, 100) as u64,
                ..old(self).spec_cache_stats()
            }),
            final(self).spec_parallel_stats() == (ProductionParallelStats {
                parallel_efficiency_percent: capped(
                    old(self).spec_parallel_stats().parallel_efficiency_percent as int,
                    35,
                    100,
                ) as u64,
                ..old(self).spec_parallel_stats()
            }),
    {
        let memory = self.optimizer.state.memory_usage;
        self.optimizer.state.memory_usage = ((memory as u128) * 7 / 10) as usize;
        let cpu = self.optimizer.state.cpu_usage_percent;
        self.optimizer.state.cpu_usage_percent = ((cpu as u128) * 8 / 10) as u64;
        let hit = self.cache_manager.stats.hit_rate_percent;
        self.cache_manager.stats.hit_rate_percent = if hit + 40 <= 100 {
            hit + 40
        } else {
            100
        };
        let eff = self.parallel_processor.stats.parallel_efficiency_percent;
        self.parallel_processor.stats.parallel_efficiency_percent = if eff + 35 <= 100 {
            eff + 35
        } else {
            100
        };
        ProductionOptimizationResult {
            optimization_type: owned("proof_generation"),
            performance_improvement_percent: 25,
            memory_optimization_percent: 30,
            cpu_optimization_percent: 20,
            cache_optimization_percent: 40,
            parallel_optimization_percent: 35,
            optimization_time_ms: 10,
        }
    }

    /// One more successful pass in the optimiser's statistics.
    fn update_optimizer_stats(&mut self, optimization_time: u128)
        requires
            old(self).well_formed(),
            old(self).optimizer.stats.total_optimizations < u64::MAX,
        ensures
            final(self).well_formed(),
            final(self).optimizer.stats == optimizer_stats_after(old(self).optimizer.stats, optimization_time),
            final(self).optimizer.state == old(self).optimizer.state,
            final(self).optimizer.config == old(self).optimizer.config,
            final(self).cache_manager == old(self).cache_manager,
            final(self).batch_processor == old(self).batch_processor,
            final(self).parallel_processor == old(self).parallel_processor,
            final(self).performance_metrics == old(self).performance_metrics,
    {
        let s = &mut self.optimizer.stats;
        s.total_optimizations = s.total_optimizations + 1;
        s.successful_optimizations = s.successful_optimizations + 1;
        s.total_optimization_time_ms = s.total_optimization_time_ms.saturating_add(optimization_time);
    }

    /// The metrics take an improvement of `improvement` percent.
    fn update_performance_metrics(&mut self, improvement: u64)
        requires
            old(self).well_formed(),
            improvement <= 100,
        ensures
            final(self).well_formed(),
            final(self).performance_metrics == metrics_after_pass(old(self).performance_metrics, improvement),
            final(self).optimizer == old(self).optimizer,
            final(self).cache_manager == old(self).cache_manager,
            final(self).batch_processor == old(self).batch_processor,
            final(self).parallel_processor == old(self).parallel_processor,
    {
        let m = &mut self.performance_metrics;
        m.performance_improvement_percent = improvement;
        m.overall_performance_score = if 100 + improvement <= 200 {
            100 + improvement
        } else {
            200
        };
        m.optimization_effectiveness_percent = if m.optimization_effectiveness_percent + improvement <= 200 {
            m.optimization_effectiveness_percent + improvement
        } else {
            200
        };
    }
}

/// The score and effectiveness stay within their caps, and the
/// effectiveness never falls, whatever improvement a pass reports.
pub proof fn lemma_pass_keeps_caps(m: ProductionOptimizationMetrics, p: u64)
    requires
        m.optimization_effectiveness_percent <= 200,
    ensures
        metrics_after_pass(m, p).overall_performance_score <= 200,
        metrics_after_pass(m, p).optimization_effectiveness_percent <= 200,
        metrics_after_pass(m, p).optimization_effectiveness_percent >= m.optimization_effectiveness_percent,
{
}

} // verus!
