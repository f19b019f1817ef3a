//! Proof generation tuned for throughput: proofs cached under the SHA-256
//! of a transaction's hash and amount commitment, with a one-hour lifetime
//! and eviction of the least used proofs; batches of transactions proved
//! together; and the statistics kept alongside. Times are whole
//! milliseconds (measured ones rounded up), averages are rounded down and
//! the hit rate is in whole percent.
use vstd::prelude::*;
use vstd::string::*;
use vstd::utf8::encode_utf8;
use crate::advanced_privacy_features::PrivateTransaction;
use crate::crypto::{elapsed_millis_rounded_up, hex_encode, hex_lower, instant_now, sha256, sha256_spec, unix_time_secs};
use crate::error::PrivacyError;
use crate::privacy_monitoring::{copy_list, time_random_id};
use crate::text::{extend_bytes, extend_str_bytes, owned};

verus! {

/// The privacy system tuned for throughput.
pub struct OptimizedPrivacySystem {
    proof_cache: ProofCache,
    batch_manager: BatchManager,
    performance_metrics: PerformanceMetrics,
    async_proof_generator: AsyncProofGenerator,
    processing_pool: ProcessingPool,
}

/// The proof cache. Keys occur once.
pub struct ProofCache {
    proofs: Vec<CachedProof>,
    max_cache_size: usize,
    total_access_time_ms: u128,
    stats: CacheStats,
}

/// A cached proof.
pub struct CachedProof {
    /// Proof data.
    pub proof_data: Vec<u8>,
    /// Cache key.
    pub cache_key: String,
    /// When the proof was cached, in seconds since the Unix epoch.
    pub created_at: u64,
    /// When the proof expires, in seconds since the Unix epoch.
    pub expires_at: u64,
    /// Uses recorded when the proof was cached.
    pub access_count: u64,
    /// Proof type.
    pub proof_type: String,
}

/// Cache statistics.
#[derive(Debug, Clone, Copy, PartialEq, Eq, Structural)]
pub struct CacheStats {
    /// Requests answered from the cache.
    pub hits: u64,
    /// Requests that generated a proof.
    pub misses: u64,
    /// Hits among all requests in whole percent, as of the last cache
    /// optimisation.
    pub hit_rate_percent: u64,
    /// Mean time of a request in milliseconds, rounded down.
    pub avg_access_time_ms: u64,
}

/// The batch manager. No batch stays pending once its processing ends.
pub struct BatchManager {
    pending_batches: Vec<ProcessingBatch>,
    max_batch_size: usize,
    batch_timeout_ms: u64,
    total_processing_time_ms: u128,
    total_batch_items: u128,
    stats: BatchStats,
}

/// A batch of transactions being processed.
pub struct ProcessingBatch {
    /// Batch identifier.
    pub batch_id: String,
    /// Transactions in the batch.
    pub transactions: Vec<PrivateTransaction>,
    /// When the batch was made, in seconds since the Unix epoch.
    pub created_at: u64,
    /// Status.
    pub status: BatchStatus,
    /// Priority.
    pub priority: u8,
}

/// The status of a batch.
#[derive(Debug, Clone, Copy, PartialEq, Eq, Structural)]
pub enum BatchStatus {
    /// Waiting.
    Pending,
    /// Being processed.
    Processing,
    /// Done.
    Completed,
    /// Failed.
    Failed,
}

/// Batch statistics.
#[derive(Debug, Clone, Copy, PartialEq, Eq, Structural)]
pub struct BatchStats {
    /// Batches processed.
    pub total_batches: u64,
    /// Batches that succeeded.
    pub successful_batches: u64,
    /// Batches that failed.
    pub failed_batches: u64,
    /// Mean processing time of a batch in milliseconds, rounded down.
    pub avg_processing_time_ms: u64,
    /// Mean number of transactions in a batch, rounded down.
    pub avg_batch_size: u64,
}

/// Performance metrics: the last thousand generation and verification
/// times above zero, and their means.
#[derive(Debug, Clone)]
pub struct PerformanceMetrics {
    /// Generation times in milliseconds, oldest first.
    pub proof_generation_times: Vec<u64>,
    /// Verification times in milliseconds, oldest first.
    pub proof_verification_times: Vec<u64>,
    /// Mean generation time, rounded down.
    pub avg_proof_generation_ms: u64,
    /// Mean verification time, rounded down.
    pub avg_proof_verification_ms: u64,
    /// Memory in use, in megabytes.
    pub memory_usage_mb: u64,
    /// CPU use in percent.
    pub cpu_usage_percent: u64,
    /// Transactions per second.
    pub throughput_tps: u64,
}

/// The queue of proof generation tasks and its workers.
pub struct AsyncProofGenerator {
    generation_queue: Vec<ProofGenerationTask>,
    worker_pool_size: usize,
    active_workers: usize,
}

/// A proof generation task.
pub struct ProofGenerationTask {
    /// Task identifier.
    pub task_id: String,
    /// Transaction to prove.
    pub transaction: PrivateTransaction,
    /// Priority.
    pub priority: u8,
    /// When the task was made, in seconds since the Unix epoch.
    pub created_at: u64,
    /// Status.
    pub status: TaskStatus,
}

/// The status of a task.
#[derive(Debug, Clone, Copy, PartialEq, Eq, Structural)]
pub enum TaskStatus {
    /// Waiting in the queue.
    Queued,
    /// Being processed.
    Processing,
    /// Done.
    Completed,
    /// Failed.
    Failed,
}

/// The pool of parallel workers: its queue and statistics.
pub struct ProcessingPool {
    task_queue: Vec<ProcessingTask>,
    stats: PoolStats,
}

/// A task for the pool.
pub struct ProcessingTask {
    /// Task identifier.
    pub task_id: String,
    /// Task type.
    pub task_type: String,
    /// Input.
    pub data: Vec<u8>,
    /// Priority.
    pub priority: u8,
}

/// Pool statistics.
#[derive(Debug, Clone, Copy, PartialEq, Eq, Structural)]
pub struct PoolStats {
    /// Tasks processed.
    pub total_tasks: u64,
    /// Tasks that succeeded.
    pub successful_tasks: u64,
    /// Tasks that failed.
    pub failed_tasks: u64,
    /// Mean processing time in milliseconds.
    pub avg_processing_time_ms: u64,
    /// Busy workers.
    pub active_workers: usize,
}

/// The most proofs the cache keeps after an optimisation makes room.
pub open spec fn max_cached_proofs() -> usize {
    10000
}

/// How many times each window of measurements keeps.
pub open spec fn window_len() -> nat {
    1000
}

/// How long a cached proof lives, in seconds.
pub open spec fn proof_lifetime_secs() -> u64 {
    3600
}

/// The bytes that end every proof here.
pub open spec fn proof_tail() -> Seq<u8> {
    seq![1u8, 2u8, 3u8, 4u8, 5u8]
}

/// The proof of a transaction: the UTF-8 bytes of its hash, then the tail.
pub open spec fn transaction_proof(tx: PrivateTransaction) -> Seq<u8> {
    encode_utf8(tx.hash@) + proof_tail()
}

/// The cache key of a transaction: the lower-case hex SHA-256 of the UTF-8
/// bytes of its hash followed by its amount commitment.
pub open spec fn transaction_cache_key(tx: PrivateTransaction) -> Seq<char> {
    hex_lower(sha256_spec(encode_utf8(tx.hash@) + tx.amount_commitment@))
}

/// The sum of a list of times.
pub open spec fn time_total(s: Seq<u64>) -> nat
    decreases s.len(),
{
    if s.len() == 0 {
        0
    } else {
        time_total(s.drop_last()) + s.last() as nat
    }
}

/// The mean of a list of times, rounded down; zero for no times.
pub open spec fn mean_time(s: Seq<u64>) -> u64 {
    if s.len() == 0 {
        0
    } else {
        (time_total(s) / s.len()) as u64
    }
}

/// A window after a new time: the time is appended and, past a thousand
/// times, the oldest dropped.
pub open spec fn window_push(s: Seq<u64>, t: u64) -> Seq<u64> {
    if s.len() >= window_len() {
        s.push(t).drop_first()
    } else {
        s.push(t)
    }
}

/// A window after a measurement of `t`: times of zero are not kept.
pub open spec fn window_record(s: Seq<u64>, t: u64) -> Seq<u64> {
    if t > 0 {
        window_push(s, t)
    } else {
        s
    }
}

/// The averages are the means of the windows, which hold at most a
/// thousand times each.
pub open spec fn metrics_consistent(m: PerformanceMetrics) -> bool {
    &&& m.proof_generation_times@.len() <= window_len()
    &&& m.proof_verification_times@.len() <= window_len()
    &&& m.avg_proof_generation_ms == mean_time(m.proof_generation_times@)
    &&& m.avg_proof_verification_ms == mean_time(m.proof_verification_times@)
}

/// `x + y`, or `u64::MAX` where that overflows.
pub open spec fn add_saturating(x: u64, y: u64) -> u64 {
    if x + y > u64::MAX {
        u64::MAX
    } else {
        (x + y) as u64
    }
}

/// Keys occur once in the cache.
pub open spec fn keys_distinct(c: Seq<CachedProof>) -> bool {
    forall|i: int, j: int| 0 <= i < c.len() && 0 <= j < c.len() && i != j ==> c[i].cache_key@ != c[j].cache_key@
}

/// The cache has an entry under `k`.
pub open spec fn cache_has_key(c: Seq<CachedProof>, k: Seq<char>) -> bool {
    exists|i: int| 0 <= i < c.len() && c[i].cache_key@ == k
}

/// Entry `i` of the cache is under `k` and still lives at time `now`.
pub open spec fn live_entry(c: Seq<CachedProof>, k: Seq<char>, now: u64, i: int) -> bool {
    0 <= i < c.len() && c[i].cache_key@ == k && c[i].expires_at > now
}

/// No entry under `k` lives at time `now`.
pub open spec fn no_live_entry(c: Seq<CachedProof>, k: Seq<char>, now: u64) -> bool {
    forall|i: int| !live_entry(c, k, now, i)
}

/// `e` is a proof cached at time `created` under `k` with data `d`: one use,
/// an hour to live and the type `transaction_validity`.
pub open spec fn fresh_entry(e: CachedProof, k: Seq<char>, d: Seq<u8>, created: u64) -> bool {
    &&& e.cache_key@ == k
    &&& e.proof_data@ == d
    &&& e.created_at == created
    &&& e.expires_at == add_saturating(created, proof_lifetime_secs())
    &&& e.access_count == 1
    &&& e.proof_type@ == "transaction_validity"@
}

/// `new` is `old` with a fresh entry under `k` in place of the one there,
/// or appended where there was none.
pub open spec fn cache_put(old: Seq<CachedProof>, new: Seq<CachedProof>, k: Seq<char>, d: Seq<u8>, created: u64) -> bool {
    if cache_has_key(old, k) {
        &&& new.len() == old.len()
        &&& exists|i: int| {
            &&& 0 <= i < old.len()
            &&& old[i].cache_key@ == k
            &&& fresh_entry(new[i], k, d, created)
            &&& forall|j: int| 0 <= j < old.len() && j != i ==> new[j] == old[j]
        }
    } else {
        &&& new.len() == old.len() + 1
        &&& new.take(old.len() as int) == old
        &&& fresh_entry(new[old.len() as int], k, d, created)
    }
}

/// The entries of `c` that live at time `now`, in order.
pub open spec fn live_entries(c: Seq<CachedProof>, now: u64) -> Seq<CachedProof>
    decreases c.len(),
{
    if c.len() == 0 {
        Seq::empty()
    } else if c.last().expires_at > now {
        live_entries(c.drop_last(), now).push(c.last())
    } else {
        live_entries(c.drop_last(), now)
    }
}

/// `kept` is what eviction leaves of `f`: where `f` holds at least `max`
/// proofs, `f.len() - max + 100` of them go, none used more than a proof
/// that stays; otherwise nothing goes.
pub open spec fn evicted_least_used(f: Seq<CachedProof>, kept: Seq<CachedProof>, max: usize) -> bool {
    if f.len() >= max {
        &&& kept.len() == max - 100
        &&& forall|i: int| 0 <= i < kept.len() ==> f.contains(#[trigger] kept[i])
        &&& forall|x: CachedProof, y: CachedProof|
            #![trigger f.contains(x), kept.contains(y)]
            f.contains(x) && !kept.contains(x) && kept.contains(y) ==> x.access_count <= y.access_count
    } else {
        kept == f
    }
}

/// A sum of times is at most the largest time once per time.
pub proof fn lemma_time_total_bound(s: Seq<u64>)
    ensures
        time_total(s) <= s.len() * (u64::MAX as nat),
    decreases s.len(),
{
    if s.len() > 0 {
        lemma_time_total_bound(s.drop_last());
    }
}

/// The mean of a list of times is itself a time.
proof fn lemma_mean_fits(total: nat, n: nat)
    requires
        n > 0,
        total <= n * (u64::MAX as nat),
    ensures
        total / n <= u64::MAX,
{
    assert(total / n <= u64::MAX) by (nonlinear_arith)
        requires
            n > 0,
            total <= n * (u64::MAX as nat),
    ;
}

/// The mean of a window of at most a thousand times.
fn window_mean(times: &Vec<u64>) -> (res: u64)
    requires
        times@.len() <= window_len(),
    ensures
        res == mean_time(times@),
{
    if times.len() == 0 {
        return 0;
    }
    let mut total: u128 = 0;
    let mut i: usize = 0;
    while i < times.len()
        invariant
            i <= times@.len(),
            times@.len() <= window_len(),
            total == time_total(times@.take(i as int)),
        decreases times@.len() - i,
    {
        proof {
            assert(times@.take(i as int + 1).drop_last() =~= times@.take(i as int));
            lemma_time_total_bound(times@.take(i as int));
        }
        total = total + times[i] as u128;
        i = i + 1;
    }
    proof {
        assert(times@.take(times@.len() as int) =~= times@);
        lemma_time_total_bound(times@);
        lemma_mean_fits(total as nat, times@.len());
    }
    (total / (times.len() as u128)) as u64
}

/// Adds a time to a window, dropping the oldest past a thousand.
fn window_add(times: &mut Vec<u64>, t: u64)
    requires
        old(times)@.len() <= window_len(),
    ensures
        final(times)@ == window_push(old(times)@, t),
        final(times)@.len() <= window_len(),
{
    times.push(t);
    if times.len() > 1000 {
        times.remove(0);
        assert(final(times)@ =~= old(times)@.push(t).drop_first());
    }
}

/// Records a measurement of `d` milliseconds in a window and its mean; a
/// measurement of zero is not kept.
fn record_time(times: &mut Vec<u64>, avg: &mut u64, d: u128)
    requires
        old(times)@.len() <= window_len(),
        *old(avg) == mean_time(old(times)@),
    ensures
        exists|t: u64| final(times)@ == window_record(old(times)@, t) && t as u128 == if d > u64::MAX as u128 {
            u64::MAX as u128
        } else {
            d
        },
        final(times)@.len() <= window_len(),
        *final(avg) == mean_time(final(times)@),
{
    let t: u64 = if d > u64::MAX as u128 {
        u64::MAX
    } else {
        d as u64
    };
    if t > 0 {
        window_add(times, t);
        *avg = window_mean(times);
    }
    assert(times@ == window_record(old(times)@, t));
}

/// The cache key of a transaction.
fn generate_cache_key(tx: &PrivateTransaction) -> (res: String)
    ensures
        res@ == transaction_cache_key(*tx),
{
    let mut buf: Vec<u8> = Vec::new();
    extend_str_bytes(&mut buf, tx.hash.as_str());
    extend_bytes(&mut buf, tx.amount_commitment.as_slice());
    let d = sha256(buf.as_slice());
    hex_encode(&d)
}

/// The proof of a transaction.
fn process_single_transaction(tx: &PrivateTransaction) -> (res: Vec<u8>)
    ensures
        res@ == transaction_proof(*tx),
{
    let mut proof_data: Vec<u8> = Vec::new();
    extend_str_bytes(&mut proof_data, tx.hash.as_str());
    proof_data.push(1u8);
    proof_data.push(2u8);
    proof_data.push(3u8);
    proof_data.push(4u8);
    proof_data.push(5u8);
    assert(proof_data@ =~= transaction_proof(*tx));
    proof_data
}

/// Generates the proof of a transaction.
fn generate_proof_async(tx: &PrivateTransaction) -> (res: Vec<u8>)
    ensures
        res@ == transaction_proof(*tx),
{
    process_single_transaction(tx)
}

/// Verifies proof data: it verifies exactly when it is not empty.
fn verify_proof_parallel(proof_data: &[u8]) -> (res: bool)
    ensures
        res == (proof_data@.len() > 0),
{
    proof_data.len() > 0
}

/// The position of the entry under `key`, if any.
fn find_entry(c: &Vec<CachedProof>, key: &str) -> (res: Option<usize>)
    ensures
        res matches Some(i) ==> i < c@.len() && c@[i as int].cache_key@ == key@,
        res is None ==> !cache_has_key(c@, key@),
{
    let mut i: usize = 0;
    while i < c.len()
        invariant
            i <= c@.len(),
            forall|j: int| 0 <= j < i ==> c@[j].cache_key@ != key@,
        decreases c@.len() - i,
    {
        if crate::text::str_equal(c[i].cache_key.as_str(), key) {
            return Some(i);
        }
        i = i + 1;
    }
    None
}

/// Puts `entry` into the cache in place of the entry under its key, or
/// appends it where there is none.
fn cache_proof(c: &mut Vec<CachedProof>, entry: CachedProof)
    requires
        keys_distinct(old(c)@),
    ensures
        keys_distinct(final(c)@),
        cache_has_key(old(c)@, entry.cache_key@) ==> {
            &&& final(c)@.len() == old(c)@.len()
            &&& exists|i: int| {
                &&& 0 <= i < old(c)@.len()
                &&& old(c)@[i].cache_key@ == entry.cache_key@
                &&& final(c)@[i] == entry
                &&& forall|j: int| 0 <= j < old(c)@.len() && j != i ==> final(c)@[j] == old(c)@[j]
            }
        },
        !cache_has_key(old(c)@, entry.cache_key@) ==> final(c)@ == old(c)@.push(entry),
{
    match find_entry(c, entry.cache_key.as_str()) {
        Some(i) => {
            let ghost e = entry;
            c.set(i, entry);
            assert(final(c)@[i as int] == e);
            assert(keys_distinct(c@));
        },
        None => {
            let ghost e = entry;
            c.push(entry);
            assert(c@[old(c)@.len() as int] == e);
            assert(keys_distinct(c@));
        },
    }
}

/// What stays of a cache at time `now` comes from it and lives, every
/// living entry stays, and keys stay distinct.
pub proof fn lemma_live_entries(c: Seq<CachedProof>, now: u64)
    ensures
        forall|x: CachedProof| #[trigger] live_entries(c, now).contains(x) ==> c.contains(x) && x.expires_at > now,
        forall|i: int| 0 <= i < c.len() && c[i].expires_at > now ==> live_entries(c, now).contains(#[trigger] c[i]),
        keys_distinct(c) ==> keys_distinct(live_entries(c, now)),
    decreases c.len(),
{
    if c.len() > 0 {
        let p = c.drop_last();
        lemma_live_entries(p, now);
        let lp = live_entries(p, now);
        assert forall|x: CachedProof| #[trigger] live_entries(c, now).contains(x) implies c.contains(x)
            && x.expires_at > now by {
            if lp.contains(x) {
                let j = choose|j: int| 0 <= j < p.len() && p[j] == x;
                assert(c[j] == x);
            } else {
                assert(x == c.last());
                assert(c[c.len() - 1] == x);
            }
        }
        assert forall|i: int| 0 <= i < c.len() && c[i].expires_at > now implies live_entries(
            c,
            now,
        ).contains(#[trigger] c[i]) by {
            if i < c.len() - 1 {
                assert(p[i] == c[i]);
                let k = choose|k: int| 0 <= k < lp.len() && lp[k] == p[i];
                assert(live_entries(c, now)[k] == c[i]);
            } else {
                assert(live_entries(c, now)[lp.len() as int] == c[i]);
            }
        }
        if keys_distinct(c) && c.last().expires_at > now {
            let l = live_entries(c, now);
            assert(keys_distinct(p));
            assert forall|a: int, b: int| 0 <= a < l.len() && 0 <= b < l.len() && a != b implies l[a].cache_key@
                != l[b].cache_key@ by {
                if a < lp.len() && b < lp.len() {
                    assert(l[a] == lp[a] && l[b] == lp[b]);
                } else if a < lp.len() {
                    assert(lp.contains(lp[a]));
                    let j = choose|j: int| 0 <= j < p.len() && p[j] == lp[a];
                    assert(c[j] == l[a]);
                    assert(l[b] == c[c.len() - 1]);
                } else {
                    assert(lp.contains(lp[b]));
                    let j = choose|j: int| 0 <= j < p.len() && p[j] == lp[b];
                    assert(c[j] == l[b]);
                    assert(l[a] == c[c.len() - 1]);
                }
            }
        }
    }
}

/// Drops the entries that no longer live at time `now`, keeping the order
/// of the others.
fn retain_live(c: &mut Vec<CachedProof>, now: u64)
    ensures
        final(c)@ == live_entries(old(c)@, now),
{
    let ghost orig = c@;
    let ghost n = orig.len();
    let ghost mut j: int = 0;
    let mut i: usize = 0;
    while i < c.len()
        invariant
            0 <= j <= n,
            n == orig.len(),
            c@ == live_entries(orig.take(j), now) + orig.subrange(j, n as int),
            i == live_entries(orig.take(j), now).len(),
        decreases n - j,
    {
        proof {
            assert(orig.take(j + 1).drop_last() =~= orig.take(j));
            assert(c@[i as int] == orig[j]);
        }
        if c[i].expires_at > now {
            i = i + 1;
            proof {
                j = j + 1;
            }
            assert(c@ =~= live_entries(orig.take(j), now) + orig.subrange(j, n as int));
        } else {
            c.remove(i);
            proof {
                j = j + 1;
            }
            assert(c@ =~= live_entries(orig.take(j), now) + orig.subrange(j, n as int));
        }
    }
    proof {
        assert(orig.take(n as int) =~= orig);
        assert(orig.subrange(n as int, n as int) =~= Seq::<CachedProof>::empty());
        assert(c@ =~= live_entries(orig, now));
    }
}

/// Removing an entry keeps the others and the distinctness of keys.
proof fn lemma_remove_entry(c: Seq<CachedProof>, m: int)
    requires
        0 <= m < c.len(),
    ensures
        forall|y: CachedProof| #[trigger] c.remove(m).contains(y) ==> c.contains(y),
        forall|t: int| 0 <= t < c.len() && t != m ==> c.remove(m).contains(#[trigger] c[t]),
        keys_distinct(c) ==> keys_distinct(c.remove(m)),
{
    let r = c.remove(m);
    assert forall|y: CachedProof| #[trigger] r.contains(y) implies c.contains(y) by {
        let t = choose|t: int| 0 <= t < r.len() && r[t] == y;
        if t < m {
            assert(c[t] == y);
        } else {
            assert(c[t + 1] == y);
        }
    }
    assert forall|t: int| 0 <= t < c.len() && t != m implies r.contains(#[trigger] c[t]) by {
        if t < m {
            assert(r[t] == c[t]);
        } else {
            assert(r[t - 1] == c[t]);
        }
    }
    if keys_distinct(c) {
        assert forall|a: int, b: int| 0 <= a < r.len() && 0 <= b < r.len() && a != b implies r[a].cache_key@
            != r[b].cache_key@ by {
            let ia = if a < m { a } else { a + 1 };
            let ib = if b < m { b } else { b + 1 };
            assert(r[a] == c[ia] && r[b] == c[ib]);
        }
    }
}

/// The position of an entry used least.
fn least_used(c: &Vec<CachedProof>) -> (res: usize)
    requires
        c@.len() > 0,
    ensures
        res < c@.len(),
        forall|t: int| 0 <= t < c@.len() ==> c@[res as int].access_count <= #[trigger] c@[t].access_count,
{
    let mut m: usize = 0;
    let mut i: usize = 1;
    while i < c.len()
        invariant
            1 <= i <= c@.len(),
            m < i,
            forall|t: int| 0 <= t < i ==> c@[m as int].access_count <= #[trigger] c@[t].access_count,
        decreases c@.len() - i,
    {
        if c[i].access_count < c[m].access_count {
            m = i;
        }
        i = i + 1;
    }
    m
}

/// Removes `count` entries, each time one used least.
fn evict_least_used(c: &mut Vec<CachedProof>, count: usize)
    requires
        count <= old(c)@.len(),
        keys_distinct(old(c)@),
    ensures
        final(c)@.len() == old(c)@.len() - count,
        keys_distinct(final(c)@),
        forall|i: int| 0 <= i < final(c)@.len() ==> old(c)@.contains(#[trigger] final(c)@[i]),
        forall|x: CachedProof, y: CachedProof|
            #![trigger old(c)@.contains(x), final(c)@.contains(y)]
            old(c)@.contains(x) && !final(c)@.contains(x) && final(c)@.contains(y) ==> x.access_count
                <= y.access_count,
{
    let ghost orig = c@;
    let ghost mut removed: Seq<CachedProof> = Seq::empty();
    let mut k: usize = 0;
    while k < count
        invariant
            k <= count,
            count <= orig.len(),
            c@.len() == orig.len() - k,
            keys_distinct(c@),
            forall|y: CachedProof| #[trigger] c@.contains(y) ==> orig.contains(y),
            forall|x: CachedProof| #[trigger] orig.contains(x) ==> c@.contains(x) || removed.contains(x),
            forall|r: CachedProof, y: CachedProof|
                #![trigger removed.contains(r), c@.contains(y)]
                removed.contains(r) && c@.contains(y) ==> r.access_count <= y.access_count,
        decreases count - k,
    {
        let m = least_used(c);
        let ghost before = c@;
        let ghost gone = c@[m as int];
        proof {
            lemma_remove_entry(before, m as int);
        }
        c.remove(m);
        proof {
            let old_removed = removed;
            removed = removed.push(gone);
            assert forall|y: CachedProof| #[trigger] c@.contains(y) implies orig.contains(y) by {
                assert(before.contains(y));
            }
            assert forall|x: CachedProof| #[trigger] orig.contains(x) implies c@.contains(x) || removed.contains(
                x,
            ) by {
                if before.contains(x) {
                    let t = choose|t: int| 0 <= t < before.len() && before[t] == x;
                    if t == m {
                        assert(removed[removed.len() - 1] == x);
                    } else {
                        assert(c@.contains(before[t]));
                    }
                } else {
                    assert(old_removed.contains(x));
                    let t = choose|t: int| 0 <= t < old_removed.len() && old_removed[t] == x;
                    assert(removed[t] == x);
                }
            }
            assert forall|r: CachedProof, y: CachedProof|
                #![trigger removed.contains(r), c@.contains(y)]
                removed.contains(r) && c@.contains(y) implies r.access_count <= y.access_count by {
                assert(before.contains(y));
                let ty = choose|t: int| 0 <= t < before.len() && before[t] == y;
                let tr = choose|t: int| 0 <= t < removed.len() && removed[t] == r;
                if tr == removed.len() - 1 {
                    assert(before[m as int].access_count <= before[ty].access_count);
                } else {
                    assert(old_removed[tr] == r);
                    assert(old_removed.contains(r));
                }
            }
        }
        k = k + 1;
    }
    proof {
        assert forall|i: int| 0 <= i < c@.len() implies orig.contains(#[trigger] c@[i]) by {
            assert(c@.contains(c@[i]));
        }
        assert forall|x: CachedProof, y: CachedProof|
            #![trigger orig.contains(x), c@.contains(y)]
            orig.contains(x) && !c@.contains(x) && c@.contains(y) implies x.access_count <= y.access_count by {
            assert(removed.contains(x));
        }
    }
}

/// The cache statistics agree with the summed request time `total_ms`:
/// requests fit in a `u64`, the mean is the total over the requests, and
/// the hit rate is a percentage.
pub open spec fn cache_stats_consistent(s: CacheStats, total_ms: nat) -> bool {
    &&& s.hits + s.misses <= u64::MAX
    &&& total_ms <= (s.hits + s.misses) * (u64::MAX as nat)
    &&& s.avg_access_time_ms == if s.hits + s.misses == 0 {
        0
    } else {
        total_ms / ((s.hits + s.misses) as nat)
    }
    &&& s.hit_rate_percent <= 100
}

/// The batch statistics agree with the summed processing time `total_ms`
/// and the summed batch sizes `total_items`.
pub open spec fn batch_stats_consistent(s: BatchStats, total_ms: nat, total_items: nat) -> bool {
    &&& s.successful_batches + s.failed_batches == s.total_batches
    &&& total_ms <= s.total_batches * (u64::MAX as nat)
    &&& total_items <= s.total_batches * (u64::MAX as nat)
    &&& s.avg_processing_time_ms == if s.total_batches == 0 {
        0
    } else {
        total_ms / (s.total_batches as nat)
    }
    &&& s.avg_batch_size == if s.total_batches == 0 {
        0
    } else {
        total_items / (s.total_batches as nat)
    }
}

/// `m` is `old` after a measurement of `t` milliseconds of generation.
pub open spec fn metrics_after_generation(old: PerformanceMetrics, m: PerformanceMetrics, t: u64) -> bool {
    &&& m.proof_generation_times@ == window_record(old.proof_generation_times@, t)
    &&& m.proof_verification_times@ == old.proof_verification_times@
    &&& m.memory_usage_mb == old.memory_usage_mb
    &&& m.cpu_usage_percent == old.cpu_usage_percent
    &&& m.throughput_tps == old.throughput_tps
}

/// `m` is `old` after a measurement of `t` milliseconds of verification.
pub open spec fn metrics_after_verification(old: PerformanceMetrics, m: PerformanceMetrics, t: u64) -> bool {
    &&& m.proof_verification_times@ == window_record(old.proof_verification_times@, t)
    &&& m.proof_generation_times@ == old.proof_generation_times@
    &&& m.memory_usage_mb == old.memory_usage_mb
    &&& m.cpu_usage_percent == old.cpu_usage_percent
    &&& m.throughput_tps == old.throughput_tps
}

/// A millisecount as a `u64`, `u64::MAX` where it does not fit.
pub open spec fn millis_u64(d: u128) -> u64 {
    if d > u64::MAX as u128 {
        u64::MAX
    } else {
        d as u64
    }
}

fn to_millis_u64(d: u128) -> (res: u64)
    ensures
        res == millis_u64(d),
{
    if d > u64::MAX as u128 {
        u64::MAX
    } else {
        d as u64
    }
}

/// Milliseconds since `start`, rounded up, as a `u64`.
fn elapsed_ms(start: &std::time::Instant) -> (res: u64) {
    to_millis_u64(elapsed_millis_rounded_up(start))
}

/// A mean of at most `u64::MAX` values of at most `u64::MAX` each.
fn mean_u128(total: u128, n: u64) -> (res: u64)
    requires
        n > 0,
        total <= (n as nat) * (u64::MAX as nat),
    ensures
        res == (total as nat) / (n as nat),
{
    proof {
        lemma_mean_fits(total as nat, n as nat);
    }
    (total / (n as u128)) as u64
}

impl OptimizedPrivacySystem {
    /// Distinct cache keys, a cache that makes room at 10000 proofs,
    /// statistics that agree with their totals, metrics whose averages are
    /// the means of their windows, no batch pending and the fixed
    /// configuration.
    pub closed spec fn well_formed(&self) -> bool {
        &&& keys_distinct(self.proof_cache.proofs@)
        &&& self.proof_cache.max_cache_size == max_cached_proofs()
        &&& cache_stats_consistent(self.proof_cache.stats, self.proof_cache.total_access_time_ms as nat)
        &&& metrics_consistent(self.performance_metrics)
        &&& self.batch_manager.pending_batches@.len() == 0
        &&& self.batch_manager.max_batch_size == 100
        &&& self.batch_manager.batch_timeout_ms == 5000
        &&& batch_stats_consistent(
            self.batch_manager.stats,
            self.batch_manager.total_processing_time_ms as nat,
            self.batch_manager.total_batch_items as nat,
        )
        &&& self.async_proof_generator.worker_pool_size == 8
    }

    /// The cached proofs.
    pub closed spec fn spec_proofs(&self) -> Seq<CachedProof> {
        self.proof_cache.proofs@
    }

    /// The cache statistics.
    pub closed spec fn spec_cache_stats(&self) -> CacheStats {
        self.proof_cache.stats
    }

    /// The summed time of all requests, in milliseconds.
    pub closed spec fn spec_access_total(&self) -> nat {
        self.proof_cache.total_access_time_ms as nat
    }

    /// The performance metrics.
    pub closed spec fn spec_metrics(&self) -> PerformanceMetrics {
        self.performance_metrics
    }

    /// The batch statistics.
    pub closed spec fn spec_batch_stats(&self) -> BatchStats {
        self.batch_manager.stats
    }

    /// The summed processing time of all batches, in milliseconds.
    pub closed spec fn spec_batch_time_total(&self) -> nat {
        self.batch_manager.total_processing_time_ms as nat
    }

    /// The summed number of transactions in all batches.
    pub closed spec fn spec_batch_items_total(&self) -> nat {
        self.batch_manager.total_batch_items as nat
    }

    /// A system with an empty cache of at most 10000 proofs, batches of at
    /// most 100 transactions with a five-second timeout, eight proof
    /// workers and all statistics and metrics at zero.
    pub fn new() -> (res: Result<Self, PrivacyError>)
        ensures
            res matches Ok(s) && {
                &&& s.well_formed()
                &&& s.spec_proofs().len() == 0
                &&& s.spec_cache_stats() == (CacheStats {
                    hits: 0,
                    misses: 0,
                    hit_rate_percent: 0,
                    avg_access_time_ms: 0,
                })
                &&& s.spec_access_total() == 0
                &&& s.spec_metrics().proof_generation_times@.len() == 0
                &&& s.spec_metrics().proof_verification_times@.len() == 0
                &&& s.spec_metrics().avg_proof_generation_ms == 0
                &&& s.spec_metrics().avg_proof_verification_ms == 0
                &&& s.spec_metrics().memory_usage_mb == 0
                &&& s.spec_metrics().cpu_usage_percent == 0
                &&& s.spec_metrics().throughput_tps == 0
                &&& s.spec_batch_stats() == (BatchStats {
                    total_batches: 0,
                    successful_batches: 0,
                    failed_batches: 0,
                    avg_processing_time_ms: 0,
                    avg_batch_size: 0,
                })
                &&& s.spec_batch_time_total() == 0
                &&& s.spec_batch_items_total() == 0
            },
    {
        let proof_cache = ProofCache {
            proofs: Vec::new(),
            max_cache_size: 10000,
            total_access_time_ms: 0,
            stats: CacheStats { hits: 0, misses: 0, hit_rate_percent: 0, avg_access_time_ms: 0 },
        };
        let batch_manager = BatchManager {
            pending_batches: Vec::new(),
            max_batch_size: 100,
            batch_timeout_ms: 5000,
            total_processing_time_ms: 0,
            total_batch_items: 0,
            stats: BatchStats {
                total_batches: 0,
                successful_batches: 0,
                failed_batches: 0,
                avg_processing_time_ms: 0,
                avg_batch_size: 0,
            },
        };
        let performance_metrics = PerformanceMetrics {
            proof_generation_times: Vec::new(),
            proof_verification_times: Vec::new(),
            avg_proof_generation_ms: 0,
            avg_proof_verification_ms: 0,
            memory_usage_mb: 0,
            cpu_usage_percent: 0,
            throughput_tps: 0,
        };
        let async_proof_generator = AsyncProofGenerator {
            generation_queue: Vec::new(),
            worker_pool_size: 8,
            active_workers: 0,
        };
        let processing_pool = ProcessingPool {
            task_queue: Vec::new(),
            stats: PoolStats {
                total_tasks: 0,
                successful_tasks: 0,
                failed_tasks: 0,
                avg_processing_time_ms: 0,
                active_workers: 0,
            },
        };
        let s = OptimizedPrivacySystem {
            proof_cache,
            batch_manager,
            performance_metrics,
            async_proof_generator,
            processing_pool,
        };
        proof {
            assert(s.performance_metrics.proof_generation_times@.len() == 0);
        }
        Ok(s)
    }

    /// Counts a request, a hit or a miss, that took `t` milliseconds, and
    /// updates the mean request time.
    fn update_cache_stats(&mut self, hit: bool, t: u64)
        requires
            old(self).well_formed(),
            old(self).spec_cache_stats().hits + old(self).spec_cache_stats().misses < u64::MAX,
        ensures
            final(self).well_formed(),
            final(self).spec_cache_stats().hits == old(self).spec_cache_stats().hits + if hit {
                1int
            } else {
                0int
            },
            final(self).spec_cache_stats().misses == old(self).spec_cache_stats().misses + if hit {
                0int
            } else {
                1int
            },
            final(self).spec_cache_stats().hit_rate_percent == old(self).spec_cache_stats().hit_rate_percent,
            final(self).spec_access_total() == old(self).spec_access_total() + t,
            final(self).spec_proofs() == old(self).spec_proofs(),
            final(self).spec_metrics() == old(self).spec_metrics(),
            final(self).spec_batch_stats() == old(self).spec_batch_stats(),
            final(self).spec_batch_time_total() == old(self).spec_batch_time_total(),
            final(self).spec_batch_items_total() == old(self).spec_batch_items_total(),
    {
        if hit {
            self.proof_cache.stats.hits = self.proof_cache.stats.hits + 1;
        } else {
            self.proof_cache.stats.misses = self.proof_cache.stats.misses + 1;
        }
        let n: u64 = self.proof_cache.stats.hits + self.proof_cache.stats.misses;
        proof {
            let before = old(self).proof_cache.total_access_time_ms as nat;
            let m = (n - 1) as nat;
            assert(before + t <= (n as nat) * (u64::MAX as nat)) by (nonlinear_arith)
                requires
                    before <= m * (u64::MAX as nat),
                    t <= u64::MAX,
                    n == m + 1,
            ;
            assert((n as nat) * (u64::MAX as nat) <= (u64::MAX as nat) * (u64::MAX as nat)) by (nonlinear_arith)
                requires
                    n <= u64::MAX,
            ;
        }
        self.proof_cache.total_access_time_ms = self.proof_cache.total_access_time_ms + t as u128;
        self.proof_cache.stats.avg_access_time_ms = mean_u128(self.proof_cache.total_access_time_ms, n);
    }

    /// Counts a successful batch of `size` transactions that took `t`
    /// milliseconds, and updates the means.
    fn update_batch_stats(&mut self, t: u64, size: u64)
        requires
            old(self).well_formed(),
            old(self).spec_batch_stats().total_batches < u64::MAX,
        ensures
            final(self).well_formed(),
            final(self).spec_batch_stats().total_batches == old(self).spec_batch_stats().total_batches + 1,
            final(self).spec_batch_stats().successful_batches == old(self).spec_batch_stats().successful_batches + 1,
            final(self).spec_batch_stats().failed_batches == old(self).spec_batch_stats().failed_batches,
            final(self).spec_batch_time_total() == old(self).spec_batch_time_total() + t,
            final(self).spec_batch_items_total() == old(self).spec_batch_items_total() + size,
            final(self).spec_proofs() == old(self).spec_proofs(),
            final(self).spec_cache_stats() == old(self).spec_cache_stats(),
            final(self).spec_access_total() == old(self).spec_access_total(),
            final(self).spec_metrics() == old(self).spec_metrics(),
    {
        let n: u64 = self.batch_manager.stats.total_batches + 1;
        self.batch_manager.stats.total_batches = n;
        self.batch_manager.stats.successful_batches = self.batch_manager.stats.successful_batches + 1;
        proof {
            let bt = old(self).batch_manager.total_processing_time_ms as nat;
            let bi = old(self).batch_manager.total_batch_items as nat;
            let m = (n - 1) as nat;
            assert(bt + t <= (n as nat) * (u64::MAX as nat)) by (nonlinear_arith)
                requires
                    bt <= m * (u64::MAX as nat),
                    t <= u64::MAX,
                    n == m + 1,
            ;
            assert(bi + size <= (n as nat) * (u64::MAX as nat)) by (nonlinear_arith)
                requires
                    bi <= m * (u64::MAX as nat),
                    size <= u64::MAX,
                    n == m + 1,
            ;
            assert((n as nat) * (u64::MAX as nat) <= (u64::MAX as nat) * (u64::MAX as nat)) by (nonlinear_arith)
                requires
                    n <= u64::MAX,
            ;
        }
        self.batch_manager.total_processing_time_ms = self.batch_manager.total_processing_time_ms + t as u128;
        self.batch_manager.total_batch_items = self.batch_manager.total_batch_items + size as u128;
        self.batch_manager.stats.avg_processing_time_ms = mean_u128(self.batch_manager.total_processing_time_ms, n);
        self.batch_manager.stats.avg_batch_size = mean_u128(self.batch_manager.total_batch_items, n);
    }
}

/// The position of the entry under `key` that still lives at time `now`,
/// if any.
fn get_cached_proof(c: &Vec<CachedProof>, key: &str, now: u64) -> (res: Option<usize>)
    requires
        keys_distinct(c@),
    ensures
        res matches Some(i) ==> live_entry(c@, key@, now, i as int),
        res is None ==> no_live_entry(c@, key@, now),
{
    match find_entry(c, key) {
        Some(i) => {
            if c[i].expires_at > now {
                Some(i)
            } else {
                None
            }
        },
        None => None,
    }
}

impl OptimizedPrivacySystem {
    /// The proof of `transaction`. Where the cache holds a living proof
    /// under the transaction's key, that proof is returned and a hit
    /// counted; otherwise the proof is generated,
    /// cached for an hour in place of any entry under the key, its
    /// generation time recorded and a miss counted. Either way the time of
    /// the request goes into the mean request time. Fails only where the
    /// clock stands before the Unix epoch, changing nothing.
    pub fn generate_optimized_proof(&mut self, transaction: &PrivateTransaction) -> (res: Result<
        Vec<u8>,
        PrivacyError,
    >)
        requires
            old(self).well_formed(),
            old(self).spec_cache_stats().hits + old(self).spec_cache_stats().misses < u64::MAX,
        ensures
            final(self).well_formed(),
            res is Err ==> res == Err::<Vec<u8>, PrivacyError>(PrivacyError::ClockError) && *final(self)
                == *old(self),
            res matches Ok(d) ==> {
                let k = transaction_cache_key(*transaction);
                let before = old(self).spec_cache_stats();
                let after = final(self).spec_cache_stats();
                &&& after.hit_rate_percent == before.hit_rate_percent
                &&& final(self).spec_batch_stats() == old(self).spec_batch_stats()
                &&& final(self).spec_batch_time_total() == old(self).spec_batch_time_total()
                &&& final(self).spec_batch_items_total() == old(self).spec_batch_items_total()
                &&& {
                    ||| {
                        &&& after.hits == before.hits + 1
                        &&& after.misses == before.misses
                        &&& exists|now: u64, i: int|
                            live_entry(old(self).spec_proofs(), k, now, i) && old(self).spec_proofs()[i].proof_data@
                                == d@
                        &&& final(self).spec_proofs() == old(self).spec_proofs()
                        &&& final(self).spec_metrics() == old(self).spec_metrics()
                        &&& final(self).spec_access_total() >= old(self).spec_access_total()
                    }
                    ||| {
                        &&& after.hits == before.hits
                        &&& after.misses == before.misses + 1
                        &&& d@ == transaction_proof(*transaction)
                        &&& exists|now: u64| no_live_entry(old(self).spec_proofs(), k, now)
                        &&& exists|created: u64| cache_put(old(self).spec_proofs(), final(self).spec_proofs(), k, d@, created)
                        &&& exists|t: u64|
                            metrics_after_generation(old(self).spec_metrics(), final(self).spec_metrics(), t)
                                && final(self).spec_access_total() == old(self).spec_access_total() + t
                    }
                }
            },
    {
        let start = instant_now();
        let cache_key = generate_cache_key(transaction);
        let now = match unix_time_secs() {
            Some(t) => t,
            None => return Err(PrivacyError::ClockError),
        };
        match get_cached_proof(&self.proof_cache.proofs, cache_key.as_str(), now) {
            Some(i) => {
                let data = self.proof_cache.proofs[i].proof_data.clone();
                assert(data@ == old(self).proof_cache.proofs@[i as int].proof_data@);
                let t = elapsed_ms(&start);
                self.update_cache_stats(true, t);
                assert(live_entry(old(self).spec_proofs(), transaction_cache_key(*transaction), now, i as int));
                return Ok(data);
            },
            None => {},
        }
        let proof_data = generate_proof_async(transaction);
        let created = match unix_time_secs() {
            Some(t) => t,
            None => return Err(PrivacyError::ClockError),
        };
        let stored = proof_data.clone();
        assert(stored@ == proof_data@);
        let entry = CachedProof {
            proof_data: stored,
            cache_key,
            created_at: created,
            expires_at: created.saturating_add(3600),
            access_count: 1,
            proof_type: owned("transaction_validity"),
        };
        let ghost e = entry;
        assert(e.expires_at == add_saturating(created, proof_lifetime_secs()));
        assert(fresh_entry(e, e.cache_key@, proof_data@, created));
        cache_proof(&mut self.proof_cache.proofs, entry);
        proof {
            if cache_has_key(old(self).proof_cache.proofs@, e.cache_key@) {
                let i = choose|i: int| {
                    &&& 0 <= i < old(self).proof_cache.proofs@.len()
                    &&& old(self).proof_cache.proofs@[i].cache_key@ == e.cache_key@
                    &&& self.proof_cache.proofs@[i] == e
                    &&& forall|j: int| 0 <= j < old(self).proof_cache.proofs@.len() && j != i ==> self.proof_cache.proofs@[j] == old(self).proof_cache.proofs@[j]
                };
                assert(fresh_entry(self.proof_cache.proofs@[i], e.cache_key@, proof_data@, created));
            } else {
                assert(self.proof_cache.proofs@.take(old(self).proof_cache.proofs@.len() as int) =~= old(self).proof_cache.proofs@);
            }
        }
        assert(cache_put(old(self).proof_cache.proofs@, self.proof_cache.proofs@, e.cache_key@, proof_data@, created));
        let t = elapsed_ms(&start);
        self.record_generation_time(t);
        self.update_cache_stats(false, t);
        proof {
            let k = transaction_cache_key(*transaction);
            assert(no_live_entry(old(self).spec_proofs(), k, now));
            assert(cache_put(old(self).spec_proofs(), self.spec_proofs(), k, proof_data@, created));
            assert(metrics_after_generation(old(self).spec_metrics(), self.spec_metrics(), t));
        }
        Ok(proof_data)
    }

    /// Records a generation time.
    fn record_generation_time(&mut self, t: u64)
        requires
            old(self).well_formed(),
        ensures
            final(self).well_formed(),
            metrics_after_generation(old(self).performance_metrics, final(self).performance_metrics, t),
            final(self).proof_cache == old(self).proof_cache,
            final(self).batch_manager == old(self).batch_manager,
    {
        let mut m = PerformanceMetrics {
            proof_generation_times: Vec::new(),
            proof_verification_times: Vec::new(),
            avg_proof_generation_ms: 0,
            avg_proof_verification_ms: 0,
            memory_usage_mb: 0,
            cpu_usage_percent: 0,
            throughput_tps: 0,
        };
        std::mem::swap(&mut m, &mut self.performance_metrics);
        record_time(&mut m.proof_generation_times, &mut m.avg_proof_generation_ms, t as u128);
        std::mem::swap(&mut m, &mut self.performance_metrics);
    }

    /// Records a verification time.
    fn record_verification_time(&mut self, t: u64)
        requires
            old(self).well_formed(),
        ensures
            final(self).well_formed(),
            metrics_after_verification(old(self).performance_metrics, final(self).performance_metrics, t),
            final(self).proof_cache == old(self).proof_cache,
            final(self).batch_manager == old(self).batch_manager,
    {
        let mut m = PerformanceMetrics {
            proof_generation_times: Vec::new(),
            proof_verification_times: Vec::new(),
            avg_proof_generation_ms: 0,
            avg_proof_verification_ms: 0,
            memory_usage_mb: 0,
            cpu_usage_percent: 0,
            throughput_tps: 0,
        };
        std::mem::swap(&mut m, &mut self.performance_metrics);
        record_time(&mut m.proof_verification_times, &mut m.avg_proof_verification_ms, t as u128);
        std::mem::swap(&mut m, &mut self.performance_metrics);
    }
}

impl OptimizedPrivacySystem {
    /// Whether `proof_data` verifies: it does exactly when it is not empty.
    /// The time of verification is recorded.
    pub fn verify_optimized_proof(&mut self, proof_data: &[u8]) -> (res: Result<bool, PrivacyError>)
        requires
            old(self).well_formed(),
        ensures
            final(self).well_formed(),
            res == Ok::<bool, PrivacyError>(proof_data@.len() > 0),
            exists|t: u64| metrics_after_verification(old(self).spec_metrics(), final(self).spec_metrics(), t),
            final(self).spec_proofs() == old(self).spec_proofs(),
            final(self).spec_cache_stats() == old(self).spec_cache_stats(),
            final(self).spec_access_total() == old(self).spec_access_total(),
            final(self).spec_batch_stats() == old(self).spec_batch_stats(),
            final(self).spec_batch_time_total() == old(self).spec_batch_time_total(),
            final(self).spec_batch_items_total() == old(self).spec_batch_items_total(),
    {
        let start = instant_now();
        let verification_result = verify_proof_parallel(proof_data);
        let t = elapsed_ms(&start);
        self.record_verification_time(t);
        assert(metrics_after_verification(old(self).spec_metrics(), self.spec_metrics(), t));
        Ok(verification_result)
    }

    /// The proofs of a batch of transactions, in order. The batch is held
    /// as pending while it is processed and dropped once done; the batch
    /// statistics count a successful batch of that size and its processing
    /// time. Fails only where the clock stands before the Unix epoch,
    /// changing nothing.
    pub fn process_transaction_batch(&mut self, transactions: Vec<PrivateTransaction>) -> (res: Result<
        Vec<Vec<u8>>,
        PrivacyError,
    >)
        requires
            old(self).well_formed(),
            old(self).spec_batch_stats().total_batches < u64::MAX,
        ensures
            final(self).well_formed(),
            res is Err ==> res == Err::<Vec<Vec<u8>>, PrivacyError>(PrivacyError::ClockError) && *final(self)
                == *old(self),
            res matches Ok(r) ==> {
                let before = old(self).spec_batch_stats();
                let after = final(self).spec_batch_stats();
                &&& r@.len() == transactions@.len()
                &&& forall|i: int| 0 <= i < r@.len() ==> (#[trigger] r@[i])@ == transaction_proof(transactions@[i])
                &&& after.total_batches == before.total_batches + 1
                &&& after.successful_batches == before.successful_batches + 1
                &&& after.failed_batches == before.failed_batches
                &&& final(self).spec_batch_time_total() >= old(self).spec_batch_time_total()
                &&& final(self).spec_batch_items_total() == old(self).spec_batch_items_total()
                    + transactions@.len()
                &&& final(self).spec_proofs() == old(self).spec_proofs()
                &&& final(self).spec_cache_stats() == old(self).spec_cache_stats()
                &&& final(self).spec_access_total() == old(self).spec_access_total()
                &&& final(self).spec_metrics() == old(self).spec_metrics()
            },
    {
        let batch_id = match time_random_id() {
            Some(id) => id,
            None => return Err(PrivacyError::ClockError),
        };
        let start = instant_now();
        let created_at = match unix_time_secs() {
            Some(t) => t,
            None => return Err(PrivacyError::ClockError),
        };
        let ghost txs = transactions@;
        let batch = ProcessingBatch {
            batch_id,
            transactions,
            created_at,
            status: BatchStatus::Processing,
            priority: 1,
        };
        self.batch_manager.pending_batches.push(batch);
        let last = self.batch_manager.pending_batches.len() - 1;
        let mut results: Vec<Vec<u8>> = Vec::new();
        let mut i: usize = 0;
        {
            let pending = &self.batch_manager.pending_batches[last].transactions;
            assert(pending@ == txs);
            while i < pending.len()
                invariant
                    i <= pending@.len(),
                    pending@ == txs,
                    results@.len() == i,
                    forall|j: int| 0 <= j < i ==> (#[trigger] results@[j])@ == transaction_proof(txs[j]),
                decreases pending@.len() - i,
            {
                let p = process_single_transaction(&pending[i]);
                results.push(p);
                i = i + 1;
            }
        }
        self.batch_manager.pending_batches.pop();
        assert(self.batch_manager.pending_batches@.len() == 0);
        let t = elapsed_ms(&start);
        let size = results.len() as u64;
        self.update_batch_stats(t, size);
        Ok(results)
    }

    /// The performance metrics.
    pub fn get_performance_metrics(&self) -> (res: Result<PerformanceMetrics, PrivacyError>)
        requires
            self.well_formed(),
        ensures
            res matches Ok(m) && {
                &&& m.proof_generation_times@ == self.spec_metrics().proof_generation_times@
                &&& m.proof_verification_times@ == self.spec_metrics().proof_verification_times@
                &&& m.avg_proof_generation_ms == self.spec_metrics().avg_proof_generation_ms
                &&& m.avg_proof_verification_ms == self.spec_metrics().avg_proof_verification_ms
                &&& m.memory_usage_mb == self.spec_metrics().memory_usage_mb
                &&& m.cpu_usage_percent == self.spec_metrics().cpu_usage_percent
                &&& m.throughput_tps == self.spec_metrics().throughput_tps
                &&& metrics_consistent(m)
            },
    {
        let m = &self.performance_metrics;
        Ok(
            PerformanceMetrics {
                proof_generation_times: copy_list(&m.proof_generation_times),
                proof_verification_times: copy_list(&m.proof_verification_times),
                avg_proof_generation_ms: m.avg_proof_generation_ms,
                avg_proof_verification_ms: m.avg_proof_verification_ms,
                memory_usage_mb: m.memory_usage_mb,
                cpu_usage_percent: m.cpu_usage_percent,
                throughput_tps: m.throughput_tps,
            },
        )
    }

    /// The cache statistics; they agree with the summed request time.
    pub fn get_cache_stats(&self) -> (res: Result<CacheStats, PrivacyError>)
        requires
            self.well_formed(),
        ensures
            res == Ok::<CacheStats, PrivacyError>(self.spec_cache_stats()),
            cache_stats_consistent(self.spec_cache_stats(), self.spec_access_total()),
    {
        Ok(self.proof_cache.stats)
    }

    /// The batch statistics; they agree with the summed processing time
    /// and batch sizes.
    pub fn get_batch_stats(&self) -> (res: Result<BatchStats, PrivacyError>)
        requires
            self.well_formed(),
        ensures
            res == Ok::<BatchStats, PrivacyError>(self.spec_batch_stats()),
            batch_stats_consistent(
                self.spec_batch_stats(),
                self.spec_batch_time_total(),
                self.spec_batch_items_total(),
            ),
    {
        Ok(self.batch_manager.stats)
    }

    /// Drops the proofs that no longer live; where at least 10000 remain,
    /// drops the least used of them so that 9900 stay; and sets the hit
    /// rate from the hits and misses so far, where there were requests.
    /// Fails only where the clock stands before the Unix epoch, changing
    /// nothing.
    pub fn optimize_cache(&mut self) -> (res: Result<(), PrivacyError>)
        requires
            old(self).well_formed(),
        ensures
            final(self).well_formed(),
            res is Err ==> res == Err::<(), PrivacyError>(PrivacyError::ClockError) && *final(self) == *old(self),
            res is Ok ==> {
                let before = old(self).spec_cache_stats();
                let requests = before.hits + before.misses;
                &&& exists|now: u64|
                    evicted_least_used(
                        #[trigger] live_entries(old(self).spec_proofs(), now),
                        final(self).spec_proofs(),
                        max_cached_proofs(),
                    )
                &&& final(self).spec_cache_stats() == (CacheStats {
                    hit_rate_percent: if requests > 0 {
                        (before.hits * 100 / requests) as u64
                    } else {
                        before.hit_rate_percent
                    },
                    ..before
                })
                &&& final(self).spec_access_total() == old(self).spec_access_total()
                &&& final(self).spec_metrics() == old(self).spec_metrics()
                &&& final(self).spec_batch_stats() == old(self).spec_batch_stats()
                &&& final(self).spec_batch_time_total() == old(self).spec_batch_time_total()
                &&& final(self).spec_batch_items_total() == old(self).spec_batch_items_total()
            },
    {
        let now = match unix_time_secs() {
            Some(t) => t,
            None => return Err(PrivacyError::ClockError),
        };
        retain_live(&mut self.proof_cache.proofs, now);
        proof {
            lemma_live_entries(old(self).proof_cache.proofs@, now);
        }
        let ghost f = self.proof_cache.proofs@;
        if self.proof_cache.proofs.len() >= self.proof_cache.max_cache_size {
            let to_remove = self.proof_cache.proofs.len() - self.proof_cache.max_cache_size + 100;
            evict_least_used(&mut self.proof_cache.proofs, to_remove);
        }
        assert(evicted_least_used(f, self.proof_cache.proofs@, max_cached_proofs()));
        let hits = self.proof_cache.stats.hits;
        let total: u128 = hits as u128 + self.proof_cache.stats.misses as u128;
        if total > 0 {
            let rate: u128 = (hits as u128 * 100) / total;
            assert((hits as int * 100) / (total as int) <= 100) by (nonlinear_arith)
                requires
                    hits <= total,
                    total > 0,
            ;
            self.proof_cache.stats.hit_rate_percent = rate as u64;
        }
        assert(evicted_least_used(live_entries(old(self).spec_proofs(), now), self.spec_proofs(), max_cached_proofs()));
        Ok(())
    }
}

/// What a request that missed put into the cache is found again: at any
/// time before the new entry expires, the cache has a living entry under
/// the key, and every living entry under the key holds the proof that was
/// put there. So a repeated request within the hour is answered from the
/// cache with the same bytes.
pub proof fn lemma_cached_proof_found(
    old: Seq<CachedProof>,
    new: Seq<CachedProof>,
    k: Seq<char>,
    d: Seq<u8>,
    created: u64,
    now: u64,
)
    requires
        cache_put(old, new, k, d, created),
        keys_distinct(new),
        now < add_saturating(created, proof_lifetime_secs()),
    ensures
        exists|i: int| live_entry(new, k, now, i),
        forall|i: int| live_entry(new, k, now, i) ==> new[i].proof_data@ == d,
{
    if cache_has_key(old, k) {
        let i = choose|i: int| {
            &&& 0 <= i < old.len()
            &&& old[i].cache_key@ == k
            &&& fresh_entry(new[i], k, d, created)
            &&& forall|j: int| 0 <= j < old.len() && j != i ==> new[j] == old[j]
        };
        assert(live_entry(new, k, now, i));
    } else {
        let i = old.len() as int;
        assert(live_entry(new, k, now, i));
    }
}

impl OptimizedPrivacySystem {
    /// The keys of a well-formed system's cache occur once.
    pub proof fn lemma_keys_distinct(&self)
        requires
            self.well_formed(),
        ensures
            keys_distinct(self.spec_proofs()),
    {
    }
}

} // verus!
