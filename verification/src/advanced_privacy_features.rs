//! Advanced privacy features: a mixing pool that mixes its transactions
//! into an anonymity set once enough have gathered, with a zero-knowledge
//! mixing proof; anonymity sets that expire; privacy proofs; and privacy
//! governance that checks transactions against the default policy. The
//! averaged ratios of the metrics are not kept here.
use vstd::prelude::*;
use vstd::string::*;
use crate::crypto::unix_time_secs;
use crate::error::PrivacyError;
use crate::placeholder_tracking::report_id_spec;
use crate::privacy_monitoring::time_random_id;
use crate::production_stark_proofs::{pair_fri, proof_verifies, ProductionStarkProof, ProductionStarkProofSystem, ProofMetadata};
use crate::text::{owned, str_equal};

verus! {

/// The parts of a private transaction that mixing and governance read:
/// its hash, its amount commitment and its encrypted sender, recipient
/// and timestamp.
pub struct PrivateTransaction {
    /// Transaction hash.
    pub hash: String,
    /// Amount commitment.
    pub amount_commitment: Vec<u8>,
    /// Ciphertext of the sender's address.
    pub encrypted_sender: Vec<u8>,
    /// Ciphertext of the recipient's address.
    pub encrypted_recipient: Vec<u8>,
    /// Ciphertext of the timestamp.
    pub encrypted_timestamp: Vec<u8>,
}

/// The advanced privacy features.
pub struct AdvancedPrivacyFeatures {
    mixing_pool: MixingPool,
    anonymity_manager: AnonymityManager,
    zk_proof_system: ProductionStarkProofSystem,
    privacy_metrics: PrivacyMetrics,
}

/// The mixing pool.
pub struct MixingPool {
    transactions: Vec<PrivateTransaction>,
    max_pool_size: usize,
    mixing_threshold: usize,
    created_at: u64,
}

/// The anonymity sets made so far.
pub struct AnonymityManager {
    anonymity_sets: Vec<(String, AnonymitySet)>,
    min_set_size: usize,
    set_expiration: u64,
}

/// An anonymity set: the transactions mixed together.
pub struct AnonymitySet {
    /// Set identifier.
    pub set_id: String,
    /// Hashes of the transactions.
    pub transactions: Vec<String>,
    /// Creation time, seconds since the Unix epoch.
    pub created_at: u64,
    /// Expiry time, seconds since the Unix epoch.
    pub expires_at: u64,
    /// Number of transactions.
    pub size: usize,
    /// Mixing round.
    pub mixing_round: u32,
}

/// Privacy metrics.
#[derive(Debug, Clone, Copy, PartialEq, Eq, Structural)]
pub struct PrivacyMetrics {
    /// Transactions added to the pool.
    pub total_transactions: u64,
    /// Transactions mixed.
    pub mixed_transactions: u64,
    /// Mean size of the anonymity sets, rounded down, as of the last
    /// transaction added while there were sets.
    pub avg_anonymity_set_size: u64,
    /// Privacy level, 0 to 100.
    pub privacy_level: u8,
    /// Mixed transactions over counted transactions in whole percent,
    /// rounded down, as of the last mixing; a mixing is counted before the
    /// transaction that set it off, so this can pass 100.
    pub mixing_efficiency_percent: u64,
}

/// A mixing proof.
pub struct MixingProof {
    /// Proof data.
    pub proof_data: Vec<u8>,
    /// Public inputs.
    pub public_inputs: Vec<u8>,
    /// Mixing round.
    pub mixing_round: u32,
    /// Size of the anonymity set.
    pub anonymity_set_size: usize,
    /// Metadata.
    pub metadata: MixingProofMetadata,
}

/// Metadata of a mixing proof.
pub struct MixingProofMetadata {
    /// Time, seconds since the Unix epoch.
    pub timestamp: u64,
    /// Version.
    pub version: u8,
    /// Security level in bits.
    pub security_level: u32,
    /// Mixing algorithm.
    pub mixing_algorithm: String,
}

/// A zero-knowledge privacy proof.
pub struct ZeroKnowledgePrivacyProof {
    /// Proof data.
    pub proof_data: Vec<u8>,
    /// Public inputs.
    pub public_inputs: Vec<u8>,
    /// Proof type.
    pub proof_type: String,
    /// Guarantees.
    pub privacy_guarantees: PrivacyGuarantees,
}

/// Privacy guarantees, 0 to 100 each.
#[derive(Debug, Clone, Copy, PartialEq, Eq, Structural)]
pub struct PrivacyGuarantees {
    /// Amount privacy.
    pub amount_privacy: u8,
    /// Address privacy.
    pub address_privacy: u8,
    /// Timing privacy.
    pub timing_privacy: u8,
    /// Anonymity level.
    pub anonymity_level: u8,
}

/// Privacy governance.
pub struct PrivacyGovernance {
    policies: Vec<(String, PrivacyPolicy)>,
    compliance_tracker: ComplianceTracker,
}

/// A privacy policy.
pub struct PrivacyPolicy {
    /// Policy identifier.
    pub policy_id: String,
    /// Policy name.
    pub policy_name: String,
    /// Least privacy level.
    pub min_privacy_level: u8,
    /// Least anonymity set.
    pub min_anonymity_set_size: usize,
    /// Rules.
    pub enforcement_rules: Vec<EnforcementRule>,
}

/// An enforcement rule.
pub struct EnforcementRule {
    /// Rule identifier.
    pub rule_id: String,
    /// Description.
    pub description: String,
    /// Rule type.
    pub rule_type: String,
    /// Parameters.
    pub parameters: Vec<(String, String)>,
}

/// Compliance counts.
#[derive(Debug, Clone, Copy, PartialEq, Eq, Structural)]
pub struct ComplianceTracker {
    /// Transactions checked.
    pub total_checked: u64,
    /// Compliant ones.
    pub compliant_transactions: u64,
    /// Non-compliant ones.
    pub non_compliant_transactions: u64,
}

/// The anonymity level of a set of `n` transactions: 20 below 5, 40 below
/// 10, 60 below 20, 80 below 50, 90 below 100, else 100.
pub open spec fn anonymity_level(n: int) -> u8 {
    if n <= 4 {
        20
    } else if n <= 9 {
        40
    } else if n <= 19 {
        60
    } else if n <= 49 {
        80
    } else if n <= 99 {
        90
    } else {
        100
    }
}

/// Larger sets are at least as anonymous, and every level lies between 20
/// and 100.
pub proof fn lemma_anonymity_level_monotone(a: int, b: int)
    requires
        a <= b,
    ensures
        anonymity_level(a) <= anonymity_level(b),
        20 <= anonymity_level(a) <= 100,
{
}

/// The mixing efficiency after a mixing: mixed over counted
/// transactions in whole percent, rounded down; unchanged where nothing
/// was counted yet.
pub open spec fn mixing_efficiency(mixed: u64, total: u64, before: u64) -> u64 {
    if total > 0 {
        (mixed * 100 / (total as int)) as u64
    } else {
        before
    }
}

/// The summed sizes of the anonymity sets.
pub open spec fn set_size_total(sets: Seq<(String, AnonymitySet)>) -> nat
    decreases sets.len(),
{
    if sets.len() == 0 {
        0
    } else {
        set_size_total(sets.drop_last()) + sets.last().1.size as nat
    }
}

/// The mean anonymity set size, rounded down; unchanged where there are no
/// sets.
pub open spec fn avg_set_size_after(sets: Seq<(String, AnonymitySet)>, before: u64) -> u64 {
    if sets.len() > 0 {
        (set_size_total(sets) / sets.len()) as u64
    } else {
        before
    }
}

/// A transaction keeps its privacy: its amount commitment and its sender,
/// recipient and timestamp ciphertexts are present.
pub open spec fn transaction_private(tx: PrivateTransaction) -> bool {
    &&& tx.amount_commitment@.len() > 0
    &&& tx.encrypted_sender@.len() > 0
    &&& tx.encrypted_recipient@.len() > 0
    &&& tx.encrypted_timestamp@.len() > 0
}

/// The hashes of a list of transactions.
pub open spec fn tx_hashes(txs: Seq<PrivateTransaction>) -> Seq<Seq<char>> {
    txs.map_values(|t: PrivateTransaction| t.hash@)
}

/// The character views of a list of strings.
pub open spec fn string_list(v: Seq<String>) -> Seq<Seq<char>> {
    v.map_values(|s: String| s@)
}

impl AdvancedPrivacyFeatures {
    /// A pool of at most 1000 transactions that mixes at 10, sets of at
    /// least 5 that expire after an hour, and the stated metrics invariant.
    pub closed spec fn well_formed(&self) -> bool {
        &&& self.config_ok()
        &&& self.mixing_pool.transactions@.len() <= 1000
    }

    /// The fixed configuration: a pool of at most 1000 transactions that
    /// mixes at 10, sets of at least 5 that expire after an hour, fewer
    /// sets than rounds can count, privacy level 100.
    pub closed spec fn config_ok(&self) -> bool {
        &&& self.mixing_pool.max_pool_size == 1000
        &&& self.mixing_pool.mixing_threshold == 10
        &&& self.anonymity_manager.min_set_size == 5
        &&& self.anonymity_manager.set_expiration == 3600
        &&& self.anonymity_manager.anonymity_sets@.len() < u32::MAX
        &&& self.privacy_metrics.privacy_level == 100
    }

    /// The transactions waiting in the pool.
    pub closed spec fn spec_pool(&self) -> Seq<PrivateTransaction> {
        self.mixing_pool.transactions@
    }

    /// The anonymity sets, by identifier.
    pub closed spec fn spec_sets(&self) -> Seq<(String, AnonymitySet)> {
        self.anonymity_manager.anonymity_sets@
    }

    /// The privacy metrics.
    pub closed spec fn spec_metrics(&self) -> PrivacyMetrics {
        self.privacy_metrics
    }

    /// Features with an empty pool, no anonymity sets and metrics at
    /// privacy level 100; a clock before the Unix epoch is reported.
    pub fn new() -> (res: Result<Self, PrivacyError>)
        ensures
            res is Ok || res == Err::<Self, PrivacyError>(PrivacyError::ClockError),
            res matches Ok(f) ==> {
                &&& f.well_formed()
                &&& f.spec_pool().len() == 0
                &&& f.spec_sets().len() == 0
                &&& f.spec_metrics() == (PrivacyMetrics {
                    total_transactions: 0,
                    mixed_transactions: 0,
                    avg_anonymity_set_size: 0,
                    privacy_level: 100,
                    mixing_efficiency_percent: 0,
                })
            },
    {
        let created_at = match unix_time_secs() {
            Some(t) => t,
            None => return Err(PrivacyError::ClockError),
        };
        let zk_proof_system = match ProductionStarkProofSystem::new() {
            Ok(s) => s,
            Err(e) => return Err(e),
        };
        Ok(AdvancedPrivacyFeatures {
            mixing_pool: MixingPool {
                transactions: Vec::new(),
                max_pool_size: 1000,
                mixing_threshold: 10,
                created_at,
            },
            anonymity_manager: AnonymityManager {
                anonymity_sets: Vec::new(),
                min_set_size: 5,
                set_expiration: 3600,
            },
            zk_proof_system,
            privacy_metrics: PrivacyMetrics {
                total_transactions: 0,
                mixed_transactions: 0,
                avg_anonymity_set_size: 0,
                privacy_level: 100,
                mixing_efficiency_percent: 0,
            },
        })
    }

    /// Adds a transaction to the pool and answers its hash. A full pool
    /// (1000 transactions) refuses it. When the pool reaches 10
    /// transactions they are mixed into a new anonymity set and the pool
    /// empties; the transaction is counted. A clock before the Unix epoch,
    /// met while mixing, is reported, and the transaction stays in the
    /// pool.
    pub fn add_to_mixing_pool(&mut self, transaction: PrivateTransaction) -> (res: Result<String, PrivacyError>)
        requires
            old(self).well_formed(),
            old(self).spec_sets().len() + 1 < u32::MAX,
            old(self).spec_metrics().total_transactions < u64::MAX,
            old(self).spec_metrics().mixed_transactions + 1000 <= u64::MAX,
        ensures
            final(self).well_formed(),
            old(self).spec_pool().len() >= 1000 ==> res == Err::<String, PrivacyError>(PrivacyError::MixingPoolFull)
                && *final(self) == *old(self),
            old(self).spec_pool().len() < 1000 ==> res is Ok || res == Err::<String, PrivacyError>(
                PrivacyError::ClockError,
            ),
            res matches Ok(h) ==> h@ == transaction.hash@,
            res is Ok && old(self).spec_pool().len() + 1 < 10 ==> {
                &&& tx_hashes(final(self).spec_pool()) == tx_hashes(old(self).spec_pool()).push(transaction.hash@)
                &&& final(self).spec_sets() == old(self).spec_sets()
                &&& final(self).spec_metrics().mixed_transactions == old(self).spec_metrics().mixed_transactions
            },
            res is Ok && old(self).spec_pool().len() + 1 >= 10 ==> {
                &&& final(self).spec_pool().len() == 0
                &&& final(self).spec_sets().len() >= old(self).spec_sets().len()
                &&& exists|s: AnonymitySet|
                    {
                        &&& #[trigger] stores_set(old(self).spec_sets(), final(self).spec_sets(), s)
                        &&& string_list(s.transactions@) == tx_hashes(old(self).spec_pool()).push(transaction.hash@)
                        &&& s.size == old(self).spec_pool().len() + 1
                        &&& s.mixing_round == old(self).spec_sets().len() + 1
                    }
                &&& final(self).spec_metrics().mixed_transactions == old(self).spec_metrics().mixed_transactions
                    + old(self).spec_pool().len() + 1
            },
            res is Ok ==> final(self).spec_metrics().total_transactions == old(self).spec_metrics().total_transactions
                + 1,
            res is Ok ==> final(self).spec_metrics().avg_anonymity_set_size == avg_set_size_after(
                final(self).spec_sets(),
                old(self).spec_metrics().avg_anonymity_set_size,
            ),
            res is Ok && old(self).spec_pool().len() + 1 < 10 ==> final(self).spec_metrics().mixing_efficiency_percent
                == old(self).spec_metrics().mixing_efficiency_percent,
            res is Ok && old(self).spec_pool().len() + 1 >= 10 ==> final(self).spec_metrics().mixing_efficiency_percent
                == mixing_efficiency(
                final(self).spec_metrics().mixed_transactions,
                old(self).spec_metrics().total_transactions,
                old(self).spec_metrics().mixing_efficiency_percent,
            ),
    {
        if self.mixing_pool.transactions.len() >= self.mixing_pool.max_pool_size {
            return Err(PrivacyError::MixingPoolFull);
        }
        let hash = transaction.hash.clone();
        let ghost before = self.mixing_pool.transactions@;
        self.mixing_pool.transactions.push(transaction);
        proof {
            assert(tx_hashes(self.mixing_pool.transactions@) =~= tx_hashes(before).push(hash@));
        }
        if self.mixing_pool.transactions.len() >= self.mixing_pool.mixing_threshold {
            match self.trigger_mixing() {
                Ok(_) => {},
                Err(e) => return Err(e),
            }
        }
        self.privacy_metrics.total_transactions = self.privacy_metrics.total_transactions + 1;
        self.update_privacy_metrics();
        Ok(hash)
    }

    /// Mixes the waiting transactions: refused with fewer than 10;
    /// otherwise an anonymity set of their hashes, at the next mixing
    /// round and expiring in an hour, is stored, a zero-knowledge proof
    /// over the set's size is made, the pool empties and the transactions
    /// count as mixed. A clock before the Unix epoch is reported.
    pub fn trigger_mixing(&mut self) -> (res: Result<MixingProof, PrivacyError>)
        requires
            old(self).config_ok(),
            old(self).spec_pool().len() <= 1000,
            old(self).spec_sets().len() + 1 < u32::MAX,
            old(self).spec_metrics().mixed_transactions + 1000 <= u64::MAX,
        ensures
            res matches Err(e) ==> (e == PrivacyError::NotEnoughTransactionsForMixing && old(self).spec_pool().len()
                < 10) || e == PrivacyError::ClockError,
            old(self).spec_pool().len() < 10 ==> res == Err::<MixingProof, PrivacyError>(
                PrivacyError::NotEnoughTransactionsForMixing,
            ) && *final(self) == *old(self),
            res is Err ==> final(self).spec_pool() == old(self).spec_pool()
                && final(self).spec_metrics() == old(self).spec_metrics(),
            final(self).config_ok(),
            final(self).spec_sets().len() <= old(self).spec_sets().len() + 1,
            final(self).spec_sets().len() >= old(self).spec_sets().len(),
            final(self).spec_pool().len() <= old(self).spec_pool().len(),
            res is Ok ==> exists|s: AnonymitySet|
                {
                    &&& #[trigger] stores_set(old(self).spec_sets(), final(self).spec_sets(), s)
                    &&& string_list(s.transactions@) == tx_hashes(old(self).spec_pool())
                    &&& s.size == old(self).spec_pool().len()
                    &&& s.mixing_round == old(self).spec_sets().len() + 1
                },
            res matches Ok(p) ==> {
                &&& final(self).spec_pool().len() == 0
                &&& final(self).spec_metrics().mixed_transactions == old(self).spec_metrics().mixed_transactions
                    + old(self).spec_pool().len()
                &&& final(self).spec_metrics().total_transactions == old(self).spec_metrics().total_transactions
                &&& final(self).spec_metrics().mixing_efficiency_percent == mixing_efficiency(
                    final(self).spec_metrics().mixed_transactions,
                    old(self).spec_metrics().total_transactions,
                    old(self).spec_metrics().mixing_efficiency_percent,
                )
                &&& final(self).spec_metrics().avg_anonymity_set_size == old(self).spec_metrics().avg_anonymity_set_size
                &&& p.anonymity_set_size == old(self).spec_pool().len()
                &&& p.mixing_round == old(self).spec_sets().len() + 1
                &&& p.proof_data@ == pair_fri(p.anonymity_set_size as u64, (2 * p.anonymity_set_size) as u64)
                &&& p.metadata.version == 1
                &&& p.metadata.security_level == 128
                &&& p.metadata.mixing_algorithm@ == "zkSTARK_mixing"@
                &&& exists|i: int| 0 <= i < final(self).spec_sets().len()
                    && string_list((#[trigger] final(self).spec_sets()[i]).1.transactions@) == tx_hashes(old(self).spec_pool())
                    && final(self).spec_sets()[i].1.size == p.anonymity_set_size
            },
    {
        if self.mixing_pool.transactions.len() < self.mixing_pool.mixing_threshold {
            return Err(PrivacyError::NotEnoughTransactionsForMixing);
        }
        let anonymity_set = match self.create_anonymity_set() {
            Ok(s) => s,
            Err(e) => return Err(e),
        };
        let size = anonymity_set.size;
        let round = anonymity_set.mixing_round;
        let ghost set_hashes = string_list(anonymity_set.transactions@);
        let mixing_proof = match self.generate_mixing_proof(&anonymity_set) {
            Ok(p) => p,
            Err(e) => return Err(e),
        };
        let ghost sets_before = self.anonymity_manager.anonymity_sets@;
        let ghost stored = anonymity_set;
        put_anonymity_set(&mut self.anonymity_manager.anonymity_sets, anonymity_set);
        assert(stores_set(sets_before, self.anonymity_manager.anonymity_sets@, stored));
        self.mixing_pool.transactions.clear();
        self.update_mixing_metrics(size as u64);
        Ok(mixing_proof)
    }

    /// Counts `mixed_count` mixed transactions and sets the mixing
    /// efficiency from the counters, where transactions were counted.
    fn update_mixing_metrics(&mut self, mixed_count: u64)
        requires
            old(self).privacy_metrics.mixed_transactions + mixed_count <= u64::MAX,
        ensures
            final(self).privacy_metrics == (PrivacyMetrics {
                mixed_transactions: (old(self).privacy_metrics.mixed_transactions + mixed_count) as u64,
                mixing_efficiency_percent: mixing_efficiency(
                    (old(self).privacy_metrics.mixed_transactions + mixed_count) as u64,
                    old(self).privacy_metrics.total_transactions,
                    old(self).privacy_metrics.mixing_efficiency_percent,
                ),
                ..old(self).privacy_metrics
            }),
            final(self).mixing_pool == old(self).mixing_pool,
            final(self).anonymity_manager == old(self).anonymity_manager,
    {
        self.privacy_metrics.mixed_transactions = self.privacy_metrics.mixed_transactions + mixed_count;
        let total = self.privacy_metrics.total_transactions;
        if total > 0 {
            let mixed = self.privacy_metrics.mixed_transactions as u128;
            self.privacy_metrics.mixing_efficiency_percent = ((mixed * 100) / (total as u128)) as u64;
        }
    }

    /// Sets the mean anonymity set size from the sets, where there are any.
    fn update_privacy_metrics(&mut self)
        ensures
            final(self).privacy_metrics == (PrivacyMetrics {
                avg_anonymity_set_size: avg_set_size_after(
                    old(self).anonymity_manager.anonymity_sets@,
                    old(self).privacy_metrics.avg_anonymity_set_size,
                ),
                ..old(self).privacy_metrics
            }),
            final(self).mixing_pool == old(self).mixing_pool,
            final(self).anonymity_manager == old(self).anonymity_manager,
    {
        let sets = &self.anonymity_manager.anonymity_sets;
        if sets.len() == 0 {
            return;
        }
        let mut total: u128 = 0;
        let mut i: usize = 0;
        while i < sets.len()
            invariant
                i <= sets@.len(),
                total == set_size_total(sets@.take(i as int)),
                total <= i * (usize::MAX as nat),
            decreases sets@.len() - i,
        {
            proof {
                assert(sets@.take(i + 1).drop_last() =~= sets@.take(i as int));
            }
            total = total + sets[i].1.size as u128;
            i = i + 1;
        }
        proof {
            assert(sets@.take(sets@.len() as int) =~= sets@);
            let n = sets@.len();
            assert(total as nat / n <= usize::MAX) by (nonlinear_arith)
                requires
                    n > 0,
                    total <= n * (usize::MAX as nat),
            ;
        }
        self.privacy_metrics.avg_anonymity_set_size = (total / (sets.len() as u128)) as u64;
    }

    /// An anonymity set of the pool's transactions at the current time.
    fn create_anonymity_set(&self) -> (res: Result<AnonymitySet, PrivacyError>)
        requires
            self.anonymity_manager.anonymity_sets@.len() < u32::MAX,
            self.anonymity_manager.set_expiration == 3600,
        ensures
            res matches Err(e) ==> e == PrivacyError::ClockError,
            res matches Ok(s) ==> {
                &&& string_list(s.transactions@) == tx_hashes(self.mixing_pool.transactions@)
                &&& s.size == self.mixing_pool.transactions@.len()
                &&& s.mixing_round == self.anonymity_manager.anonymity_sets@.len() + 1
                &&& s.expires_at == if s.created_at + 3600 <= u64::MAX {
                    (s.created_at + 3600) as u64
                } else {
                    u64::MAX
                }
                &&& exists|t: u64, n: u64| s.set_id@ == #[trigger] report_id_spec(t, n)
            },
    {
        let set_id = match time_random_id() {
            Some(id) => id,
            None => return Err(PrivacyError::ClockError),
        };
        let mut transaction_hashes: Vec<String> = Vec::new();
        let mut i: usize = 0;
        while i < self.mixing_pool.transactions.len()
            invariant
                i <= self.mixing_pool.transactions@.len(),
                string_list(transaction_hashes@) == tx_hashes(self.mixing_pool.transactions@).take(i as int),
            decreases self.mixing_pool.transactions@.len() - i,
        {
            let h = self.mixing_pool.transactions[i].hash.clone();
            let ghost before = transaction_hashes@;
            transaction_hashes.push(h);
            assert(string_list(transaction_hashes@) =~= string_list(before).push(h@));
            i = i + 1;
            assert(string_list(transaction_hashes@) =~= tx_hashes(self.mixing_pool.transactions@).take(i as int));
        }
        assert(tx_hashes(self.mixing_pool.transactions@).take(self.mixing_pool.transactions@.len() as int) =~= tx_hashes(
            self.mixing_pool.transactions@,
        ));
        let now = match unix_time_secs() {
            Some(t) => t,
            None => return Err(PrivacyError::ClockError),
        };
        Ok(AnonymitySet {
            set_id,
            transactions: transaction_hashes,
            created_at: now,
            expires_at: now.saturating_add(self.anonymity_manager.set_expiration),
            size: self.mixing_pool.transactions.len(),
            mixing_round: self.get_next_mixing_round(),
        })
    }

    /// The mixing proof of a set: its zero-knowledge proof, round and
    /// size, at the current time.
    fn generate_mixing_proof(&self, anonymity_set: &AnonymitySet) -> (res: Result<MixingProof, PrivacyError>)
        requires
            anonymity_set.size <= 1000,
        ensures
            res matches Err(e) ==> e == PrivacyError::ClockError,
            res matches Ok(p) ==> {
                &&& p.proof_data@ == pair_fri(anonymity_set.size as u64, (2 * anonymity_set.size) as u64)
                &&& p.mixing_round == anonymity_set.mixing_round
                &&& p.anonymity_set_size == anonymity_set.size
                &&& p.metadata.version == 1
                &&& p.metadata.security_level == 128
                &&& p.metadata.mixing_algorithm@ == "zkSTARK_mixing"@
            },
    {
        let zk_proof = match self.generate_zero_knowledge_mixing_proof(anonymity_set) {
            Ok(p) => p,
            Err(e) => return Err(e),
        };
        let now = match unix_time_secs() {
            Some(t) => t,
            None => return Err(PrivacyError::ClockError),
        };
        Ok(MixingProof {
            proof_data: zk_proof.proof_data,
            public_inputs: zk_proof.public_inputs,
            mixing_round: anonymity_set.mixing_round,
            anonymity_set_size: anonymity_set.size,
            metadata: MixingProofMetadata {
                timestamp: now,
                version: 1,
                security_level: 128,
                mixing_algorithm: owned("zkSTARK_mixing"),
            },
        })
    }

    /// The zero-knowledge proof of a mixing: a transaction privacy proof
    /// over the set's size against twice the size, with full amount,
    /// address and timing privacy and the anonymity level of the size.
    fn generate_zero_knowledge_mixing_proof(&self, anonymity_set: &AnonymitySet) -> (res: Result<
        ZeroKnowledgePrivacyProof,
        PrivacyError,
    >)
        requires
            anonymity_set.size <= 1000,
        ensures
            res matches Err(e) ==> e == PrivacyError::ClockError,
            res matches Ok(p) ==> {
                &&& p.proof_data@ == pair_fri(anonymity_set.size as u64, (2 * anonymity_set.size) as u64)
                &&& proof_verifies(p.proof_data@, p.public_inputs@)
                &&& p.proof_type@ == "zero_knowledge_mixing"@
                &&& p.privacy_guarantees == (PrivacyGuarantees {
                    amount_privacy: 100,
                    address_privacy: 100,
                    timing_privacy: 100,
                    anonymity_level: anonymity_level(anonymity_set.size as int),
                })
            },
    {
        let size = anonymity_set.size as u64;
        let stark_proof = match self.zk_proof_system.prove_transaction_privacy(size, size * 2) {
            Ok(p) => p,
            Err(e) => return Err(e),
        };
        Ok(ZeroKnowledgePrivacyProof {
            proof_data: stark_proof.fri_proof,
            public_inputs: stark_proof.public_inputs,
            proof_type: owned("zero_knowledge_mixing"),
            privacy_guarantees: PrivacyGuarantees {
                amount_privacy: 100,
                address_privacy: 100,
                timing_privacy: 100,
                anonymity_level: calculate_anonymity_level(anonymity_set.size),
            },
        })
    }

    /// A privacy proof for a transaction: a transaction privacy proof of
    /// amount 1000 against balance 5000 with full guarantees. A clock
    /// before the Unix epoch is reported.
    pub fn generate_privacy_proof(&self, transaction: &PrivateTransaction) -> (res: Result<
        ZeroKnowledgePrivacyProof,
        PrivacyError,
    >)
        ensures
            res matches Err(e) ==> e == PrivacyError::ClockError,
            res matches Ok(p) ==> {
                &&& p.proof_data@ == pair_fri(1000, 5000)
                &&& proof_verifies(p.proof_data@, p.public_inputs@)
                &&& p.proof_type@ == "transaction_privacy"@
                &&& p.privacy_guarantees == (PrivacyGuarantees {
                    amount_privacy: 100,
                    address_privacy: 100,
                    timing_privacy: 100,
                    anonymity_level: 100,
                })
            },
    {
        let stark_proof = match self.zk_proof_system.prove_transaction_privacy(1000, 5000) {
            Ok(p) => p,
            Err(e) => return Err(e),
        };
        Ok(ZeroKnowledgePrivacyProof {
            proof_data: stark_proof.fri_proof,
            public_inputs: stark_proof.public_inputs,
            proof_type: owned("transaction_privacy"),
            privacy_guarantees: PrivacyGuarantees {
                amount_privacy: 100,
                address_privacy: 100,
                timing_privacy: 100,
                anonymity_level: 100,
            },
        })
    }

    /// Verifies a mixing proof as a transaction privacy proof of its data
    /// and public inputs.
    pub fn verify_mixing_proof(&self, proof: &MixingProof) -> (res: Result<bool, PrivacyError>)
        ensures
            res == Ok::<bool, PrivacyError>(proof_verifies(proof.proof_data@, proof.public_inputs@)),
    {
        let stark_proof = ProductionStarkProof {
            fri_proof: proof.proof_data.clone(),
            public_inputs: proof.public_inputs.clone(),
            proof_type: owned("zero_knowledge_mixing"),
            security_level: 128,
            metadata: ProofMetadata {
                timestamp: proof.metadata.timestamp,
                version: proof.metadata.version,
                field_size: u64::MAX,
                constraint_count: 3,
            },
        };
        self.zk_proof_system.verify_proof(&stark_proof)
    }

    /// The privacy metrics.
    pub fn get_privacy_metrics(&self) -> (res: Result<PrivacyMetrics, PrivacyError>)
        ensures
            res == Ok::<PrivacyMetrics, PrivacyError>(self.spec_metrics()),
    {
        Ok(self.privacy_metrics)
    }

    /// The anonymity sets, in the order they were made.
    pub fn get_anonymity_sets(&self) -> (res: Result<Vec<AnonymitySet>, PrivacyError>)
        ensures
            res matches Ok(v) && v@.len() == self.spec_sets().len() && forall|i: int|
                0 <= i < v@.len() ==> same_set(#[trigger] v@[i], self.spec_sets()[i].1),
    {
        let mut res: Vec<AnonymitySet> = Vec::new();
        let mut i: usize = 0;
        while i < self.anonymity_manager.anonymity_sets.len()
            invariant
                i <= self.anonymity_manager.anonymity_sets@.len(),
                res@.len() == i,
                forall|j: int| 0 <= j < i ==> same_set(#[trigger] res@[j], self.anonymity_manager.anonymity_sets@[j].1),
            decreases self.anonymity_manager.anonymity_sets@.len() - i,
        {
            res.push(copy_set(&self.anonymity_manager.anonymity_sets[i].1));
            i = i + 1;
        }
        Ok(res)
    }

    /// Drops the anonymity sets that expired before now, keeping the others
    /// in order, and answers how many were dropped. A clock before the
    /// Unix epoch is reported.
    pub fn cleanup_expired_sets(&mut self) -> (res: Result<usize, PrivacyError>)
        requires
            old(self).well_formed(),
        ensures
            final(self).well_formed(),
            res matches Err(e) ==> e == PrivacyError::ClockError && *final(self) == *old(self),
            res matches Ok(n) ==> n + final(self).spec_sets().len() == old(self).spec_sets().len(),
            res is Ok ==> exists|now: u64| final(self).spec_sets() == #[trigger] unexpired(old(self).spec_sets(), now),
            final(self).spec_pool() == old(self).spec_pool(),
            final(self).spec_metrics() == old(self).spec_metrics(),
    {
        let now = match unix_time_secs() {
            Some(t) => t,
            None => return Err(PrivacyError::ClockError),
        };
        let mut kept: Vec<(String, AnonymitySet)> = Vec::new();
        let mut old_sets: Vec<(String, AnonymitySet)> = Vec::new();
        std::mem::swap(&mut old_sets, &mut self.anonymity_manager.anonymity_sets);
        let ghost original = old_sets@;
        let mut i: usize = 0;
        while old_sets.len() > 0
            invariant
                i + old_sets@.len() == original.len(),
                old_sets@ == original.subrange(i as int, original.len() as int),
                kept@ == unexpired(original.take(i as int), now),
                kept@.len() <= i,
                original.len() < u32::MAX,
            decreases old_sets@.len(),
        {
            let entry = old_sets.remove(0);
            let ghost e = entry;
            let ghost prev = kept@;
            if entry.1.expires_at >= now {
                kept.push(entry);
            }
            proof {
                let s = original.take(i as int + 1);
                assert(e == original[i as int]);
                assert(s =~= original.take(i as int).push(e));
                original.take(i as int).lemma_filter_push(e, unexpired_at(now));
                assert(unexpired(s, now) == if e.1.expires_at >= now {
                    prev.push(e)
                } else {
                    prev
                });
            }
            i = i + 1;
        }
        proof {
            assert(original.take(original.len() as int) =~= original);
        }
        let removed = i - kept.len();
        self.anonymity_manager.anonymity_sets = kept;
        assert(self.spec_sets() == unexpired(old(self).spec_sets(), now));
        Ok(removed)
    }

    /// The next mixing round: one more than the sets made.
    fn get_next_mixing_round(&self) -> (res: u32)
        requires
            self.anonymity_manager.anonymity_sets@.len() < u32::MAX,
        ensures
            res == self.anonymity_manager.anonymity_sets@.len() + 1,
    {
        (self.anonymity_manager.anonymity_sets.len() + 1) as u32
    }
}

/// The sets that have not expired at `now`, in order.
pub open spec fn unexpired(sets: Seq<(String, AnonymitySet)>, now: u64) -> Seq<(String, AnonymitySet)> {
    sets.filter(unexpired_at(now))
}

/// Whether a set has not expired at `now`.
pub open spec fn unexpired_at(now: u64) -> spec_fn((String, AnonymitySet)) -> bool {
    |e: (String, AnonymitySet)| e.1.expires_at >= now
}

/// Two anonymity sets with the same contents.
pub open spec fn same_set(a: AnonymitySet, b: AnonymitySet) -> bool {
    &&& a.set_id@ == b.set_id@
    &&& string_list(a.transactions@) == string_list(b.transactions@)
    &&& a.created_at == b.created_at
    &&& a.expires_at == b.expires_at
    &&& a.size == b.size
    &&& a.mixing_round == b.mixing_round
}

/// A copy of an anonymity set.
fn copy_set(s: &AnonymitySet) -> (res: AnonymitySet)
    ensures
        same_set(res, *s),
{
    let transactions = s.transactions.clone();
    assert(transactions@ =~= s.transactions@);
    AnonymitySet {
        set_id: s.set_id.clone(),
        transactions,
        created_at: s.created_at,
        expires_at: s.expires_at,
        size: s.size,
        mixing_round: s.mixing_round,
    }
}

/// `new` is `old` after storing `s` under its identifier: where no stored
/// set has that identifier, `s` is appended and every stored set stays in
/// place; otherwise one set with that identifier is replaced by `s`, and
/// every set under another identifier stays in place.
pub open spec fn stores_set(old: Seq<(String, AnonymitySet)>, new: Seq<(String, AnonymitySet)>, s: AnonymitySet) -> bool {
    &&& (forall|i: int| 0 <= i < old.len() ==> old[i].0@ != s.set_id@) ==> {
        &&& new.len() == old.len() + 1
        &&& new[old.len() as int].0@ == s.set_id@
        &&& new[old.len() as int].1 == s
    }
    &&& (exists|i: int| 0 <= i < old.len() && old[i].0@ == s.set_id@) ==> new.len() == old.len()
    &&& forall|j: int| 0 <= j < old.len() && old[j].0@ != s.set_id@ ==> #[trigger] new[j] == old[j]
    &&& exists|i: int| 0 <= i < new.len() && (#[trigger] new[i]).0@ == s.set_id@ && new[i].1 == s
}

/// A set stored under a fresh identifier keeps every earlier set: the sets
/// before it are exactly the earlier ones, in order, and it comes last.
pub proof fn lemma_fresh_set_keeps_earlier_sets(
    old: Seq<(String, AnonymitySet)>,
    new: Seq<(String, AnonymitySet)>,
    s: AnonymitySet,
)
    requires
        stores_set(old, new, s),
        forall|i: int| 0 <= i < old.len() ==> old[i].0@ != s.set_id@,
    ensures
        new.len() == old.len() + 1,
        new.subrange(0, old.len() as int) == old,
        new.last().1 == s,
{
    assert forall|j: int| 0 <= j < old.len() implies new.subrange(0, old.len() as int)[j] == old[j] by {
        assert(old[j].0@ != s.set_id@);
        assert(new[j] == old[j]);
    }
    assert(new.subrange(0, old.len() as int) =~= old);
}

/// Stores an anonymity set under its identifier, replacing one with the
/// same identifier.
fn put_anonymity_set(sets: &mut Vec<(String, AnonymitySet)>, s: AnonymitySet)
    ensures
        final(sets)@.len() == old(sets)@.len() || final(sets)@.len() == old(sets)@.len() + 1,
        exists|i: int| 0 <= i < final(sets)@.len() && (#[trigger] final(sets)@[i]).1 == s,
        stores_set(old(sets)@, final(sets)@, s),
{
    let mut i: usize = 0;
    while i < sets.len()
        invariant
            i <= sets@.len(),
            sets@ == old(sets)@,
            forall|k: int| 0 <= k < i ==> sets@[k].0@ != s.set_id@,
        decreases sets@.len() - i,
    {
        if str_equal(sets[i].0.as_str(), s.set_id.as_str()) {
            let key = s.set_id.clone();
            let ghost before = sets@;
            sets.set(i, (key, s));
            assert(sets@[i as int].1 == s);
            assert(sets@[i as int].0@ == s.set_id@);
            assert(before[i as int].0@ == s.set_id@);
            assert forall|j: int| 0 <= j < before.len() && before[j].0@ != s.set_id@ implies #[trigger] sets@[j]
                == before[j] by {
                assert(j != i);
            }
            return;
        }
        i = i + 1;
    }
    let key = s.set_id.clone();
    let ghost before = sets@;
    sets.push((key, s));
    assert(sets@[sets@.len() - 1].1 == s);
    assert(sets@[before.len() as int].0@ == s.set_id@);
    assert forall|j: int| 0 <= j < before.len() && before[j].0@ != s.set_id@ implies #[trigger] sets@[j] == before[j]
        by {
        assert(sets@[j] == before[j]);
    }
}

/// The anonymity level of a set of `set_size` transactions.
fn calculate_anonymity_level(set_size: usize) -> (res: u8)
    ensures
        res == anonymity_level(set_size as int),
{
    if set_size <= 4 {
        20
    } else if set_size <= 9 {
        40
    } else if set_size <= 19 {
        60
    } else if set_size <= 49 {
        80
    } else if set_size <= 99 {
        90
    } else {
        100
    }
}

impl PrivacyGovernance {
    /// The default policy is present.
    pub closed spec fn well_formed(&self) -> bool {
        &&& self.policies@.len() == 1
        &&& self.policies@[0].0@ == "default_privacy"@
        &&& self.policies@[0].1.min_privacy_level == 100
    }

    /// The compliance counts.
    pub closed spec fn spec_tracker(&self) -> ComplianceTracker {
        self.compliance_tracker
    }

    /// Governance with the default policy (privacy level 100, anonymity
    /// sets of at least 5, amounts hidden and addresses encrypted) and no
    /// transactions checked.
    pub fn new() -> (res: Self)
        ensures
            res.well_formed(),
            res.spec_tracker() == (ComplianceTracker {
                total_checked: 0,
                compliant_transactions: 0,
                non_compliant_transactions: 0,
            }),
    {
        let default_policy = PrivacyPolicy {
            policy_id: owned("default_privacy"),
            policy_name: owned("Default Privacy Policy"),
            min_privacy_level: 100,
            min_anonymity_set_size: 5,
            enforcement_rules: vec![
                EnforcementRule {
                    rule_id: owned("amount_privacy"),
                    description: owned("Transaction amounts must be hidden"),
                    rule_type: owned("amount_hiding"),
                    parameters: Vec::new(),
                },
                EnforcementRule {
                    rule_id: owned("address_privacy"),
                    description: owned("Addresses must be encrypted"),
                    rule_type: owned("address_encryption"),
                    parameters: Vec::new(),
                },
            ],
        };
        let mut policies: Vec<(String, PrivacyPolicy)> = Vec::new();
        policies.push((owned("default_privacy"), default_policy));
        PrivacyGovernance {
            policies,
            compliance_tracker: ComplianceTracker {
                total_checked: 0,
                compliant_transactions: 0,
                non_compliant_transactions: 0,
            },
        }
    }

    /// Whether a transaction complies with the default policy: its amount
    /// commitment and its sender, recipient and timestamp ciphertexts are
    /// present. A compliant transaction is counted; a non-compliant one is
    /// answered without being counted.
    pub fn check_compliance(&mut self, transaction: &PrivateTransaction) -> (res: Result<bool, PrivacyError>)
        requires
            old(self).well_formed(),
            old(self).spec_tracker().total_checked < u64::MAX,
            old(self).spec_tracker().compliant_transactions < u64::MAX,
        ensures
            final(self).well_formed(),
            res == Ok::<bool, PrivacyError>(transaction_private(*transaction)),
            transaction_private(*transaction) ==> final(self).spec_tracker() == (ComplianceTracker {
                total_checked: (old(self).spec_tracker().total_checked + 1) as u64,
                compliant_transactions: (old(self).spec_tracker().compliant_transactions + 1) as u64,
                ..old(self).spec_tracker()
            }),
            !transaction_private(*transaction) ==> final(self).spec_tracker() == old(self).spec_tracker(),
    {
        let mut found: Option<usize> = None;
        let mut i: usize = 0;
        while i < self.policies.len()
            invariant
                i <= self.policies@.len(),
                self.policies@.len() == 1,
                self.policies@[0].0@ == "default_privacy"@,
                found matches Some(j) ==> j < self.policies@.len() && self.policies@[j as int].0@ == "default_privacy"@,
                found is None ==> forall|k: int| 0 <= k < i ==> self.policies@[k].0@ != "default_privacy"@,
            decreases self.policies@.len() - i,
        {
            if found.is_none() && str_equal(self.policies[i].0.as_str(), "default_privacy") {
                found = Some(i);
            }
            i = i + 1;
        }
        let policy_index = match found {
            Some(j) => j,
            None => return Err(PrivacyError::PolicyNotFound),
        };
        assert(policy_index == 0);
        let privacy_level: u8 = 100;
        if privacy_level < self.policies[policy_index].1.min_privacy_level {
            return Ok(false);
        }
        if transaction.amount_commitment.len() == 0 {
            return Ok(false);
        }
        if transaction.encrypted_sender.len() == 0 || transaction.encrypted_recipient.len() == 0 {
            return Ok(false);
        }
        if transaction.encrypted_timestamp.len() == 0 {
            return Ok(false);
        }
        self.update_compliance_tracker(true);
        Ok(true)
    }

    /// Counts a checked transaction as compliant or not.
    fn update_compliance_tracker(&mut self, is_compliant: bool)
        requires
            old(self).compliance_tracker.total_checked < u64::MAX,
            is_compliant ==> old(self).compliance_tracker.compliant_transactions < u64::MAX,
            !is_compliant ==> old(self).compliance_tracker.non_compliant_transactions < u64::MAX,
        ensures
            final(self).policies == old(self).policies,
            final(self).compliance_tracker.total_checked == old(self).compliance_tracker.total_checked + 1,
            is_compliant ==> final(self).compliance_tracker.compliant_transactions
                == old(self).compliance_tracker.compliant_transactions + 1
                && final(self).compliance_tracker.non_compliant_transactions
                == old(self).compliance_tracker.non_compliant_transactions,
            !is_compliant ==> final(self).compliance_tracker.non_compliant_transactions
                == old(self).compliance_tracker.non_compliant_transactions + 1
                && final(self).compliance_tracker.compliant_transactions
                == old(self).compliance_tracker.compliant_transactions,
    {
        self.compliance_tracker.total_checked = self.compliance_tracker.total_checked + 1;
        if is_compliant {
            self.compliance_tracker.compliant_transactions = self.compliance_tracker.compliant_transactions + 1;
        } else {
            self.compliance_tracker.non_compliant_transactions = self.compliance_tracker.non_compliant_transactions
                + 1;
        }
    }

    /// The compliance counts.
    pub fn get_compliance_metrics(&self) -> (res: Result<ComplianceTracker, PrivacyError>)
        ensures
            res == Ok::<ComplianceTracker, PrivacyError>(self.spec_tracker()),
    {
        Ok(self.compliance_tracker)
    }
}

} // verus!
