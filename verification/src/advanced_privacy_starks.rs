//! Advanced privacy proof kinds and their records: cross-chain, mining,
//! aggregation and recursion proofs with their privacy guarantees.
use vstd::prelude::*;
use vstd::string::*;
use vstd::utf8::*;
use crate::crypto::{sha256, sha256_spec, unix_time_secs};
use crate::error::PrivacyError;
use crate::text::{extend_bytes, extend_str_bytes, le_bytes_u32, le_bytes_u64, owned, u32_le_bytes, u64_le_bytes};

verus! {

/// Configuration of the advanced privacy proof system.
#[derive(Debug, Clone, Copy)]
pub struct AdvancedPrivacyConfig {
    /// Cross-chain privacy is enabled.
    pub cross_chain_privacy: bool,
    /// Mining privacy is enabled.
    pub mining_privacy: bool,
    /// Privacy aggregation is enabled.
    pub privacy_aggregation: bool,
    /// Recursive proofs are enabled.
    pub recursive_proofs: bool,
    /// Parallel processing is enabled.
    pub parallel_processing: bool,
    /// Largest number of proofs aggregated at once.
    pub max_aggregation_size: usize,
    /// Deepest recursion allowed.
    pub max_recursion_depth: u32,
    /// Security level in bits.
    pub security_level: u32,
}

impl Default for AdvancedPrivacyConfig {
    /// Everything enabled; aggregation up to 1000 proofs, recursion up to
    /// depth 10, 128-bit security.
    fn default() -> (res: Self)
        ensures
            res == (AdvancedPrivacyConfig {
                cross_chain_privacy: true,
                mining_privacy: true,
                privacy_aggregation: true,
                recursive_proofs: true,
                parallel_processing: true,
                max_aggregation_size: 1000,
                max_recursion_depth: 10,
                security_level: 128,
            }),
    {
        AdvancedPrivacyConfig {
            cross_chain_privacy: true,
            mining_privacy: true,
            privacy_aggregation: true,
            recursive_proofs: true,
            parallel_processing: true,
            max_aggregation_size: 1000,
            max_recursion_depth: 10,
            security_level: 128,
        }
    }
}

/// The kinds of advanced privacy proof.
#[derive(Debug, Clone, Copy, PartialEq, Eq, Structural)]
pub enum AdvancedPrivacyProofType {
    /// Cross-chain privacy proof.
    CrossChainPrivacy,
    /// Mining privacy proof.
    MiningPrivacy,
    /// Privacy aggregation proof.
    PrivacyAggregation,
    /// Recursive privacy proof.
    RecursivePrivacy,
    /// Parallel privacy proof.
    ParallelPrivacy,
    /// Complex privacy proof.
    ComplexPrivacy,
}

/// The identifier of each proof kind.
pub open spec fn proof_type_identifier(t: AdvancedPrivacyProofType) -> Seq<char> {
    match t {
        AdvancedPrivacyProofType::CrossChainPrivacy => "cross_chain_privacy"@,
        AdvancedPrivacyProofType::MiningPrivacy => "mining_privacy"@,
        AdvancedPrivacyProofType::PrivacyAggregation => "privacy_aggregation"@,
        AdvancedPrivacyProofType::RecursivePrivacy => "recursive_privacy"@,
        AdvancedPrivacyProofType::ParallelPrivacy => "parallel_privacy"@,
        AdvancedPrivacyProofType::ComplexPrivacy => "complex_privacy"@,
    }
}

impl AdvancedPrivacyProofType {
    /// The identifier string of the proof kind.
    pub fn identifier(&self) -> (res: &'static str)
        ensures
            res@ == proof_type_identifier(*self),
    {
        match self {
            AdvancedPrivacyProofType::CrossChainPrivacy => "cross_chain_privacy",
            AdvancedPrivacyProofType::MiningPrivacy => "mining_privacy",
            AdvancedPrivacyProofType::PrivacyAggregation => "privacy_aggregation",
            AdvancedPrivacyProofType::RecursivePrivacy => "recursive_privacy",
            AdvancedPrivacyProofType::ParallelPrivacy => "parallel_privacy",
            AdvancedPrivacyProofType::ComplexPrivacy => "complex_privacy",
        }
    }
}

/// Distinct proof kinds have distinct identifiers.
pub proof fn lemma_identifiers_distinct(a: AdvancedPrivacyProofType, b: AdvancedPrivacyProofType)
    requires
        a != b,
    ensures
        proof_type_identifier(a) != proof_type_identifier(b),
{
    reveal_strlit("cross_chain_privacy");
    reveal_strlit("mining_privacy");
    reveal_strlit("privacy_aggregation");
    reveal_strlit("recursive_privacy");
    reveal_strlit("parallel_privacy");
    reveal_strlit("complex_privacy");
    let ia = proof_type_identifier(a);
    let ib = proof_type_identifier(b);
    if ia.len() == ib.len() {
        assert(ia[0] != ib[0] || ia[1] != ib[1] || ia[7] != ib[7]);
    }
}

/// A cross-chain privacy proof.
#[derive(Debug, Clone)]
pub struct CrossChainPrivacyProof {
    /// Source chain proof.
    pub source_chain_proof: Vec<u8>,
    /// Target chain proof.
    pub target_chain_proof: Vec<u8>,
    /// Bridge proof.
    pub bridge_proof: Vec<u8>,
    /// Commitment to the cross-chain amount.
    pub amount_commitment: Vec<u8>,
    /// Privacy guarantees.
    pub privacy_guarantees: CrossChainPrivacyGuarantees,
    /// Metadata.
    pub metadata: CrossChainPrivacyMetadata,
}

/// Privacy guarantees of a cross-chain proof.
#[derive(Debug, Clone, Copy)]
pub struct CrossChainPrivacyGuarantees {
    /// Source amount hidden.
    pub source_amount_hidden: bool,
    /// Target amount hidden.
    pub target_amount_hidden: bool,
    /// Bridge state hidden.
    pub bridge_state_hidden: bool,
    /// Cross-chain timing hidden.
    pub cross_chain_timing_hidden: bool,
    /// Bridge fees hidden.
    pub bridge_fees_hidden: bool,
}

/// Metadata of a cross-chain proof.
#[derive(Debug, Clone)]
pub struct CrossChainPrivacyMetadata {
    /// Source chain identifier.
    pub source_chain: String,
    /// Target chain identifier.
    pub target_chain: String,
    /// Bridge identifier.
    pub bridge_id: String,
    /// Generation time, seconds since the Unix epoch.
    pub timestamp: u64,
    /// Privacy level achieved.
    pub privacy_level: u32,
}

/// A mining privacy proof.
#[derive(Debug, Clone)]
pub struct MiningPrivacyProof {
    /// Mining reward proof.
    pub reward_proof: Vec<u8>,
    /// Hash rate proof.
    pub hash_rate_proof: Vec<u8>,
    /// Difficulty proof.
    pub difficulty_proof: Vec<u8>,
    /// Block proof.
    pub block_proof: Vec<u8>,
    /// Privacy guarantees.
    pub privacy_guarantees: MiningPrivacyGuarantees,
    /// Metadata.
    pub metadata: MiningPrivacyMetadata,
}

/// Privacy guarantees of a mining proof.
#[derive(Debug, Clone, Copy)]
pub struct MiningPrivacyGuarantees {
    /// Mining reward hidden.
    pub reward_hidden: bool,
    /// Hash rate hidden.
    pub hash_rate_hidden: bool,
    /// Difficulty hidden.
    pub difficulty_hidden: bool,
    /// Block data hidden.
    pub block_data_hidden: bool,
    /// Miner identity hidden.
    pub miner_identity_hidden: bool,
}

/// Metadata of a mining proof.
#[derive(Debug, Clone)]
pub struct MiningPrivacyMetadata {
    /// Mining algorithm.
    pub algorithm: String,
    /// Block height.
    pub block_height: u64,
    /// Generation time, seconds since the Unix epoch.
    pub timestamp: u64,
    /// Privacy level achieved.
    pub privacy_level: u32,
}

/// Privacy guarantees of an aggregation proof.
#[derive(Debug, Clone, Copy)]
pub struct AggregationPrivacyGuarantees {
    /// Individual proofs hidden.
    pub individual_proofs_hidden: bool,
    /// Aggregation process hidden.
    pub aggregation_process_hidden: bool,
    /// Proof relationships hidden.
    pub proof_relationships_hidden: bool,
}

/// Privacy guarantees of a recursive proof.
#[derive(Debug, Clone, Copy)]
pub struct RecursionPrivacyGuarantees {
    /// Base proof hidden.
    pub base_proof_hidden: bool,
    /// Recursion process hidden.
    pub recursion_process_hidden: bool,
    /// Intermediate proofs hidden.
    pub intermediate_proofs_hidden: bool,
}

/// A request for one proof of a parallel batch.
#[derive(Debug, Clone)]
pub struct PrivacyProofRequest {
    /// Proof type.
    pub proof_type: String,
    /// Amount.
    pub amount: u64,
    /// Additional parameters.
    pub parameters: Vec<u8>,
}

/// The proof counters of the advanced system.
#[derive(Debug, Clone, Copy, PartialEq, Eq, Structural)]
pub struct AdvancedPrivacyMetrics {
    /// Advanced proofs generated.
    pub total_advanced_proofs: u64,
    /// Cross-chain proofs generated.
    pub cross_chain_proofs: u64,
    /// Mining privacy proofs generated.
    pub mining_privacy_proofs: u64,
    /// Aggregation proofs generated.
    pub aggregated_proofs: u64,
    /// Recursive proofs generated.
    pub recursive_proofs: u64,
    /// Cross-chain, mining, aggregation and recursive proofs among all
    /// advanced proofs, in whole percent rounded down; 100 before any proof.
    pub privacy_efficiency_percent: u64,
}

/// A privacy aggregation proof.
#[derive(Debug, Clone)]
pub struct PrivacyAggregationProof {
    /// Aggregated proof data.
    pub aggregated_proof: Vec<u8>,
    /// SHA-256 hash of each individual proof.
    pub proof_hashes: Vec<Vec<u8>>,
    /// Metadata.
    pub aggregation_metadata: AggregationMetadata,
    /// Privacy guarantees.
    pub privacy_guarantees: AggregationPrivacyGuarantees,
}

/// Metadata of an aggregation proof.
#[derive(Debug, Clone)]
pub struct AggregationMetadata {
    /// Number of proofs aggregated.
    pub proof_count: usize,
    /// Aggregation method.
    pub aggregation_method: String,
    /// Bytes of the proofs given over bytes of the aggregated proof, in
    /// whole percent rounded down.
    pub compression_ratio_percent: u64,
    /// Generation time, seconds since the Unix epoch.
    pub timestamp: u64,
}

/// A recursive privacy proof.
#[derive(Debug, Clone)]
pub struct RecursivePrivacyProof {
    /// Recursive proof data.
    pub recursive_proof: Vec<u8>,
    /// The base proof.
    pub base_proof: Vec<u8>,
    /// Recursion level.
    pub recursion_level: u32,
    /// Metadata.
    pub recursion_metadata: RecursionMetadata,
    /// Privacy guarantees.
    pub privacy_guarantees: RecursionPrivacyGuarantees,
}

/// Metadata of a recursive proof.
#[derive(Debug, Clone)]
pub struct RecursionMetadata {
    /// Deepest recursion allowed.
    pub max_depth: u32,
    /// Level of this proof.
    pub current_level: u32,
    /// The share of the allowed depth left unused, in whole percent rounded
    /// down.
    pub recursion_efficiency_percent: u64,
    /// Generation time, seconds since the Unix epoch.
    pub timestamp: u64,
}

/// The advanced privacy proof system.
pub struct AdvancedPrivacyStarkSystem {
    config: AdvancedPrivacyConfig,
    metrics: AdvancedPrivacyMetrics,
}

/// The FRI parameter bytes that close every advanced proof.
pub open spec fn fri_tail() -> Seq<u8> {
    seq![32u8, 4u8, 8u8]
}

/// A chain or bridge proof: the identifier, the amount, the FRI bytes.
pub open spec fn tagged_amount_proof(tag: Seq<char>, amount: u64) -> Seq<u8> {
    encode_utf8(tag) + le_bytes_u64(amount) + fri_tail()
}

/// An amount commitment: the amount and four commitment bytes.
pub open spec fn amount_commitment_spec(amount: u64) -> Seq<u8> {
    le_bytes_u64(amount) + seq![1u8, 2u8, 3u8, 4u8]
}

/// The bytes of a list of byte strings, one after the other.
pub open spec fn concat_bytes(items: Seq<Seq<u8>>) -> Seq<u8>
    decreases items.len(),
{
    if items.len() == 0 {
        Seq::empty()
    } else {
        concat_bytes(items.drop_last()) + items.last()
    }
}

/// The UTF-8 bytes of a list of strings, one after the other.
pub open spec fn concat_utf8(items: Seq<Seq<char>>) -> Seq<u8>
    decreases items.len(),
{
    if items.len() == 0 {
        Seq::empty()
    } else {
        concat_utf8(items.drop_last()) + encode_utf8(items.last())
    }
}

/// An aggregated proof: the proof count as eight little-endian bytes, the
/// proofs, the FRI bytes.
pub open spec fn aggregated_proof_spec(proofs: Seq<Seq<u8>>) -> Seq<u8> {
    le_bytes_u64(proofs.len() as u64) + concat_bytes(proofs) + fri_tail()
}

/// A recursive proof: the base proof, the level, the FRI bytes.
pub open spec fn recursive_proof_spec(base: Seq<u8>, level: u32) -> Seq<u8> {
    base + le_bytes_u32(level) + fri_tail()
}

/// A complex proof: the complexity level, the features, the FRI bytes.
pub open spec fn complex_proof_spec(level: u32, features: Seq<Seq<char>>) -> Seq<u8> {
    le_bytes_u32(level) + concat_utf8(features) + fri_tail()
}

/// The byte views of a list of byte vectors.
pub open spec fn byte_views(items: Seq<Vec<u8>>) -> Seq<Seq<u8>> {
    items.map_values(|v: Vec<u8>| v@)
}

/// The counters after one more proof of a kind: the total always moves,
/// and the kind's own counter for cross-chain, mining, aggregation and
/// recursive proofs.
pub open spec fn counted(m: AdvancedPrivacyMetrics, kind: AdvancedPrivacyProofType) -> AdvancedPrivacyMetrics {
    with_efficiency(AdvancedPrivacyMetrics {
        total_advanced_proofs: (m.total_advanced_proofs + 1) as u64,
        cross_chain_proofs: if kind == AdvancedPrivacyProofType::CrossChainPrivacy {
            (m.cross_chain_proofs + 1) as u64
        } else {
            m.cross_chain_proofs
        },
        mining_privacy_proofs: if kind == AdvancedPrivacyProofType::MiningPrivacy {
            (m.mining_privacy_proofs + 1) as u64
        } else {
            m.mining_privacy_proofs
        },
        aggregated_proofs: if kind == AdvancedPrivacyProofType::PrivacyAggregation {
            (m.aggregated_proofs + 1) as u64
        } else {
            m.aggregated_proofs
        },
        recursive_proofs: if kind == AdvancedPrivacyProofType::RecursivePrivacy {
            (m.recursive_proofs + 1) as u64
        } else {
            m.recursive_proofs
        },
        ..m
    })
}

/// The privacy efficiency of the counters: the cross-chain, mining,
/// aggregation and recursive proofs among all, in whole percent rounded
/// down, or 100 before any proof.
pub open spec fn privacy_efficiency(m: AdvancedPrivacyMetrics) -> u64 {
    if m.total_advanced_proofs == 0 {
        100
    } else {
        ((m.cross_chain_proofs + m.mining_privacy_proofs + m.aggregated_proofs + m.recursive_proofs) * 100
            / (m.total_advanced_proofs as int)) as u64
    }
}

/// The counters with their efficiency brought up to date.
pub open spec fn with_efficiency(m: AdvancedPrivacyMetrics) -> AdvancedPrivacyMetrics {
    AdvancedPrivacyMetrics { privacy_efficiency_percent: privacy_efficiency(m), ..m }
}

/// The bytes of the proofs given over the bytes of their aggregated proof,
/// in whole percent rounded down.
pub open spec fn compression_ratio(proofs: Seq<Seq<u8>>) -> u64 {
    (concat_bytes(proofs).len() * 100 / aggregated_proof_spec(proofs).len()) as u64
}

/// The share of the depth `max` left unused at `level`, in whole percent
/// rounded down.
pub open spec fn recursion_efficiency(level: u32, max: u32) -> u64 {
    ((max - level) * 100 / (max as int)) as u64
}

/// No counter is at its limit.
pub open spec fn room_to_count(m: AdvancedPrivacyMetrics) -> bool {
    &&& m.total_advanced_proofs < u64::MAX
    &&& m.cross_chain_proofs < u64::MAX
    &&& m.mining_privacy_proofs < u64::MAX
    &&& m.aggregated_proofs < u64::MAX
    &&& m.recursive_proofs < u64::MAX
}

/// Appends the FRI parameter bytes.
fn push_fri_tail(v: &mut Vec<u8>)
    ensures
        final(v)@ == old(v)@ + fri_tail(),
{
    v.push(32u8);
    v.push(4u8);
    v.push(8u8);
    assert(final(v)@ =~= old(v)@ + fri_tail());
}

/// The bytes of a prefix of a list are no more than the bytes of the list.
proof fn lemma_concat_prefix_len(items: Seq<Seq<u8>>, n: int)
    requires
        0 <= n <= items.len(),
    ensures
        forall|j: int| 0 <= j <= n ==> #[trigger] concat_bytes(items.take(j)).len() <= concat_bytes(items.take(n)).len(),
    decreases n,
{
    if n > 0 {
        lemma_concat_prefix_len(items, n - 1);
        assert(items.take(n).drop_last() =~= items.take(n - 1));
    }
    if n == items.len() {
        assert(items.take(n) =~= items);
    }
}

impl AdvancedPrivacyStarkSystem {
    /// The configuration.
    pub closed spec fn config_view(&self) -> AdvancedPrivacyConfig {
        self.config
    }

    /// The proof counters.
    pub closed spec fn metrics_view(&self) -> AdvancedPrivacyMetrics {
        self.metrics
    }

    /// A system with the given configuration and zeroed counters.
    pub fn new(config: AdvancedPrivacyConfig) -> (res: Result<Self, PrivacyError>)
        ensures
            res matches Ok(s) && s.config_view() == config && s.metrics_view() == (AdvancedPrivacyMetrics {
                total_advanced_proofs: 0,
                cross_chain_proofs: 0,
                mining_privacy_proofs: 0,
                aggregated_proofs: 0,
                recursive_proofs: 0,
                privacy_efficiency_percent: 100,
            }),
    {
        Ok(AdvancedPrivacyStarkSystem {
            config,
            metrics: AdvancedPrivacyMetrics {
                total_advanced_proofs: 0,
                cross_chain_proofs: 0,
                mining_privacy_proofs: 0,
                aggregated_proofs: 0,
                recursive_proofs: 0,
                privacy_efficiency_percent: 100,
            },
        })
    }

    /// The proof counters.
    pub fn get_advanced_metrics(&self) -> (res: &AdvancedPrivacyMetrics)
        ensures
            *res == self.metrics_view(),
    {
        &self.metrics
    }

    /// Replaces the configuration.
    pub fn update_config(&mut self, config: AdvancedPrivacyConfig)
        ensures
            final(self).config_view() == config,
            final(self).metrics_view() == old(self).metrics_view(),
    {
        self.config = config;
    }

    /// Counts one more proof of a kind.
    fn update_metrics(&mut self, proof_type: AdvancedPrivacyProofType)
        requires
            room_to_count(old(self).metrics_view()),
        ensures
            final(self).metrics_view() == counted(old(self).metrics_view(), proof_type),
            final(self).config_view() == old(self).config_view(),
    {
        self.metrics.total_advanced_proofs = self.metrics.total_advanced_proofs + 1;
        match proof_type {
            AdvancedPrivacyProofType::CrossChainPrivacy => {
                self.metrics.cross_chain_proofs = self.metrics.cross_chain_proofs + 1;
            },
            AdvancedPrivacyProofType::MiningPrivacy => {
                self.metrics.mining_privacy_proofs = self.metrics.mining_privacy_proofs + 1;
            },
            AdvancedPrivacyProofType::PrivacyAggregation => {
                self.metrics.aggregated_proofs = self.metrics.aggregated_proofs + 1;
            },
            AdvancedPrivacyProofType::RecursivePrivacy => {
                self.metrics.recursive_proofs = self.metrics.recursive_proofs + 1;
            },
            _ => {},
        }
        self.metrics.privacy_efficiency_percent = self.calculate_privacy_efficiency();
    }

    /// The privacy efficiency of the current counters.
    fn calculate_privacy_efficiency(&self) -> (res: u64)
        ensures
            res == privacy_efficiency(self.metrics),
    {
        if self.metrics.total_advanced_proofs == 0 {
            return 100;
        }
        let kinds: u128 = self.metrics.cross_chain_proofs as u128 + self.metrics.mining_privacy_proofs as u128
            + self.metrics.aggregated_proofs as u128 + self.metrics.recursive_proofs as u128;
        ((kinds * 100) / (self.metrics.total_advanced_proofs as u128)) as u64
    }

    /// The bytes of the proofs given over the bytes of their aggregated
    /// proof, in whole percent rounded down.
    fn calculate_compression_ratio(&self, individual_proofs: &Vec<Vec<u8>>, aggregated_proof: &Vec<u8>) -> (res: u64)
        requires
            aggregated_proof@ == aggregated_proof_spec(byte_views(individual_proofs@)),
        ensures
            res == compression_ratio(byte_views(individual_proofs@)),
    {
        let ghost views = byte_views(individual_proofs@);
        let aggregated_size = aggregated_proof.len();
        let mut individual_size: u128 = 0;
        let mut i: usize = 0;
        proof {
            lemma_concat_prefix_len(views, views.len() as int);
            assert(views.take(views.len() as int) =~= views);
            assert(aggregated_proof@.len() == 8 + concat_bytes(views).len() + 3);
        }
        while i < individual_proofs.len()
            invariant
                i <= individual_proofs@.len(),
                views == byte_views(individual_proofs@),
                individual_size == concat_bytes(views.take(i as int)).len(),
                forall|j: int| 0 <= j <= views.len() ==> #[trigger] concat_bytes(views.take(j)).len() <= concat_bytes(views).len(),
                aggregated_proof@ == aggregated_proof_spec(views),
                aggregated_proof@.len() == 8 + concat_bytes(views).len() + 3,
                aggregated_size == aggregated_proof@.len(),
            decreases individual_proofs@.len() - i,
        {
            proof {
                assert(views.take(i + 1).drop_last() =~= views.take(i as int));
                assert(views.take(i + 1).last() == views[i as int]);
                assert(concat_bytes(views.take(i + 1)).len() <= concat_bytes(views).len());
                assert(views[i as int] == individual_proofs@[i as int]@);
            }
            individual_size = individual_size + individual_proofs[i].len() as u128;
            i = i + 1;
        }
        assert(views.take(views.len() as int) =~= views);
        assert(individual_size < aggregated_proof@.len());
        ((individual_size * 100) / (aggregated_size as u128)) as u64
    }

    /// The share of the allowed depth left unused at `recursion_level`.
    fn calculate_recursion_efficiency(&self, recursion_level: u32) -> (res: u64)
        requires
            0 < recursion_level <= self.config.max_recursion_depth,
        ensures
            res == recursion_efficiency(recursion_level, self.config.max_recursion_depth),
    {
        let max = self.config.max_recursion_depth as u64;
        (((max - recursion_level as u64) * 100) / max) as u64
    }

    /// A chain proof: chain identifier, amount, FRI bytes.
    fn generate_chain_proof(&self, chain: &str, amount: u64) -> (res: Vec<u8>)
        ensures
            res@ == tagged_amount_proof(chain@, amount),
    {
        let mut proof: Vec<u8> = Vec::new();
        extend_str_bytes(&mut proof, chain);
        let a = u64_le_bytes(amount);
        extend_bytes(&mut proof, a.as_slice());
        push_fri_tail(&mut proof);
        proof
    }

    /// A bridge proof: bridge identifier, amount, FRI bytes.
    fn generate_bridge_proof(&self, bridge_id: &str, amount: u64) -> (res: Vec<u8>)
        ensures
            res@ == tagged_amount_proof(bridge_id@, amount),
    {
        self.generate_chain_proof(bridge_id, amount)
    }

    /// An amount commitment: amount and four commitment bytes.
    fn generate_amount_commitment(&self, amount: u64) -> (res: Vec<u8>)
        ensures
            res@ == amount_commitment_spec(amount),
    {
        let mut commitment = u64_le_bytes(amount);
        commitment.push(1u8);
        commitment.push(2u8);
        commitment.push(3u8);
        commitment.push(4u8);
        assert(commitment@ =~= amount_commitment_spec(amount));
        commitment
    }

    /// A cross-chain privacy proof of moving `amount` from one chain to
    /// another over a bridge: chain and bridge proofs, an amount commitment,
    /// every guarantee held, privacy level 100. A zero amount is refused.
    pub fn prove_cross_chain_privacy(
        &mut self,
        source_chain: &str,
        target_chain: &str,
        amount: u64,
        bridge_id: &str,
    ) -> (res: Result<CrossChainPrivacyProof, PrivacyError>)
        requires
            room_to_count(old(self).metrics_view()),
        ensures
            final(self).config_view() == old(self).config_view(),
            amount == 0 ==> res == Err::<CrossChainPrivacyProof, PrivacyError>(PrivacyError::ZeroAmount),
            res matches Err(e) ==> ((e == PrivacyError::ZeroAmount && amount == 0) || e == PrivacyError::ClockError)
                && final(self).metrics_view() == old(self).metrics_view(),
            res matches Ok(p) ==> {
                &&& amount != 0
                &&& p.source_chain_proof@ == tagged_amount_proof(source_chain@, amount)
                &&& p.target_chain_proof@ == tagged_amount_proof(target_chain@, amount)
                &&& p.bridge_proof@ == tagged_amount_proof(bridge_id@, amount)
                &&& p.amount_commitment@ == amount_commitment_spec(amount)
                &&& p.privacy_guarantees == (CrossChainPrivacyGuarantees {
                    source_amount_hidden: true,
                    target_amount_hidden: true,
                    bridge_state_hidden: true,
                    cross_chain_timing_hidden: true,
                    bridge_fees_hidden: true,
                })
                &&& p.metadata.source_chain@ == source_chain@
                &&& p.metadata.target_chain@ == target_chain@
                &&& p.metadata.bridge_id@ == bridge_id@
                &&& p.metadata.privacy_level == 100
                &&& final(self).metrics_view() == counted(
                    old(self).metrics_view(),
                    AdvancedPrivacyProofType::CrossChainPrivacy,
                )
            },
    {
        if amount == 0 {
            return Err(PrivacyError::ZeroAmount);
        }
        let source_chain_proof = self.generate_chain_proof(source_chain, amount);
        let target_chain_proof = self.generate_chain_proof(target_chain, amount);
        let bridge_proof = self.generate_bridge_proof(bridge_id, amount);
        let amount_commitment = self.generate_amount_commitment(amount);
        let timestamp = match unix_time_secs() {
            Some(t) => t,
            None => return Err(PrivacyError::ClockError),
        };
        let proof = CrossChainPrivacyProof {
            source_chain_proof,
            target_chain_proof,
            bridge_proof,
            amount_commitment,
            privacy_guarantees: CrossChainPrivacyGuarantees {
                source_amount_hidden: true,
                target_amount_hidden: true,
                bridge_state_hidden: true,
                cross_chain_timing_hidden: true,
                bridge_fees_hidden: true,
            },
            metadata: CrossChainPrivacyMetadata {
                source_chain: owned(source_chain),
                target_chain: owned(target_chain),
                bridge_id: owned(bridge_id),
                timestamp,
                privacy_level: 100,
            },
        };
        self.update_metrics(AdvancedPrivacyProofType::CrossChainPrivacy);
        Ok(proof)
    }

    /// A CN-UPX/2 mining privacy proof for a block. Rewards, hash rates,
    /// difficulty and block data are public, so no proof of them is made
    /// (their proofs are empty); only the miner's identity is hidden. A
    /// zero reward is refused.
    pub fn prove_cnupx2_mining_privacy(
        &mut self,
        block_height: u64,
        reward: u64,
        hash_rate: u64,
        cnupx2_hash: &[u8],
    ) -> (res: Result<MiningPrivacyProof, PrivacyError>)
        requires
            room_to_count(old(self).metrics_view()),
        ensures
            final(self).config_view() == old(self).config_view(),
            reward == 0 ==> res == Err::<MiningPrivacyProof, PrivacyError>(PrivacyError::ZeroReward),
            res matches Err(e) ==> ((e == PrivacyError::ZeroReward && reward == 0) || e == PrivacyError::ClockError)
                && final(self).metrics_view() == old(self).metrics_view(),
            res matches Ok(p) ==> {
                &&& reward != 0
                &&& p.reward_proof@.len() == 0
                &&& p.hash_rate_proof@.len() == 0
                &&& p.difficulty_proof@.len() == 0
                &&& p.block_proof@.len() == 0
                &&& p.privacy_guarantees == (MiningPrivacyGuarantees {
                    reward_hidden: false,
                    hash_rate_hidden: false,
                    difficulty_hidden: false,
                    block_data_hidden: false,
                    miner_identity_hidden: true,
                })
                &&& p.metadata.algorithm@ == "cnupx2"@
                &&& p.metadata.block_height == block_height
                &&& p.metadata.privacy_level == 100
                &&& final(self).metrics_view() == counted(
                    old(self).metrics_view(),
                    AdvancedPrivacyProofType::MiningPrivacy,
                )
            },
    {
        if reward == 0 {
            return Err(PrivacyError::ZeroReward);
        }
        let timestamp = match unix_time_secs() {
            Some(t) => t,
            None => return Err(PrivacyError::ClockError),
        };
        let proof = MiningPrivacyProof {
            reward_proof: Vec::new(),
            hash_rate_proof: Vec::new(),
            difficulty_proof: Vec::new(),
            block_proof: Vec::new(),
            privacy_guarantees: MiningPrivacyGuarantees {
                reward_hidden: false,
                hash_rate_hidden: false,
                difficulty_hidden: false,
                block_data_hidden: false,
                miner_identity_hidden: true,
            },
            metadata: MiningPrivacyMetadata {
                algorithm: owned("cnupx2"),
                block_height,
                timestamp,
                privacy_level: 100,
            },
        };
        self.update_metrics(AdvancedPrivacyProofType::MiningPrivacy);
        Ok(proof)
    }
}

/// The proof bytes of a parallel request: its proof type, its amount, the
/// FRI bytes.
pub open spec fn parallel_proof_spec(r: PrivacyProofRequest) -> Seq<u8> {
    tagged_amount_proof(r.proof_type@, r.amount)
}

impl AdvancedPrivacyStarkSystem {
    /// The aggregated proof of some proofs.
    fn generate_aggregated_proof(&self, individual_proofs: &Vec<Vec<u8>>) -> (res: Vec<u8>)
        ensures
            res@ == aggregated_proof_spec(byte_views(individual_proofs@)),
    {
        let mut aggregated = u64_le_bytes(individual_proofs.len() as u64);
        let ghost head = aggregated@;
        let ghost views = byte_views(individual_proofs@);
        let mut i: usize = 0;
        while i < individual_proofs.len()
            invariant
                i <= individual_proofs@.len(),
                views == byte_views(individual_proofs@),
                aggregated@ == head + concat_bytes(views.take(i as int)),
            decreases individual_proofs@.len() - i,
        {
            extend_bytes(&mut aggregated, individual_proofs[i].as_slice());
            proof {
                assert(views.take(i + 1).drop_last() =~= views.take(i as int));
                assert(views.take(i + 1).last() == views[i as int]);
            }
            i = i + 1;
        }
        assert(views.take(views.len() as int) =~= views);
        push_fri_tail(&mut aggregated);
        aggregated
    }

    /// The SHA-256 hash of each proof.
    fn generate_proof_hashes(&self, individual_proofs: &Vec<Vec<u8>>) -> (res: Vec<Vec<u8>>)
        ensures
            res@.len() == individual_proofs@.len(),
            forall|i: int| 0 <= i < res@.len() ==> (#[trigger] res@[i])@ == sha256_spec(individual_proofs@[i]@),
    {
        let mut hashes: Vec<Vec<u8>> = Vec::new();
        let mut i: usize = 0;
        while i < individual_proofs.len()
            invariant
                i <= individual_proofs@.len(),
                hashes@.len() == i,
                forall|j: int| 0 <= j < i ==> (#[trigger] hashes@[j])@ == sha256_spec(individual_proofs@[j]@),
            decreases individual_proofs@.len() - i,
        {
            let d = sha256(individual_proofs[i].as_slice());
            let mut h: Vec<u8> = Vec::new();
            extend_bytes(&mut h, &d);
            hashes.push(h);
            i = i + 1;
        }
        hashes
    }

    /// Aggregates proofs into one: the aggregated bytes, the hash of each
    /// proof, and the count and method. No proofs, or more than the
    /// configured maximum, are refused.
    pub fn prove_privacy_aggregation(&mut self, individual_proofs: Vec<Vec<u8>>, aggregation_method: &str) -> (res:
        Result<PrivacyAggregationProof, PrivacyError>)
        requires
            room_to_count(old(self).metrics_view()),
        ensures
            final(self).config_view() == old(self).config_view(),
            individual_proofs@.len() == 0 ==> res == Err::<PrivacyAggregationProof, PrivacyError>(
                PrivacyError::NoProofsToAggregate,
            ),
            0 < individual_proofs@.len() && individual_proofs@.len() > old(self).config_view().max_aggregation_size
                ==> res == Err::<PrivacyAggregationProof, PrivacyError>(PrivacyError::TooManyProofs),
            res matches Err(e) ==> final(self).metrics_view() == old(self).metrics_view() && ((e
                == PrivacyError::NoProofsToAggregate && individual_proofs@.len() == 0) || (e
                == PrivacyError::TooManyProofs && individual_proofs@.len() > old(self).config_view().max_aggregation_size)
                || e == PrivacyError::ClockError),
            res matches Ok(p) ==> {
                &&& 0 < individual_proofs@.len() <= old(self).config_view().max_aggregation_size
                &&& p.aggregated_proof@ == aggregated_proof_spec(byte_views(individual_proofs@))
                &&& p.proof_hashes@.len() == individual_proofs@.len()
                &&& forall|i: int|
                    0 <= i < p.proof_hashes@.len() ==> (#[trigger] p.proof_hashes@[i])@ == sha256_spec(
                        individual_proofs@[i]@,
                    )
                &&& p.aggregation_metadata.proof_count == individual_proofs@.len()
                &&& p.aggregation_metadata.aggregation_method@ == aggregation_method@
                &&& p.aggregation_metadata.compression_ratio_percent == compression_ratio(byte_views(individual_proofs@))
                &&& p.privacy_guarantees == (AggregationPrivacyGuarantees {
                    individual_proofs_hidden: true,
                    aggregation_process_hidden: true,
                    proof_relationships_hidden: true,
                })
                &&& final(self).metrics_view() == counted(
                    old(self).metrics_view(),
                    AdvancedPrivacyProofType::PrivacyAggregation,
                )
            },
    {
        if individual_proofs.len() == 0 {
            return Err(PrivacyError::NoProofsToAggregate);
        }
        if individual_proofs.len() > self.config.max_aggregation_size {
            return Err(PrivacyError::TooManyProofs);
        }
        let aggregated_proof = self.generate_aggregated_proof(&individual_proofs);
        let compression = self.calculate_compression_ratio(&individual_proofs, &aggregated_proof);
        let proof_hashes = self.generate_proof_hashes(&individual_proofs);
        let timestamp = match unix_time_secs() {
            Some(t) => t,
            None => return Err(PrivacyError::ClockError),
        };
        let proof = PrivacyAggregationProof {
            aggregated_proof,
            proof_hashes,
            aggregation_metadata: AggregationMetadata {
                proof_count: individual_proofs.len(),
                aggregation_method: owned(aggregation_method),
                compression_ratio_percent: compression,
                timestamp,
            },
            privacy_guarantees: AggregationPrivacyGuarantees {
                individual_proofs_hidden: true,
                aggregation_process_hidden: true,
                proof_relationships_hidden: true,
            },
        };
        self.update_metrics(AdvancedPrivacyProofType::PrivacyAggregation);
        Ok(proof)
    }

    /// A proof of a proof at a recursion level: the base proof, the level,
    /// the FRI bytes. Level zero, or one above the configured depth, is
    /// refused.
    pub fn prove_recursive_privacy(&mut self, base_proof: Vec<u8>, recursion_level: u32) -> (res: Result<
        RecursivePrivacyProof,
        PrivacyError,
    >)
        requires
            room_to_count(old(self).metrics_view()),
        ensures
            final(self).config_view() == old(self).config_view(),
            recursion_level == 0 ==> res == Err::<RecursivePrivacyProof, PrivacyError>(
                PrivacyError::ZeroRecursionLevel,
            ),
            0 < recursion_level && recursion_level > old(self).config_view().max_recursion_depth ==> res == Err::<
                RecursivePrivacyProof,
                PrivacyError,
            >(PrivacyError::RecursionTooDeep),
            res matches Err(e) ==> final(self).metrics_view() == old(self).metrics_view() && ((e
                == PrivacyError::ZeroRecursionLevel && recursion_level == 0) || (e == PrivacyError::RecursionTooDeep
                && recursion_level > old(self).config_view().max_recursion_depth) || e == PrivacyError::ClockError),
            res matches Ok(p) ==> {
                &&& 0 < recursion_level <= old(self).config_view().max_recursion_depth
                &&& p.recursive_proof@ == recursive_proof_spec(base_proof@, recursion_level)
                &&& p.base_proof@ == base_proof@
                &&& p.recursion_level == recursion_level
                &&& p.recursion_metadata.max_depth == old(self).config_view().max_recursion_depth
                &&& p.recursion_metadata.current_level == recursion_level
                &&& p.recursion_metadata.recursion_efficiency_percent == recursion_efficiency(
                    recursion_level,
                    old(self).config_view().max_recursion_depth,
                )
                &&& p.privacy_guarantees == (RecursionPrivacyGuarantees {
                    base_proof_hidden: true,
                    recursion_process_hidden: true,
                    intermediate_proofs_hidden: true,
                })
                &&& final(self).metrics_view() == counted(
                    old(self).metrics_view(),
                    AdvancedPrivacyProofType::RecursivePrivacy,
                )
            },
    {
        if recursion_level == 0 {
            return Err(PrivacyError::ZeroRecursionLevel);
        }
        if recursion_level > self.config.max_recursion_depth {
            return Err(PrivacyError::RecursionTooDeep);
        }
        let recursive_proof = self.generate_recursive_proof(base_proof.as_slice(), recursion_level);
        let timestamp = match unix_time_secs() {
            Some(t) => t,
            None => return Err(PrivacyError::ClockError),
        };
        let proof = RecursivePrivacyProof {
            recursive_proof,
            base_proof,
            recursion_level,
            recursion_metadata: RecursionMetadata {
                max_depth: self.config.max_recursion_depth,
                current_level: recursion_level,
                recursion_efficiency_percent: self.calculate_recursion_efficiency(recursion_level),
                timestamp,
            },
            privacy_guarantees: RecursionPrivacyGuarantees {
                base_proof_hidden: true,
                recursion_process_hidden: true,
                intermediate_proofs_hidden: true,
            },
        };
        self.update_metrics(AdvancedPrivacyProofType::RecursivePrivacy);
        Ok(proof)
    }

    /// A recursive proof: the base proof, the level, the FRI bytes.
    fn generate_recursive_proof(&self, base_proof: &[u8], recursion_level: u32) -> (res: Vec<u8>)
        ensures
            res@ == recursive_proof_spec(base_proof@, recursion_level),
    {
        let mut recursive_proof: Vec<u8> = Vec::new();
        extend_bytes(&mut recursive_proof, base_proof);
        let l = u32_le_bytes(recursion_level);
        extend_bytes(&mut recursive_proof, l.as_slice());
        push_fri_tail(&mut recursive_proof);
        recursive_proof
    }

    /// A complex proof: the complexity level, the features, the FRI bytes.
    fn generate_complex_proof(&self, complexity_level: u32, privacy_features: &Vec<String>) -> (res: Vec<u8>)
        ensures
            res@ == complex_proof_spec(complexity_level, privacy_features@.map_values(|f: String| f@)),
    {
        let mut proof = u32_le_bytes(complexity_level);
        let ghost head = proof@;
        let ghost fs = privacy_features@.map_values(|f: String| f@);
        let mut i: usize = 0;
        while i < privacy_features.len()
            invariant
                i <= privacy_features@.len(),
                fs == privacy_features@.map_values(|f: String| f@),
                proof@ == head + concat_utf8(fs.take(i as int)),
            decreases privacy_features@.len() - i,
        {
            extend_str_bytes(&mut proof, privacy_features[i].as_str());
            proof {
                assert(fs.take(i + 1).drop_last() =~= fs.take(i as int));
                assert(fs.take(i + 1).last() == fs[i as int]);
            }
            i = i + 1;
        }
        assert(fs.take(fs.len() as int) =~= fs);
        push_fri_tail(&mut proof);
        proof
    }

    /// The proof of one parallel request.
    fn generate_parallel_proof(&self, request: &PrivacyProofRequest) -> (res: Vec<u8>)
        ensures
            res@ == parallel_proof_spec(*request),
    {
        self.generate_chain_proof(request.proof_type.as_str(), request.amount)
    }

    /// One proof per request, in order. No requests are refused.
    pub fn prove_parallel_privacy(&mut self, proof_requests: Vec<PrivacyProofRequest>) -> (res: Result<
        Vec<Vec<u8>>,
        PrivacyError,
    >)
        requires
            room_to_count(old(self).metrics_view()),
        ensures
            final(self).config_view() == old(self).config_view(),
            proof_requests@.len() == 0 <==> res == Err::<Vec<Vec<u8>>, PrivacyError>(PrivacyError::NoProofRequests),
            proof_requests@.len() > 0 ==> res is Ok,
            res is Err ==> final(self).metrics_view() == old(self).metrics_view(),
            res matches Ok(ps) ==> {
                &&& ps@.len() == proof_requests@.len()
                &&& forall|i: int| 0 <= i < ps@.len() ==> (#[trigger] ps@[i])@ == parallel_proof_spec(proof_requests@[i])
                &&& final(self).metrics_view() == counted(
                    old(self).metrics_view(),
                    AdvancedPrivacyProofType::ParallelPrivacy,
                )
            },
    {
        if proof_requests.len() == 0 {
            return Err(PrivacyError::NoProofRequests);
        }
        let mut parallel_proofs: Vec<Vec<u8>> = Vec::new();
        let mut i: usize = 0;
        while i < proof_requests.len()
            invariant
                i <= proof_requests@.len(),
                parallel_proofs@.len() == i,
                forall|j: int|
                    0 <= j < i ==> (#[trigger] parallel_proofs@[j])@ == parallel_proof_spec(proof_requests@[j]),
            decreases proof_requests@.len() - i,
        {
            let proof = self.generate_parallel_proof(&proof_requests[i]);
            parallel_proofs.push(proof);
            i = i + 1;
        }
        self.update_metrics(AdvancedPrivacyProofType::ParallelPrivacy);
        Ok(parallel_proofs)
    }

    /// A proof combining privacy features: the complexity level, the
    /// features, the FRI bytes. Level zero or no features are refused.
    pub fn prove_complex_privacy(&mut self, complexity_level: u32, privacy_features: Vec<String>) -> (res: Result<
        Vec<u8>,
        PrivacyError,
    >)
        requires
            room_to_count(old(self).metrics_view()),
        ensures
            final(self).config_view() == old(self).config_view(),
            complexity_level == 0 ==> res == Err::<Vec<u8>, PrivacyError>(PrivacyError::ZeroComplexity),
            complexity_level != 0 && privacy_features@.len() == 0 ==> res == Err::<Vec<u8>, PrivacyError>(
                PrivacyError::NoPrivacyFeatures,
            ),
            complexity_level != 0 && privacy_features@.len() > 0 ==> res is Ok,
            res is Err ==> final(self).metrics_view() == old(self).metrics_view(),
            res matches Ok(p) ==> {
                &&& complexity_level != 0 && privacy_features@.len() > 0
                &&& p@ == complex_proof_spec(
                    complexity_level,
                    privacy_features@.map_values(|f: String| f@),
                )
                &&& final(self).metrics_view() == counted(
                    old(self).metrics_view(),
                    AdvancedPrivacyProofType::ComplexPrivacy,
                )
            },
    {
        if complexity_level == 0 {
            return Err(PrivacyError::ZeroComplexity);
        }
        if privacy_features.len() == 0 {
            return Err(PrivacyError::NoPrivacyFeatures);
        }
        let proof = self.generate_complex_proof(complexity_level, &privacy_features);
        self.update_metrics(AdvancedPrivacyProofType::ComplexPrivacy);
        Ok(proof)
    }
}

} // verus!
