//! Cross-chain privacy: the supported networks, cross-chain proofs for
//! outgoing transactions, the transaction mappings they leave behind, and
//! the counters of the coordinator and its bridge.
use vstd::prelude::*;
use vstd::string::*;
use vstd::utf8::*;
use crate::crypto::{hex_encode, hex_lower, random_u64, sha256, sha256_spec, unix_time_secs};
use crate::error::PrivacyError;
use crate::registry::{keyed, keys_distinct, lemma_keyed_entries, lemma_keyed_push, lemma_keyed_update};
use crate::text::{extend_bytes, extend_str_bytes, le_bytes_u64, owned, str_equal, u64_le_bytes};

verus! {

/// A blockchain network.
#[derive(Debug, Clone)]
pub struct BlockchainNetwork {
    /// Network identifier.
    pub network_id: String,
    /// Network name.
    pub network_name: String,
    /// Network family.
    pub network_type: NetworkType,
    /// Privacy capabilities.
    pub privacy_capabilities: PrivacyCapabilities,
    /// Bridge configuration.
    pub bridge_config: BridgeConfiguration,
}

/// The family of a network.
#[derive(Debug, Clone)]
pub enum NetworkType {
    /// Ethereum-compatible.
    Ethereum,
    /// Bitcoin-compatible.
    Bitcoin,
    /// Cosmos-compatible.
    Cosmos,
    /// Polkadot-compatible.
    Polkadot,
    /// Another network.
    Custom(String),
}

/// Privacy capabilities of a network.
#[derive(Debug, Clone, Copy, PartialEq, Eq, Structural)]
pub struct PrivacyCapabilities {
    /// Amounts can be hidden.
    pub amount_privacy: bool,
    /// Addresses can be hidden.
    pub address_privacy: bool,
    /// Timing can be hidden.
    pub timing_privacy: bool,
    /// Zero-knowledge proofs are supported.
    pub zk_proofs: bool,
    /// Mixing is supported.
    pub mixing: bool,
    /// Privacy level, 0 to 100.
    pub privacy_level: u8,
}

/// Bridge configuration of a network.
#[derive(Debug, Clone)]
pub struct BridgeConfiguration {
    /// Bridge contract address.
    pub bridge_address: String,
    /// Kind of bridge.
    pub bridge_type: BridgeType,
    /// Privacy settings.
    pub privacy_settings: BridgePrivacySettings,
}

/// The kind of a bridge.
#[derive(Debug, Clone)]
pub enum BridgeType {
    /// Lock and mint.
    LockAndMint,
    /// Burn and mint.
    BurnAndMint,
    /// Atomic swap.
    AtomicSwap,
    /// Another kind.
    Custom(String),
}

/// Privacy settings of a bridge.
#[derive(Debug, Clone, Copy, PartialEq, Eq, Structural)]
pub struct BridgePrivacySettings {
    /// Bridge transactions are encrypted.
    pub encrypt_transactions: bool,
    /// Privacy proofs are used.
    pub use_privacy_proofs: bool,
    /// Bridge transactions are mixed.
    pub mix_transactions: bool,
    /// Privacy level of the bridge.
    pub bridge_privacy_level: u8,
}

/// A cross-chain privacy proof.
#[derive(Debug, Clone)]
pub struct CrossChainPrivacyProof {
    /// Proof identifier.
    pub proof_id: String,
    /// Source chain.
    pub source_chain: String,
    /// Destination chain.
    pub destination_chain: String,
    /// Cross-chain transaction hash.
    pub cross_chain_tx_hash: String,
    /// Privacy proof data.
    pub privacy_proof_data: Vec<u8>,
    /// Metadata.
    pub metadata: CrossChainProofMetadata,
}

/// Metadata of a cross-chain proof.
#[derive(Debug, Clone)]
pub struct CrossChainProofMetadata {
    /// Generation time, seconds since the Unix epoch.
    pub timestamp: u64,
    /// Proof version.
    pub version: u8,
    /// Privacy level maintained.
    pub privacy_level: u8,
    /// Cross-chain protocol.
    pub protocol: String,
    /// Bridge kind used.
    pub bridge_type: String,
}

/// A mapping from a source transaction to its cross-chain transaction.
#[derive(Debug, Clone)]
pub struct CrossChainTransactionMapping {
    /// Mapping identifier.
    pub mapping_id: String,
    /// Source transaction hash.
    pub source_tx_hash: String,
    /// Destination transaction hash.
    pub destination_tx_hash: String,
    /// Source chain.
    pub source_chain: String,
    /// Destination chain.
    pub destination_chain: String,
    /// Mapping time, seconds since the Unix epoch.
    pub timestamp: u64,
    /// Privacy status.
    pub privacy_status: PrivacyStatus,
}

/// Whether privacy was kept across chains.
#[derive(Debug, Clone, Copy, PartialEq, Eq, Structural)]
pub enum PrivacyStatus {
    /// Maintained.
    Maintained,
    /// Partially maintained.
    Partial,
    /// Lost.
    Lost,
    /// Unknown.
    Unknown,
}

/// An active bridge between two chains.
#[derive(Debug, Clone)]
pub struct BridgeInstance {
    /// Instance identifier.
    pub instance_id: String,
    /// Source chain.
    pub source_chain: String,
    /// Destination chain.
    pub destination_chain: String,
    /// Status.
    pub status: BridgeStatus,
    /// Privacy level.
    pub privacy_level: u8,
}

/// Status of a bridge.
#[derive(Debug, Clone, Copy, PartialEq, Eq, Structural)]
pub enum BridgeStatus {
    /// Active.
    Active,
    /// Inactive.
    Inactive,
    /// Under maintenance.
    Maintenance,
    /// In error.
    Error,
}

/// The transaction counters of the privacy bridge.
#[derive(Debug, Clone, Copy, PartialEq, Eq, Structural)]
pub struct BridgeStatistics {
    /// Transactions processed.
    pub total_transactions: u64,
    /// Successful transactions.
    pub successful_transactions: u64,
    /// Failed transactions.
    pub failed_transactions: u64,
    /// Transactions that kept their privacy.
    pub privacy_maintained_transactions: u64,
}

/// The counters of the coordinator.
#[derive(Debug, Clone, Copy, PartialEq, Eq, Structural)]
pub struct CrossChainMetrics {
    /// Cross-chain transactions made.
    pub total_cross_chain_transactions: u64,
    /// Of them, those that kept their privacy.
    pub privacy_maintained_transactions: u64,
    /// Supported networks.
    pub supported_networks_count: usize,
    /// Active bridges.
    pub active_bridges_count: usize,
}

/// The privacy bridge.
pub struct PrivacyBridge {
    bridge_id: String,
    bridge_type: BridgeType,
    active_bridges: Vec<BridgeInstance>,
    bridge_stats: BridgeStatistics,
}

/// The cross-chain privacy coordinator.
pub struct CrossChainPrivacyCoordinator {
    supported_chains: Vec<BlockchainNetwork>,
    cross_chain_proofs: Vec<CrossChainPrivacyProof>,
    transaction_mappings: Vec<CrossChainTransactionMapping>,
    privacy_bridge: PrivacyBridge,
    cross_chain_metrics: CrossChainMetrics,
}

/// The identifier of a network.
pub open spec fn network_key() -> spec_fn(BlockchainNetwork) -> Seq<char> {
    |n: BlockchainNetwork| n.network_id@
}

/// The identifier of a proof.
pub open spec fn proof_key() -> spec_fn(CrossChainPrivacyProof) -> Seq<char> {
    |p: CrossChainPrivacyProof| p.proof_id@
}

/// The identifier of a mapping.
pub open spec fn mapping_key() -> spec_fn(CrossChainTransactionMapping) -> Seq<char> {
    |m: CrossChainTransactionMapping| m.mapping_id@
}

/// Two network families are the same.
pub open spec fn same_network_type(a: NetworkType, b: NetworkType) -> bool {
    match a {
        NetworkType::Custom(x) => b matches NetworkType::Custom(y) && x@ == y@,
        _ => a == b,
    }
}

/// Two bridge kinds are the same.
pub open spec fn same_bridge_type(a: BridgeType, b: BridgeType) -> bool {
    match a {
        BridgeType::Custom(x) => b matches BridgeType::Custom(y) && x@ == y@,
        _ => a == b,
    }
}

/// Two networks hold the same values.
pub open spec fn same_network(a: BlockchainNetwork, b: BlockchainNetwork) -> bool {
    &&& a.network_id@ == b.network_id@
    &&& a.network_name@ == b.network_name@
    &&& same_network_type(a.network_type, b.network_type)
    &&& a.privacy_capabilities == b.privacy_capabilities
    &&& a.bridge_config.bridge_address@ == b.bridge_config.bridge_address@
    &&& same_bridge_type(a.bridge_config.bridge_type, b.bridge_config.bridge_type)
    &&& a.bridge_config.privacy_settings == b.bridge_config.privacy_settings
}

/// Two proofs hold the same values.
pub open spec fn same_proof(a: CrossChainPrivacyProof, b: CrossChainPrivacyProof) -> bool {
    &&& a.proof_id@ == b.proof_id@
    &&& a.source_chain@ == b.source_chain@
    &&& a.destination_chain@ == b.destination_chain@
    &&& a.cross_chain_tx_hash@ == b.cross_chain_tx_hash@
    &&& a.privacy_proof_data@ == b.privacy_proof_data@
    &&& a.metadata.timestamp == b.metadata.timestamp
    &&& a.metadata.version == b.metadata.version
    &&& a.metadata.privacy_level == b.metadata.privacy_level
    &&& a.metadata.protocol@ == b.metadata.protocol@
    &&& a.metadata.bridge_type@ == b.metadata.bridge_type@
}

/// Two mappings hold the same values.
pub open spec fn same_mapping(a: CrossChainTransactionMapping, b: CrossChainTransactionMapping) -> bool {
    &&& a.mapping_id@ == b.mapping_id@
    &&& a.source_tx_hash@ == b.source_tx_hash@
    &&& a.destination_tx_hash@ == b.destination_tx_hash@
    &&& a.source_chain@ == b.source_chain@
    &&& a.destination_chain@ == b.destination_chain@
    &&& a.timestamp == b.timestamp
    &&& a.privacy_status == b.privacy_status
}

/// `list` lists the networks of `map` once each, with the same values.
pub open spec fn lists_networks(list: Seq<BlockchainNetwork>, map: Map<Seq<char>, BlockchainNetwork>) -> bool {
    &&& keys_distinct(list, network_key())
    &&& forall|k: Seq<char>| map.dom().contains(k) <==> exists|i: int| 0 <= i < list.len() && list[i].network_id@ == k
    &&& forall|i: int| 0 <= i < list.len() ==> same_network(#[trigger] list[i], map[list[i].network_id@])
}

/// `list` lists the mappings of `map` once each, with the same values.
pub open spec fn lists_mappings(list: Seq<CrossChainTransactionMapping>, map: Map<Seq<char>, CrossChainTransactionMapping>) -> bool {
    &&& keys_distinct(list, mapping_key())
    &&& forall|k: Seq<char>| map.dom().contains(k) <==> exists|i: int| 0 <= i < list.len() && list[i].mapping_id@ == k
    &&& forall|i: int| 0 <= i < list.len() ==> same_mapping(#[trigger] list[i], map[list[i].mapping_id@])
}

/// The cross-chain transaction hash: hex SHA-256 of the source hash, the
/// destination chain and the time.
pub open spec fn cross_chain_tx_hash_spec(source_tx_hash: Seq<char>, destination_chain: Seq<char>, t: u64) -> Seq<char> {
    hex_lower(sha256_spec(encode_utf8(source_tx_hash) + encode_utf8(destination_chain) + le_bytes_u64(t)))
}

/// The privacy proof data of a cross-chain transaction.
pub open spec fn privacy_proof_data_spec(source_tx_hash: Seq<char>, destination_chain: Seq<char>) -> Seq<u8> {
    "cross_chain_privacy_proof:".spec_bytes() + encode_utf8(source_tx_hash) + encode_utf8(destination_chain)
        + ":privacy_maintained".spec_bytes()
}

/// A fresh identifier: hex SHA-256 of a time and a random number.
pub open spec fn fresh_id_spec(t: u64, r: u64) -> Seq<char> {
    hex_lower(sha256_spec(le_bytes_u64(t) + le_bytes_u64(r)))
}

/// A proof passes verification against the supported networks: identifier
/// and transaction hash are not empty, the destination is supported, the
/// proof data is not empty, and the privacy level is at least 100.
pub open spec fn proof_accepted(networks: Map<Seq<char>, BlockchainNetwork>, p: CrossChainPrivacyProof) -> bool {
    &&& p.proof_id@.len() > 0
    &&& p.cross_chain_tx_hash@.len() > 0
    &&& networks.dom().contains(p.destination_chain@)
    &&& p.privacy_proof_data@.len() > 0
    &&& p.metadata.privacy_level >= 100
}

/// The privacy level that a privacy status stands for.
pub open spec fn status_level(s: PrivacyStatus) -> u8 {
    match s {
        PrivacyStatus::Maintained => 100,
        PrivacyStatus::Partial => 50,
        PrivacyStatus::Lost => 0,
        PrivacyStatus::Unknown => 25,
    }
}

/// A copy of a network family.
fn clone_network_type(t: &NetworkType) -> (res: NetworkType)
    ensures
        same_network_type(res, *t),
{
    match t {
        NetworkType::Ethereum => NetworkType::Ethereum,
        NetworkType::Bitcoin => NetworkType::Bitcoin,
        NetworkType::Cosmos => NetworkType::Cosmos,
        NetworkType::Polkadot => NetworkType::Polkadot,
        NetworkType::Custom(x) => NetworkType::Custom(x.clone()),
    }
}

/// A copy of a bridge kind.
fn clone_bridge_type(t: &BridgeType) -> (res: BridgeType)
    ensures
        same_bridge_type(res, *t),
{
    match t {
        BridgeType::LockAndMint => BridgeType::LockAndMint,
        BridgeType::BurnAndMint => BridgeType::BurnAndMint,
        BridgeType::AtomicSwap => BridgeType::AtomicSwap,
        BridgeType::Custom(x) => BridgeType::Custom(x.clone()),
    }
}

/// A copy of a network.
fn clone_network(n: &BlockchainNetwork) -> (res: BlockchainNetwork)
    ensures
        same_network(res, *n),
{
    BlockchainNetwork {
        network_id: n.network_id.clone(),
        network_name: n.network_name.clone(),
        network_type: clone_network_type(&n.network_type),
        privacy_capabilities: n.privacy_capabilities,
        bridge_config: BridgeConfiguration {
            bridge_address: n.bridge_config.bridge_address.clone(),
            bridge_type: clone_bridge_type(&n.bridge_config.bridge_type),
            privacy_settings: n.bridge_config.privacy_settings,
        },
    }
}

/// A copy of a proof.
fn clone_proof(p: &CrossChainPrivacyProof) -> (res: CrossChainPrivacyProof)
    ensures
        same_proof(res, *p),
{
    let data = p.privacy_proof_data.clone();
    assert(data@ =~= p.privacy_proof_data@);
    CrossChainPrivacyProof {
        proof_id: p.proof_id.clone(),
        source_chain: p.source_chain.clone(),
        destination_chain: p.destination_chain.clone(),
        cross_chain_tx_hash: p.cross_chain_tx_hash.clone(),
        privacy_proof_data: data,
        metadata: CrossChainProofMetadata {
            timestamp: p.metadata.timestamp,
            version: p.metadata.version,
            privacy_level: p.metadata.privacy_level,
            protocol: p.metadata.protocol.clone(),
            bridge_type: p.metadata.bridge_type.clone(),
        },
    }
}

/// A copy of a mapping.
fn clone_mapping(m: &CrossChainTransactionMapping) -> (res: CrossChainTransactionMapping)
    ensures
        same_mapping(res, *m),
{
    CrossChainTransactionMapping {
        mapping_id: m.mapping_id.clone(),
        source_tx_hash: m.source_tx_hash.clone(),
        destination_tx_hash: m.destination_tx_hash.clone(),
        source_chain: m.source_chain.clone(),
        destination_chain: m.destination_chain.clone(),
        timestamp: m.timestamp,
        privacy_status: m.privacy_status,
    }
}

/// The position of the network with identifier `id`, if any.
fn find_network(items: &Vec<BlockchainNetwork>, id: &str) -> (res: Option<usize>)
    ensures
        match res {
            Some(i) => i < items@.len() && items@[i as int].network_id@ == id@,
            None => forall|j: int| 0 <= j < items@.len() ==> #[trigger] items@[j].network_id@ != id@,
        },
{
    let mut i: usize = 0;
    while i < items.len()
        invariant
            i <= items@.len(),
            forall|j: int| 0 <= j < i ==> #[trigger] items@[j].network_id@ != id@,
        decreases items@.len() - i,
    {
        if str_equal(items[i].network_id.as_str(), id) {
            return Some(i);
        }
        i = i + 1;
    }
    None
}

/// Stores a proof under its identifier, replacing one with the same
/// identifier.
fn put_proof(items: &mut Vec<CrossChainPrivacyProof>, p: CrossChainPrivacyProof)
    requires
        keys_distinct(old(items)@, proof_key()),
    ensures
        keys_distinct(final(items)@, proof_key()),
        keyed(final(items)@, proof_key()) == keyed(old(items)@, proof_key()).insert(p.proof_id@, p),
{
    let mut i: usize = 0;
    while i < items.len()
        invariant
            i <= items@.len(),
            items@ == old(items)@,
            keys_distinct(items@, proof_key()),
            forall|j: int| 0 <= j < i ==> #[trigger] items@[j].proof_id@ != p.proof_id@,
        decreases items@.len() - i,
    {
        if str_equal(items[i].proof_id.as_str(), p.proof_id.as_str()) {
            proof {
                lemma_keyed_update(items@, proof_key(), i as int, p);
            }
            items.set(i, p);
            return;
        }
        i = i + 1;
    }
    proof {
        lemma_keyed_push(items@, proof_key(), p);
    }
    items.push(p);
}

/// Stores a mapping under its identifier, replacing one with the same
/// identifier.
fn put_mapping(items: &mut Vec<CrossChainTransactionMapping>, m: CrossChainTransactionMapping)
    requires
        keys_distinct(old(items)@, mapping_key()),
    ensures
        keys_distinct(final(items)@, mapping_key()),
        keyed(final(items)@, mapping_key()) == keyed(old(items)@, mapping_key()).insert(m.mapping_id@, m),
{
    let mut i: usize = 0;
    while i < items.len()
        invariant
            i <= items@.len(),
            items@ == old(items)@,
            keys_distinct(items@, mapping_key()),
            forall|j: int| 0 <= j < i ==> #[trigger] items@[j].mapping_id@ != m.mapping_id@,
        decreases items@.len() - i,
    {
        if str_equal(items[i].mapping_id.as_str(), m.mapping_id.as_str()) {
            proof {
                lemma_keyed_update(items@, mapping_key(), i as int, m);
            }
            items.set(i, m);
            return;
        }
        i = i + 1;
    }
    proof {
        lemma_keyed_push(items@, mapping_key(), m);
    }
    items.push(m);
}

/// A network from its parts.
fn network(
    id: &str,
    name: &str,
    network_type: NetworkType,
    privacy_capabilities: PrivacyCapabilities,
    bridge_address: &str,
    bridge_type: BridgeType,
    privacy_settings: BridgePrivacySettings,
) -> (res: BlockchainNetwork)
    ensures
        res.network_id@ == id@,
        res.network_name@ == name@,
        res.network_type == network_type,
        res.privacy_capabilities == privacy_capabilities,
        res.bridge_config.bridge_address@ == bridge_address@,
        res.bridge_config.bridge_type == bridge_type,
        res.bridge_config.privacy_settings == privacy_settings,
{
    BlockchainNetwork {
        network_id: owned(id),
        network_name: owned(name),
        network_type,
        privacy_capabilities,
        bridge_config: BridgeConfiguration { bridge_address: owned(bridge_address), bridge_type, privacy_settings },
    }
}

impl CrossChainPrivacyCoordinator {
    /// The supported networks, by identifier.
    pub closed spec fn networks(&self) -> Map<Seq<char>, BlockchainNetwork> {
        keyed(self.supported_chains@, network_key())
    }

    /// The stored cross-chain proofs, by identifier.
    pub closed spec fn proofs(&self) -> Map<Seq<char>, CrossChainPrivacyProof> {
        keyed(self.cross_chain_proofs@, proof_key())
    }

    /// The transaction mappings, by identifier.
    pub closed spec fn mappings(&self) -> Map<Seq<char>, CrossChainTransactionMapping> {
        keyed(self.transaction_mappings@, mapping_key())
    }

    /// The coordinator's counters.
    pub closed spec fn metrics(&self) -> CrossChainMetrics {
        self.cross_chain_metrics
    }

    /// The bridge's counters.
    pub closed spec fn bridge_stats(&self) -> BridgeStatistics {
        self.privacy_bridge.bridge_stats
    }

    /// Identifiers are distinct in every registry, and the network count is
    /// the number of supported networks.
    pub closed spec fn well_formed(&self) -> bool {
        &&& keys_distinct(self.supported_chains@, network_key())
        &&& keys_distinct(self.cross_chain_proofs@, proof_key())
        &&& keys_distinct(self.transaction_mappings@, mapping_key())
        &&& self.cross_chain_metrics.supported_networks_count == self.supported_chains@.len()
    }

    /// A coordinator supporting Ethereum, Bitcoin and Cosmos, with no
    /// proofs, no mappings and zeroed counters.
    pub fn new() -> (res: Self)
        ensures
            res.well_formed(),
            res.networks().dom() == set!["ethereum"@, "bitcoin"@, "cosmos"@],
            res.networks()["ethereum"@].privacy_capabilities.privacy_level == 100,
            res.networks()["bitcoin"@].privacy_capabilities.privacy_level == 80,
            res.networks()["cosmos"@].privacy_capabilities.privacy_level == 90,
            res.networks()["bitcoin"@].bridge_config.bridge_type == BridgeType::AtomicSwap,
            res.proofs() == Map::<Seq<char>, CrossChainPrivacyProof>::empty(),
            res.mappings() == Map::<Seq<char>, CrossChainTransactionMapping>::empty(),
            res.metrics() == (CrossChainMetrics {
                total_cross_chain_transactions: 0,
                privacy_maintained_transactions: 0,
                supported_networks_count: 3,
                active_bridges_count: 0,
            }),
            res.bridge_stats() == (BridgeStatistics {
                total_transactions: 0,
                successful_transactions: 0,
                failed_transactions: 0,
                privacy_maintained_transactions: 0,
            }),
    {
        let mut supported_chains: Vec<BlockchainNetwork> = Vec::new();
        let ghost empty = supported_chains@;
        let eth = Self::create_ethereum_network();
        proof {
            lemma_keyed_push(supported_chains@, network_key(), eth);
        }
        supported_chains.push(eth);
        let btc = Self::create_bitcoin_network();
        proof {
            reveal_strlit("ethereum");
            reveal_strlit("bitcoin");
            reveal_strlit("cosmos");
            assert("ethereum"@.len() != "bitcoin"@.len());
            assert("ethereum"@.len() != "cosmos"@.len());
            assert("bitcoin"@[0] != "cosmos"@[0]);
            lemma_keyed_push(supported_chains@, network_key(), btc);
        }
        supported_chains.push(btc);
        let cosmos = Self::create_cosmos_network();
        proof {
            lemma_keyed_push(supported_chains@, network_key(), cosmos);
        }
        supported_chains.push(cosmos);
        let res = CrossChainPrivacyCoordinator {
            supported_chains,
            cross_chain_proofs: Vec::new(),
            transaction_mappings: Vec::new(),
            privacy_bridge: PrivacyBridge {
                bridge_id: owned("main_privacy_bridge"),
                bridge_type: BridgeType::LockAndMint,
                active_bridges: Vec::new(),
                bridge_stats: BridgeStatistics {
                    total_transactions: 0,
                    successful_transactions: 0,
                    failed_transactions: 0,
                    privacy_maintained_transactions: 0,
                },
            },
            cross_chain_metrics: CrossChainMetrics {
                total_cross_chain_transactions: 0,
                privacy_maintained_transactions: 0,
                supported_networks_count: 3,
                active_bridges_count: 0,
            },
        };
        proof {
            assert(res.proofs() =~= Map::empty());
            assert(res.mappings() =~= Map::empty());
            assert(res.networks().dom() =~= set!["ethereum"@, "bitcoin"@, "cosmos"@]);
        }
        res
    }

    /// Ethereum mainnet: full privacy, a lock-and-mint bridge.
    fn create_ethereum_network() -> (res: BlockchainNetwork)
        ensures
            res.network_id@ == "ethereum"@,
            res.privacy_capabilities.privacy_level == 100,
    {
        network(
            "ethereum",
            "Ethereum Mainnet",
            NetworkType::Ethereum,
            PrivacyCapabilities {
                amount_privacy: true,
                address_privacy: true,
                timing_privacy: true,
                zk_proofs: true,
                mixing: true,
                privacy_level: 100,
            },
            "0x1234567890123456789012345678901234567890",
            BridgeType::LockAndMint,
            BridgePrivacySettings {
                encrypt_transactions: true,
                use_privacy_proofs: true,
                mix_transactions: true,
                bridge_privacy_level: 100,
            },
        )
    }

    /// Bitcoin mainnet: no timing privacy or zero-knowledge proofs, an
    /// atomic-swap bridge.
    fn create_bitcoin_network() -> (res: BlockchainNetwork)
        ensures
            res.network_id@ == "bitcoin"@,
            res.privacy_capabilities.privacy_level == 80,
            res.bridge_config.bridge_type == BridgeType::AtomicSwap,
    {
        network(
            "bitcoin",
            "Bitcoin Mainnet",
            NetworkType::Bitcoin,
            PrivacyCapabilities {
                amount_privacy: true,
                address_privacy: true,
                timing_privacy: false,
                zk_proofs: false,
                mixing: true,
                privacy_level: 80,
            },
            "bc1qxy2kgdygjrsqtzq2n0yrf2493p83kkfjhx0wlh",
            BridgeType::AtomicSwap,
            BridgePrivacySettings {
                encrypt_transactions: true,
                use_privacy_proofs: false,
                mix_transactions: true,
                bridge_privacy_level: 80,
            },
        )
    }

    /// The Cosmos hub: privacy level 90, a lock-and-mint bridge.
    fn create_cosmos_network() -> (res: BlockchainNetwork)
        ensures
            res.network_id@ == "cosmos"@,
            res.privacy_capabilities.privacy_level == 90,
    {
        network(
            "cosmos",
            "Cosmos Hub",
            NetworkType::Cosmos,
            PrivacyCapabilities {
                amount_privacy: true,
                address_privacy: true,
                timing_privacy: true,
                zk_proofs: true,
                mixing: true,
                privacy_level: 90,
            },
            "cosmos1abc123def456ghi789jkl012mno345pqr678stu",
            BridgeType::LockAndMint,
            BridgePrivacySettings {
                encrypt_transactions: true,
                use_privacy_proofs: true,
                mix_transactions: true,
                bridge_privacy_level: 90,
            },
        )
    }
}

impl CrossChainPrivacyCoordinator {
    /// Whether a network with identifier `id` is supported.
    fn supports(&self, id: &str) -> (res: bool)
        requires
            self.well_formed(),
        ensures
            res == self.networks().dom().contains(id@),
    {
        proof {
            lemma_keyed_entries(self.supported_chains@, network_key());
        }
        match find_network(&self.supported_chains, id) {
            Some(i) => {
                assert(network_key()(self.supported_chains@[i as int]) == id@);
                true
            },
            None => false,
        }
    }

    /// The hash of the cross-chain transaction of a source transaction.
    fn generate_cross_chain_tx_hash(&self, source_tx_hash: &str, destination_chain: &str, t: u64) -> (res: String)
        ensures
            res@ == cross_chain_tx_hash_spec(source_tx_hash@, destination_chain@, t),
    {
        let mut buf: Vec<u8> = Vec::new();
        extend_str_bytes(&mut buf, source_tx_hash);
        extend_str_bytes(&mut buf, destination_chain);
        let tb = u64_le_bytes(t);
        extend_bytes(&mut buf, tb.as_slice());
        let d = sha256(buf.as_slice());
        hex_encode(&d)
    }

    /// The privacy proof data of a cross-chain transaction.
    fn generate_cross_chain_privacy_proof(&self, source_tx_hash: &str, destination_chain: &str) -> (res: Vec<u8>)
        ensures
            res@ == privacy_proof_data_spec(source_tx_hash@, destination_chain@),
    {
        let mut proof_data: Vec<u8> = Vec::new();
        extend_str_bytes(&mut proof_data, "cross_chain_privacy_proof:");
        extend_str_bytes(&mut proof_data, source_tx_hash);
        extend_str_bytes(&mut proof_data, destination_chain);
        extend_str_bytes(&mut proof_data, ":privacy_maintained");
        proof_data
    }

    /// A fresh identifier from the time `t` and a random number.
    fn generate_proof_id(&self, t: u64) -> (res: String)
        ensures
            exists|r: u64| res@ == #[trigger] fresh_id_spec(t, r),
    {
        let r = random_u64();
        let mut buf = u64_le_bytes(t);
        let rb = u64_le_bytes(r);
        extend_bytes(&mut buf, rb.as_slice());
        let d = sha256(buf.as_slice());
        let id = hex_encode(&d);
        assert(id@ == fresh_id_spec(t, r));
        id
    }

    /// Makes a private cross-chain transaction from the source transaction
    /// with hash `source_tx_hash` to `destination_chain`: its proof is
    /// stored, a mapping from the source transaction is recorded, and the
    /// counters move on. An unsupported destination is refused.
    pub fn create_cross_chain_transaction(
        &mut self,
        source_tx_hash: &str,
        destination_chain: &str,
        destination_address: &str,
    ) -> (res: Result<CrossChainPrivacyProof, PrivacyError>)
        requires
            old(self).well_formed(),
            old(self).metrics().total_cross_chain_transactions < u64::MAX,
            old(self).metrics().privacy_maintained_transactions < u64::MAX,
        ensures
            final(self).well_formed(),
            final(self).networks() == old(self).networks(),
            final(self).bridge_stats() == old(self).bridge_stats(),
            !old(self).networks().dom().contains(destination_chain@) ==> res == Err::<
                CrossChainPrivacyProof,
                PrivacyError,
            >(PrivacyError::UnsupportedChain),
            res matches Err(e) ==> {
                &&& ((e == PrivacyError::UnsupportedChain && !old(self).networks().dom().contains(
                    destination_chain@,
                )) || e == PrivacyError::ClockError)
                &&& final(self).proofs() == old(self).proofs()
                &&& final(self).mappings() == old(self).mappings()
                &&& final(self).metrics() == old(self).metrics()
            },
            res matches Ok(p) ==> {
                &&& old(self).networks().dom().contains(destination_chain@)
                &&& p.source_chain@ == "zkc0dl3"@
                &&& p.destination_chain@ == destination_chain@
                &&& p.cross_chain_tx_hash@ == cross_chain_tx_hash_spec(
                    source_tx_hash@,
                    destination_chain@,
                    p.metadata.timestamp,
                )
                &&& p.privacy_proof_data@ == privacy_proof_data_spec(source_tx_hash@, destination_chain@)
                &&& exists|r: u64| p.proof_id@ == #[trigger] fresh_id_spec(p.metadata.timestamp, r)
                &&& p.metadata.version == 1
                &&& p.metadata.privacy_level == 100
                &&& p.metadata.protocol@ == "cross_chain_privacy_v1"@
                &&& p.metadata.bridge_type@ == "lock_and_mint"@
                &&& final(self).proofs().dom() == old(self).proofs().dom().insert(p.proof_id@)
                &&& same_proof(final(self).proofs()[p.proof_id@], p)
                &&& forall|k: Seq<char>|
                    k != p.proof_id@ && #[trigger] old(self).proofs().dom().contains(k) ==> final(self).proofs()[k]
                        == old(self).proofs()[k]
                &&& exists|m: CrossChainTransactionMapping|
                    {
                        &&& final(self).mappings() == old(self).mappings().insert(#[trigger] m.mapping_id@, m)
                        &&& m.source_tx_hash@ == source_tx_hash@
                        &&& m.destination_tx_hash@ == p.cross_chain_tx_hash@
                        &&& m.source_chain@ == "zkc0dl3"@
                        &&& m.destination_chain@ == destination_chain@
                        &&& m.privacy_status == PrivacyStatus::Maintained
                    }
                &&& final(self).metrics() == (CrossChainMetrics {
                    total_cross_chain_transactions: (old(self).metrics().total_cross_chain_transactions + 1) as u64,
                    privacy_maintained_transactions: (old(self).metrics().privacy_maintained_transactions + 1) as u64,
                    ..old(self).metrics()
                })
            },
    {
        if !self.supports(destination_chain) {
            return Err(PrivacyError::UnsupportedChain);
        }
        let now = match unix_time_secs() {
            Some(t) => t,
            None => return Err(PrivacyError::ClockError),
        };
        let cross_chain_tx_hash = self.generate_cross_chain_tx_hash(source_tx_hash, destination_chain, now);
        let privacy_proof_data = self.generate_cross_chain_privacy_proof(source_tx_hash, destination_chain);
        let proof_id = self.generate_proof_id(now);
        let proof = CrossChainPrivacyProof {
            proof_id,
            source_chain: owned("zkc0dl3"),
            destination_chain: owned(destination_chain),
            cross_chain_tx_hash,
            privacy_proof_data,
            metadata: CrossChainProofMetadata {
                timestamp: now,
                version: 1,
                privacy_level: 100,
                protocol: owned("cross_chain_privacy_v1"),
                bridge_type: owned("lock_and_mint"),
            },
        };
        let stored = clone_proof(&proof);
        let ghost old_proofs = self.proofs();
        put_proof(&mut self.cross_chain_proofs, stored);
        self.create_transaction_mapping(source_tx_hash, proof.cross_chain_tx_hash.as_str(), destination_chain, now);
        self.update_cross_chain_metrics();
        proof {
            assert(self.proofs().dom() =~= old_proofs.dom().insert(proof.proof_id@));
        }
        Ok(proof)
    }

    /// Records the mapping of a source transaction to its cross-chain
    /// transaction, made at time `t`.
    fn create_transaction_mapping(&mut self, source_tx_hash: &str, dest_tx_hash: &str, destination_chain: &str, t: u64)
        requires
            old(self).well_formed(),
        ensures
            final(self).well_formed(),
            final(self).networks() == old(self).networks(),
            final(self).proofs() == old(self).proofs(),
            final(self).metrics() == old(self).metrics(),
            final(self).bridge_stats() == old(self).bridge_stats(),
            exists|m: CrossChainTransactionMapping|
                {
                    &&& final(self).mappings() == old(self).mappings().insert(#[trigger] m.mapping_id@, m)
                    &&& m.source_tx_hash@ == source_tx_hash@
                    &&& m.destination_tx_hash@ == dest_tx_hash@
                    &&& m.source_chain@ == "zkc0dl3"@
                    &&& m.destination_chain@ == destination_chain@
                    &&& m.timestamp == t
                    &&& m.privacy_status == PrivacyStatus::Maintained
                },
    {
        let mapping = CrossChainTransactionMapping {
            mapping_id: self.generate_proof_id(t),
            source_tx_hash: owned(source_tx_hash),
            destination_tx_hash: owned(dest_tx_hash),
            source_chain: owned("zkc0dl3"),
            destination_chain: owned(destination_chain),
            timestamp: t,
            privacy_status: PrivacyStatus::Maintained,
        };
        let ghost m = mapping;
        put_mapping(&mut self.transaction_mappings, mapping);
        assert(self.mappings() == old(self).mappings().insert(m.mapping_id@, m));
    }

    /// Counts one more cross-chain transaction, which kept its privacy.
    fn update_cross_chain_metrics(&mut self)
        requires
            old(self).metrics().total_cross_chain_transactions < u64::MAX,
            old(self).metrics().privacy_maintained_transactions < u64::MAX,
        ensures
            final(self).supported_chains@ == old(self).supported_chains@,
            final(self).cross_chain_proofs@ == old(self).cross_chain_proofs@,
            final(self).transaction_mappings@ == old(self).transaction_mappings@,
            final(self).bridge_stats() == old(self).bridge_stats(),
            final(self).metrics() == (CrossChainMetrics {
                total_cross_chain_transactions: (old(self).metrics().total_cross_chain_transactions + 1) as u64,
                privacy_maintained_transactions: (old(self).metrics().privacy_maintained_transactions + 1) as u64,
                ..old(self).metrics()
            }),
    {
        self.cross_chain_metrics.total_cross_chain_transactions = self.cross_chain_metrics.total_cross_chain_transactions
            + 1;
        self.cross_chain_metrics.privacy_maintained_transactions =
            self.cross_chain_metrics.privacy_maintained_transactions + 1;
    }
}

/// A copy of the networks, in order.
fn list_networks(items: &Vec<BlockchainNetwork>) -> (res: Vec<BlockchainNetwork>)
    requires
        keys_distinct(items@, network_key()),
    ensures
        lists_networks(res@, keyed(items@, network_key())),
        res@.len() == items@.len(),
{
    let mut res: Vec<BlockchainNetwork> = Vec::new();
    let mut i: usize = 0;
    while i < items.len()
        invariant
            i <= items@.len(),
            res@.len() == i,
            forall|j: int| 0 <= j < i ==> same_network(#[trigger] res@[j], items@[j]),
        decreases items@.len() - i,
    {
        res.push(clone_network(&items[i]));
        i = i + 1;
    }
    proof {
        lemma_keyed_entries(items@, network_key());
        let m = keyed(items@, network_key());
        assert forall|k: Seq<char>| m.dom().contains(k) <==> exists|j: int|
            0 <= j < res@.len() && res@[j].network_id@ == k by {
            if m.dom().contains(k) {
                let j = choose|j: int| 0 <= j < items@.len() && network_key()(items@[j]) == k;
                assert(same_network(res@[j], items@[j]));
            }
            if exists|j: int| 0 <= j < res@.len() && res@[j].network_id@ == k {
                let j = choose|j: int| 0 <= j < res@.len() && res@[j].network_id@ == k;
                assert(same_network(res@[j], items@[j]));
                assert(network_key()(items@[j]) == k);
            }
        }
        assert forall|j: int| 0 <= j < res@.len() implies same_network(#[trigger] res@[j], m[res@[j].network_id@]) by {
            assert(same_network(res@[j], items@[j]));
            assert(m[network_key()(items@[j])] == items@[j]);
        }
        assert forall|a: int, b: int| 0 <= a < res@.len() && 0 <= b < res@.len() && a != b implies network_key()(
            res@[a],
        ) != network_key()(res@[b]) by {
            assert(same_network(res@[a], items@[a]));
            assert(same_network(res@[b], items@[b]));
        }
    }
    res
}

/// A copy of the mappings, in order.
fn list_mappings(items: &Vec<CrossChainTransactionMapping>) -> (res: Vec<CrossChainTransactionMapping>)
    requires
        keys_distinct(items@, mapping_key()),
    ensures
        lists_mappings(res@, keyed(items@, mapping_key())),
        res@.len() == items@.len(),
{
    let mut res: Vec<CrossChainTransactionMapping> = Vec::new();
    let mut i: usize = 0;
    while i < items.len()
        invariant
            i <= items@.len(),
            res@.len() == i,
            forall|j: int| 0 <= j < i ==> same_mapping(#[trigger] res@[j], items@[j]),
        decreases items@.len() - i,
    {
        res.push(clone_mapping(&items[i]));
        i = i + 1;
    }
    proof {
        lemma_keyed_entries(items@, mapping_key());
        let m = keyed(items@, mapping_key());
        assert forall|k: Seq<char>| m.dom().contains(k) <==> exists|j: int|
            0 <= j < res@.len() && res@[j].mapping_id@ == k by {
            if m.dom().contains(k) {
                let j = choose|j: int| 0 <= j < items@.len() && mapping_key()(items@[j]) == k;
                assert(same_mapping(res@[j], items@[j]));
            }
            if exists|j: int| 0 <= j < res@.len() && res@[j].mapping_id@ == k {
                let j = choose|j: int| 0 <= j < res@.len() && res@[j].mapping_id@ == k;
                assert(same_mapping(res@[j], items@[j]));
                assert(mapping_key()(items@[j]) == k);
            }
        }
        assert forall|j: int| 0 <= j < res@.len() implies same_mapping(#[trigger] res@[j], m[res@[j].mapping_id@]) by {
            assert(same_mapping(res@[j], items@[j]));
            assert(m[mapping_key()(items@[j])] == items@[j]);
        }
        assert forall|a: int, b: int| 0 <= a < res@.len() && 0 <= b < res@.len() && a != b implies mapping_key()(
            res@[a],
        ) != mapping_key()(res@[b]) by {
            assert(same_mapping(res@[a], items@[a]));
            assert(same_mapping(res@[b], items@[b]));
        }
    }
    res
}

/// The privacy level that a privacy status stands for: maintained 100,
/// partial 50, lost 0, unknown 25.
pub fn privacy_level_of(status: PrivacyStatus) -> (res: u8)
    ensures
        res == status_level(status),
{
    match status {
        PrivacyStatus::Maintained => 100,
        PrivacyStatus::Partial => 50,
        PrivacyStatus::Lost => 0,
        PrivacyStatus::Unknown => 25,
    }
}

impl CrossChainPrivacyCoordinator {
    /// Verifies a cross-chain proof's structure against the supported
    /// networks.
    pub fn verify_cross_chain_privacy_proof(&self, proof: &CrossChainPrivacyProof) -> (res: Result<bool, PrivacyError>)
        requires
            self.well_formed(),
        ensures
            res == Ok::<bool, PrivacyError>(proof_accepted(self.networks(), *proof)),
    {
        if proof.proof_id.as_str().is_empty() || proof.cross_chain_tx_hash.as_str().is_empty() {
            return Ok(false);
        }
        if !self.supports(proof.destination_chain.as_str()) {
            return Ok(false);
        }
        if proof.privacy_proof_data.len() == 0 {
            return Ok(false);
        }
        if proof.metadata.privacy_level < 100 {
            return Ok(false);
        }
        Ok(true)
    }

    /// The supported networks, each once.
    pub fn get_supported_networks(&self) -> (res: Vec<BlockchainNetwork>)
        requires
            self.well_formed(),
        ensures
            lists_networks(res@, self.networks()),
    {
        list_networks(&self.supported_chains)
    }

    /// Supports a new network; a network with a known identifier is
    /// refused.
    pub fn add_network(&mut self, network: BlockchainNetwork) -> (res: Result<(), PrivacyError>)
        requires
            old(self).well_formed(),
        ensures
            final(self).well_formed(),
            final(self).proofs() == old(self).proofs(),
            final(self).mappings() == old(self).mappings(),
            final(self).bridge_stats() == old(self).bridge_stats(),
            old(self).networks().dom().contains(network.network_id@) ==> res == Err::<(), PrivacyError>(
                PrivacyError::NetworkExists,
            ) && final(self).networks() == old(self).networks() && final(self).metrics() == old(self).metrics(),
            !old(self).networks().dom().contains(network.network_id@) ==> {
                &&& res is Ok
                &&& final(self).networks() == old(self).networks().insert(network.network_id@, network)
                &&& final(self).metrics() == (CrossChainMetrics {
                    supported_networks_count: final(self).networks().len() as usize,
                    ..old(self).metrics()
                })
                &&& final(self).networks().len() == old(self).networks().len() + 1
            },
    {
        if self.supports(network.network_id.as_str()) {
            return Err(PrivacyError::NetworkExists);
        }
        let ghost old_chains = self.supported_chains@;
        proof {
            lemma_keyed_entries(old_chains, network_key());
            assert forall|i: int| 0 <= i < old_chains.len() implies network_key()(#[trigger] old_chains[i])
                != network_key()(network) by {
                if network_key()(old_chains[i]) == network_key()(network) {
                    assert(keyed(old_chains, network_key()).dom().contains(network.network_id@));
                }
            }
            lemma_keyed_push(old_chains, network_key(), network);
        }
        self.supported_chains.push(network);
        self.cross_chain_metrics.supported_networks_count = self.supported_chains.len();
        proof {
            lemma_keyed_entries(self.supported_chains@, network_key());
        }
        Ok(())
    }

    /// The coordinator's counters.
    pub fn get_cross_chain_metrics(&self) -> (res: Result<CrossChainMetrics, PrivacyError>)
        ensures
            res == Ok::<CrossChainMetrics, PrivacyError>(self.metrics()),
    {
        Ok(self.cross_chain_metrics)
    }

    /// The transaction mappings, each once.
    pub fn get_transaction_mappings(&self) -> (res: Result<Vec<CrossChainTransactionMapping>, PrivacyError>)
        requires
            self.well_formed(),
        ensures
            res matches Ok(v) && lists_mappings(v@, self.mappings()) && v@.len() == self.mappings().len(),
    {
        proof {
            lemma_keyed_entries(self.transaction_mappings@, mapping_key());
        }
        Ok(list_mappings(&self.transaction_mappings))
    }

    /// The bridge's counters.
    pub fn get_bridge_statistics(&self) -> (res: Result<BridgeStatistics, PrivacyError>)
        ensures
            res == Ok::<BridgeStatistics, PrivacyError>(self.bridge_stats()),
    {
        Ok(self.privacy_bridge.bridge_stats)
    }
}

/// Privacy analytics over the coordinator's cross-chain transactions.
pub struct CrossChainPrivacyAnalytics {
    analytics_data: CrossChainAnalyticsData,
}

/// What the analytics gathered: transactions per privacy level, per
/// destination chain (popularity and volume), and one trend entry per
/// analysis.
pub struct CrossChainAnalyticsData {
    /// Transactions counted per privacy level; each level once.
    pub privacy_level_distribution: Vec<(u8, u64)>,
    /// Transactions counted per destination chain; each chain once.
    pub chain_popularity: Vec<(String, u64)>,
    /// One entry per analysis.
    pub privacy_trends: Vec<PrivacyTrend>,
    /// Transactions counted per destination chain; each chain once.
    pub cross_chain_volume: Vec<(String, u64)>,
}

/// A trend entry.
#[derive(Debug, Clone, Copy, PartialEq, Eq, Structural)]
pub struct PrivacyTrend {
    /// When the analysis ran, in seconds since the Unix epoch.
    pub timestamp: u64,
    /// The privacy levels of the distribution, each times its count,
    /// summed; over the transaction count this is the average level.
    pub privacy_level_total: u128,
    /// Transactions the coordinator held.
    pub transaction_count: u64,
}

/// A level of some privacy status.
pub open spec fn is_status_level(l: u8) -> bool {
    l == 0 || l == 25 || l == 50 || l == 100
}

/// Levels occur once in a distribution.
pub open spec fn level_keys_distinct(d: Seq<(u8, u64)>) -> bool {
    forall|i: int, j: int| 0 <= i < d.len() && 0 <= j < d.len() && i != j ==> d[i].0 != d[j].0
}

/// The count under level `l`, or zero.
pub open spec fn level_tally(d: Seq<(u8, u64)>, l: u8) -> nat {
    if exists|i: int| 0 <= i < d.len() && d[i].0 == l {
        d[choose|i: int| 0 <= i < d.len() && d[i].0 == l].1 as nat
    } else {
        0
    }
}

/// Chains occur once in a tally.
pub open spec fn chain_keys_distinct(d: Seq<(String, u64)>) -> bool {
    forall|i: int, j: int| 0 <= i < d.len() && 0 <= j < d.len() && i != j ==> d[i].0@ != d[j].0@
}

/// The count under chain `c`, or zero.
pub open spec fn chain_tally(d: Seq<(String, u64)>, c: Seq<char>) -> nat {
    if exists|i: int| 0 <= i < d.len() && d[i].0@ == c {
        d[choose|i: int| 0 <= i < d.len() && d[i].0@ == c].1 as nat
    } else {
        0
    }
}

/// The views of a chain tally.
pub open spec fn chain_views(d: Seq<(String, u64)>) -> Seq<(Seq<char>, u64)> {
    d.map_values(|p: (String, u64)| (p.0@, p.1))
}

/// The mappings whose privacy status has level `l`.
pub open spec fn level_count(ms: Seq<CrossChainTransactionMapping>, l: u8) -> nat
    decreases ms.len(),
{
    if ms.len() == 0 {
        0
    } else {
        level_count(ms.drop_last(), l) + if status_level(ms.last().privacy_status) == l {
            1nat
        } else {
            0nat
        }
    }
}

/// The mappings whose destination is chain `c`.
pub open spec fn chain_count(ms: Seq<CrossChainTransactionMapping>, c: Seq<char>) -> nat
    decreases ms.len(),
{
    if ms.len() == 0 {
        0
    } else {
        chain_count(ms.drop_last(), c) + if ms.last().destination_chain@ == c {
            1nat
        } else {
            0nat
        }
    }
}

/// Each level times its count, summed.
pub open spec fn weighted_levels(d: Seq<(u8, u64)>) -> nat
    decreases d.len(),
{
    if d.len() == 0 {
        0
    } else {
        weighted_levels(d.drop_last()) + (d.last().0 as nat) * (d.last().1 as nat)
    }
}

/// `new` counts one more under `k` than `old` and the same elsewhere.
pub open spec fn level_bumped(old: Seq<(u8, u64)>, new: Seq<(u8, u64)>, l: u8) -> bool {
    forall|k: u8| #[trigger] level_tally(new, k) == level_tally(old, k) + if k == l {
        1nat
    } else {
        0nat
    }
}

/// `new` counts one more under `c` than `old` and the same elsewhere.
pub open spec fn chain_bumped(old: Seq<(String, u64)>, new: Seq<(String, u64)>, c: Seq<char>) -> bool {
    forall|k: Seq<char>| #[trigger] chain_tally(new, k) == chain_tally(old, k) + if k == c {
        1nat
    } else {
        0nat
    }
}

/// A distribution of distinct status levels has at most four entries.
proof fn lemma_at_most_four_levels(d: Seq<(u8, u64)>)
    requires
        level_keys_distinct(d),
        forall|i: int| 0 <= i < d.len() ==> is_status_level(#[trigger] d[i].0),
    ensures
        d.len() <= 4,
{
    if d.len() >= 5 {
        assert(is_status_level(d[0].0) && is_status_level(d[1].0) && is_status_level(d[2].0));
        assert(is_status_level(d[3].0) && is_status_level(d[4].0));
        assert(d[0].0 != d[1].0 && d[0].0 != d[2].0 && d[0].0 != d[3].0 && d[0].0 != d[4].0);
        assert(d[1].0 != d[2].0 && d[1].0 != d[3].0 && d[1].0 != d[4].0);
        assert(d[2].0 != d[3].0 && d[2].0 != d[4].0 && d[3].0 != d[4].0);
    }
}

/// Counts one more transaction at level `l`.
fn bump_level(d: &mut Vec<(u8, u64)>, l: u8)
    requires
        level_keys_distinct(old(d)@),
        level_tally(old(d)@, l) < u64::MAX,
    ensures
        level_keys_distinct(final(d)@),
        level_bumped(old(d)@, final(d)@, l),
        forall|i: int| 0 <= i < final(d)@.len() ==> (#[trigger] final(d)@[i]).0 == l || old(d)@.contains(final(d)@[i]),
{
    let ghost o = d@;
    let mut i: usize = 0;
    while i < d.len()
        invariant
            i <= d@.len(),
            d@ == o,
            forall|j: int| 0 <= j < i ==> d@[j].0 != l,
            level_keys_distinct(o),
            level_tally(o, l) < u64::MAX,
            o == old(d)@,
        decreases d@.len() - i,
    {
        if d[i].0 == l {
            let v = d[i].1;
            proof {
                assert(o[i as int].0 == l);
                let j = choose|j: int| 0 <= j < o.len() && o[j].0 == l;
                assert(j == i);
            }
            d.set(i, (l, v + 1));
            proof {
                assert forall|k: u8| #[trigger] level_tally(d@, k) == level_tally(o, k) + if k == l {
                    1nat
                } else {
                    0nat
                } by {
                    if exists|j: int| 0 <= j < o.len() && o[j].0 == k {
                        let j = choose|j: int| 0 <= j < o.len() && o[j].0 == k;
                        assert(d@[j].0 == k);
                        let j2 = choose|j2: int| 0 <= j2 < d@.len() && d@[j2].0 == k;
                        assert(j2 == j);
                    } else {
                        assert(k != l);
                        assert(!exists|j: int| 0 <= j < d@.len() && d@[j].0 == k) by {
                            if exists|j: int| 0 <= j < d@.len() && d@[j].0 == k {
                                let j = choose|j: int| 0 <= j < d@.len() && d@[j].0 == k;
                                assert(o[j].0 == k);
                            }
                        }
                    }
                }
                assert forall|j: int| 0 <= j < d@.len() implies (#[trigger] d@[j]).0 == l || o.contains(d@[j]) by {
                    if j != i {
                        assert(o[j] == d@[j]);
                    }
                }
            }
            return;
        }
        i = i + 1;
    }
    d.push((l, 1));
    proof {
        assert forall|k: u8| #[trigger] level_tally(d@, k) == level_tally(o, k) + if k == l {
            1nat
        } else {
            0nat
        } by {
            let n = o.len() as int;
            if k == l {
                assert(d@[n].0 == l);
                let j2 = choose|j2: int| 0 <= j2 < d@.len() && d@[j2].0 == k;
                assert(j2 == n);
            } else if exists|j: int| 0 <= j < o.len() && o[j].0 == k {
                let j = choose|j: int| 0 <= j < o.len() && o[j].0 == k;
                assert(d@[j].0 == k);
                let j2 = choose|j2: int| 0 <= j2 < d@.len() && d@[j2].0 == k;
                assert(j2 == j);
            } else {
                assert(!exists|j: int| 0 <= j < d@.len() && d@[j].0 == k) by {
                    if exists|j: int| 0 <= j < d@.len() && d@[j].0 == k {
                        let j = choose|j: int| 0 <= j < d@.len() && d@[j].0 == k;
                        assert(o[j].0 == k);
                    }
                }
            }
        }
        assert forall|j: int| 0 <= j < d@.len() implies (#[trigger] d@[j]).0 == l || o.contains(d@[j]) by {
            if j < o.len() {
                assert(o[j] == d@[j]);
            }
        }
    }
}

/// Counts one more transaction to chain `c`.
fn bump_chain(d: &mut Vec<(String, u64)>, c: &str)
    requires
        chain_keys_distinct(old(d)@),
        chain_tally(old(d)@, c@) < u64::MAX,
    ensures
        chain_keys_distinct(final(d)@),
        chain_bumped(old(d)@, final(d)@, c@),
{
    let ghost o = d@;
    let mut i: usize = 0;
    while i < d.len()
        invariant
            i <= d@.len(),
            d@ == o,
            forall|j: int| 0 <= j < i ==> d@[j].0@ != c@,
            chain_keys_distinct(o),
            chain_tally(o, c@) < u64::MAX,
            o == old(d)@,
        decreases d@.len() - i,
    {
        if str_equal(d[i].0.as_str(), c) {
            let v = d[i].1;
            proof {
                assert(o[i as int].0@ == c@);
                let j = choose|j: int| 0 <= j < o.len() && o[j].0@ == c@;
                assert(j == i);
            }
            let name = owned(c);
            d.set(i, (name, v + 1));
            proof {
                assert forall|k: Seq<char>| #[trigger] chain_tally(d@, k) == chain_tally(o, k) + if k == c@ {
                    1nat
                } else {
                    0nat
                } by {
                    if exists|j: int| 0 <= j < o.len() && o[j].0@ == k {
                        let j = choose|j: int| 0 <= j < o.len() && o[j].0@ == k;
                        assert(d@[j].0@ == k);
                        let j2 = choose|j2: int| 0 <= j2 < d@.len() && d@[j2].0@ == k;
                        assert(j2 == j);
                    } else {
                        assert(!exists|j: int| 0 <= j < d@.len() && d@[j].0@ == k) by {
                            if exists|j: int| 0 <= j < d@.len() && d@[j].0@ == k {
                                let j = choose|j: int| 0 <= j < d@.len() && d@[j].0@ == k;
                                assert(o[j].0@ == k);
                            }
                        }
                    }
                }
            }
            return;
        }
        i = i + 1;
    }
    let name = owned(c);
    d.push((name, 1));
    proof {
        assert forall|k: Seq<char>| #[trigger] chain_tally(d@, k) == chain_tally(o, k) + if k == c@ {
            1nat
        } else {
            0nat
        } by {
            let n = o.len() as int;
            if k == c@ {
                assert(d@[n].0@ == k);
                let j2 = choose|j2: int| 0 <= j2 < d@.len() && d@[j2].0@ == k;
                assert(j2 == n);
            } else if exists|j: int| 0 <= j < o.len() && o[j].0@ == k {
                let j = choose|j: int| 0 <= j < o.len() && o[j].0@ == k;
                assert(d@[j].0@ == k);
                let j2 = choose|j2: int| 0 <= j2 < d@.len() && d@[j2].0@ == k;
                assert(j2 == j);
            } else {
                assert(!exists|j: int| 0 <= j < d@.len() && d@[j].0@ == k) by {
                    if exists|j: int| 0 <= j < d@.len() && d@[j].0@ == k {
                        let j = choose|j: int| 0 <= j < d@.len() && d@[j].0@ == k;
                        assert(o[j].0@ == k);
                    }
                }
            }
        }
    }
}

/// A copy of a chain tally.
fn copy_chain_tally(v: &Vec<(String, u64)>) -> (res: Vec<(String, u64)>)
    ensures
        chain_views(res@) == chain_views(v@),
{
    let mut res: Vec<(String, u64)> = Vec::new();
    let mut i: usize = 0;
    while i < v.len()
        invariant
            i <= v@.len(),
            chain_views(res@) == chain_views(v@).take(i as int),
        decreases v@.len() - i,
    {
        let a = v[i].0.clone();
        let n = v[i].1;
        let ghost before = res@;
        res.push((a, n));
        assert(res@ == before.push((a, n)));
        assert(chain_views(res@) =~= chain_views(before).push((a@, n)));
        i = i + 1;
        assert(chain_views(res@) =~= chain_views(v@).take(i as int));
    }
    assert(chain_views(v@).take(v@.len() as int) =~= chain_views(v@));
    res
}

/// No more mappings have a level, or a destination, than there are
/// mappings.
proof fn lemma_counts_bounded(ms: Seq<CrossChainTransactionMapping>, l: u8, c: Seq<char>)
    ensures
        level_count(ms, l) <= ms.len(),
        chain_count(ms, c) <= ms.len(),
    decreases ms.len(),
{
    if ms.len() > 0 {
        lemma_counts_bounded(ms.drop_last(), l, c);
    }
}

impl CrossChainPrivacyAnalytics {
    /// Levels and chains occur once in their tallies, and every level is
    /// that of some privacy status.
    pub closed spec fn well_formed(&self) -> bool {
        &&& level_keys_distinct(self.analytics_data.privacy_level_distribution@)
        &&& forall|i: int|
            0 <= i < self.analytics_data.privacy_level_distribution@.len() ==> is_status_level(
                #[trigger] self.analytics_data.privacy_level_distribution@[i].0,
            )
        &&& chain_keys_distinct(self.analytics_data.chain_popularity@)
        &&& chain_keys_distinct(self.analytics_data.cross_chain_volume@)
    }

    /// The distribution of privacy levels.
    pub closed spec fn spec_levels(&self) -> Seq<(u8, u64)> {
        self.analytics_data.privacy_level_distribution@
    }

    /// The popularity of destination chains.
    pub closed spec fn spec_popularity(&self) -> Seq<(String, u64)> {
        self.analytics_data.chain_popularity@
    }

    /// The volume per destination chain.
    pub closed spec fn spec_volume(&self) -> Seq<(String, u64)> {
        self.analytics_data.cross_chain_volume@
    }

    /// The trend entries.
    pub closed spec fn spec_trends(&self) -> Seq<PrivacyTrend> {
        self.analytics_data.privacy_trends@
    }

    /// Every count is at most `bound`.
    pub closed spec fn counts_at_most(&self, bound: int) -> bool {
        &&& forall|i: int|
            0 <= i < self.analytics_data.privacy_level_distribution@.len()
                ==> #[trigger] self.analytics_data.privacy_level_distribution@[i].1 <= bound
        &&& forall|i: int|
            0 <= i < self.analytics_data.chain_popularity@.len() ==> #[trigger] self.analytics_data.chain_popularity@[i].1
                <= bound
        &&& forall|i: int|
            0 <= i < self.analytics_data.cross_chain_volume@.len() ==> #[trigger] self.analytics_data.cross_chain_volume@[i].1
                <= bound
    }

    /// Analytics that have counted nothing.
    pub fn new() -> (res: Self)
        ensures
            res.well_formed(),
            res.spec_levels().len() == 0,
            res.spec_popularity().len() == 0,
            res.spec_volume().len() == 0,
            res.spec_trends().len() == 0,
    {
        CrossChainPrivacyAnalytics {
            analytics_data: CrossChainAnalyticsData {
                privacy_level_distribution: Vec::new(),
                chain_popularity: Vec::new(),
                privacy_trends: Vec::new(),
                cross_chain_volume: Vec::new(),
            },
        }
    }

    /// Counts each of the coordinator's transaction mappings under its
    /// privacy level and, for popularity and for volume, under its
    /// destination chain; then adds a trend entry with the time, the
    /// levels of the whole distribution weighted by their counts, and the
    /// number of mappings; and answers a copy of all that was gathered. The
    /// counts go on from earlier analyses. Where the clock stands before
    /// the Unix epoch, the counting is done but no trend entry is added and
    /// the error is reported.
    pub fn analyze_privacy_data(&mut self, coordinator: &CrossChainPrivacyCoordinator) -> (res: Result<
        CrossChainAnalyticsData,
        PrivacyError,
    >)
        requires
            old(self).well_formed(),
            coordinator.well_formed(),
            old(self).counts_at_most(u64::MAX - coordinator.mappings().len()),
        ensures
            final(self).well_formed(),
            exists|ms: Seq<CrossChainTransactionMapping>|
                {
                    &&& lists_mappings(ms, coordinator.mappings())
                    &&& forall|l: u8| #[trigger]
                        level_tally(final(self).spec_levels(), l) == level_tally(old(self).spec_levels(), l)
                            + level_count(ms, l)
                    &&& forall|c: Seq<char>| #[trigger]
                        chain_tally(final(self).spec_popularity(), c) == chain_tally(old(self).spec_popularity(), c)
                            + chain_count(ms, c)
                    &&& forall|c: Seq<char>| #[trigger]
                        chain_tally(final(self).spec_volume(), c) == chain_tally(old(self).spec_volume(), c)
                            + chain_count(ms, c)
                    &&& res is Ok ==> {
                        &&& final(self).spec_trends().len() == old(self).spec_trends().len() + 1
                        &&& final(self).spec_trends().take(old(self).spec_trends().len() as int)
                            == old(self).spec_trends()
                        &&& final(self).spec_trends().last().privacy_level_total == weighted_levels(
                            final(self).spec_levels(),
                        )
                        &&& final(self).spec_trends().last().transaction_count == ms.len()
                    }
                },
            res is Err ==> res == Err::<CrossChainAnalyticsData, PrivacyError>(PrivacyError::ClockError)
                && final(self).spec_trends() == old(self).spec_trends(),
            res matches Ok(data) ==> {
                &&& data.privacy_level_distribution@ == final(self).spec_levels()
                &&& chain_views(data.chain_popularity@) == chain_views(final(self).spec_popularity())
                &&& data.privacy_trends@ == final(self).spec_trends()
                &&& chain_views(data.cross_chain_volume@) == chain_views(final(self).spec_volume())
            },
    {
        let mappings = match coordinator.get_transaction_mappings() {
            Ok(v) => v,
            Err(e) => return Err(e),
        };
        let count = mappings.len();
        let ghost ms = mappings@;
        let ghost n = ms.len();
        assert(n == count);
        let ghost levels0 = self.analytics_data.privacy_level_distribution@;
        let ghost pop0 = self.analytics_data.chain_popularity@;
        let ghost vol0 = self.analytics_data.cross_chain_volume@;
        proof {
            assert forall|l: u8| #[trigger] level_tally(levels0, l) <= u64::MAX - n by {
                if exists|i: int| 0 <= i < levels0.len() && levels0[i].0 == l {
                    let i = choose|i: int| 0 <= i < levels0.len() && levels0[i].0 == l;
                    assert(levels0[i].1 <= u64::MAX - n);
                }
            }
            assert forall|c: Seq<char>| #[trigger] chain_tally(pop0, c) <= u64::MAX - n by {
                if exists|i: int| 0 <= i < pop0.len() && pop0[i].0@ == c {
                    let i = choose|i: int| 0 <= i < pop0.len() && pop0[i].0@ == c;
                    assert(pop0[i].1 <= u64::MAX - n);
                }
            }
            assert forall|c: Seq<char>| #[trigger] chain_tally(vol0, c) <= u64::MAX - n by {
                if exists|i: int| 0 <= i < vol0.len() && vol0[i].0@ == c {
                    let i = choose|i: int| 0 <= i < vol0.len() && vol0[i].0@ == c;
                    assert(vol0[i].1 <= u64::MAX - n);
                }
            }
        }
        let mut i: usize = 0;
        while i < mappings.len()
            invariant
                i <= n,
                n == mappings@.len(),
                ms == mappings@,
                level_keys_distinct(self.analytics_data.privacy_level_distribution@),
                forall|j: int|
                    0 <= j < self.analytics_data.privacy_level_distribution@.len() ==> is_status_level(
                        #[trigger] self.analytics_data.privacy_level_distribution@[j].0,
                    ),
                chain_keys_distinct(self.analytics_data.chain_popularity@),
                chain_keys_distinct(self.analytics_data.cross_chain_volume@),
                forall|l: u8| #[trigger] level_tally(levels0, l) <= u64::MAX - n,
                forall|c: Seq<char>| #[trigger] chain_tally(pop0, c) <= u64::MAX - n,
                forall|c: Seq<char>| #[trigger] chain_tally(vol0, c) <= u64::MAX - n,
                forall|l: u8| #[trigger]
                    level_tally(self.analytics_data.privacy_level_distribution@, l) == level_tally(levels0, l)
                        + level_count(ms.take(i as int), l),
                forall|c: Seq<char>| #[trigger]
                    chain_tally(self.analytics_data.chain_popularity@, c) == chain_tally(pop0, c) + chain_count(
                        ms.take(i as int),
                        c,
                    ),
                forall|c: Seq<char>| #[trigger]
                    chain_tally(self.analytics_data.cross_chain_volume@, c) == chain_tally(vol0, c) + chain_count(
                        ms.take(i as int),
                        c,
                    ),
                self.analytics_data.privacy_trends@ == old(self).analytics_data.privacy_trends@,
            decreases n - i,
        {
            let m = &mappings[i];
            let level = privacy_level_of(m.privacy_status);
            let ghost lv = self.analytics_data.privacy_level_distribution@;
            let ghost pv = self.analytics_data.chain_popularity@;
            let ghost vv = self.analytics_data.cross_chain_volume@;
            proof {
                assert(ms.take(i + 1).drop_last() =~= ms.take(i as int));
                assert(ms.take(i + 1).last() == ms[i as int]);
                lemma_counts_bounded(ms.take(i as int), level, m.destination_chain@);
                assert(level_tally(levels0, level) <= u64::MAX - n);
                assert(chain_tally(pop0, m.destination_chain@) <= u64::MAX - n);
                assert(chain_tally(vol0, m.destination_chain@) <= u64::MAX - n);
                assert(level_tally(lv, level) == level_tally(levels0, level) + level_count(ms.take(i as int), level));
            }
            bump_level(&mut self.analytics_data.privacy_level_distribution, level);
            bump_chain(&mut self.analytics_data.chain_popularity, m.destination_chain.as_str());
            bump_chain(&mut self.analytics_data.cross_chain_volume, m.destination_chain.as_str());
            proof {
                let nl = self.analytics_data.privacy_level_distribution@;
                assert forall|j: int| 0 <= j < nl.len() implies is_status_level(#[trigger] nl[j].0) by {
                    if nl[j].0 != level {
                        assert(lv.contains(nl[j]));
                        let t = choose|t: int| 0 <= t < lv.len() && lv[t] == nl[j];
                        assert(is_status_level(lv[t].0));
                    }
                }
                assert forall|l: u8| #[trigger] level_tally(nl, l) == level_tally(levels0, l) + level_count(
                    ms.take(i + 1),
                    l,
                ) by {
                    assert(level_tally(nl, l) == level_tally(lv, l) + if l == level {
                        1nat
                    } else {
                        0nat
                    });
                    assert(level_tally(lv, l) == level_tally(levels0, l) + level_count(ms.take(i as int), l));
                }
                let np = self.analytics_data.chain_popularity@;
                assert forall|c: Seq<char>| #[trigger] chain_tally(np, c) == chain_tally(pop0, c) + chain_count(
                    ms.take(i + 1),
                    c,
                ) by {
                    assert(chain_tally(np, c) == chain_tally(pv, c) + if c == m.destination_chain@ {
                        1nat
                    } else {
                        0nat
                    });
                    assert(chain_tally(pv, c) == chain_tally(pop0, c) + chain_count(ms.take(i as int), c));
                }
                let nv = self.analytics_data.cross_chain_volume@;
                assert forall|c: Seq<char>| #[trigger] chain_tally(nv, c) == chain_tally(vol0, c) + chain_count(
                    ms.take(i + 1),
                    c,
                ) by {
                    assert(chain_tally(nv, c) == chain_tally(vv, c) + if c == m.destination_chain@ {
                        1nat
                    } else {
                        0nat
                    });
                    assert(chain_tally(vv, c) == chain_tally(vol0, c) + chain_count(ms.take(i as int), c));
                }
            }
            i = i + 1;
        }
        proof {
            assert(ms.take(n as int) =~= ms);
        }
        let total = weighted_level_total(&self.analytics_data.privacy_level_distribution);
        let now = match unix_time_secs() {
            Some(t) => t,
            None => return Err(PrivacyError::ClockError),
        };
        let ghost trends0 = self.analytics_data.privacy_trends@;
        self.analytics_data.privacy_trends.push(
            PrivacyTrend { timestamp: now, privacy_level_total: total, transaction_count: mappings.len() as u64 },
        );
        proof {
            assert(self.analytics_data.privacy_trends@.take(trends0.len() as int) =~= trends0);
        }
        let data = CrossChainAnalyticsData {
            privacy_level_distribution: crate::privacy_monitoring::copy_list(
                &self.analytics_data.privacy_level_distribution,
            ),
            chain_popularity: copy_chain_tally(&self.analytics_data.chain_popularity),
            privacy_trends: crate::privacy_monitoring::copy_list(&self.analytics_data.privacy_trends),
            cross_chain_volume: copy_chain_tally(&self.analytics_data.cross_chain_volume),
        };
        Ok(data)
    }
}

/// The levels of a distribution of status levels weighted by their counts.
fn weighted_level_total(d: &Vec<(u8, u64)>) -> (res: u128)
    requires
        level_keys_distinct(d@),
        forall|i: int| 0 <= i < d@.len() ==> is_status_level(#[trigger] d@[i].0),
    ensures
        res == weighted_levels(d@),
{
    proof {
        lemma_at_most_four_levels(d@);
    }
    let mut total: u128 = 0;
    let mut i: usize = 0;
    while i < d.len()
        invariant
            i <= d@.len(),
            d@.len() <= 4,
            total == weighted_levels(d@.take(i as int)),
            total <= i * 255 * (u64::MAX as nat),
        decreases d@.len() - i,
    {
        proof {
            assert(d@.take(i + 1).drop_last() =~= d@.take(i as int));
            let a = d@[i as int].0 as nat;
            let b = d@[i as int].1 as nat;
            assert(a * b <= 255 * (u64::MAX as nat)) by (nonlinear_arith)
                requires
                    a <= 255,
                    b <= u64::MAX,
            ;
        }
        total = total + (d[i].0 as u128) * (d[i].1 as u128);
        i = i + 1;
    }
    assert(d@.take(d@.len() as int) =~= d@);
    total
}

} // verus!
