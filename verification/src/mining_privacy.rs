//! Private merge-mining rewards: committed rewards with anonymity sets, and
//! anonymous claims guarded by a nullifier set against double claiming.
use vstd::prelude::*;
use vstd::string::*;
use vstd::utf8::*;
use crate::crypto::{hex_encode, hex_lower, lemma_hex_lower_shape, sha256, sha256_spec, unix_time_secs};
use crate::error::PrivacyError;
use crate::text::{extend_bytes, extend_str_bytes, le_bytes_u32, le_bytes_u64, owned, str_equal, u32_le_bytes, u64_le_bytes};

verus! {

/// A private mining reward.
#[derive(Debug, Clone)]
pub struct PrivateMiningReward {
    /// Commitment to the reward amount.
    pub reward_commitment: String,
    /// Proof of mining work.
    pub mining_proof: String,
    /// Anonymity set for mixing.
    pub anonymity_set: Vec<String>,
    /// Proof of the reward claim.
    pub claim_proof: String,
    /// Reward time, seconds since the Unix epoch.
    pub timestamp: u64,
    /// Hash of the mined block.
    pub block_hash: String,
}

/// Mining privacy configuration.
#[derive(Debug, Clone, Copy)]
pub struct MiningPrivacyConfig {
    /// Rewards are private.
    pub private_rewards: bool,
    /// Rewards are mixed.
    pub reward_mixing: bool,
    /// Size of each anonymity set.
    pub anonymity_set_size: u32,
    /// Number of mixing rounds.
    pub mixing_rounds: u8,
    /// Privacy level, 0 to 255.
    pub privacy_level: u8,
    /// Zero-knowledge proofs are used.
    pub zero_knowledge_proofs: bool,
}

/// An anonymous reward claim.
#[derive(Debug, Clone)]
pub struct AnonymousRewardClaim {
    /// Commitment to the claimed amount; it is also the claim's nullifier.
    pub claim_commitment: String,
    /// Proof of anonymity.
    pub anonymity_proof: String,
    /// Proof of reward ownership.
    pub reward_proof: String,
    /// Proof of mixing.
    pub mixing_proof: String,
}

/// The mining privacy engine: stored rewards and spent nullifiers.
pub struct MiningPrivacyEngine {
    config: MiningPrivacyConfig,
    reward_commitments: Vec<PrivateMiningReward>,
    anonymity_sets: Vec<Vec<String>>,
    nullifier_set: Vec<String>,
}

/// Privacy statistics of the engine.
#[derive(Debug, Clone, Copy)]
pub struct PrivacyStats {
    /// Number of stored rewards (distinct commitments).
    pub total_rewards: u64,
    /// Number of accepted claims.
    pub total_claims: u64,
    /// Configured anonymity set size.
    pub anonymity_set_size: u32,
    /// Configured privacy level.
    pub privacy_level: u8,
    /// Whether rewards are mixed.
    pub mixing_enabled: bool,
}

/// Privacy configuration for merge mining.
#[derive(Debug, Clone, Copy)]
pub struct MergeMiningPrivacyConfig {
    /// Mining privacy configuration.
    pub mining_privacy: MiningPrivacyConfig,
    /// Fuego-side privacy.
    pub fuego_privacy: bool,
    /// C0DL3-side privacy.
    pub c0dl3_privacy: bool,
    /// Cross-chain privacy.
    pub cross_chain_privacy: bool,
}

/// Hex of the SHA-256 digest of some bytes.
pub open spec fn hex_sha(data: Seq<u8>) -> Seq<char> {
    hex_lower(sha256_spec(data))
}

/// The UTF-8 bytes of a list of strings, one after the other.
pub open spec fn concat_utf8(items: Seq<Seq<char>>) -> Seq<u8>
    decreases items.len(),
{
    if items.len() == 0 {
        Seq::empty()
    } else {
        concat_utf8(items.drop_last()) + encode_utf8(items.last())
    }
}

/// The views of a list of strings.
pub open spec fn views(items: Seq<String>) -> Seq<Seq<char>> {
    items.map_values(|s: String| s@)
}

/// The reward commitment: hex SHA-256 of amount, block hash and privacy level.
pub open spec fn reward_commitment_spec(amount: u64, block_hash: Seq<char>, privacy_level: u8) -> Seq<char> {
    hex_sha(le_bytes_u64(amount) + encode_utf8(block_hash) + seq![privacy_level])
}

/// The claim proof: hex SHA-256 of amount, commitment and `claim_proof`.
pub open spec fn claim_proof_spec(amount: u64, commitment: Seq<char>) -> Seq<char> {
    hex_sha(le_bytes_u64(amount) + encode_utf8(commitment) + "claim_proof".spec_bytes())
}

/// Member `i` of an anonymity set made at time `t`.
pub open spec fn anonymity_member_spec(i: u32, t: u64) -> Seq<char> {
    hex_sha(le_bytes_u32(i) + le_bytes_u64(t))
}

/// `m` is member `i` of an anonymity set made at some time.
pub open spec fn is_anonymity_member(m: Seq<char>, i: int) -> bool {
    exists|t: u64| m == #[trigger] anonymity_member_spec(i as u32, t)
}

/// The anonymity proof over a set.
pub open spec fn anonymity_proof_spec(set: Seq<Seq<char>>) -> Seq<char> {
    hex_sha(concat_utf8(set) + "anonymity_proof".spec_bytes())
}

/// The reward proof over a reward's commitment, mining proof and block.
pub open spec fn reward_proof_spec(r: PrivateMiningReward) -> Seq<char> {
    hex_sha(
        encode_utf8(r.reward_commitment@) + encode_utf8(r.mining_proof@) + encode_utf8(r.block_hash@)
            + "reward_proof".spec_bytes(),
    )
}

/// The mixing proof over a set and the number of mixing rounds.
pub open spec fn mixing_proof_spec(set: Seq<Seq<char>>, rounds: u8) -> Seq<char> {
    hex_sha(concat_utf8(set) + seq![rounds] + "mixing_proof".spec_bytes())
}

/// The claim commitment of an amount made at time `t`.
pub open spec fn claim_commitment_spec(amount: u64, t: u64) -> Seq<char> {
    hex_sha(le_bytes_u64(amount) + le_bytes_u64(t) + "claim_commitment".spec_bytes())
}

/// The shape check of a claim proof: exactly 64 bytes.
pub open spec fn proof_shape_ok(p: Seq<char>) -> bool {
    encode_utf8(p).len() == 64
}

/// A claim is accepted against a set of spent nullifiers when its three
/// proofs pass the shape check and its commitment has not been spent.
pub open spec fn claim_accepted(nullifiers: Set<Seq<char>>, claim: AnonymousRewardClaim) -> bool {
    &&& proof_shape_ok(claim.anonymity_proof@)
    &&& proof_shape_ok(claim.reward_proof@)
    &&& proof_shape_ok(claim.mixing_proof@)
    &&& !nullifiers.contains(claim.claim_commitment@)
}

/// The stored rewards as a map from commitment to reward.
pub open spec fn reward_map(rewards: Seq<PrivateMiningReward>) -> Map<Seq<char>, PrivateMiningReward>
    decreases rewards.len(),
{
    if rewards.len() == 0 {
        Map::empty()
    } else {
        reward_map(rewards.drop_last()).insert(rewards.last().reward_commitment@, rewards.last())
    }
}

/// No string occurs twice.
pub open spec fn no_duplicates(items: Seq<Seq<char>>) -> bool {
    forall|i: int, j: int| 0 <= i < items.len() && 0 <= j < items.len() && i != j ==> items[i] != items[j]
}

/// Two rewards hold the same values.
pub open spec fn same_reward(a: PrivateMiningReward, b: PrivateMiningReward) -> bool {
    &&& a.reward_commitment@ == b.reward_commitment@
    &&& a.mining_proof@ == b.mining_proof@
    &&& views(a.anonymity_set@) == views(b.anonymity_set@)
    &&& a.claim_proof@ == b.claim_proof@
    &&& a.timestamp == b.timestamp
    &&& a.block_hash@ == b.block_hash@
}

impl MiningPrivacyConfig {
    /// The default configuration: private, mixed rewards with anonymity sets
    /// of 100, 3 mixing rounds, privacy level 128 and zero-knowledge proofs.
    pub fn default() -> (res: Self)
        ensures
            res == (MiningPrivacyConfig {
                private_rewards: true,
                reward_mixing: true,
                anonymity_set_size: 100,
                mixing_rounds: 3,
                privacy_level: 128,
                zero_knowledge_proofs: true,
            }),
    {
        MiningPrivacyConfig {
            private_rewards: true,
            reward_mixing: true,
            anonymity_set_size: 100,
            mixing_rounds: 3,
            privacy_level: 128,
            zero_knowledge_proofs: true,
        }
    }
}

impl MergeMiningPrivacyConfig {
    /// The default merge-mining configuration: default mining privacy and
    /// privacy on both chains and across them.
    pub fn default() -> (res: Self)
        ensures
            res.mining_privacy == MiningPrivacyConfig::default_spec(),
            res.fuego_privacy && res.c0dl3_privacy && res.cross_chain_privacy,
    {
        MergeMiningPrivacyConfig {
            mining_privacy: MiningPrivacyConfig::default(),
            fuego_privacy: true,
            c0dl3_privacy: true,
            cross_chain_privacy: true,
        }
    }
}

impl MiningPrivacyConfig {
    /// The default configuration, as a value.
    pub open spec fn default_spec() -> MiningPrivacyConfig {
        MiningPrivacyConfig {
            private_rewards: true,
            reward_mixing: true,
            anonymity_set_size: 100,
            mixing_rounds: 3,
            privacy_level: 128,
            zero_knowledge_proofs: true,
        }
    }
}

impl MiningPrivacyEngine {
    /// The engine's configuration.
    pub closed spec fn config_view(&self) -> MiningPrivacyConfig {
        self.config
    }

    /// The spent nullifiers.
    pub closed spec fn nullifiers(&self) -> Set<Seq<char>> {
        views(self.nullifier_set@).to_set()
    }

    /// The stored rewards, by commitment.
    pub closed spec fn rewards(&self) -> Map<Seq<char>, PrivateMiningReward> {
        reward_map(self.reward_commitments@)
    }

    /// Stored rewards have distinct commitments; nullifiers occur once.
    pub closed spec fn well_formed(&self) -> bool {
        &&& no_duplicates(views(self.nullifier_set@))
        &&& no_duplicates(self.reward_commitments@.map_values(|r: PrivateMiningReward| r.reward_commitment@))
    }

    /// An engine with no rewards and no spent nullifiers.
    pub fn new(config: MiningPrivacyConfig) -> (res: Self)
        ensures
            res.well_formed(),
            res.config_view() == config,
            res.nullifiers() == Set::<Seq<char>>::empty(),
            res.rewards() == Map::<Seq<char>, PrivateMiningReward>::empty(),
    {
        let res = MiningPrivacyEngine {
            config,
            reward_commitments: Vec::new(),
            anonymity_sets: Vec::new(),
            nullifier_set: Vec::new(),
        };
        assert(views(res.nullifier_set@).to_set() =~= Set::empty());
        res
    }

    /// Creates and stores a private reward: a commitment to amount and block,
    /// a fresh anonymity set and a claim proof. A reward with the same
    /// commitment replaces the stored one.
    pub fn create_private_reward(&mut self, amount: u64, block_hash: &str, mining_proof: &str) -> (res: Result<
        PrivateMiningReward,
        PrivacyError,
    >)
        requires
            old(self).well_formed(),
        ensures
            final(self).well_formed(),
            final(self).config_view() == old(self).config_view(),
            final(self).nullifiers() == old(self).nullifiers(),
            res matches Err(e) ==> e == PrivacyError::ClockError && final(self).rewards() == old(self).rewards(),
            res matches Ok(r) ==> {
                &&& r.reward_commitment@ == reward_commitment_spec(
                    amount,
                    block_hash@,
                    old(self).config_view().privacy_level,
                )
                &&& r.mining_proof@ == mining_proof@
                &&& r.block_hash@ == block_hash@
                &&& r.claim_proof@ == claim_proof_spec(amount, r.reward_commitment@)
                &&& r.reward_commitment@.len() == 64
                &&& r.claim_proof@.len() == 64
                &&& r.anonymity_set@.len() == old(self).config_view().anonymity_set_size
                &&& forall|i: int|
                    0 <= i < r.anonymity_set@.len() ==> is_anonymity_member(#[trigger] r.anonymity_set@[i]@, i)
                &&& final(self).rewards().dom() == old(self).rewards().dom().insert(r.reward_commitment@)
                &&& same_reward(final(self).rewards()[r.reward_commitment@], r)
            },
    {
        let anonymity_set = match self.create_anonymity_set() {
            Some(s) => s,
            None => return Err(PrivacyError::ClockError),
        };
        let timestamp = match unix_time_secs() {
            Some(t) => t,
            None => return Err(PrivacyError::ClockError),
        };
        Ok(self.create_private_reward_with(amount, block_hash, mining_proof, anonymity_set, timestamp))
    }

    /// Creates and stores the private reward with the given anonymity set,
    /// stamped with `timestamp`; a reward with the same commitment is
    /// replaced.
    pub fn create_private_reward_with(
        &mut self,
        amount: u64,
        block_hash: &str,
        mining_proof: &str,
        anonymity_set: Vec<String>,
        timestamp: u64,
    ) -> (r: PrivateMiningReward)
        requires
            old(self).well_formed(),
        ensures
            final(self).well_formed(),
            final(self).config_view() == old(self).config_view(),
            final(self).nullifiers() == old(self).nullifiers(),
            r.reward_commitment@ == reward_commitment_spec(amount, block_hash@, old(self).config_view().privacy_level),
            r.mining_proof@ == mining_proof@,
            r.block_hash@ == block_hash@,
            r.claim_proof@ == claim_proof_spec(amount, r.reward_commitment@),
            r.reward_commitment@.len() == 64,
            r.claim_proof@.len() == 64,
            r.anonymity_set@ == anonymity_set@,
            r.timestamp == timestamp,
            final(self).rewards().dom() == old(self).rewards().dom().insert(r.reward_commitment@),
            same_reward(final(self).rewards()[r.reward_commitment@], r),
    {
        let commitment = self.generate_reward_commitment(amount, block_hash);
        let claim_proof = self.generate_claim_proof(amount, commitment.as_str());
        let reward = PrivateMiningReward {
            reward_commitment: commitment,
            mining_proof: owned(mining_proof),
            anonymity_set,
            claim_proof,
            timestamp,
            block_hash: owned(block_hash),
        };
        let stored = clone_reward(&reward);
        self.store_reward(stored);
        reward
    }

    /// Verifies a claim: its anonymity, reward and mixing proofs must have
    /// the proof shape and its commitment must not have been claimed before.
    /// An accepted claim's commitment is recorded as spent.
    pub fn verify_reward_claim(&mut self, claim: &AnonymousRewardClaim) -> (res: Result<bool, PrivacyError>)
        requires
            old(self).well_formed(),
        ensures
            final(self).well_formed(),
            final(self).config_view() == old(self).config_view(),
            final(self).rewards() == old(self).rewards(),
            res == Ok::<bool, PrivacyError>(claim_accepted(old(self).nullifiers(), *claim)),
            claim_accepted(old(self).nullifiers(), *claim) ==> final(self).nullifiers() == old(
                self,
            ).nullifiers().insert(claim.claim_commitment@),
            !claim_accepted(old(self).nullifiers(), *claim) ==> final(self).nullifiers() == old(self).nullifiers(),
            old(self).nullifiers().subset_of(final(self).nullifiers()),
            final(self).nullifiers() == after_verification(old(self).nullifiers(), *claim),
    {
        if !self.verify_anonymity_proof(claim.anonymity_proof.as_str()) {
            return Ok(false);
        }
        if !self.verify_reward_proof(claim.reward_proof.as_str()) {
            return Ok(false);
        }
        if !self.verify_mixing_proof(claim.mixing_proof.as_str()) {
            return Ok(false);
        }
        if self.is_nullifier_used(claim.claim_commitment.as_str()) {
            return Ok(false);
        }
        let ghost before = views(self.nullifier_set@);
        self.nullifier_set.push(claim.claim_commitment.clone());
        proof {
            let after = views(self.nullifier_set@);
            assert(after =~= before.push(claim.claim_commitment@));
            assert(after.to_set() =~= before.to_set().insert(claim.claim_commitment@)) by {
                assert forall|x: Seq<char>| after.to_set().contains(x) <==> before.to_set().insert(
                    claim.claim_commitment@,
                ).contains(x) by {
                    if after.contains(x) {
                        let k = choose|k: int| 0 <= k < after.len() && after[k] == x;
                        if k < before.len() {
                            assert(before.contains(x));
                        }
                    }
                    if before.contains(x) {
                        let k = choose|k: int| 0 <= k < before.len() && before[k] == x;
                        assert(after[k] == x);
                    }
                    if x == claim.claim_commitment@ {
                        assert(after[before.len() as int] == x);
                    }
                }
            }
        }
        Ok(true)
    }

    /// Builds an anonymous claim on a reward: a fresh claim commitment and
    /// the anonymity, reward and mixing proofs.
    pub fn create_anonymous_claim(&self, reward: &PrivateMiningReward, claim_amount: u64) -> (res: Result<
        AnonymousRewardClaim,
        PrivacyError,
    >)
        ensures
            res matches Err(e) ==> e == PrivacyError::ClockError,
            res matches Ok(c) ==> {
                &&& exists|t: u64| c.claim_commitment@ == #[trigger] claim_commitment_spec(claim_amount, t)
                &&& c.anonymity_proof@ == anonymity_proof_spec(views(reward.anonymity_set@))
                &&& c.reward_proof@ == reward_proof_spec(*reward)
                &&& c.mixing_proof@ == mixing_proof_spec(
                    views(reward.anonymity_set@),
                    self.config_view().mixing_rounds,
                )
                &&& proof_shape_ok(c.anonymity_proof@)
                &&& proof_shape_ok(c.reward_proof@)
                &&& proof_shape_ok(c.mixing_proof@)
            },
    {
        let claim_commitment = match self.generate_claim_commitment(claim_amount) {
            Some(c) => c,
            None => return Err(PrivacyError::ClockError),
        };
        Ok(self.claim_with_commitment(reward, claim_commitment))
    }

    /// The anonymous claim of `claim_amount` from `reward` made at
    /// `timestamp` (seconds): its commitment, which is also its nullifier,
    /// is the hex SHA-256 over the amount and the time in little-endian and
    /// the tag `claim_commitment`.
    pub fn create_anonymous_claim_at(&self, reward: &PrivateMiningReward, claim_amount: u64, timestamp: u64) -> (c:
        AnonymousRewardClaim)
        ensures
            c.claim_commitment@ == hex_lower(
                sha256_spec(le_bytes_u64(claim_amount) + le_bytes_u64(timestamp) + "claim_commitment".spec_bytes()),
            ),
            c.anonymity_proof@ == anonymity_proof_spec(views(reward.anonymity_set@)),
            c.reward_proof@ == reward_proof_spec(*reward),
            c.mixing_proof@ == mixing_proof_spec(views(reward.anonymity_set@), self.config_view().mixing_rounds),
            proof_shape_ok(c.anonymity_proof@),
            proof_shape_ok(c.reward_proof@),
            proof_shape_ok(c.mixing_proof@),
    {
        let claim_commitment = self.claim_commitment_at(claim_amount, timestamp);
        self.claim_with_commitment(reward, claim_commitment)
    }

    /// The claim of `reward` under the given commitment.
    fn claim_with_commitment(&self, reward: &PrivateMiningReward, claim_commitment: String) -> (c: AnonymousRewardClaim)
        ensures
            c.claim_commitment@ == claim_commitment@,
            c.anonymity_proof@ == anonymity_proof_spec(views(reward.anonymity_set@)),
            c.reward_proof@ == reward_proof_spec(*reward),
            c.mixing_proof@ == mixing_proof_spec(views(reward.anonymity_set@), self.config_view().mixing_rounds),
            proof_shape_ok(c.anonymity_proof@),
            proof_shape_ok(c.reward_proof@),
            proof_shape_ok(c.mixing_proof@),
    {
        let anonymity_proof = self.generate_anonymity_proof(&reward.anonymity_set);
        let reward_proof = self.generate_reward_proof(reward);
        let mixing_proof = self.generate_mixing_proof(&reward.anonymity_set);
        AnonymousRewardClaim { claim_commitment, anonymity_proof, reward_proof, mixing_proof }
    }

    /// Statistics: stored rewards, accepted claims and the configuration.
    pub fn get_privacy_stats(&self) -> (res: Result<PrivacyStats, PrivacyError>)
        requires
            self.well_formed(),
        ensures
            res matches Ok(s) && {
                &&& s.total_rewards == self.rewards().len()
                &&& s.total_claims == self.nullifiers().len()
                &&& s.anonymity_set_size == self.config_view().anonymity_set_size
                &&& s.privacy_level == self.config_view().privacy_level
                &&& s.mixing_enabled == self.config_view().reward_mixing
            },
    {
        proof {
            lemma_reward_map_len(self.reward_commitments@);
            views(self.nullifier_set@).unique_seq_to_set();
        }
        Ok(PrivacyStats {
            total_rewards: self.reward_commitments.len() as u64,
            total_claims: self.nullifier_set.len() as u64,
            anonymity_set_size: self.config.anonymity_set_size,
            privacy_level: self.config.privacy_level,
            mixing_enabled: self.config.reward_mixing,
        })
    }

    /// Stores a reward under its commitment, replacing one with the same
    /// commitment.
    fn store_reward(&mut self, reward: PrivateMiningReward)
        requires
            old(self).well_formed(),
        ensures
            final(self).well_formed(),
            final(self).config == old(self).config,
            final(self).nullifier_set@ == old(self).nullifier_set@,
            final(self).rewards() == old(self).rewards().insert(reward.reward_commitment@, reward),
    {
        let ghost old_rewards = self.reward_commitments@;
        let pos = self.find_reward(reward.reward_commitment.as_str());
        if let Some(i) = pos {
            let ghost key = reward.reward_commitment@;
            self.reward_commitments.remove(i);
            proof {
                lemma_reward_map_remove(old_rewards, i as int);
            }
            self.reward_commitments.push(reward);
            proof {
                let rs = self.reward_commitments@;
                assert(rs =~= old_rewards.remove(i as int).push(reward));
                lemma_replace_keeps_distinct(old_rewards, i as int, reward);
                assert(rs.drop_last() =~= old_rewards.remove(i as int));
                assert(reward_map(rs) =~= reward_map(old_rewards).insert(key, reward));
            }
        } else {
            self.reward_commitments.push(reward);
            proof {
                let rs = self.reward_commitments@;
                assert(rs.drop_last() =~= old_rewards);
                let keys = rs.map_values(|r: PrivateMiningReward| r.reward_commitment@);
                let old_keys = old_rewards.map_values(|r: PrivateMiningReward| r.reward_commitment@);
                assert forall|a: int, b: int| 0 <= a < keys.len() && 0 <= b < keys.len() && a != b implies keys[a]
                    != keys[b] by {
                    let last = keys.len() - 1;
                    if a < last {
                        assert(keys[a] == old_keys[a]);
                        assert(old_rewards[a].reward_commitment@ != reward.reward_commitment@);
                    } else {
                        assert(keys[a] == reward.reward_commitment@);
                    }
                    if b < last {
                        assert(keys[b] == old_keys[b]);
                        assert(old_rewards[b].reward_commitment@ != reward.reward_commitment@);
                    } else {
                        assert(keys[b] == reward.reward_commitment@);
                    }
                }
            }
        }
    }

    /// The position of the stored reward with commitment `key`.
    fn find_reward(&self, key: &str) -> (res: Option<usize>)
        ensures
            match res {
                Some(i) => i < self.reward_commitments@.len() && self.reward_commitments@[i as int].reward_commitment@
                    == key@,
                None => forall|j: int|
                    0 <= j < self.reward_commitments@.len() ==> #[trigger] self.reward_commitments@[j].reward_commitment@
                        != key@,
            },
    {
        let mut i: usize = 0;
        while i < self.reward_commitments.len()
            invariant
                i <= self.reward_commitments@.len(),
                forall|j: int| 0 <= j < i ==> #[trigger] self.reward_commitments@[j].reward_commitment@ != key@,
            decreases self.reward_commitments@.len() - i,
        {
            if str_equal(self.reward_commitments[i].reward_commitment.as_str(), key) {
                return Some(i);
            }
            i = i + 1;
        }
        None
    }

    /// The reward commitment of an amount and block under the engine's
    /// privacy level.
    fn generate_reward_commitment(&self, amount: u64, block_hash: &str) -> (res: String)
        ensures
            res@ == reward_commitment_spec(amount, block_hash@, self.config.privacy_level),
            res@.len() == 64,
    {
        let mut buf = u64_le_bytes(amount);
        extend_str_bytes(&mut buf, block_hash);
        let ghost prefix = buf@;
        buf.push(self.config.privacy_level);
        assert(buf@ == prefix + seq![self.config.privacy_level]);
        let d = sha256(buf.as_slice());
        proof {
            lemma_hex_lower_shape(d@);
        }
        hex_encode(&d)
    }

    /// A fresh anonymity set of the configured size; `None` where the clock
    /// fails, which an empty set never consults.
    fn create_anonymity_set(&self) -> (res: Option<Vec<String>>)
        ensures
            self.config.anonymity_set_size == 0 ==> res is Some,
            res matches Some(s) ==> {
                &&& s@.len() == self.config.anonymity_set_size
                &&& forall|i: int| 0 <= i < s@.len() ==> is_anonymity_member(#[trigger] s@[i]@, i)
            },
    {
        let mut set: Vec<String> = Vec::new();
        let ghost mut times: Seq<u64> = Seq::empty();
        let n = self.config.anonymity_set_size;
        let mut i: u32 = 0;
        while i < n
            invariant
                i <= n,
                n == self.config.anonymity_set_size,
                set@.len() == i,
                times.len() == i,
                forall|k: int| 0 <= k < i ==> #[trigger] set@[k]@ == anonymity_member_spec(k as u32, times[k]),
            decreases n - i,
        {
            let t = match unix_time_secs() {
                Some(t) => t,
                None => return None,
            };
            let member = anonymity_member(i, t);
            set.push(member);
            proof {
                times = times.push(t);
            }
            i = i + 1;
        }
        assert forall|k: int| 0 <= k < set@.len() implies is_anonymity_member(#[trigger] set@[k]@, k) by {
            assert(set@[k]@ == anonymity_member_spec(k as u32, times[k]));
        }
        Some(set)
    }

    /// The claim proof of an amount and its commitment.
    fn generate_claim_proof(&self, amount: u64, commitment: &str) -> (res: String)
        ensures
            res@ == claim_proof_spec(amount, commitment@),
            res@.len() == 64,
    {
        let mut buf = u64_le_bytes(amount);
        extend_str_bytes(&mut buf, commitment);
        extend_str_bytes(&mut buf, "claim_proof");
        let d = sha256(buf.as_slice());
        proof {
            lemma_hex_lower_shape(d@);
        }
        hex_encode(&d)
    }

    /// The anonymity proof over a set.
    fn generate_anonymity_proof(&self, anonymity_set: &Vec<String>) -> (res: String)
        ensures
            res@ == anonymity_proof_spec(views(anonymity_set@)),
            proof_shape_ok(res@),
    {
        let mut buf = concat_strings(anonymity_set);
        extend_str_bytes(&mut buf, "anonymity_proof");
        let d = sha256(buf.as_slice());
        proof {
            lemma_hex_lower_shape(d@);
        }
        hex_encode(&d)
    }

    /// The reward proof over a reward.
    fn generate_reward_proof(&self, reward: &PrivateMiningReward) -> (res: String)
        ensures
            res@ == reward_proof_spec(*reward),
            proof_shape_ok(res@),
    {
        let mut buf: Vec<u8> = Vec::new();
        extend_str_bytes(&mut buf, reward.reward_commitment.as_str());
        extend_str_bytes(&mut buf, reward.mining_proof.as_str());
        extend_str_bytes(&mut buf, reward.block_hash.as_str());
        extend_str_bytes(&mut buf, "reward_proof");
        let d = sha256(buf.as_slice());
        proof {
            lemma_hex_lower_shape(d@);
        }
        hex_encode(&d)
    }

    /// The mixing proof over a set and the configured number of rounds.
    fn generate_mixing_proof(&self, anonymity_set: &Vec<String>) -> (res: String)
        ensures
            res@ == mixing_proof_spec(views(anonymity_set@), self.config.mixing_rounds),
            proof_shape_ok(res@),
    {
        let mut buf = concat_strings(anonymity_set);
        let ghost prefix = buf@;
        buf.push(self.config.mixing_rounds);
        assert(buf@ == prefix + seq![self.config.mixing_rounds]);
        extend_str_bytes(&mut buf, "mixing_proof");
        let d = sha256(buf.as_slice());
        proof {
            lemma_hex_lower_shape(d@);
        }
        hex_encode(&d)
    }

    /// A claim commitment stamped with the current time; `None` where the
    /// clock fails.
    fn generate_claim_commitment(&self, amount: u64) -> (res: Option<String>)
        ensures
            res matches Some(c) ==> exists|t: u64| c@ == #[trigger] claim_commitment_spec(amount, t),
    {
        let t = match unix_time_secs() {
            Some(t) => t,
            None => return None,
        };
        Some(self.claim_commitment_at(amount, t))
    }

    /// The claim commitment of `amount` made at time `t`.
    fn claim_commitment_at(&self, amount: u64, t: u64) -> (res: String)
        ensures
            res@ == claim_commitment_spec(amount, t),
    {
        let mut buf = u64_le_bytes(amount);
        let tb = u64_le_bytes(t);
        extend_bytes(&mut buf, tb.as_slice());
        extend_str_bytes(&mut buf, "claim_commitment");
        let d = sha256(buf.as_slice());
        let c = hex_encode(&d);
        assert(c@ == claim_commitment_spec(amount, t));
        c
    }

    /// Shape check of an anonymity proof.
    fn verify_anonymity_proof(&self, proof: &str) -> (res: bool)
        ensures
            res == proof_shape_ok(proof@),
    {
        proof.as_bytes().len() == 64
    }

    /// Shape check of a reward proof.
    fn verify_reward_proof(&self, proof: &str) -> (res: bool)
        ensures
            res == proof_shape_ok(proof@),
    {
        proof.as_bytes().len() == 64
    }

    /// Shape check of a mixing proof.
    fn verify_mixing_proof(&self, proof: &str) -> (res: bool)
        ensures
            res == proof_shape_ok(proof@),
    {
        proof.as_bytes().len() == 64
    }

    /// Whether a nullifier has been spent.
    fn is_nullifier_used(&self, nullifier: &str) -> (res: bool)
        ensures
            res == self.nullifiers().contains(nullifier@),
    {
        let mut i: usize = 0;
        while i < self.nullifier_set.len()
            invariant
                i <= self.nullifier_set@.len(),
                forall|j: int| 0 <= j < i ==> #[trigger] self.nullifier_set@[j]@ != nullifier@,
            decreases self.nullifier_set@.len() - i,
        {
            if str_equal(self.nullifier_set[i].as_str(), nullifier) {
                proof {
                    assert(views(self.nullifier_set@)[i as int] == nullifier@);
                }
                return true;
            }
            i = i + 1;
        }
        proof {
            if views(self.nullifier_set@).contains(nullifier@) {
                let k = choose|k: int| 0 <= k < views(self.nullifier_set@).len() && views(self.nullifier_set@)[k]
                    == nullifier@;
                assert(self.nullifier_set@[k]@ == nullifier@);
            }
        }
        false
    }
}

/// Member `i` of an anonymity set made at time `t`.
fn anonymity_member(i: u32, t: u64) -> (res: String)
    ensures
        res@ == anonymity_member_spec(i, t),
{
    let mut buf = u32_le_bytes(i);
    let tb = u64_le_bytes(t);
    extend_bytes(&mut buf, tb.as_slice());
    let d = sha256(buf.as_slice());
    hex_encode(&d)
}

/// The UTF-8 bytes of all strings, one after the other.
fn concat_strings(items: &Vec<String>) -> (res: Vec<u8>)
    ensures
        res@ == concat_utf8(views(items@)),
{
    let ghost vs = views(items@);
    let mut buf: Vec<u8> = Vec::new();
    let mut i: usize = 0;
    while i < items.len()
        invariant
            i <= items@.len(),
            vs == views(items@),
            buf@ == concat_utf8(vs.take(i as int)),
        decreases items@.len() - i,
    {
        extend_str_bytes(&mut buf, items[i].as_str());
        proof {
            assert(vs.take(i + 1).drop_last() =~= vs.take(i as int));
        }
        i = i + 1;
    }
    assert(vs.take(items@.len() as int) =~= vs);
    buf
}

/// A copy of a reward.
fn clone_reward(r: &PrivateMiningReward) -> (res: PrivateMiningReward)
    ensures
        same_reward(res, *r),
{
    let set = r.anonymity_set.clone();
    proof {
        assert(set@ =~= r.anonymity_set@);
    }
    PrivateMiningReward {
        reward_commitment: r.reward_commitment.clone(),
        mining_proof: r.mining_proof.clone(),
        anonymity_set: set,
        claim_proof: r.claim_proof.clone(),
        timestamp: r.timestamp,
        block_hash: r.block_hash.clone(),
    }
}

/// The map of stored rewards has one entry per reward when commitments are
/// distinct.
proof fn lemma_reward_map_len(rewards: Seq<PrivateMiningReward>)
    requires
        no_duplicates(rewards.map_values(|r: PrivateMiningReward| r.reward_commitment@)),
    ensures
        reward_map(rewards).len() == rewards.len(),
        reward_map(rewards).dom().finite(),
        forall|k: Seq<char>| #[trigger] reward_map(rewards).dom().contains(k) <==> exists|i: int|
            0 <= i < rewards.len() && rewards[i].reward_commitment@ == k,
    decreases rewards.len(),
{
    if rewards.len() > 0 {
        let init = rewards.drop_last();
        let keys = rewards.map_values(|r: PrivateMiningReward| r.reward_commitment@);
        assert(init.map_values(|r: PrivateMiningReward| r.reward_commitment@) =~= keys.drop_last());
        lemma_reward_map_len(init);
        let k = rewards.last().reward_commitment@;
        if reward_map(init).dom().contains(k) {
            let i = choose|i: int| 0 <= i < init.len() && init[i].reward_commitment@ == k;
            assert(keys[i] == keys[rewards.len() - 1]);
        }
        assert forall|x: Seq<char>| #[trigger] reward_map(rewards).dom().contains(x) <==> exists|i: int|
            0 <= i < rewards.len() && rewards[i].reward_commitment@ == x by {
            if reward_map(init).dom().contains(x) {
                let i = choose|i: int| 0 <= i < init.len() && init[i].reward_commitment@ == x;
                assert(rewards[i].reward_commitment@ == x);
            }
            if exists|i: int| 0 <= i < rewards.len() && rewards[i].reward_commitment@ == x {
                let i = choose|i: int| 0 <= i < rewards.len() && rewards[i].reward_commitment@ == x;
                if i < init.len() {
                    assert(init[i].reward_commitment@ == x);
                }
            }
        }
    }
}

/// Removing the reward at `i` (whose commitment occurs once) removes its key.
proof fn lemma_reward_map_remove(rewards: Seq<PrivateMiningReward>, i: int)
    requires
        0 <= i < rewards.len(),
        no_duplicates(rewards.map_values(|r: PrivateMiningReward| r.reward_commitment@)),
    ensures
        reward_map(rewards.remove(i)) == reward_map(rewards).remove(rewards[i].reward_commitment@),
    decreases rewards.len(),
{
    let keys = rewards.map_values(|r: PrivateMiningReward| r.reward_commitment@);
    let init = rewards.drop_last();
    assert(init.map_values(|r: PrivateMiningReward| r.reward_commitment@) =~= keys.drop_last());
    if i == rewards.len() - 1 {
        assert(rewards.remove(i) =~= init);
        lemma_reward_map_len(init);
        let k = rewards[i].reward_commitment@;
        if reward_map(init).dom().contains(k) {
            let j = choose|j: int| 0 <= j < init.len() && init[j].reward_commitment@ == k;
            assert(keys[j] == keys[i]);
        }
        assert(reward_map(rewards).remove(k) =~= reward_map(init));
    } else {
        lemma_reward_map_remove(init, i);
        assert(rewards.remove(i).drop_last() =~= init.remove(i));
        assert(rewards.remove(i).last() == rewards.last());
        let k = rewards[i].reward_commitment@;
        let kl = rewards.last().reward_commitment@;
        assert(keys[i] != keys[rewards.len() - 1]);
        assert(reward_map(rewards.remove(i)) =~= reward_map(rewards).remove(k));
    }
}

/// Replacing the reward at `i` by one with the same commitment keeps the
/// commitments distinct.
proof fn lemma_replace_keeps_distinct(rewards: Seq<PrivateMiningReward>, i: int, r: PrivateMiningReward)
    requires
        0 <= i < rewards.len(),
        rewards[i].reward_commitment@ == r.reward_commitment@,
        no_duplicates(rewards.map_values(|x: PrivateMiningReward| x.reward_commitment@)),
    ensures
        no_duplicates(rewards.remove(i).push(r).map_values(|x: PrivateMiningReward| x.reward_commitment@)),
{
    let old_keys = rewards.map_values(|x: PrivateMiningReward| x.reward_commitment@);
    let rs = rewards.remove(i).push(r);
    let keys = rs.map_values(|x: PrivateMiningReward| x.reward_commitment@);
    assert forall|a: int, b: int| 0 <= a < keys.len() && 0 <= b < keys.len() && a != b implies keys[a] != keys[b] by {
        let oa = if a < i { a } else { a + 1 };
        let ob = if b < i { b } else { b + 1 };
        let last = keys.len() - 1;
        if a < last {
            assert(rs[a] == rewards[oa]);
            assert(keys[a] == old_keys[oa]);
        } else {
            assert(keys[a] == old_keys[i]);
        }
        if b < last {
            assert(rs[b] == rewards[ob]);
            assert(keys[b] == old_keys[ob]);
        } else {
            assert(keys[b] == old_keys[i]);
        }
        if a < last && b < last {
            assert(oa != ob);
        } else if a < last {
            assert(oa != i);
        } else {
            assert(ob != i);
        }
    }
}

/// Double claiming is refused: once a claim has been accepted, the same
/// claim is refused against the updated nullifier set.
pub proof fn lemma_no_double_claim(nullifiers: Set<Seq<char>>, claim: AnonymousRewardClaim)
    requires
        claim_accepted(nullifiers, claim),
    ensures
        !claim_accepted(nullifiers.insert(claim.claim_commitment@), claim),
{
}

/// Little-endian encoding of a `u64` is one to one.
proof fn lemma_le_bytes_u64_injective(a: u64, b: u64)
    requires
        le_bytes_u64(a) == le_bytes_u64(b),
    ensures
        a == b,
{
    let x = le_bytes_u64(a);
    let y = le_bytes_u64(b);
    assert(x[0] == y[0] && x[1] == y[1] && x[2] == y[2] && x[3] == y[3]);
    assert(x[4] == y[4] && x[5] == y[5] && x[6] == y[6] && x[7] == y[7]);
    assert(a % 0x100 == b % 0x100);
    assert((a / 0x100) % 0x100 == (b / 0x100) % 0x100);
    assert((a / 0x1_0000) % 0x100 == (b / 0x1_0000) % 0x100);
    assert((a / 0x100_0000) % 0x100 == (b / 0x100_0000) % 0x100);
    assert((a / 0x1_0000_0000) % 0x100 == (b / 0x1_0000_0000) % 0x100);
    assert((a / 0x100_0000_0000) % 0x100 == (b / 0x100_0000_0000) % 0x100);
    assert((a / 0x1_0000_0000_0000) % 0x100 == (b / 0x1_0000_0000_0000) % 0x100);
    assert((a / 0x100_0000_0000_0000) % 0x100 == (b / 0x100_0000_0000_0000) % 0x100);
    assert(a == b) by (bit_vector)
        requires
            a % 0x100 == b % 0x100,
            (a / 0x100) % 0x100 == (b / 0x100) % 0x100,
            (a / 0x1_0000) % 0x100 == (b / 0x1_0000) % 0x100,
            (a / 0x100_0000) % 0x100 == (b / 0x100_0000) % 0x100,
            (a / 0x1_0000_0000) % 0x100 == (b / 0x1_0000_0000) % 0x100,
            (a / 0x100_0000_0000) % 0x100 == (b / 0x100_0000_0000) % 0x100,
            (a / 0x1_0000_0000_0000) % 0x100 == (b / 0x1_0000_0000_0000) % 0x100,
            (a / 0x100_0000_0000_0000) % 0x100 == (b / 0x100_0000_0000_0000) % 0x100,
    ;
}


/// Claims made at different times hash different messages: the message
/// behind a claim's nullifier holds the claim's time, so two claims of the
/// same amount made at different seconds are told apart wherever SHA-256
/// tells their messages apart.
pub proof fn lemma_claim_times_give_distinct_messages(amount: u64, t1: u64, t2: u64)
    requires
        t1 != t2,
    ensures
        le_bytes_u64(amount) + le_bytes_u64(t1) + "claim_commitment".spec_bytes() != le_bytes_u64(amount)
            + le_bytes_u64(t2) + "claim_commitment".spec_bytes(),
{
    let m1 = le_bytes_u64(amount) + le_bytes_u64(t1) + "claim_commitment".spec_bytes();
    let m2 = le_bytes_u64(amount) + le_bytes_u64(t2) + "claim_commitment".spec_bytes();
    if m1 == m2 {
        assert(m1.subrange(8, 16) =~= le_bytes_u64(t1));
        assert(m2.subrange(8, 16) =~= le_bytes_u64(t2));
        lemma_le_bytes_u64_injective(t1, t2);
    }
}

/// A spent claim stays refused: neither creating rewards nor verifying
/// claims removes a nullifier, so every nullifier set that a later call
/// sees holds the spent commitment, and a set that holds it refuses the
/// claim, however many times it is presented again.
pub proof fn lemma_spent_claim_refused_forever(
    spent: Set<Seq<char>>,
    later: Set<Seq<char>>,
    claim: AnonymousRewardClaim,
)
    requires
        spent.contains(claim.claim_commitment@),
        spent.subset_of(later),
    ensures
        !claim_accepted(later, claim),
{
}

/// The spent set after verifying `claim` against `spent`: its commitment
/// joins the set where the claim is accepted.
pub open spec fn after_verification(spent: Set<Seq<char>>, claim: AnonymousRewardClaim) -> Set<Seq<char>> {
    if claim_accepted(spent, claim) {
        spent.insert(claim.claim_commitment@)
    } else {
        spent
    }
}

/// `states` are the spent sets seen by verifying `claim` again and again,
/// each the one before after a verification.
pub open spec fn repeated_verifications(states: Seq<Set<Seq<char>>>, claim: AnonymousRewardClaim) -> bool {
    forall|k: int| 1 <= k < states.len() ==> #[trigger] states[k] == after_verification(states[k - 1], claim)
}

/// A claim is accepted once: presented any number of times, it is
/// accepted the first time (where it is acceptable then) and refused every
/// later time, and the spent set, whose size is the claim count, stays the
/// one that the first acceptance left.
pub proof fn lemma_claim_accepted_once(states: Seq<Set<Seq<char>>>, claim: AnonymousRewardClaim)
    requires
        states.len() >= 1,
        claim_accepted(states[0], claim),
        repeated_verifications(states, claim),
    ensures
        forall|k: int| 1 <= k < states.len() ==> {
            &&& !claim_accepted(#[trigger] states[k], claim)
            &&& states[k] == states[0].insert(claim.claim_commitment@)
        },
    decreases states.len(),
{
    if states.len() > 1 {
        let prefix = states.drop_last();
        assert forall|k: int| 1 <= k < prefix.len() implies #[trigger] prefix[k] == after_verification(
            prefix[k - 1],
            claim,
        ) by {
            assert(prefix[k] == states[k]);
            assert(prefix[k - 1] == states[k - 1]);
        }
        lemma_claim_accepted_once(prefix, claim);
        let n = states.len() - 1;
        assert(states[n] == after_verification(states[n - 1], claim));
        if n > 1 {
            assert(prefix[n - 1] == states[n - 1]);
        }
        assert forall|k: int| 1 <= k < states.len() implies {
            &&& !claim_accepted(#[trigger] states[k], claim)
            &&& states[k] == states[0].insert(claim.claim_commitment@)
        } by {
            if k < n {
                assert(prefix[k] == states[k]);
            }
        }
    }
}

/// A claim built by `create_anonymous_claim` is accepted exactly when its
/// commitment has not been spent.
pub proof fn lemma_fresh_claim_accepted(nullifiers: Set<Seq<char>>, claim: AnonymousRewardClaim)
    requires
        proof_shape_ok(claim.anonymity_proof@),
        proof_shape_ok(claim.reward_proof@),
        proof_shape_ok(claim.mixing_proof@),
    ensures
        claim_accepted(nullifiers, claim) <==> !nullifiers.contains(claim.claim_commitment@),
{
}

} // verus!
