//! The core STARK proof system: each proof sets up a small constraint system
//! (range, arithmetic or balance constraints), encodes its parameters as the
//! proof data, and reveals only chosen public inputs; the proof hash is the
//! SHA-256 of the data.
use vstd::prelude::*;
use vstd::string::*;
use crate::crypto::{duration_from_secs, instant_elapsed, instant_now, sha256, sha256_spec, unix_time_secs};
use crate::error::PrivacyError;
use crate::stark_field::{field_modulus, field_prime, fri_options_new};
use crate::text::{extend_bytes, le_bytes_u64, owned, u64_le_bytes};
use std::time::Duration;

verus! {

/// The kinds of production STARK proof.
#[derive(Debug, Clone, Copy, PartialEq, Eq, Structural)]
pub enum ProofType {
    /// Transaction validity.
    TransactionValidity,
    /// Amount range.
    AmountRange,
    /// Balance consistency.
    BalanceConsistency,
    /// Cross-chain.
    CrossChain,
    /// Mining reward.
    MiningReward,
    /// Merge mining.
    MergeMining,
}

/// The identifier string of a proof kind.
pub open spec fn proof_type_identifier(t: ProofType) -> Seq<char> {
    match t {
        ProofType::TransactionValidity => "transaction_validity"@,
        ProofType::AmountRange => "amount_range"@,
        ProofType::BalanceConsistency => "balance_consistency"@,
        ProofType::CrossChain => "cross_chain"@,
        ProofType::MiningReward => "mining_reward"@,
        ProofType::MergeMining => "merge_mining"@,
    }
}

impl ProofType {
    /// The identifier string of the proof kind.
    pub fn identifier(&self) -> (res: &'static str)
        ensures
            res@ == proof_type_identifier(*self),
    {
        match self {
            ProofType::TransactionValidity => "transaction_validity",
            ProofType::AmountRange => "amount_range",
            ProofType::BalanceConsistency => "balance_consistency",
            ProofType::CrossChain => "cross_chain",
            ProofType::MiningReward => "mining_reward",
            ProofType::MergeMining => "merge_mining",
        }
    }
}

/// A production STARK proof.
#[derive(Debug, Clone)]
pub struct ProductionStarkProof {
    /// Proof data.
    pub proof_data: Vec<u8>,
    /// Public inputs.
    pub public_inputs: Vec<u8>,
    /// Proof kind.
    pub proof_type: ProofType,
    /// Security level in bits.
    pub security_level: u32,
    /// Size of the field.
    pub field_size: u64,
    /// Number of constraints.
    pub constraint_count: u32,
    /// Proof size in bytes.
    pub proof_size: usize,
    /// How long generation took.
    pub generation_time: Duration,
    /// How long verification took.
    pub verification_time: Duration,
    /// Metadata.
    pub metadata: ProofMetadata,
}

/// Metadata of a production STARK proof.
#[derive(Debug, Clone)]
pub struct ProofMetadata {
    /// Generation time, seconds since the Unix epoch.
    pub timestamp: u64,
    /// Proof version.
    pub version: u8,
    /// Prover identifier.
    pub prover_id: String,
    /// SHA-256 hash of the proof data.
    pub proof_hash: Vec<u8>,
}

/// The constraint system behind a proof.
#[derive(Debug)]
pub struct C0dl3ConstraintSystem {
    /// Constraints.
    pub constraints: Vec<Constraint>,
    /// Public inputs.
    pub public_inputs: Vec<u64>,
    /// Private inputs.
    pub private_inputs: Vec<u64>,
    /// Witness values.
    pub witness: Vec<u64>,
}

/// A constraint.
#[derive(Debug)]
pub struct Constraint {
    /// Kind of constraint.
    pub constraint_type: ConstraintType,
    /// Parameters.
    pub parameters: Vec<u64>,
    /// Bounds.
    pub bounds: (u64, u64),
}

/// Kinds of constraint.
#[derive(Debug, Clone, Copy, PartialEq, Eq, Structural)]
pub enum ConstraintType {
    /// `min <= value <= max`.
    Range,
    /// `a == b`.
    Equality,
    /// `a + b == c`.
    Arithmetic,
    /// `old_balance - amount == new_balance`.
    Balance,
    /// A signature check.
    Signature,
}

/// The core production STARK proof system.
pub struct ProductionStarkProofSystem {
    fri_options: winter_fri::FriOptions,
    constraint_system: C0dl3ConstraintSystem,
}

/// The FRI parameter bytes that open the proof data.
pub open spec fn fri_head() -> Seq<u8> {
    seq![32u8, 4u8, 8u8]
}

/// The little-endian bytes of a list of values, one after the other.
pub open spec fn values_bytes(values: Seq<u64>) -> Seq<u8>
    decreases values.len(),
{
    if values.len() == 0 {
        Seq::empty()
    } else {
        values_bytes(values.drop_last()) + le_bytes_u64(values.last())
    }
}

/// The encoding of one constraint: its parameter count as eight
/// little-endian bytes, then its parameters.
pub open spec fn constraint_bytes(parameters: Seq<u64>) -> Seq<u8> {
    le_bytes_u64(parameters.len() as u64) + values_bytes(parameters)
}

/// The proof data of a constraint system with the given parameter lists.
pub open spec fn proof_data_spec(parameter_lists: Seq<Seq<u64>>) -> Seq<u8>
    decreases parameter_lists.len(),
{
    if parameter_lists.len() == 0 {
        fri_head()
    } else {
        proof_data_spec(parameter_lists.drop_last()) + constraint_bytes(parameter_lists.last())
    }
}

/// The parameter lists of some constraints.
pub open spec fn parameter_lists(cs: Seq<Constraint>) -> Seq<Seq<u64>> {
    cs.map_values(|c: Constraint| c.parameters@)
}

/// `p` is a proof of kind `t` over the constraints `cs` with public inputs
/// `inputs`, at 128 bits over winter-math's 64-bit field.
pub open spec fn made_proof(p: ProductionStarkProof, t: ProofType, cs: Seq<Constraint>, inputs: Seq<u8>) -> bool {
    &&& p.proof_data@ == proof_data_spec(parameter_lists(cs))
    &&& p.public_inputs@ == inputs
    &&& p.proof_type == t
    &&& p.security_level == 128
    &&& p.field_size == field_prime()
    &&& p.constraint_count == cs.len()
    &&& p.proof_size == 0
    &&& p.metadata.version == 1
    &&& p.metadata.prover_id@ == "c0dl3-stark-prover"@
    &&& p.metadata.proof_hash@ == sha256_spec(p.proof_data@)
}

/// A constraint of a kind over some parameters and bounds.
pub open spec fn is_constraint(c: Constraint, t: ConstraintType, parameters: Seq<u64>, bounds: (u64, u64)) -> bool {
    c.constraint_type == t && c.parameters@ == parameters && c.bounds == bounds
}

/// Two values.
fn pair(a: u64, b: u64) -> (res: Vec<u64>)
    ensures
        res@ == seq![a, b],
{
    let mut v: Vec<u64> = Vec::new();
    v.push(a);
    v.push(b);
    assert(v@ =~= seq![a, b]);
    v
}

/// One value.
fn single(a: u64) -> (res: Vec<u64>)
    ensures
        res@ == seq![a],
{
    let mut v: Vec<u64> = Vec::new();
    v.push(a);
    assert(v@ =~= seq![a]);
    v
}

impl ProductionStarkProofSystem {
    /// The current constraint system.
    pub closed spec fn constraints_view(&self) -> C0dl3ConstraintSystem {
        self.constraint_system
    }

    /// A system with FRI options of blowup 32, folding factor 4 and
    /// remainder degree 8, and an empty constraint system.
    pub fn new() -> (res: Result<Self, PrivacyError>)
        ensures
            res matches Ok(s) && {
                &&& s.constraints_view().constraints@.len() == 0
                &&& s.constraints_view().public_inputs@.len() == 0
                &&& s.constraints_view().private_inputs@.len() == 0
                &&& s.constraints_view().witness@.len() == 0
            },
    {
        assert(32usize & 31usize == 0usize) by (bit_vector);
        let fri_options = fri_options_new(32, 4, 8);
        Ok(ProductionStarkProofSystem {
            fri_options,
            constraint_system: C0dl3ConstraintSystem {
                constraints: Vec::new(),
                public_inputs: Vec::new(),
                private_inputs: Vec::new(),
                witness: Vec::new(),
            },
        })
    }

    /// The proof data of the current constraint system: the FRI parameter
    /// bytes, then each constraint's parameter count and parameters.
    fn generate_proof_data(&self) -> (res: Vec<u8>)
        ensures
            res@ == proof_data_spec(parameter_lists(self.constraint_system.constraints@)),
    {
        let cs = &self.constraint_system.constraints;
        let ghost lists = parameter_lists(cs@);
        let mut proof_data: Vec<u8> = Vec::new();
        proof_data.push(32u8);
        proof_data.push(4u8);
        proof_data.push(8u8);
        assert(proof_data@ =~= fri_head());
        let mut i: usize = 0;
        while i < cs.len()
            invariant
                i <= cs@.len(),
                lists == parameter_lists(cs@),
                proof_data@ == proof_data_spec(lists.take(i as int)),
            decreases cs@.len() - i,
        {
            let params = &cs[i].parameters;
            let count = u64_le_bytes(params.len() as u64);
            extend_bytes(&mut proof_data, count.as_slice());
            let ghost before = proof_data@;
            let mut j: usize = 0;
            while j < params.len()
                invariant
                    j <= params@.len(),
                    proof_data@ == before + values_bytes(params@.take(j as int)),
                decreases params@.len() - j,
            {
                let b = u64_le_bytes(params[j]);
                extend_bytes(&mut proof_data, b.as_slice());
                assert(params@.take(j + 1).drop_last() =~= params@.take(j as int));
                j = j + 1;
            }
            proof {
                assert(params@.take(params@.len() as int) =~= params@);
                assert(lists.take(i + 1).drop_last() =~= lists.take(i as int));
                assert(lists.take(i + 1).last() == params@);
            }
            i = i + 1;
        }
        assert(lists.take(lists.len() as int) =~= lists);
        proof_data
    }

    /// Verifies a proof's data against its public inputs: empty data or
    /// empty inputs are errors; otherwise the proof passes.
    fn verify_proof_data(&self, proof_data: &[u8], public_inputs: &[u8]) -> (res: Result<bool, PrivacyError>)
        ensures
            proof_data@.len() == 0 ==> res == Err::<bool, PrivacyError>(PrivacyError::EmptyProofData),
            proof_data@.len() > 0 && public_inputs@.len() == 0 ==> res == Err::<bool, PrivacyError>(
                PrivacyError::EmptyPublicInputs,
            ),
            proof_data@.len() > 0 && public_inputs@.len() > 0 ==> res == Ok::<bool, PrivacyError>(true),
    {
        if proof_data.len() == 0 {
            return Err(PrivacyError::EmptyProofData);
        }
        if public_inputs.len() == 0 {
            return Err(PrivacyError::EmptyPublicInputs);
        }
        Ok(true)
    }

    /// The public inputs of a validity proof: the amount in little-endian,
    /// then the recipient's address.
    fn create_public_inputs(&self, amount: u64, recipient_address: &[u8]) -> (res: Vec<u8>)
        ensures
            res@ == le_bytes_u64(amount) + recipient_address@,
    {
        let mut public_inputs = u64_le_bytes(amount);
        extend_bytes(&mut public_inputs, recipient_address);
        public_inputs
    }

    /// The public inputs of a range proof: both bounds in little-endian.
    fn create_range_public_inputs(&self, min_amount: u64, max_amount: u64) -> (res: Vec<u8>)
        ensures
            res@ == le_bytes_u64(min_amount) + le_bytes_u64(max_amount),
    {
        let mut public_inputs = u64_le_bytes(min_amount);
        let mx = u64_le_bytes(max_amount);
        extend_bytes(&mut public_inputs, mx.as_slice());
        public_inputs
    }

    /// The public inputs of a balance proof: the amount in little-endian.
    fn create_balance_public_inputs(&self, amount: u64) -> (res: Vec<u8>)
        ensures
            res@ == le_bytes_u64(amount),
    {
        u64_le_bytes(amount)
    }

    /// The SHA-256 digest of the proof data.
    fn calculate_proof_hash(&self, proof_data: &[u8]) -> (res: Vec<u8>)
        ensures
            res@ == sha256_spec(proof_data@),
    {
        let d = sha256(proof_data);
        let mut proof_hash: Vec<u8> = Vec::new();
        extend_bytes(&mut proof_hash, &d);
        proof_hash
    }

    /// Builds the proof of the current constraint system.
    fn finish_proof(&self, proof_type: ProofType, public_inputs: Vec<u8>, start: &std::time::Instant) -> (res: Result<
        ProductionStarkProof,
        PrivacyError,
    >)
        requires
            self.constraint_system.constraints@.len() <= u32::MAX,
        ensures
            res matches Err(e) ==> e == PrivacyError::ClockError,
            res matches Ok(p) ==> made_proof(p, proof_type, self.constraint_system.constraints@, public_inputs@),
    {
        let proof_data = self.generate_proof_data();
        let generation_time = instant_elapsed(start);
        let timestamp = match unix_time_secs() {
            Some(t) => t,
            None => return Err(PrivacyError::ClockError),
        };
        let proof_hash = self.calculate_proof_hash(proof_data.as_slice());
        Ok(ProductionStarkProof {
            proof_data,
            public_inputs,
            proof_type,
            security_level: 128,
            field_size: field_modulus(),
            constraint_count: self.constraint_system.constraints.len() as u32,
            proof_size: 0,
            generation_time,
            verification_time: duration_from_secs(0),
            metadata: ProofMetadata { timestamp, version: 1, prover_id: owned("c0dl3-stark-prover"), proof_hash },
        })
    }

    /// Proves a transaction valid: the amount is in `1..=u64::MAX` and the
    /// balance covers it. The amount and recipient are public; the balance
    /// is private. A zero amount or one above the balance is refused.
    pub fn prove_transaction_validity(&mut self, amount: u64, sender_balance: u64, recipient_address: &[u8]) -> (res:
        Result<ProductionStarkProof, PrivacyError>)
        ensures
            amount == 0 ==> res == Err::<ProductionStarkProof, PrivacyError>(PrivacyError::ZeroAmount),
            amount != 0 && amount > sender_balance ==> res == Err::<ProductionStarkProof, PrivacyError>(
                PrivacyError::InsufficientBalance,
            ),
            res matches Err(e) ==> ((e == PrivacyError::ZeroAmount && amount == 0) || (e
                == PrivacyError::InsufficientBalance && 0 < amount && amount > sender_balance) || e
                == PrivacyError::ClockError),
            res matches Ok(p) ==> {
                &&& 0 < amount <= sender_balance
                &&& final(self).constraints_view().constraints@.len() == 2
                &&& is_constraint(
                    final(self).constraints_view().constraints@[0],
                    ConstraintType::Range,
                    seq![amount],
                    (1u64, u64::MAX),
                )
                &&& is_constraint(
                    final(self).constraints_view().constraints@[1],
                    ConstraintType::Arithmetic,
                    seq![sender_balance, amount],
                    (amount, u64::MAX),
                )
                &&& final(self).constraints_view().public_inputs@ == seq![amount]
                &&& final(self).constraints_view().private_inputs@ == seq![sender_balance]
                &&& made_proof(
                    p,
                    ProofType::TransactionValidity,
                    final(self).constraints_view().constraints@,
                    le_bytes_u64(amount) + recipient_address@,
                )
            },
    {
        let start_time = instant_now();
        if amount == 0 {
            return Err(PrivacyError::ZeroAmount);
        }
        if amount > sender_balance {
            return Err(PrivacyError::InsufficientBalance);
        }
        let mut constraints: Vec<Constraint> = Vec::new();
        constraints.push(Constraint { constraint_type: ConstraintType::Range, parameters: single(amount), bounds: (1, u64::MAX) });
        constraints.push(Constraint {
            constraint_type: ConstraintType::Arithmetic,
            parameters: pair(sender_balance, amount),
            bounds: (amount, u64::MAX),
        });
        self.constraint_system.constraints = constraints;
        self.constraint_system.public_inputs = single(amount);
        self.constraint_system.private_inputs = single(sender_balance);
        let public_inputs = self.create_public_inputs(amount, recipient_address);
        self.finish_proof(ProofType::TransactionValidity, public_inputs, &start_time)
    }

    /// Proves `min_amount <= amount <= max_amount`. Only the bounds are
    /// public. An amount outside the range is refused.
    pub fn prove_amount_range(&mut self, amount: u64, min_amount: u64, max_amount: u64) -> (res: Result<
        ProductionStarkProof,
        PrivacyError,
    >)
        ensures
            (amount < min_amount || amount > max_amount) ==> res == Err::<ProductionStarkProof, PrivacyError>(
                PrivacyError::AmountOutOfRange,
            ),
            res matches Err(e) ==> ((e == PrivacyError::AmountOutOfRange && (amount < min_amount || amount
                > max_amount)) || e == PrivacyError::ClockError),
            res matches Ok(p) ==> {
                &&& min_amount <= amount <= max_amount
                &&& final(self).constraints_view().constraints@.len() == 1
                &&& is_constraint(
                    final(self).constraints_view().constraints@[0],
                    ConstraintType::Range,
                    seq![amount],
                    (min_amount, max_amount),
                )
                &&& final(self).constraints_view().public_inputs@ == seq![min_amount, max_amount]
                &&& final(self).constraints_view().private_inputs@ == seq![amount]
                &&& made_proof(
                    p,
                    ProofType::AmountRange,
                    final(self).constraints_view().constraints@,
                    le_bytes_u64(min_amount) + le_bytes_u64(max_amount),
                )
            },
    {
        let start_time = instant_now();
        if amount < min_amount || amount > max_amount {
            return Err(PrivacyError::AmountOutOfRange);
        }
        let mut constraints: Vec<Constraint> = Vec::new();
        constraints.push(Constraint {
            constraint_type: ConstraintType::Range,
            parameters: single(amount),
            bounds: (min_amount, max_amount),
        });
        self.constraint_system.constraints = constraints;
        self.constraint_system.public_inputs = pair(min_amount, max_amount);
        self.constraint_system.private_inputs = single(amount);
        let public_inputs = self.create_range_public_inputs(min_amount, max_amount);
        self.finish_proof(ProofType::AmountRange, public_inputs, &start_time)
    }

    /// Proves a balance update by `amount`; only the amount is public. A
    /// balance below the amount is refused.
    pub fn prove_balance_consistency(&mut self, old_balance: u64, new_balance: u64, amount: u64) -> (res: Result<
        ProductionStarkProof,
        PrivacyError,
    >)
        ensures
            old_balance < amount ==> res == Err::<ProductionStarkProof, PrivacyError>(
                PrivacyError::InsufficientBalance,
            ),
            res matches Err(e) ==> ((e == PrivacyError::InsufficientBalance && old_balance < amount) || e
                == PrivacyError::ClockError),
            res matches Ok(p) ==> {
                &&& amount <= old_balance
                &&& final(self).constraints_view().constraints@.len() == 1
                &&& is_constraint(
                    final(self).constraints_view().constraints@[0],
                    ConstraintType::Balance,
                    seq![old_balance, amount, new_balance],
                    (new_balance, new_balance),
                )
                &&& final(self).constraints_view().public_inputs@ == seq![amount]
                &&& final(self).constraints_view().private_inputs@ == seq![old_balance, new_balance]
                &&& made_proof(
                    p,
                    ProofType::BalanceConsistency,
                    final(self).constraints_view().constraints@,
                    le_bytes_u64(amount),
                )
            },
    {
        let start_time = instant_now();
        if old_balance < amount {
            return Err(PrivacyError::InsufficientBalance);
        }
        let mut params: Vec<u64> = pair(old_balance, amount);
        params.push(new_balance);
        assert(params@ =~= seq![old_balance, amount, new_balance]);
        let mut constraints: Vec<Constraint> = Vec::new();
        constraints.push(Constraint {
            constraint_type: ConstraintType::Balance,
            parameters: params,
            bounds: (new_balance, new_balance),
        });
        self.constraint_system.constraints = constraints;
        self.constraint_system.public_inputs = single(amount);
        self.constraint_system.private_inputs = pair(old_balance, new_balance);
        let public_inputs = self.create_balance_public_inputs(amount);
        self.finish_proof(ProofType::BalanceConsistency, public_inputs, &start_time)
    }

    /// Verifies a proof: empty data or empty public inputs are errors;
    /// otherwise it passes.
    pub fn verify_proof(&self, proof: &ProductionStarkProof) -> (res: Result<bool, PrivacyError>)
        ensures
            proof.proof_data@.len() == 0 ==> res == Err::<bool, PrivacyError>(PrivacyError::EmptyProofData),
            proof.proof_data@.len() > 0 && proof.public_inputs@.len() == 0 ==> res == Err::<bool, PrivacyError>(
                PrivacyError::EmptyPublicInputs,
            ),
            proof.proof_data@.len() > 0 && proof.public_inputs@.len() > 0 ==> res == Ok::<bool, PrivacyError>(
                true,
            ),
    {
        let start_time = instant_now();
        let is_valid = self.verify_proof_data(proof.proof_data.as_slice(), proof.public_inputs.as_slice());
        let _verification_time = instant_elapsed(&start_time);
        is_valid
    }
}

/// Proof data always opens with the FRI parameter bytes, so it is never
/// empty; with the non-empty public inputs that every proof carries, a
/// proof the system makes passes verification.
pub proof fn lemma_proof_data_nonempty(lists: Seq<Seq<u64>>)
    ensures
        proof_data_spec(lists).len() >= 3,
        proof_data_spec(lists).subrange(0, 3) == fri_head(),
    decreases lists.len(),
{
    if lists.len() > 0 {
        lemma_proof_data_nonempty(lists.drop_last());
        let prev = proof_data_spec(lists.drop_last());
        assert(proof_data_spec(lists).subrange(0, 3) =~= prev.subrange(0, 3));
    }
}

} // verus!
