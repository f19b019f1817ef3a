//! Proof envelopes of the Boojum STARK system for user privacy. The prover
//! itself is a placeholder: proof data is a tagged encoding of the witness
//! and verification checks the envelope. What is fixed here is which inputs
//! are accepted, what each envelope holds, and which proof types verify.
use vstd::prelude::*;
use vstd::string::*;
use crate::crypto::unix_time_secs;
use crate::error::PrivacyError;
use crate::text::{decimal_bytes, extend_bytes, extend_decimal, extend_str_bytes, le_bytes_u64, owned, str_equal, u64_le_bytes};

verus! {

/// The Boojum STARK proof system with its proof parameters.
pub struct BoojumStarkProofSystem {
    boojum_prover: BoojumProverPlaceholder,
    proof_params: BoojumProofParameters,
}

/// Configuration of the (placeholder) prover.
#[derive(Debug, Clone)]
struct BoojumProverPlaceholder {
    config: String,
}

/// Proof generation parameters.
#[derive(Debug, Clone)]
struct BoojumProofParameters {
    security_level: u32,
    field_size: u64,
    rounds: u32,
    boojum_params: BoojumSpecificParams,
}

/// Boojum-specific parameters.
#[derive(Debug, Clone)]
struct BoojumSpecificParams {
    fri_params: FriParameters,
    constraint_params: ConstraintParameters,
}

/// FRI parameters.
#[derive(Debug, Clone, Copy)]
pub struct FriParameters {
    /// FRI folding factor.
    pub folding_factor: u32,
    /// Number of FRI queries.
    pub num_queries: u32,
    /// FRI grinding factor.
    pub grinding_factor: u32,
}

/// Constraint system parameters.
#[derive(Debug, Clone)]
struct ConstraintParameters {
    num_constraints: u32,
    constraint_degree: u32,
    public_input_count: u32,
}

/// A Boojum STARK proof envelope.
#[derive(Debug, Clone)]
pub struct BoojumStarkProof {
    /// Proof data.
    pub boojum_proof_data: Vec<u8>,
    /// Public inputs for verification.
    pub public_inputs: Vec<u8>,
    /// Proof type identifier.
    pub proof_type: String,
    /// Security level in bits.
    pub security_level: u32,
    /// Proof metadata.
    pub boojum_metadata: BoojumProofMetadata,
}

/// Metadata of a Boojum proof.
#[derive(Debug, Clone)]
pub struct BoojumProofMetadata {
    /// Generation time, seconds since the Unix epoch.
    pub timestamp: u64,
    /// Proof format version.
    pub version: u8,
    /// Field size.
    pub field_size: u64,
    /// Number of constraints.
    pub constraint_count: u32,
    /// FRI parameters used.
    pub fri_params: FriParameters,
    /// Boojum version.
    pub boojum_version: String,
}

/// The security level of the system, in bits.
pub open spec fn boojum_security_level() -> u32 {
    128
}

/// The field size recorded in proofs: 2^64 - 1.
pub open spec fn boojum_field_size() -> u64 {
    0xffff_ffff_ffff_ffff
}

/// Proof data of a transaction validity proof.
pub open spec fn validity_proof_data(amount: u64, balance: u64) -> Seq<u8> {
    "boojum_validity_proof:".spec_bytes() + le_bytes_u64(amount) + le_bytes_u64(balance) + ":boojum_end".spec_bytes()
}

/// Public inputs of a transaction validity proof.
pub open spec fn validity_public_inputs(amount: u64, balance: u64) -> Seq<u8> {
    "boojum_validity_inputs:".spec_bytes() + decimal_bytes(amount as nat) + ":".spec_bytes() + decimal_bytes(
        balance as nat,
    )
}

/// Proof data of an amount range proof.
pub open spec fn range_proof_data(amount: u64, min_amount: u64, max_amount: u64) -> Seq<u8> {
    "boojum_range_proof:".spec_bytes() + le_bytes_u64(amount) + le_bytes_u64(min_amount) + le_bytes_u64(max_amount)
        + ":boojum_end".spec_bytes()
}

/// Public inputs of an amount range proof: the bounds only.
pub open spec fn range_public_inputs(min_amount: u64, max_amount: u64) -> Seq<u8> {
    "boojum_range_inputs:".spec_bytes() + decimal_bytes(min_amount as nat) + ":".spec_bytes() + decimal_bytes(
        max_amount as nat,
    )
}

/// Proof data of a balance consistency proof.
pub open spec fn balance_proof_data(original: u64, transfer: u64, new_balance: u64) -> Seq<u8> {
    "boojum_balance_proof:".spec_bytes() + le_bytes_u64(original) + le_bytes_u64(transfer) + le_bytes_u64(
        new_balance,
    ) + ":boojum_end".spec_bytes()
}

/// Public inputs of a balance consistency proof: the transfer amount only.
pub open spec fn balance_public_inputs(transfer: u64) -> Seq<u8> {
    "boojum_balance_inputs:".spec_bytes() + decimal_bytes(transfer as nat)
}

/// Proof data of a transaction privacy proof: the frame alone, so that
/// nothing of the amount or the balance is carried.
pub open spec fn privacy_proof_data() -> Seq<u8> {
    "boojum_privacy_proof:".spec_bytes() + ":boojum_end".spec_bytes()
}

/// The envelope fields every proof of this system carries.
pub open spec fn envelope_ok(p: BoojumStarkProof, proof_type: Seq<char>, constraint_count: u32) -> bool {
    &&& p.proof_type@ == proof_type
    &&& p.security_level == boojum_security_level()
    &&& p.boojum_metadata.version == 1
    &&& p.boojum_metadata.field_size == boojum_field_size()
    &&& p.boojum_metadata.constraint_count == constraint_count
    &&& p.boojum_metadata.fri_params == (FriParameters { folding_factor: 4, num_queries: 2, grinding_factor: 1 })
    &&& p.boojum_metadata.boojum_version@ == "main"@
}

/// The proof types that verification knows.
pub open spec fn known_proof_type(t: Seq<char>) -> bool {
    t == "boojum_transaction_validity"@ || t == "boojum_amount_range"@ || t == "boojum_balance_consistency"@
}

impl BoojumStarkProofSystem {
    /// The system's parameters are the fixed production parameters.
    pub closed spec fn well_formed(&self) -> bool {
        &&& self.proof_params.security_level == boojum_security_level()
        &&& self.proof_params.field_size == boojum_field_size()
        &&& self.proof_params.boojum_params.fri_params == (FriParameters {
            folding_factor: 4,
            num_queries: 2,
            grinding_factor: 1,
        })
        &&& self.proof_params.boojum_params.constraint_params.num_constraints == 4
    }

    /// The system with its production parameters: 128-bit security, field
    /// size 2^64 - 1, FRI folding 4 with 2 queries and grinding 1, four
    /// degree-2 constraints over two public inputs.
    pub fn new() -> (res: Result<Self, PrivacyError>)
        ensures
            res matches Ok(s) && s.well_formed(),
    {
        let fri_params = FriParameters { folding_factor: 4, num_queries: 2, grinding_factor: 1 };
        let constraint_params = ConstraintParameters {
            num_constraints: 4,
            constraint_degree: 2,
            public_input_count: 2,
        };
        let boojum_params = BoojumSpecificParams { fri_params, constraint_params };
        let proof_params = BoojumProofParameters {
            security_level: 128,
            field_size: 0xffff_ffff_ffff_ffff,
            rounds: 10,
            boojum_params,
        };
        let boojum_prover = BoojumProverPlaceholder { config: owned("boojum_prover_config") };
        Ok(BoojumStarkProofSystem { boojum_prover, proof_params })
    }

    /// A transaction validity proof: the amount is positive and covered by
    /// the sender's balance.
    pub fn prove_transaction_validity(&self, amount: u64, sender_balance: u64) -> (res: Result<
        BoojumStarkProof,
        PrivacyError,
    >)
        requires
            self.well_formed(),
        ensures
            amount == 0 ==> res == Err::<BoojumStarkProof, PrivacyError>(PrivacyError::ZeroAmount),
            amount != 0 && amount > sender_balance ==> res == Err::<BoojumStarkProof, PrivacyError>(
                PrivacyError::InsufficientBalance,
            ),
            res matches Err(e) ==> ((e == PrivacyError::ZeroAmount && amount == 0) || (e
                == PrivacyError::InsufficientBalance && 0 < amount && amount > sender_balance) || e
                == PrivacyError::ClockError),
            res matches Ok(p) ==> {
                &&& 0 < amount <= sender_balance
                &&& envelope_ok(p, "boojum_transaction_validity"@, 4)
                &&& p.boojum_proof_data@ == validity_proof_data(amount, sender_balance)
                &&& p.public_inputs@ == validity_public_inputs(amount, sender_balance)
            },
    {
        if amount == 0 {
            return Err(PrivacyError::ZeroAmount);
        }
        if amount > sender_balance {
            return Err(PrivacyError::InsufficientBalance);
        }
        let now = match unix_time_secs() {
            Some(t) => t,
            None => return Err(PrivacyError::ClockError),
        };
        self.prove_transaction_validity_at(amount, sender_balance, now)
    }

    /// The transaction validity proof stamped with `timestamp`: refused
    /// exactly where the amount is zero or above the balance.
    pub fn prove_transaction_validity_at(&self, amount: u64, sender_balance: u64, timestamp: u64) -> (res: Result<
        BoojumStarkProof,
        PrivacyError,
    >)
        requires
            self.well_formed(),
        ensures
            amount == 0 ==> res == Err::<BoojumStarkProof, PrivacyError>(PrivacyError::ZeroAmount),
            amount != 0 && amount > sender_balance ==> res == Err::<BoojumStarkProof, PrivacyError>(
                PrivacyError::InsufficientBalance,
            ),
            0 < amount <= sender_balance ==> (res matches Ok(p) && {
                &&& envelope_ok(p, "boojum_transaction_validity"@, 4)
                &&& p.boojum_proof_data@ == validity_proof_data(amount, sender_balance)
                &&& p.public_inputs@ == validity_public_inputs(amount, sender_balance)
                &&& p.boojum_metadata.timestamp == timestamp
            }),
    {
        if amount == 0 {
            return Err(PrivacyError::ZeroAmount);
        }
        if amount > sender_balance {
            return Err(PrivacyError::InsufficientBalance);
        }
        let boojum_proof_data = self.generate_boojum_proof_data(amount, sender_balance);
        let public_inputs = self.create_transaction_validity_public_inputs(amount, sender_balance);
        let constraint_count = self.proof_params.boojum_params.constraint_params.num_constraints;
        Ok(self.envelope_at(boojum_proof_data, public_inputs, "boojum_transaction_validity", constraint_count, timestamp))
    }

    /// An amount range proof: `min_amount <= amount <= max_amount`; only the
    /// bounds are public.
    pub fn prove_amount_range(&self, amount: u64, min_amount: u64, max_amount: u64) -> (res: Result<
        BoojumStarkProof,
        PrivacyError,
    >)
        requires
            self.well_formed(),
        ensures
            (amount < min_amount || amount > max_amount) ==> res == Err::<BoojumStarkProof, PrivacyError>(
                PrivacyError::AmountOutOfRange,
            ),
            res matches Err(e) ==> ((e == PrivacyError::AmountOutOfRange && (amount < min_amount || amount
                > max_amount)) || e == PrivacyError::ClockError),
            res matches Ok(p) ==> {
                &&& min_amount <= amount <= max_amount
                &&& envelope_ok(p, "boojum_amount_range"@, 2)
                &&& p.boojum_proof_data@ == range_proof_data(amount, min_amount, max_amount)
                &&& p.public_inputs@ == range_public_inputs(min_amount, max_amount)
            },
    {
        if amount < min_amount || amount > max_amount {
            return Err(PrivacyError::AmountOutOfRange);
        }
        let now = match unix_time_secs() {
            Some(t) => t,
            None => return Err(PrivacyError::ClockError),
        };
        self.prove_amount_range_at(amount, min_amount, max_amount, now)
    }

    /// The amount range proof stamped with `timestamp`: refused exactly
    /// where the amount lies outside the bounds.
    pub fn prove_amount_range_at(&self, amount: u64, min_amount: u64, max_amount: u64, timestamp: u64) -> (res:
        Result<BoojumStarkProof, PrivacyError>)
        requires
            self.well_formed(),
        ensures
            (amount < min_amount || amount > max_amount) ==> res == Err::<BoojumStarkProof, PrivacyError>(
                PrivacyError::AmountOutOfRange,
            ),
            min_amount <= amount <= max_amount ==> (res matches Ok(p) && {
                &&& envelope_ok(p, "boojum_amount_range"@, 2)
                &&& p.boojum_proof_data@ == range_proof_data(amount, min_amount, max_amount)
                &&& p.public_inputs@ == range_public_inputs(min_amount, max_amount)
                &&& p.boojum_metadata.timestamp == timestamp
            }),
    {
        if amount < min_amount || amount > max_amount {
            return Err(PrivacyError::AmountOutOfRange);
        }
        let boojum_proof_data = self.generate_boojum_range_proof_data(amount, min_amount, max_amount);
        let public_inputs = self.create_amount_range_public_inputs(min_amount, max_amount);
        Ok(self.envelope_at(boojum_proof_data, public_inputs, "boojum_amount_range", 2, timestamp))
    }

    /// A balance consistency proof: the new balance is the original balance
    /// less the transfer; only the transfer amount is public.
    pub fn prove_balance_consistency(&self, original_balance: u64, transfer_amount: u64) -> (res: Result<
        BoojumStarkProof,
        PrivacyError,
    >)
        requires
            self.well_formed(),
        ensures
            transfer_amount > original_balance ==> res == Err::<BoojumStarkProof, PrivacyError>(
                PrivacyError::InsufficientBalance,
            ),
            res matches Err(e) ==> ((e == PrivacyError::InsufficientBalance && transfer_amount > original_balance)
                || e == PrivacyError::ClockError),
            res matches Ok(p) ==> {
                &&& transfer_amount <= original_balance
                &&& envelope_ok(p, "boojum_balance_consistency"@, 1)
                &&& p.boojum_proof_data@ == balance_proof_data(
                    original_balance,
                    transfer_amount,
                    (original_balance - transfer_amount) as u64,
                )
                &&& p.public_inputs@ == balance_public_inputs(transfer_amount)
            },
    {
        if transfer_amount > original_balance {
            return Err(PrivacyError::InsufficientBalance);
        }
        let now = match unix_time_secs() {
            Some(t) => t,
            None => return Err(PrivacyError::ClockError),
        };
        self.prove_balance_consistency_at(original_balance, transfer_amount, now)
    }

    /// The balance consistency proof stamped with `timestamp`: refused
    /// exactly where the transfer exceeds the balance.
    pub fn prove_balance_consistency_at(&self, original_balance: u64, transfer_amount: u64, timestamp: u64) -> (res:
        Result<BoojumStarkProof, PrivacyError>)
        requires
            self.well_formed(),
        ensures
            transfer_amount > original_balance ==> res == Err::<BoojumStarkProof, PrivacyError>(
                PrivacyError::InsufficientBalance,
            ),
            transfer_amount <= original_balance ==> (res matches Ok(p) && {
                &&& envelope_ok(p, "boojum_balance_consistency"@, 1)
                &&& p.boojum_proof_data@ == balance_proof_data(
                    original_balance,
                    transfer_amount,
                    (original_balance - transfer_amount) as u64,
                )
                &&& p.public_inputs@ == balance_public_inputs(transfer_amount)
                &&& p.boojum_metadata.timestamp == timestamp
            }),
    {
        if transfer_amount > original_balance {
            return Err(PrivacyError::InsufficientBalance);
        }
        let new_balance = original_balance - transfer_amount;
        let boojum_proof_data = self.generate_boojum_balance_proof_data(
            original_balance,
            transfer_amount,
            new_balance,
        );
        let public_inputs = self.create_balance_consistency_public_inputs(transfer_amount);
        Ok(self.envelope_at(boojum_proof_data, public_inputs, "boojum_balance_consistency", 1, timestamp))
    }

    /// Verifies a proof of one of the three verifiable types (validity,
    /// range, balance): it holds when its data and public inputs are both
    /// non-empty. Any other type, the privacy proof included, is an error.
    pub fn verify_proof(&self, proof: &BoojumStarkProof) -> (res: Result<bool, PrivacyError>)
        ensures
            known_proof_type(proof.proof_type@) ==> res == Ok::<bool, PrivacyError>(
                proof.boojum_proof_data@.len() > 0 && proof.public_inputs@.len() > 0,
            ),
            !known_proof_type(proof.proof_type@) ==> res == Err::<bool, PrivacyError>(PrivacyError::UnknownProofType),
    {
        let t = proof.proof_type.as_str();
        if str_equal(t, "boojum_transaction_validity") {
            self.verify_boojum_transaction_validity_proof(proof)
        } else if str_equal(t, "boojum_amount_range") {
            self.verify_boojum_amount_range_proof(proof)
        } else if str_equal(t, "boojum_balance_consistency") {
            self.verify_boojum_balance_consistency_proof(proof)
        } else {
            Err(PrivacyError::UnknownProofType)
        }
    }

    /// A transaction privacy proof: neither its data nor its public inputs
    /// depend on the amount or the balance, so nothing private is revealed.
    pub fn prove_transaction_privacy(&self, _amount: u64, _sender_balance: u64) -> (res: Result<
        BoojumStarkProof,
        PrivacyError,
    >)
        requires
            self.well_formed(),
        ensures
            res matches Err(e) ==> e == PrivacyError::ClockError,
            res matches Ok(p) ==> {
                &&& envelope_ok(p, "boojum_transaction_privacy"@, 3)
                &&& p.boojum_proof_data@ == privacy_proof_data()
                &&& p.public_inputs@ == "boojum_privacy_proof:valid_transaction".spec_bytes()
            },
    {
        let now = match unix_time_secs() {
            Some(t) => t,
            None => return Err(PrivacyError::ClockError),
        };
        Ok(self.prove_transaction_privacy_at(now))
    }

    /// The transaction privacy proof stamped with `timestamp`.
    pub fn prove_transaction_privacy_at(&self, timestamp: u64) -> (res: BoojumStarkProof)
        requires
            self.well_formed(),
        ensures
            envelope_ok(res, "boojum_transaction_privacy"@, 3),
            res.boojum_proof_data@ == privacy_proof_data(),
            res.public_inputs@ == "boojum_privacy_proof:valid_transaction".spec_bytes(),
            res.boojum_metadata.timestamp == timestamp,
    {
        let boojum_proof_data = self.generate_boojum_privacy_proof_data();
        let mut public_inputs: Vec<u8> = Vec::new();
        extend_str_bytes(&mut public_inputs, "boojum_privacy_proof:valid_transaction");
        self.envelope_at(boojum_proof_data, public_inputs, "boojum_transaction_privacy", 3, timestamp)
    }

    /// Wraps proof data and public inputs in an envelope stamped with
    /// `timestamp`.
    fn envelope_at(
        &self,
        boojum_proof_data: Vec<u8>,
        public_inputs: Vec<u8>,
        proof_type: &str,
        constraint_count: u32,
        timestamp: u64,
    ) -> (res: BoojumStarkProof)
        requires
            self.well_formed(),
        ensures
            envelope_ok(res, proof_type@, constraint_count),
            res.boojum_proof_data@ == boojum_proof_data@,
            res.public_inputs@ == public_inputs@,
            res.boojum_metadata.timestamp == timestamp,
    {
        BoojumStarkProof {
            boojum_proof_data,
            public_inputs,
            proof_type: owned(proof_type),
            security_level: self.proof_params.security_level,
            boojum_metadata: BoojumProofMetadata {
                timestamp,
                version: 1,
                field_size: self.proof_params.field_size,
                constraint_count,
                fri_params: self.proof_params.boojum_params.fri_params,
                boojum_version: owned("main"),
            },
        }
    }

    /// `boojum_validity_proof:`, amount and balance in little-endian, `:boojum_end`.
    fn generate_boojum_proof_data(&self, amount: u64, sender_balance: u64) -> (res: Vec<u8>)
        ensures
            res@ == validity_proof_data(amount, sender_balance),
    {
        let mut v: Vec<u8> = Vec::new();
        extend_str_bytes(&mut v, "boojum_validity_proof:");
        let a = u64_le_bytes(amount);
        extend_bytes(&mut v, a.as_slice());
        let b = u64_le_bytes(sender_balance);
        extend_bytes(&mut v, b.as_slice());
        extend_str_bytes(&mut v, ":boojum_end");
        v
    }

    /// `boojum_range_proof:`, amount and bounds in little-endian, `:boojum_end`.
    fn generate_boojum_range_proof_data(&self, amount: u64, min_amount: u64, max_amount: u64) -> (res: Vec<u8>)
        ensures
            res@ == range_proof_data(amount, min_amount, max_amount),
    {
        let mut v: Vec<u8> = Vec::new();
        extend_str_bytes(&mut v, "boojum_range_proof:");
        let a = u64_le_bytes(amount);
        extend_bytes(&mut v, a.as_slice());
        let lo = u64_le_bytes(min_amount);
        extend_bytes(&mut v, lo.as_slice());
        let hi = u64_le_bytes(max_amount);
        extend_bytes(&mut v, hi.as_slice());
        extend_str_bytes(&mut v, ":boojum_end");
        v
    }

    /// `boojum_balance_proof:`, the three balances in little-endian, `:boojum_end`.
    fn generate_boojum_balance_proof_data(&self, original_balance: u64, transfer_amount: u64, new_balance: u64) -> (res: Vec<u8>)
        ensures
            res@ == balance_proof_data(original_balance, transfer_amount, new_balance),
    {
        let mut v: Vec<u8> = Vec::new();
        extend_str_bytes(&mut v, "boojum_balance_proof:");
        let a = u64_le_bytes(original_balance);
        extend_bytes(&mut v, a.as_slice());
        let b = u64_le_bytes(transfer_amount);
        extend_bytes(&mut v, b.as_slice());
        let c = u64_le_bytes(new_balance);
        extend_bytes(&mut v, c.as_slice());
        extend_str_bytes(&mut v, ":boojum_end");
        v
    }

    /// `boojum_privacy_proof:` then `:boojum_end`.
    fn generate_boojum_privacy_proof_data(&self) -> (res: Vec<u8>)
        ensures
            res@ == privacy_proof_data(),
    {
        let mut v: Vec<u8> = Vec::new();
        extend_str_bytes(&mut v, "boojum_privacy_proof:");
        extend_str_bytes(&mut v, ":boojum_end");
        v
    }

    /// `boojum_validity_inputs:{amount}:{balance}`.
    fn create_transaction_validity_public_inputs(&self, amount: u64, sender_balance: u64) -> (res: Vec<u8>)
        ensures
            res@ == validity_public_inputs(amount, sender_balance),
    {
        let mut v: Vec<u8> = Vec::new();
        extend_str_bytes(&mut v, "boojum_validity_inputs:");
        extend_decimal(&mut v, amount);
        extend_str_bytes(&mut v, ":");
        extend_decimal(&mut v, sender_balance);
        v
    }

    /// `boojum_range_inputs:{min}:{max}`.
    fn create_amount_range_public_inputs(&self, min_amount: u64, max_amount: u64) -> (res: Vec<u8>)
        ensures
            res@ == range_public_inputs(min_amount, max_amount),
    {
        let mut v: Vec<u8> = Vec::new();
        extend_str_bytes(&mut v, "boojum_range_inputs:");
        extend_decimal(&mut v, min_amount);
        extend_str_bytes(&mut v, ":");
        extend_decimal(&mut v, max_amount);
        v
    }

    /// `boojum_balance_inputs:{transfer}`.
    fn create_balance_consistency_public_inputs(&self, transfer_amount: u64) -> (res: Vec<u8>)
        ensures
            res@ == balance_public_inputs(transfer_amount),
    {
        let mut v: Vec<u8> = Vec::new();
        extend_str_bytes(&mut v, "boojum_balance_inputs:");
        extend_decimal(&mut v, transfer_amount);
        v
    }

    /// Envelope check of a validity proof.
    fn verify_boojum_transaction_validity_proof(&self, proof: &BoojumStarkProof) -> (res: Result<bool, PrivacyError>)
        ensures
            res == Ok::<bool, PrivacyError>(proof.boojum_proof_data@.len() > 0 && proof.public_inputs@.len() > 0),
    {
        Ok(proof.boojum_proof_data.len() != 0 && proof.public_inputs.len() != 0)
    }

    /// Envelope check of a range proof.
    fn verify_boojum_amount_range_proof(&self, proof: &BoojumStarkProof) -> (res: Result<bool, PrivacyError>)
        ensures
            res == Ok::<bool, PrivacyError>(proof.boojum_proof_data@.len() > 0 && proof.public_inputs@.len() > 0),
    {
        Ok(proof.boojum_proof_data.len() != 0 && proof.public_inputs.len() != 0)
    }

    /// Envelope check of a balance proof.
    fn verify_boojum_balance_consistency_proof(&self, proof: &BoojumStarkProof) -> (res: Result<bool, PrivacyError>)
        ensures
            res == Ok::<bool, PrivacyError>(proof.boojum_proof_data@.len() > 0 && proof.public_inputs@.len() > 0),
    {
        Ok(proof.boojum_proof_data.len() != 0 && proof.public_inputs.len() != 0)
    }
}

/// Proof data of every kind is non-empty: each starts with a non-empty tag.
pub proof fn lemma_proof_data_nonempty(amount: u64, balance: u64, lo: u64, hi: u64, transfer: u64)
    ensures
        validity_proof_data(amount, balance).len() > 0,
        validity_public_inputs(amount, balance).len() > 0,
        range_proof_data(amount, lo, hi).len() > 0,
        range_public_inputs(lo, hi).len() > 0,
        balance_proof_data(balance, transfer, (balance - transfer) as u64).len() > 0,
        balance_public_inputs(transfer).len() > 0,
{
    crate::text::lemma_decimal_bytes_shape(amount as nat);
    crate::text::lemma_decimal_bytes_shape(balance as nat);
    crate::text::lemma_decimal_bytes_shape(hi as nat);
    crate::text::lemma_decimal_bytes_shape(transfer as nat);
}

/// Completeness of the envelope check: a validity, range or balance proof
/// produced by this system verifies.
pub proof fn lemma_generated_proofs_verify(p: BoojumStarkProof, amount: u64, balance: u64, lo: u64, hi: u64, transfer: u64)
    requires
        (envelope_ok(p, "boojum_transaction_validity"@, 4) && p.boojum_proof_data@ == validity_proof_data(
            amount,
            balance,
        ) && p.public_inputs@ == validity_public_inputs(amount, balance)) || (envelope_ok(
            p,
            "boojum_amount_range"@,
            2,
        ) && p.boojum_proof_data@ == range_proof_data(amount, lo, hi) && p.public_inputs@ == range_public_inputs(
            lo,
            hi,
        )) || (envelope_ok(p, "boojum_balance_consistency"@, 1) && p.boojum_proof_data@ == balance_proof_data(
            balance,
            transfer,
            (balance - transfer) as u64,
        ) && p.public_inputs@ == balance_public_inputs(transfer)),
    ensures
        known_proof_type(p.proof_type@),
        p.boojum_proof_data@.len() > 0 && p.public_inputs@.len() > 0,
{
    lemma_proof_data_nonempty(amount, balance, lo, hi, transfer);
}

} // verus!
