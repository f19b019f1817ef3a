//! STARK-style proofs for user-level privacy over winter-math's 64-bit
//! field: transaction validity and amount range proofs made of field
//! elements, balance consistency and transaction privacy proofs made of the
//! amounts. Every proof ends in the SHA-256 hash of what precedes it, which
//! verification checks.
use vstd::prelude::*;
use vstd::string::*;
use crate::crypto::{sha256, sha256_spec, unix_time_secs};
use crate::error::PrivacyError;
use crate::stark_field::{field_difference_bytes, field_element_bytes, field_modulus, field_prime, fri_options_new};
use crate::text::{bytes_equal, extend_bytes, le_bytes_u64, owned, u64_le_bytes};

verus! {

/// A production STARK proof.
#[derive(Debug, Clone)]
pub struct ProductionStarkProof {
    /// FRI proof data.
    pub fri_proof: Vec<u8>,
    /// Public inputs.
    pub public_inputs: Vec<u8>,
    /// Proof type.
    pub proof_type: String,
    /// Security level in bits.
    pub security_level: u32,
    /// Metadata.
    pub metadata: ProofMetadata,
}

/// Metadata of a production STARK proof.
#[derive(Debug, Clone, Copy, PartialEq, Eq, Structural)]
pub struct ProofMetadata {
    /// Generation time, seconds since the Unix epoch.
    pub timestamp: u64,
    /// Proof version.
    pub version: u8,
    /// Size of the field used.
    pub field_size: u64,
    /// Number of constraints.
    pub constraint_count: u32,
}

/// The production STARK proof system.
pub struct ProductionStarkProofSystem {
    fri_options: winter_fri::FriOptions,
    proof_state: Vec<u8>,
}

/// The canonical bytes of a field element made from the low 32 bits of a
/// value.
pub open spec fn element(v: u64) -> Seq<u8> {
    le_bytes_u64((v as u32) as u64)
}

/// The canonical bytes of the difference of two such elements.
pub open spec fn difference(a: u64, b: u64) -> Seq<u8> {
    le_bytes_u64((((a as u32) - (b as u32)) % field_prime()) as u64)
}

/// Data followed by its SHA-256 hash.
pub open spec fn sealed(data: Seq<u8>) -> Seq<u8> {
    data + sha256_spec(data)
}

/// The verification of a proof: non-empty data and public inputs, and the
/// data ends in the SHA-256 hash of what precedes it.
pub open spec fn proof_verifies(fri: Seq<u8>, inputs: Seq<u8>) -> bool {
    &&& fri.len() > 0
    &&& inputs.len() > 0
    &&& fri.len() >= 32
    &&& fri.subrange(fri.len() - 32, fri.len() as int) == sha256_spec(fri.subrange(0, fri.len() - 32))
}

/// Appends the bytes of a field element made from the low 32 bits of `v`.
fn push_element(buf: &mut Vec<u8>, v: u64)
    ensures
        final(buf)@ == old(buf)@ + element(v),
{
    let e = field_element_bytes(v as u32);
    extend_bytes(buf, e.as_slice());
}

/// Appends the bytes of the difference of two field elements.
fn push_difference(buf: &mut Vec<u8>, a: u64, b: u64)
    ensures
        final(buf)@ == old(buf)@ + difference(a, b),
{
    let e = field_difference_bytes(a as u32, b as u32);
    extend_bytes(buf, e.as_slice());
}

/// Appends the SHA-256 hash of the data.
fn seal(data: Vec<u8>) -> (res: Vec<u8>)
    ensures
        res@ == sealed(data@),
        sha256_spec(data@).len() == 32,
{
    let d = sha256(data.as_slice());
    let mut res = data;
    extend_bytes(&mut res, &d);
    res
}

/// The sealed bytes of a transaction validity proof.
pub open spec fn validity_fri(amount: u64, balance: u64) -> Seq<u8> {
    sealed(element(amount) + element(balance) + difference(balance, amount))
}

/// The sealed bytes of an amount range proof.
pub open spec fn range_fri(amount: u64, min_amount: u64, max_amount: u64) -> Seq<u8> {
    sealed(element(amount) + difference(amount, min_amount) + difference(max_amount, amount))
}

/// The sealed bytes of a proof over two amounts.
pub open spec fn pair_fri(a: u64, b: u64) -> Seq<u8> {
    sealed(le_bytes_u64(a) + le_bytes_u64(b))
}

impl ProductionStarkProofSystem {
    /// The proof state.
    pub closed spec fn spec_proof_state(&self) -> Seq<u8> {
        self.proof_state@
    }

    /// A system with FRI options of blowup 32, folding factor 8 and
    /// remainder degree 0, and a zeroed 64-byte proof state.
    pub fn new() -> (res: Result<Self, PrivacyError>)
        ensures
            res matches Ok(s) && s.spec_proof_state() == Seq::new(64, |i: int| 0u8),
    {
        assert(32usize & 31usize == 0usize) by (bit_vector);
        let fri_options = fri_options_new(32, 8, 0);
        let mut proof_state: Vec<u8> = Vec::new();
        let mut i: usize = 0;
        while i < 64
            invariant
                i <= 64,
                proof_state@ == Seq::new(i as nat, |j: int| 0u8),
            decreases 64 - i,
        {
            proof_state.push(0u8);
            i = i + 1;
            assert(proof_state@ =~= Seq::new(i as nat, |j: int| 0u8));
        }
        Ok(ProductionStarkProofSystem { fri_options, proof_state })
    }

    /// Proves `amount <= sender_balance` over field elements of the low 32
    /// bits of both: amount, balance and their difference, sealed; the
    /// public inputs are the amount and balance elements. A larger amount
    /// is refused.
    pub fn prove_transaction_validity(&self, amount: u64, sender_balance: u64) -> (res: Result<
        ProductionStarkProof,
        PrivacyError,
    >)
        ensures
            amount > sender_balance ==> res == Err::<ProductionStarkProof, PrivacyError>(
                PrivacyError::InsufficientBalance,
            ),
            res matches Err(e) ==> (e == PrivacyError::InsufficientBalance && amount > sender_balance) || e
                == PrivacyError::ClockError,
            res matches Ok(p) ==> {
                &&& amount <= sender_balance
                &&& p.fri_proof@ == validity_fri(amount, sender_balance)
                &&& p.public_inputs@ == element(amount) + element(sender_balance)
                &&& p.proof_type@ == "transaction_validity"@
                &&& p.security_level == 128
                &&& p.metadata.version == 1
                &&& p.metadata.field_size == field_prime()
                &&& p.metadata.constraint_count == 4
                &&& proof_verifies(p.fri_proof@, p.public_inputs@)
            },
    {
        if amount > sender_balance {
            return Err(PrivacyError::InsufficientBalance);
        }
        let mut data: Vec<u8> = Vec::new();
        push_element(&mut data, amount);
        push_element(&mut data, sender_balance);
        push_difference(&mut data, sender_balance, amount);
        let ghost body = data@;
        let fri_proof = seal(data);
        let mut public_inputs: Vec<u8> = Vec::new();
        push_element(&mut public_inputs, amount);
        push_element(&mut public_inputs, sender_balance);
        let timestamp = match unix_time_secs() {
            Some(t) => t,
            None => return Err(PrivacyError::ClockError),
        };
        proof {
            lemma_sealed_verifies(body, public_inputs@);
        }
        Ok(ProductionStarkProof {
            fri_proof,
            public_inputs,
            proof_type: owned("transaction_validity"),
            security_level: 128,
            metadata: ProofMetadata { timestamp, version: 1, field_size: field_modulus(), constraint_count: 4 },
        })
    }

    /// Proves `min_amount <= amount <= max_amount` over field elements of the
    /// low 32 bits: the amount and its distances to both bounds, sealed; the
    /// public inputs are the bound elements. An amount outside is refused.
    pub fn prove_amount_range(&self, amount: u64, min_amount: u64, max_amount: u64) -> (res: Result<
        ProductionStarkProof,
        PrivacyError,
    >)
        ensures
            (amount < min_amount || amount > max_amount) ==> res == Err::<ProductionStarkProof, PrivacyError>(
                PrivacyError::AmountOutOfRange,
            ),
            res matches Err(e) ==> (e == PrivacyError::AmountOutOfRange && (amount < min_amount || amount > max_amount))
                || e == PrivacyError::ClockError,
            res matches Ok(p) ==> {
                &&& min_amount <= amount <= max_amount
                &&& p.fri_proof@ == range_fri(amount, min_amount, max_amount)
                &&& p.public_inputs@ == element(min_amount) + element(max_amount)
                &&& p.proof_type@ == "amount_range"@
                &&& p.security_level == 128
                &&& p.metadata.version == 1
                &&& p.metadata.field_size == field_prime()
                &&& p.metadata.constraint_count == 2
                &&& proof_verifies(p.fri_proof@, p.public_inputs@)
            },
    {
        if amount < min_amount || amount > max_amount {
            return Err(PrivacyError::AmountOutOfRange);
        }
        let mut data: Vec<u8> = Vec::new();
        push_element(&mut data, amount);
        push_difference(&mut data, amount, min_amount);
        push_difference(&mut data, max_amount, amount);
        let ghost body = data@;
        let fri_proof = seal(data);
        let mut public_inputs: Vec<u8> = Vec::new();
        push_element(&mut public_inputs, min_amount);
        push_element(&mut public_inputs, max_amount);
        let timestamp = match unix_time_secs() {
            Some(t) => t,
            None => return Err(PrivacyError::ClockError),
        };
        proof {
            lemma_sealed_verifies(body, public_inputs@);
        }
        Ok(ProductionStarkProof {
            fri_proof,
            public_inputs,
            proof_type: owned("amount_range"),
            security_level: 128,
            metadata: ProofMetadata { timestamp, version: 1, field_size: field_modulus(), constraint_count: 2 },
        })
    }

    /// Proves a balance transition that does not increase the balance: both
    /// balances, sealed. An increase is refused.
    pub fn prove_balance_consistency(&self, old_balance: u64, new_balance: u64) -> (res: Result<
        ProductionStarkProof,
        PrivacyError,
    >)
        ensures
            old_balance < new_balance ==> res == Err::<ProductionStarkProof, PrivacyError>(
                PrivacyError::InvalidBalanceTransition,
            ),
            res matches Err(e) ==> (e == PrivacyError::InvalidBalanceTransition && old_balance < new_balance) || e
                == PrivacyError::ClockError,
            res matches Ok(p) ==> {
                &&& new_balance <= old_balance
                &&& p.fri_proof@ == pair_fri(old_balance, new_balance)
                &&& p.public_inputs@ == "balance_consistency".spec_bytes()
                &&& p.proof_type@ == "balance_consistency"@
                &&& p.security_level == 128
                &&& p.metadata.version == 1
                &&& p.metadata.field_size == u64::MAX - 1
                &&& p.metadata.constraint_count == 1
                &&& proof_verifies(p.fri_proof@, p.public_inputs@)
            },
    {
        if old_balance < new_balance {
            return Err(PrivacyError::InvalidBalanceTransition);
        }
        let mut data = u64_le_bytes(old_balance);
        let nb = u64_le_bytes(new_balance);
        extend_bytes(&mut data, nb.as_slice());
        let ghost body = data@;
        let fri_proof = seal(data);
        let mut public_inputs: Vec<u8> = Vec::new();
        extend_bytes(&mut public_inputs, "balance_consistency".as_bytes());
        proof {
            reveal_strlit("balance_consistency");
        }
        let timestamp = match unix_time_secs() {
            Some(t) => t,
            None => return Err(PrivacyError::ClockError),
        };
        proof {
            lemma_sealed_verifies(body, public_inputs@);
        }
        Ok(ProductionStarkProof {
            fri_proof,
            public_inputs,
            proof_type: owned("balance_consistency"),
            security_level: 128,
            metadata: ProofMetadata { timestamp, version: 1, field_size: u64::MAX - 1, constraint_count: 1 },
        })
    }

    /// Proves a transaction valid without revealing it: amount and balance,
    /// sealed. An amount above the balance is refused.
    pub fn prove_transaction_privacy(&self, amount: u64, sender_balance: u64) -> (res: Result<
        ProductionStarkProof,
        PrivacyError,
    >)
        ensures
            amount > sender_balance ==> res == Err::<ProductionStarkProof, PrivacyError>(
                PrivacyError::InsufficientBalance,
            ),
            res matches Err(e) ==> (e == PrivacyError::InsufficientBalance && amount > sender_balance) || e
                == PrivacyError::ClockError,
            res matches Ok(p) ==> {
                &&& amount <= sender_balance
                &&& p.fri_proof@ == pair_fri(amount, sender_balance)
                &&& p.public_inputs@ == "privacy_proof:valid_transaction".spec_bytes()
                &&& p.proof_type@ == "transaction_privacy"@
                &&& p.security_level == 128
                &&& p.metadata.version == 1
                &&& p.metadata.field_size == u64::MAX - 1
                &&& p.metadata.constraint_count == 3
                &&& proof_verifies(p.fri_proof@, p.public_inputs@)
            },
    {
        if amount > sender_balance {
            return Err(PrivacyError::InsufficientBalance);
        }
        let mut data = u64_le_bytes(amount);
        let b = u64_le_bytes(sender_balance);
        extend_bytes(&mut data, b.as_slice());
        let ghost body = data@;
        let fri_proof = seal(data);
        let mut public_inputs: Vec<u8> = Vec::new();
        extend_bytes(&mut public_inputs, "privacy_proof:valid_transaction".as_bytes());
        proof {
            reveal_strlit("privacy_proof:valid_transaction");
        }
        let timestamp = match unix_time_secs() {
            Some(t) => t,
            None => return Err(PrivacyError::ClockError),
        };
        proof {
            lemma_sealed_verifies(body, public_inputs@);
        }
        Ok(ProductionStarkProof {
            fri_proof,
            public_inputs,
            proof_type: owned("transaction_privacy"),
            security_level: 128,
            metadata: ProofMetadata { timestamp, version: 1, field_size: u64::MAX - 1, constraint_count: 3 },
        })
    }

    /// Verifies a proof: its data and public inputs are not empty and its
    /// data ends in the SHA-256 hash of what precedes it.
    pub fn verify_proof(&self, proof: &ProductionStarkProof) -> (res: Result<bool, PrivacyError>)
        ensures
            res == Ok::<bool, PrivacyError>(proof_verifies(proof.fri_proof@, proof.public_inputs@)),
    {
        let fri = proof.fri_proof.as_slice();
        if fri.len() == 0 || proof.public_inputs.len() == 0 {
            return Ok(false);
        }
        if fri.len() < 32 {
            return Ok(false);
        }
        let split = fri.len() - 32;
        let mut data: Vec<u8> = Vec::new();
        let mut provided: Vec<u8> = Vec::new();
        let mut i: usize = 0;
        while i < fri.len()
            invariant
                split == fri@.len() - 32,
                i <= fri@.len(),
                i <= split ==> data@ == fri@.subrange(0, i as int) && provided@.len() == 0,
                i > split ==> data@ == fri@.subrange(0, split as int) && provided@ == fri@.subrange(
                    split as int,
                    i as int,
                ),
            decreases fri@.len() - i,
        {
            if i < split {
                data.push(fri[i]);
                assert(data@ =~= fri@.subrange(0, i + 1));
            } else {
                provided.push(fri[i]);
                assert(provided@ =~= fri@.subrange(split as int, i + 1));
            }
            i = i + 1;
        }
        let calculated = sha256(data.as_slice());
        Ok(bytes_equal(provided.as_slice(), &calculated))
    }
}

/// Data sealed with a 32-byte hash passes verification with any non-empty
/// public inputs.
proof fn lemma_sealed_verifies(data: Seq<u8>, inputs: Seq<u8>)
    requires
        inputs.len() > 0,
        sha256_spec(data).len() == 32,
    ensures
        proof_verifies(sealed(data), inputs),
{
    let s = sealed(data);
    assert(s.subrange(0, s.len() - 32) =~= data);
    assert(s.subrange(s.len() - 32, s.len() as int) =~= sha256_spec(data));
}

} // verus!
