//! Hash-based amount commitments with range-proof envelopes (the legacy
//! commitment scheme): a commitment is SHA-256 over the amount's
//! little-endian bytes and a 32-byte random blinding factor.
use vstd::prelude::*;
use vstd::string::*;
use vstd::utf8::*;
use crate::crypto::{sha256, sha256_spec, hex_encode, hex_lower, random_bytes, unix_time_secs};
use crate::error::PrivacyError;
use crate::text::{bytes_equal, debug_list, debug_string_list, decimal_bytes, extend_bytes, extend_decimal, extend_str_bytes, le_bytes_u64, lemma_encode_utf8_nonempty, owned, string_views, u64_le_bytes};

verus! {

/// A commitment that hides a transaction amount.
#[derive(Debug, Clone)]
pub struct AmountCommitment {
    /// The commitment to the amount.
    pub commitment: Vec<u8>,
    /// The blinding factor of the commitment.
    pub blinding_factor: Vec<u8>,
    /// Commitment metadata.
    pub metadata: CommitmentMetadata,
}

/// Metadata of an amount commitment.
#[derive(Debug, Clone)]
pub struct CommitmentMetadata {
    /// Largest amount a range proof may cover.
    pub max_amount: u64,
    /// Creation time, seconds since the Unix epoch.
    pub timestamp: u64,
    /// Commitment format version.
    pub version: u8,
}

/// A range proof envelope for an amount commitment.
#[derive(Debug, Clone)]
pub struct RangeProof {
    /// Proof data.
    pub proof_data: Vec<u8>,
    /// Public inputs: the range bounds only.
    pub public_inputs: Vec<u8>,
    /// Lower bound of the range.
    pub min_amount: u64,
    /// Upper bound of the range.
    pub max_amount: u64,
}

/// A batch of amount commitments with a batch proof.
#[derive(Debug, Clone)]
pub struct CommitmentBatch {
    /// The commitments.
    pub commitments: Vec<AmountCommitment>,
    /// The batch proof.
    pub batch_proof: Vec<u8>,
    /// Batch metadata.
    pub metadata: BatchMetadata,
}

/// Metadata of a commitment batch.
#[derive(Debug, Clone)]
pub struct BatchMetadata {
    /// Number of commitments in the batch.
    pub count: usize,
    /// Creation time, seconds since the Unix epoch.
    pub timestamp: u64,
    /// Batch format version.
    pub version: u8,
}

/// The commitment to `amount` under `blinding`: SHA-256 of the amount's
/// little-endian bytes followed by the blinding factor.
pub open spec fn commit_spec(amount: u64, blinding: Seq<u8>) -> Seq<u8> {
    sha256_spec(le_bytes_u64(amount) + blinding)
}

/// The indexing hash of a commitment: hex of SHA-256 over commitment and
/// blinding factor.
pub open spec fn commitment_hash_spec(c: AmountCommitment) -> Seq<char> {
    hex_lower(sha256_spec(c.commitment@ + c.blinding_factor@))
}

/// The proof data of a range proof: `range_proof:0:{max}:{hash}`. It holds
/// the bounds and the commitment's hash only, never the amount.
pub open spec fn range_proof_data_spec(max_amount: u64, hash: Seq<char>) -> Seq<u8> {
    "range_proof:".spec_bytes() + decimal_bytes(0) + ":".spec_bytes() + decimal_bytes(max_amount as nat)
        + ":".spec_bytes() + encode_utf8(hash)
}

/// The public inputs of a range proof: `range_inputs:0:{max}`.
pub open spec fn range_public_inputs_spec(max_amount: u64) -> Seq<u8> {
    "range_inputs:".spec_bytes() + decimal_bytes(0) + ":".spec_bytes() + decimal_bytes(max_amount as nat)
}

/// What range-proof verification accepts.
pub open spec fn range_proof_valid(p: RangeProof) -> bool {
    p.proof_data@.len() > 0 && p.public_inputs@.len() > 0 && p.min_amount <= p.max_amount
}

/// The batch proof: `batch_proof:` and the `{:?}` of the commitment hashes.
pub open spec fn batch_proof_spec(commitments: Seq<AmountCommitment>) -> Seq<u8> {
    encode_utf8(
        "batch_proof:"@ + debug_list(commitments.map_values(|c: AmountCommitment| commitment_hash_spec(c))),
    )
}

/// What batch verification accepts.
pub open spec fn batch_valid(b: CommitmentBatch) -> bool {
    &&& b.batch_proof@.len() > 0
    &&& forall|i: int| 0 <= i < b.commitments@.len() ==> #[trigger] b.commitments@[i].commitment@.len() > 0
    &&& b.metadata.count == b.commitments@.len()
}

/// The outcome of `verify_commitment` (and `open_commitment`) on `amount`.
pub open spec fn verify_outcome(c: AmountCommitment, amount: u64) -> Result<bool, PrivacyError> {
    Ok(c.commitment@ == commit_spec(amount, c.blinding_factor@))
}

impl AmountCommitment {
    /// Commits to a positive amount under a fresh random 32-byte blinding
    /// factor. Zero is refused.
    pub fn new(amount: u64) -> (res: Result<Self, PrivacyError>)
        ensures
            amount == 0 <==> res == Err::<Self, PrivacyError>(PrivacyError::ZeroAmount),
            res matches Err(e) ==> e == PrivacyError::ZeroAmount || e == PrivacyError::ClockError,
            res matches Ok(c) ==> {
                &&& c.blinding_factor@.len() == 32
                &&& c.commitment@ == commit_spec(amount, c.blinding_factor@)
                &&& c.commitment@.len() == 32
                &&& c.metadata.max_amount == u64::MAX
                &&& c.metadata.version == 1
            },
    {
        if amount == 0 {
            return Err(PrivacyError::ZeroAmount);
        }
        let blinding_factor = Self::generate_blinding_factor();
        let timestamp = match unix_time_secs() {
            Some(t) => t,
            None => return Err(PrivacyError::ClockError),
        };
        Self::new_at(amount, blinding_factor, timestamp)
    }

    /// The commitment to `amount` under `blinding_factor`, stamped with
    /// `timestamp`: refused exactly where the amount is zero.
    pub fn new_at(amount: u64, blinding_factor: Vec<u8>, timestamp: u64) -> (res: Result<Self, PrivacyError>)
        ensures
            amount == 0 ==> res == Err::<Self, PrivacyError>(PrivacyError::ZeroAmount),
            amount != 0 ==> (res matches Ok(c) && {
                &&& c.blinding_factor@ == blinding_factor@
                &&& c.commitment@ == commit_spec(amount, blinding_factor@)
                &&& c.commitment@.len() == 32
                &&& c.metadata.max_amount == u64::MAX
                &&& c.metadata.timestamp == timestamp
                &&& c.metadata.version == 1
            }),
    {
        if amount == 0 {
            return Err(PrivacyError::ZeroAmount);
        }
        let commitment = Self::create_pedersen_commitment(amount, blinding_factor.as_slice());
        Ok(AmountCommitment {
            commitment,
            blinding_factor,
            metadata: CommitmentMetadata { max_amount: u64::MAX, timestamp, version: 1 },
        })
    }

    /// Builds a range proof that `amount` lies in `[0, max_amount]` without
    /// revealing it: the proof data holds the bounds and the commitment's
    /// hash, and the public inputs the bounds. A zero amount, or one above
    /// the maximum, is refused.
    pub fn prove_amount_range(&self, amount: u64, max_amount: u64) -> (res: Result<RangeProof, PrivacyError>)
        ensures
            amount == 0 ==> res == Err::<RangeProof, PrivacyError>(PrivacyError::ZeroAmount),
            amount != 0 && amount > max_amount ==> res == Err::<RangeProof, PrivacyError>(
                PrivacyError::AmountExceedsMaximum,
            ),
            amount != 0 && amount <= max_amount ==> (res matches Ok(p) && {
                &&& p.proof_data@ == range_proof_data_spec(max_amount, commitment_hash_spec(*self))
                &&& p.public_inputs@ == range_public_inputs_spec(max_amount)
                &&& p.min_amount == 0
                &&& p.max_amount == max_amount
            }),
    {
        if amount == 0 {
            return Err(PrivacyError::ZeroAmount);
        }
        if amount > max_amount {
            return Err(PrivacyError::AmountExceedsMaximum);
        }
        let proof_data = self.generate_range_proof_data(max_amount);
        let public_inputs = self.create_range_public_inputs(max_amount);
        Ok(RangeProof { proof_data, public_inputs, min_amount: 0, max_amount })
    }

    /// Whether the commitment opens to `amount` under its blinding factor.
    pub fn verify_commitment(&self, amount: u64) -> (res: Result<bool, PrivacyError>)
        ensures
            res == verify_outcome(*self, amount),
    {
        let expected = Self::create_pedersen_commitment(amount, self.blinding_factor.as_slice());
        Ok(bytes_equal(self.commitment.as_slice(), expected.as_slice()))
    }

    /// Checks the shape of a range proof: non-empty proof data and public
    /// inputs, and ordered bounds.
    pub fn verify_range_proof(&self, range_proof: &RangeProof) -> (res: Result<bool, PrivacyError>)
        ensures
            res == Ok::<bool, PrivacyError>(range_proof_valid(*range_proof)),
    {
        if range_proof.proof_data.len() == 0 {
            return Ok(false);
        }
        if range_proof.public_inputs.len() == 0 {
            return Ok(false);
        }
        if range_proof.min_amount > range_proof.max_amount {
            return Ok(false);
        }
        Ok(true)
    }

    /// Opens the commitment: the same check as `verify_commitment`.
    pub fn open_commitment(&self, amount: u64) -> (res: Result<bool, PrivacyError>)
        ensures
            res == verify_outcome(*self, amount),
    {
        self.verify_commitment(amount)
    }

    /// The indexing hash: hex of SHA-256 over commitment and blinding factor.
    pub fn get_commitment_hash(&self) -> (res: String)
        ensures
            res@ == commitment_hash_spec(*self),
    {
        let mut buf: Vec<u8> = Vec::new();
        extend_bytes(&mut buf, self.commitment.as_slice());
        extend_bytes(&mut buf, self.blinding_factor.as_slice());
        let digest = sha256(buf.as_slice());
        hex_encode(&digest)
    }

    /// A fresh random 32-byte blinding factor.
    fn generate_blinding_factor() -> (res: Vec<u8>)
        ensures
            res@.len() == 32,
    {
        random_bytes(32)
    }

    /// SHA-256 of the amount's little-endian bytes and the blinding factor.
    fn create_pedersen_commitment(amount: u64, blinding_factor: &[u8]) -> (res: Vec<u8>)
        ensures
            res@ == commit_spec(amount, blinding_factor@),
            res@.len() == 32,
    {
        let mut buf = u64_le_bytes(amount);
        extend_bytes(&mut buf, blinding_factor);
        let digest = sha256(buf.as_slice());
        let mut out: Vec<u8> = Vec::new();
        extend_bytes(&mut out, &digest);
        out
    }

    /// The proof data `range_proof:{amount}:{max}:{hash}`.
    fn generate_range_proof_data(&self, max_amount: u64) -> (res: Vec<u8>)
        ensures
            res@ == range_proof_data_spec(max_amount, commitment_hash_spec(*self)),
    {
        let hash = self.get_commitment_hash();
        let mut v: Vec<u8> = Vec::new();
        extend_str_bytes(&mut v, "range_proof:");
        extend_decimal(&mut v, 0);
        extend_str_bytes(&mut v, ":");
        extend_decimal(&mut v, max_amount);
        extend_str_bytes(&mut v, ":");
        extend_str_bytes(&mut v, hash.as_str());
        v
    }

    /// The public inputs `range_inputs:0:{max}`.
    fn create_range_public_inputs(&self, max_amount: u64) -> (res: Vec<u8>)
        ensures
            res@ == range_public_inputs_spec(max_amount),
    {
        let mut v: Vec<u8> = Vec::new();
        extend_str_bytes(&mut v, "range_inputs:");
        extend_decimal(&mut v, 0);
        extend_str_bytes(&mut v, ":");
        extend_decimal(&mut v, max_amount);
        v
    }
}

impl CommitmentBatch {
    /// Groups commitments under a batch proof over their hashes. An empty
    /// list is refused.
    pub fn new(commitments: Vec<AmountCommitment>) -> (res: Result<Self, PrivacyError>)
        ensures
            commitments@.len() == 0 ==> res == Err::<Self, PrivacyError>(PrivacyError::EmptyBatch),
            res matches Err(e) ==> (e == PrivacyError::EmptyBatch && commitments@.len() == 0) || (e
                == PrivacyError::ClockError && commitments@.len() > 0),
            res matches Ok(b) ==> {
                &&& b.commitments@ == commitments@
                &&& b.batch_proof@ == batch_proof_spec(commitments@)
                &&& b.metadata.count == commitments@.len()
                &&& b.metadata.version == 1
                &&& (batch_valid(b) <==> forall|i: int|
                    0 <= i < commitments@.len() ==> #[trigger] commitments@[i].commitment@.len() > 0)
            },
    {
        if commitments.len() == 0 {
            return Err(PrivacyError::EmptyBatch);
        }
        let timestamp = match unix_time_secs() {
            Some(t) => t,
            None => return Err(PrivacyError::ClockError),
        };
        Self::new_at(commitments, timestamp)
    }

    /// The batch of `commitments` stamped with `timestamp`: refused exactly
    /// where the list is empty.
    pub fn new_at(commitments: Vec<AmountCommitment>, timestamp: u64) -> (res: Result<Self, PrivacyError>)
        ensures
            commitments@.len() == 0 ==> res == Err::<Self, PrivacyError>(PrivacyError::EmptyBatch),
            commitments@.len() > 0 ==> (res matches Ok(b) && {
                &&& b.commitments@ == commitments@
                &&& b.batch_proof@ == batch_proof_spec(commitments@)
                &&& b.metadata.count == commitments@.len()
                &&& b.metadata.timestamp == timestamp
                &&& b.metadata.version == 1
                &&& (batch_valid(b) <==> forall|i: int|
                    0 <= i < commitments@.len() ==> #[trigger] commitments@[i].commitment@.len() > 0)
            }),
    {
        if commitments.len() == 0 {
            return Err(PrivacyError::EmptyBatch);
        }
        let batch_proof = Self::generate_batch_proof(&commitments);
        let count = commitments.len();
        Ok(CommitmentBatch {
            commitments,
            batch_proof,
            metadata: BatchMetadata { count, timestamp, version: 1 },
        })
    }

    /// Checks the batch: a non-empty proof, no empty commitment, and a count
    /// that matches.
    pub fn verify_batch(&self) -> (res: Result<bool, PrivacyError>)
        ensures
            res == Ok::<bool, PrivacyError>(batch_valid(*self)),
            self.metadata.count != self.commitments@.len() ==> res == Ok::<bool, PrivacyError>(false),
            self.batch_proof@.len() == 0 ==> res == Ok::<bool, PrivacyError>(false),
            (exists|i: int| 0 <= i < self.commitments@.len() && #[trigger] self.commitments@[i].commitment@.len() == 0)
                ==> res == Ok::<bool, PrivacyError>(false),
            res == Ok::<bool, PrivacyError>(true) <==> {
                &&& self.metadata.count == self.commitments@.len()
                &&& self.batch_proof@.len() > 0
                &&& forall|i: int|
                    0 <= i < self.commitments@.len() ==> #[trigger] self.commitments@[i].commitment@.len() > 0
            },
    {
        if self.batch_proof.len() == 0 {
            return Ok(false);
        }
        let mut i: usize = 0;
        while i < self.commitments.len()
            invariant
                i <= self.commitments@.len(),
                forall|j: int| 0 <= j < i ==> #[trigger] self.commitments@[j].commitment@.len() > 0,
            decreases self.commitments@.len() - i,
        {
            if self.commitments[i].commitment.len() == 0 {
                return Ok(false);
            }
            i = i + 1;
        }
        if self.metadata.count != self.commitments.len() {
            return Ok(false);
        }
        Ok(true)
    }

    /// `batch_proof:` followed by the `{:?}` of the commitment hashes.
    fn generate_batch_proof(commitments: &Vec<AmountCommitment>) -> (res: Vec<u8>)
        ensures
            res@ == batch_proof_spec(commitments@),
            res@.len() > 0,
    {
        let mut hashes: Vec<String> = Vec::new();
        let mut i: usize = 0;
        while i < commitments.len()
            invariant
                i <= commitments@.len(),
                hashes@.len() == i,
                forall|j: int| 0 <= j < i ==> #[trigger] hashes@[j]@ == commitment_hash_spec(commitments@[j]),
            decreases commitments@.len() - i,
        {
            let h = commitments[i].get_commitment_hash();
            hashes.push(h);
            i = i + 1;
        }
        assert(string_views(hashes@) =~= commitments@.map_values(
            |c: AmountCommitment| commitment_hash_spec(c),
        ));
        let mut s = owned("batch_proof:");
        let list = debug_string_list(&hashes);
        s.append(list.as_str());
        let mut v: Vec<u8> = Vec::new();
        extend_str_bytes(&mut v, s.as_str());
        proof {
            reveal_strlit("batch_proof:");
            lemma_encode_utf8_nonempty(s@);
        }
        v
    }
}

/// A commitment opens to the amount it was made for: whatever `new(amount)`
/// returns verifies against `amount`.
pub proof fn lemma_new_commitment_opens(c: AmountCommitment, amount: u64)
    requires
        c.commitment@ == commit_spec(amount, c.blinding_factor@),
    ensures
        verify_outcome(c, amount) == Ok::<bool, PrivacyError>(true),
{
}

/// A range proof built by `prove_amount_range` passes `verify_range_proof`.
pub proof fn lemma_range_proof_verifies(c: AmountCommitment, max_amount: u64, p: RangeProof)
    requires
        p.proof_data@ == range_proof_data_spec(max_amount, commitment_hash_spec(c)),
        p.public_inputs@ == range_public_inputs_spec(max_amount),
        p.min_amount == 0,
        p.max_amount == max_amount,
    ensures
        range_proof_valid(p),
{
    reveal_strlit("range_proof:");
    reveal_strlit("range_inputs:");
    vstd::string::is_ascii_spec_bytes("range_proof:");
    vstd::string::is_ascii_spec_bytes("range_inputs:");
}

} // verus!
