//! Confidential transaction amounts: Pedersen commitments `C = v*B + r*H`
//! over Ristretto255, their homomorphic sum and difference, and Bulletproofs
//! range proofs.
use vstd::prelude::*;
use crate::crypto::{hex_encode, hex_lower, random_bytes, sha256, sha256_spec};
use crate::curve::{
    bulletproof_len, pedersen_commit, pedersen_commitment, range_proof_parses, range_proof_prove, range_proof_verify,
    ristretto_add, ristretto_add_spec, ristretto_decompress, ristretto_pair_valid, ristretto_sub, ristretto_sub_spec,
    ristretto_valid, scalar_add, scalar_add_spec, scalar_sub, scalar_sub_spec, u64_scalar_bytes,
};
use crate::error::PrivacyError;
use crate::text::{bytes_equal, extend_bytes, u64_le_bytes};
use curve25519_dalek_ng::ristretto::RistrettoPoint;

verus! {

/// A Pedersen commitment to a transaction amount.
#[derive(Debug, Clone)]
pub struct AmountCommitment {
    /// Compressed commitment point.
    pub commitment: [u8; 32],
    /// Blinding factor, kept secret by sender and receiver.
    pub blinding_factor: Vec<u8>,
}

/// The hex SHA-256 fingerprint of a commitment point.
pub open spec fn commitment_fingerprint(commitment: Seq<u8>) -> Seq<char> {
    hex_lower(sha256_spec(commitment))
}

/// `c` commits to `amount` under its own blinding factor.
pub open spec fn commits_to(c: AmountCommitment, amount: u64) -> bool {
    c.commitment@ == pedersen_commitment(u64_scalar_bytes(amount), c.blinding_factor@)
}

/// The outcome of `verify` on `amount`.
pub open spec fn verify_outcome(c: AmountCommitment, amount: u64) -> Result<bool, PrivacyError> {
    if c.blinding_factor@.len() != 32 {
        Err(PrivacyError::InvalidBlindingLength)
    } else {
        Ok(commits_to(c, amount))
    }
}

/// The transcript label under which this library's range proofs are made
/// and checked.
pub open spec fn range_proof_label_spec() -> Seq<char> {
    "C0DL3-CT-RangeProof"@
}

/// The transcript label of range proofs, as a value.
pub fn range_proof_label() -> (res: &'static str)
    ensures
        res@ == range_proof_label_spec(),
{
    "C0DL3-CT-RangeProof"
}

/// The largest bit size the range-proof generators serve.
pub const RANGE_PROOF_GENS_CAPACITY: usize = 64;

/// The number of parties the range-proof generators serve.
pub const RANGE_PROOF_PARTY_CAPACITY: usize = 128;

/// The bit sizes a range proof may be asked for.
pub open spec fn bit_length_ok(bits: usize) -> bool {
    0 < bits <= 64
}

/// The 32-byte scalar encoding of an amount.
fn amount_scalar_bytes(amount: u64) -> (res: [u8; 32])
    ensures
        res@ == u64_scalar_bytes(amount),
{
    let le = u64_le_bytes(amount);
    let mut out = [0u8; 32];
    let mut i: usize = 0;
    while i < 8
        invariant
            i <= 8,
            le@ == crate::text::le_bytes_u64(amount),
            forall|j: int| 0 <= j < i ==> out@[j] == le@[j],
            forall|j: int| 8 <= j < 32 ==> out@[j] == 0,
        decreases 8 - i,
    {
        out.set(i, le[i]);
        i = i + 1;
    }
    assert(out@ =~= u64_scalar_bytes(amount));
    out
}

/// A vector's 32 bytes as an array.
fn to_array32(v: &Vec<u8>) -> (res: [u8; 32])
    requires
        v@.len() == 32,
    ensures
        res@ == v@,
{
    let mut out = [0u8; 32];
    let mut i: usize = 0;
    while i < 32
        invariant
            i <= 32,
            v@.len() == 32,
            forall|j: int| 0 <= j < i ==> out@[j] == v@[j],
        decreases 32 - i,
    {
        out.set(i, v[i]);
        i = i + 1;
    }
    assert(out@ =~= v@);
    out
}

/// An array's bytes as a vector.
fn to_vec32(a: &[u8; 32]) -> (res: Vec<u8>)
    ensures
        res@ == a@,
{
    let mut v: Vec<u8> = Vec::new();
    extend_bytes(&mut v, a);
    v
}

impl AmountCommitment {
    /// Commits to a positive amount under a fresh random blinding factor.
    /// Zero is refused.
    pub fn new(amount: u64) -> (res: Result<Self, PrivacyError>)
        ensures
            amount == 0 <==> res is Err,
            res matches Err(e) ==> e == PrivacyError::ZeroAmount,
            res matches Ok(c) ==> c.blinding_factor@.len() == 32 && commits_to(c, amount),
    {
        if amount == 0 {
            return Err(PrivacyError::ZeroAmount);
        }
        let blinding = random_bytes(32);
        let blinding_bytes = to_array32(&blinding);
        let value = amount_scalar_bytes(amount);
        let commitment = pedersen_commit(&value, &blinding_bytes);
        Ok(AmountCommitment { commitment, blinding_factor: blinding })
    }

    /// The blinding factor as 32 bytes; any other length is refused.
    fn blinding_factor_bytes(&self) -> (res: Result<[u8; 32], PrivacyError>)
        ensures
            self.blinding_factor@.len() == 32 <==> res is Ok,
            res matches Ok(b) ==> b@ == self.blinding_factor@,
            res matches Err(e) ==> e == PrivacyError::InvalidBlindingLength,
    {
        if self.blinding_factor.len() != 32 {
            return Err(PrivacyError::InvalidBlindingLength);
        }
        Ok(to_array32(&self.blinding_factor))
    }

    /// Whether the commitment opens to `amount` under its blinding factor; a
    /// blinding factor not of 32 bytes is refused.
    pub fn verify(&self, amount: u64) -> (res: Result<bool, PrivacyError>)
        ensures
            res == verify_outcome(*self, amount),
    {
        let blinding = self.blinding_factor_bytes()?;
        let value = amount_scalar_bytes(amount);
        let expected = pedersen_commit(&value, &blinding);
        Ok(bytes_equal(&self.commitment, &expected))
    }

    /// The commitment as a curve point; bytes that do not decode are refused.
    pub fn to_point(&self) -> (res: Result<RistrettoPoint, PrivacyError>)
        ensures
            res is Ok <==> ristretto_valid(self.commitment@),
            res matches Err(e) ==> e == PrivacyError::InvalidPoint,
    {
        match ristretto_decompress(&self.commitment) {
            Some(p) => Ok(p),
            None => Err(PrivacyError::InvalidPoint),
        }
    }

    /// Homomorphic addition: the sum of the points, with the sum of the
    /// blinding factors. Invalid points, then blinding factors not of 32
    /// bytes, are refused.
    pub fn add(&self, other: &AmountCommitment) -> (res: Result<AmountCommitment, PrivacyError>)
        ensures
            !ristretto_pair_valid(self.commitment@, other.commitment@) ==> res == Err::<
                AmountCommitment,
                PrivacyError,
            >(PrivacyError::InvalidPoint),
            ristretto_pair_valid(self.commitment@, other.commitment@) && (self.blinding_factor@.len() != 32
                || other.blinding_factor@.len() != 32) ==> res == Err::<AmountCommitment, PrivacyError>(
                PrivacyError::InvalidBlindingLength,
            ),
            res matches Ok(c) ==> {
                &&& c.commitment@ == ristretto_add_spec(self.commitment@, other.commitment@)
                &&& c.blinding_factor@ == scalar_add_spec(self.blinding_factor@, other.blinding_factor@)
            },
            forall|x: u64, y: u64|
                #![trigger commits_to(*self, x), commits_to(*other, y)]
                commits_to(*self, x) && commits_to(*other, y) && x + y <= u64::MAX && self.blinding_factor@.len()
                    == 32 && other.blinding_factor@.len() == 32 ==> (res matches Ok(c) && c.blinding_factor@.len()
                    == 32 && commits_to(c, (x + y) as u64)),
    {
        let sum = match ristretto_add(&self.commitment, &other.commitment) {
            Some(s) => s,
            None => return Err(PrivacyError::InvalidPoint),
        };
        let r_a = self.blinding_factor_bytes()?;
        let r_b = other.blinding_factor_bytes()?;
        let r_sum = scalar_add(&r_a, &r_b);
        Ok(AmountCommitment { commitment: sum, blinding_factor: to_vec32(&r_sum) })
    }

    /// Homomorphic subtraction: the difference of the points, with the
    /// difference of the blinding factors. Invalid points, then blinding
    /// factors not of 32 bytes, are refused.
    pub fn subtract(&self, other: &AmountCommitment) -> (res: Result<AmountCommitment, PrivacyError>)
        ensures
            !ristretto_pair_valid(self.commitment@, other.commitment@) ==> res == Err::<
                AmountCommitment,
                PrivacyError,
            >(PrivacyError::InvalidPoint),
            ristretto_pair_valid(self.commitment@, other.commitment@) && (self.blinding_factor@.len() != 32
                || other.blinding_factor@.len() != 32) ==> res == Err::<AmountCommitment, PrivacyError>(
                PrivacyError::InvalidBlindingLength,
            ),
            res matches Ok(c) ==> {
                &&& c.commitment@ == ristretto_sub_spec(self.commitment@, other.commitment@)
                &&& c.blinding_factor@ == scalar_sub_spec(self.blinding_factor@, other.blinding_factor@)
            },
            forall|x: u64, y: u64|
                #![trigger commits_to(*self, x), commits_to(*other, y)]
                commits_to(*self, x) && commits_to(*other, y) && y <= x && self.blinding_factor@.len() == 32
                    && other.blinding_factor@.len() == 32 ==> (res matches Ok(c) && c.blinding_factor@.len() == 32
                    && commits_to(c, (x - y) as u64)),
    {
        let diff = match ristretto_sub(&self.commitment, &other.commitment) {
            Some(d) => d,
            None => return Err(PrivacyError::InvalidPoint),
        };
        let r_a = self.blinding_factor_bytes()?;
        let r_b = other.blinding_factor_bytes()?;
        let r_diff = scalar_sub(&r_a, &r_b);
        Ok(AmountCommitment { commitment: diff, blinding_factor: to_vec32(&r_diff) })
    }

    /// The hex SHA-256 fingerprint of the commitment point.
    pub fn hash(&self) -> (res: String)
        ensures
            res@ == commitment_fingerprint(self.commitment@),
    {
        let d = sha256(&self.commitment);
        hex_encode(&d)
    }

    /// A Bulletproofs range proof that `amount` lies in `[0, 2^bits)`,
    /// returned with the committed point, which must be this commitment.
    /// Refuses a bit length of 0 or above 64, a blinding factor not of 32
    /// bytes, a bit size the prover refuses, and a commitment that does not
    /// open to `amount`.
    pub fn prove_range(&self, amount: u64, bits: usize) -> (res: Result<(Vec<u8>, [u8; 32]), PrivacyError>)
        ensures
            !bit_length_ok(bits) ==> res == Err::<(Vec<u8>, [u8; 32]), PrivacyError>(PrivacyError::InvalidBitLength),
            bit_length_ok(bits) && self.blinding_factor@.len() != 32 ==> res == Err::<
                (Vec<u8>, [u8; 32]),
                PrivacyError,
            >(PrivacyError::InvalidBlindingLength),
            bit_length_ok(bits) && self.blinding_factor@.len() == 32 && !(bits == 8 || bits == 16 || bits == 32
                || bits == 64) ==> res == Err::<(Vec<u8>, [u8; 32]), PrivacyError>(PrivacyError::RangeProofFailed),
            bit_length_ok(bits) && self.blinding_factor@.len() == 32 && !commits_to(*self, amount) ==> res is Err,
            res matches Err(e) ==> ((e == PrivacyError::InvalidBitLength && !bit_length_ok(bits)) || (e
                == PrivacyError::InvalidBlindingLength && bit_length_ok(bits) && self.blinding_factor@.len() != 32)
                || (e == PrivacyError::RangeProofFailed && bit_length_ok(bits) && self.blinding_factor@.len() == 32)
                || (e == PrivacyError::RangeProofMismatch && bit_length_ok(bits) && self.blinding_factor@.len()
                == 32 && !commits_to(*self, amount))),
            res matches Ok(p) ==> p.1@ == self.commitment@ && commits_to(*self, amount),
            res matches Ok(p) ==> p.0@.len() == bulletproof_len(bits),
    {
        if bits == 0 || bits > 64 {
            return Err(PrivacyError::InvalidBitLength);
        }
        let r = self.blinding_factor_bytes()?;
        let (proof, committed) = match range_proof_prove(
            amount,
            &r,
            bits,
            range_proof_label(),
            RANGE_PROOF_GENS_CAPACITY,
            RANGE_PROOF_PARTY_CAPACITY,
        ) {
            Some(p) => p,
            None => return Err(PrivacyError::RangeProofFailed),
        };
        if !bytes_equal(&committed, &self.commitment) {
            return Err(PrivacyError::RangeProofMismatch);
        }
        Ok((proof, committed))
    }

    /// Verifies a range proof against this commitment. Refuses a bit length
    /// of 0 or above 64 and bytes that do not parse as a proof.
    pub fn verify_range(&self, proof_bytes: &[u8], bits: usize) -> (res: Result<bool, PrivacyError>)
        ensures
            !bit_length_ok(bits) ==> res == Err::<bool, PrivacyError>(PrivacyError::InvalidBitLength),
            bit_length_ok(bits) && !range_proof_parses(proof_bytes@) ==> res == Err::<bool, PrivacyError>(
                PrivacyError::InvalidRangeProofBytes,
            ),
            bit_length_ok(bits) && range_proof_parses(proof_bytes@) ==> res is Ok,
            res == Ok::<bool, PrivacyError>(true) ==> (bits == 8 || bits == 16 || bits == 32 || bits == 64)
                && proof_bytes@.len() == bulletproof_len(bits),
    {
        if bits == 0 || bits > 64 {
            return Err(PrivacyError::InvalidBitLength);
        }
        match range_proof_verify(
            proof_bytes,
            &self.commitment,
            bits,
            range_proof_label(),
            RANGE_PROOF_GENS_CAPACITY,
            RANGE_PROOF_PARTY_CAPACITY,
        ) {
            Some(ok) => Ok(ok),
            None => Err(PrivacyError::InvalidRangeProofBytes),
        }
    }
}

/// A range proof is accepted only at the bit size it was made for: a
/// proof that `prove_range` made for `made_bits` bits has the length of a
/// proof over `made_bits`, `verify_range` accepts only proofs whose length
/// matches the bit size it is asked about, and different bit sizes give
/// different lengths.
pub proof fn lemma_range_proof_bits_must_match(proof: Seq<u8>, made_bits: usize, checked_bits: usize)
    requires
        made_bits == 8 || made_bits == 16 || made_bits == 32 || made_bits == 64,
        checked_bits == 8 || checked_bits == 16 || checked_bits == 32 || checked_bits == 64,
        proof.len() == bulletproof_len(made_bits),
        proof.len() == bulletproof_len(checked_bits),
    ensures
        made_bits == checked_bits,
{
}

/// A commitment opens to the amount it was made for: whatever `new(amount)`
/// returns verifies against `amount`.
pub proof fn lemma_new_commitment_opens(c: AmountCommitment, amount: u64)
    requires
        c.blinding_factor@.len() == 32,
        commits_to(c, amount),
    ensures
        verify_outcome(c, amount) == Ok::<bool, PrivacyError>(true),
{
}

} // verus!
