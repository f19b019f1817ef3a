//! The errors that the privacy layer reports.
use vstd::prelude::*;
use crate::text::owned;

verus! {

/// Why an operation of the privacy layer refused its input.
#[derive(Debug, Clone, Copy, PartialEq, Eq, Structural)]
pub enum PrivacyError {
    /// An amount of zero was given where a positive one is needed.
    ZeroAmount,
    /// The amount is larger than the given maximum.
    AmountExceedsMaximum,
    /// The amount lies outside the requested range.
    AmountOutOfRange,
    /// The amount is larger than the balance it is drawn from.
    InsufficientBalance,
    /// A batch was built from no elements.
    EmptyBatch,
    /// An address failed validation.
    InvalidAddress,
    /// The ciphertext is empty.
    EmptyCiphertext,
    /// The authentication tag did not verify.
    AuthenticationFailed,
    /// The decrypted bytes are not valid UTF-8.
    InvalidUtf8,
    /// The decrypted address is empty.
    EmptyAddress,
    /// The input is too large to be encrypted.
    EncryptionFailed,
    /// The system clock stands before the Unix epoch.
    ClockError,
    /// The proof type is not one that the verifier knows.
    UnknownProofType,
    /// A blinding factor does not have 32 bytes.
    InvalidBlindingLength,
    /// Bytes do not decode to a curve point.
    InvalidPoint,
    /// The range bit length is zero or above 64.
    InvalidBitLength,
    /// The range prover refused the witness.
    RangeProofFailed,
    /// The range proof commits to another point than the commitment.
    RangeProofMismatch,
    /// The range proof bytes do not parse.
    InvalidRangeProofBytes,
    /// The destination chain is not a supported network.
    UnsupportedChain,
    /// A network with the same identifier is already supported.
    NetworkExists,
    /// A mining reward of zero was given.
    ZeroReward,
    /// No proofs were given to aggregate.
    NoProofsToAggregate,
    /// More proofs were given than one aggregation takes.
    TooManyProofs,
    /// A recursion level of zero was given.
    ZeroRecursionLevel,
    /// The recursion level exceeds the maximum depth.
    RecursionTooDeep,
    /// No proof requests were given.
    NoProofRequests,
    /// A complexity level of zero was given.
    ZeroComplexity,
    /// No privacy features were given.
    NoPrivacyFeatures,
    /// The new balance is above the old one.
    InvalidBalanceTransition,
    /// The proof data is empty.
    EmptyProofData,
    /// The public inputs are empty.
    EmptyPublicInputs,
    /// The mixing pool holds as many transactions as it can.
    MixingPoolFull,
    /// Fewer transactions wait than mixing needs.
    NotEnoughTransactionsForMixing,
    /// The privacy policy to check against is missing.
    PolicyNotFound,
}

/// The description of each error.
pub open spec fn error_message(e: PrivacyError) -> Seq<char> {
    match e {
        PrivacyError::ZeroAmount => "Amount cannot be zero"@,
        PrivacyError::AmountExceedsMaximum => "Amount exceeds maximum"@,
        PrivacyError::AmountOutOfRange => "Amount out of range"@,
        PrivacyError::InsufficientBalance => "Insufficient balance"@,
        PrivacyError::EmptyBatch => "Batch cannot be empty"@,
        PrivacyError::InvalidAddress => "Invalid address"@,
        PrivacyError::EmptyCiphertext => "Empty ciphertext"@,
        PrivacyError::AuthenticationFailed => "Authentication tag mismatch"@,
        PrivacyError::InvalidUtf8 => "Decrypted address is not valid UTF-8"@,
        PrivacyError::EmptyAddress => "Empty address"@,
        PrivacyError::EncryptionFailed => "ChaCha20Poly1305 encryption failed"@,
        PrivacyError::ClockError => "System clock is before the Unix epoch"@,
        PrivacyError::UnknownProofType => "Unknown proof type"@,
        PrivacyError::InvalidBlindingLength => "Invalid blinding factor length"@,
        PrivacyError::InvalidPoint => "Invalid commitment: cannot decompress to RistrettoPoint"@,
        PrivacyError::InvalidBitLength => "invalid range bit length"@,
        PrivacyError::RangeProofFailed => "range proof generation failed"@,
        PrivacyError::RangeProofMismatch => "range proof commitment mismatch"@,
        PrivacyError::InvalidRangeProofBytes => "invalid range proof bytes"@,
        PrivacyError::UnsupportedChain => "Unsupported destination chain"@,
        PrivacyError::NetworkExists => "Network already exists"@,
        PrivacyError::ZeroReward => "Reward cannot be zero"@,
        PrivacyError::NoProofsToAggregate => "No proofs to aggregate"@,
        PrivacyError::TooManyProofs => "Too many proofs to aggregate"@,
        PrivacyError::ZeroRecursionLevel => "Recursion level must be greater than 0"@,
        PrivacyError::RecursionTooDeep => "Recursion level exceeds maximum depth"@,
        PrivacyError::NoProofRequests => "No proof requests provided"@,
        PrivacyError::ZeroComplexity => "Complexity level must be greater than 0"@,
        PrivacyError::NoPrivacyFeatures => "No privacy features specified"@,
        PrivacyError::InvalidBalanceTransition => "Invalid balance transition"@,
        PrivacyError::EmptyProofData => "Empty proof data"@,
        PrivacyError::EmptyPublicInputs => "Empty public inputs"@,
        PrivacyError::MixingPoolFull => "Mixing pool is full"@,
        PrivacyError::NotEnoughTransactionsForMixing => "Not enough transactions for mixing"@,
        PrivacyError::PolicyNotFound => "Default privacy policy not found"@,
    }
}

impl PrivacyError {
    /// A human-readable description of the error.
    pub fn message(&self) -> (res: String)
        ensures
            res@ == error_message(*self),
            res@.len() > 0,
    {
        let s = match self {
            PrivacyError::ZeroAmount => "Amount cannot be zero",
            PrivacyError::AmountExceedsMaximum => "Amount exceeds maximum",
            PrivacyError::AmountOutOfRange => "Amount out of range",
            PrivacyError::InsufficientBalance => "Insufficient balance",
            PrivacyError::EmptyBatch => "Batch cannot be empty",
            PrivacyError::InvalidAddress => "Invalid address",
            PrivacyError::EmptyCiphertext => "Empty ciphertext",
            PrivacyError::AuthenticationFailed => "Authentication tag mismatch",
            PrivacyError::InvalidUtf8 => "Decrypted address is not valid UTF-8",
            PrivacyError::EmptyAddress => "Empty address",
            PrivacyError::EncryptionFailed => "ChaCha20Poly1305 encryption failed",
            PrivacyError::ClockError => "System clock is before the Unix epoch",
            PrivacyError::UnknownProofType => "Unknown proof type",
            PrivacyError::InvalidBlindingLength => "Invalid blinding factor length",
            PrivacyError::InvalidPoint => "Invalid commitment: cannot decompress to RistrettoPoint",
            PrivacyError::InvalidBitLength => "invalid range bit length",
            PrivacyError::RangeProofFailed => "range proof generation failed",
            PrivacyError::RangeProofMismatch => "range proof commitment mismatch",
            PrivacyError::InvalidRangeProofBytes => "invalid range proof bytes",
            PrivacyError::UnsupportedChain => "Unsupported destination chain",
            PrivacyError::NetworkExists => "Network already exists",
            PrivacyError::ZeroReward => "Reward cannot be zero",
            PrivacyError::NoProofsToAggregate => "No proofs to aggregate",
            PrivacyError::TooManyProofs => "Too many proofs to aggregate",
            PrivacyError::ZeroRecursionLevel => "Recursion level must be greater than 0",
            PrivacyError::RecursionTooDeep => "Recursion level exceeds maximum depth",
            PrivacyError::NoProofRequests => "No proof requests provided",
            PrivacyError::ZeroComplexity => "Complexity level must be greater than 0",
            PrivacyError::NoPrivacyFeatures => "No privacy features specified",
            PrivacyError::InvalidBalanceTransition => "Invalid balance transition",
            PrivacyError::EmptyProofData => "Empty proof data",
            PrivacyError::EmptyPublicInputs => "Empty public inputs",
            PrivacyError::MixingPoolFull => "Mixing pool is full",
            PrivacyError::NotEnoughTransactionsForMixing => "Not enough transactions for mixing",
            PrivacyError::PolicyNotFound => "Default privacy policy not found",
        };
        proof {
            reveal_strlit("Amount cannot be zero");
            reveal_strlit("Amount exceeds maximum");
            reveal_strlit("Amount out of range");
            reveal_strlit("Insufficient balance");
            reveal_strlit("Batch cannot be empty");
            reveal_strlit("Invalid address");
            reveal_strlit("Empty ciphertext");
            reveal_strlit("Authentication tag mismatch");
            reveal_strlit("Decrypted address is not valid UTF-8");
            reveal_strlit("Empty address");
            reveal_strlit("ChaCha20Poly1305 encryption failed");
            reveal_strlit("System clock is before the Unix epoch");
            reveal_strlit("Unknown proof type");
            reveal_strlit("Invalid blinding factor length");
            reveal_strlit("Invalid commitment: cannot decompress to RistrettoPoint");
            reveal_strlit("invalid range bit length");
            reveal_strlit("range proof generation failed");
            reveal_strlit("range proof commitment mismatch");
            reveal_strlit("invalid range proof bytes");
            reveal_strlit("Unsupported destination chain");
            reveal_strlit("Network already exists");
            reveal_strlit("Reward cannot be zero");
            reveal_strlit("No proofs to aggregate");
            reveal_strlit("Too many proofs to aggregate");
            reveal_strlit("Recursion level must be greater than 0");
            reveal_strlit("Recursion level exceeds maximum depth");
            reveal_strlit("No proof requests provided");
            reveal_strlit("Complexity level must be greater than 0");
            reveal_strlit("No privacy features specified");
            reveal_strlit("Invalid balance transition");
            reveal_strlit("Empty proof data");
            reveal_strlit("Empty public inputs");
            reveal_strlit("Mixing pool is full");
            reveal_strlit("Not enough transactions for mixing");
            reveal_strlit("Default privacy policy not found");
        }
        owned(s)
    }
}

} // verus!
