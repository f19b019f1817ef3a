//! Proof of knowledge of a Pedersen commitment's opening: a Schnorr-style
//! sigma protocol made non-interactive with Fiat-Shamir. It proves "I know
//! `(v, r)` with `C = v*B + r*H`" without revealing `v` or `r`.
//!
//! Points and scalars travel as their 32-byte encodings; Ristretto encodings
//! are canonical, so two points are equal exactly when their encodings are.
use vstd::prelude::*;
use vstd::string::*;
use crate::crypto::{sha256, sha256_spec};
use crate::curve::{
    pedersen_commit, pedersen_commitment, random_scalar, ristretto_decompress, ristretto_mul_add,
    ristretto_mul_add_spec, ristretto_valid, scalar_canonical, scalar_from_canonical, scalar_mul_add, is_scalar_mul_add,
    scalar_mul_add_spec, scalar_reduce, scalar_reduce_spec, u64_scalar_bytes,
};
use crate::text::{bytes_equal, extend_bytes, extend_str_bytes, le_bytes_u64, u64_le_bytes};

verus! {

/// A proof of knowledge of the opening of a Pedersen commitment (96 bytes of
/// proof besides the commitment).
#[derive(Debug, Clone, Copy)]
pub struct CommitmentKnowledgeProof {
    /// The commitment `C = v*B + r*H`.
    pub commitment: [u8; 32],
    /// The announcement `R = k_v*B + k_r*H`.
    pub announcement: [u8; 32],
    /// The response for the value, `s_v = k_v + e*v`.
    pub response_v: [u8; 32],
    /// The response for the blinding, `s_r = k_r + e*r`.
    pub response_r: [u8; 32],
}

/// The scalar encoding of a value: its little-endian bytes reduced.
pub open spec fn value_scalar(value: u64) -> Seq<u8> {
    scalar_reduce_spec(u64_scalar_bytes(value))
}

/// The Fiat-Shamir challenge over commitment and announcement.
pub open spec fn challenge_spec(c: Seq<u8>, r: Seq<u8>) -> Seq<u8> {
    scalar_reduce_spec(sha256_spec("C0DL3:ck_proof:".spec_bytes() + c + r))
}

/// A response as the verifier reads it: canonical bytes as they are, other
/// bytes reduced modulo the group order.
pub open spec fn response_scalar(bytes: Seq<u8>) -> Seq<u8> {
    if scalar_canonical(bytes) {
        bytes
    } else {
        scalar_reduce_spec(bytes)
    }
}

/// A proof is valid when both points decode and
/// `s_v*B + s_r*H == R + e*C` with `e` the challenge.
pub open spec fn knowledge_proof_valid(p: CommitmentKnowledgeProof) -> bool {
    &&& ristretto_valid(p.commitment@)
    &&& ristretto_valid(p.announcement@)
    &&& pedersen_commitment(response_scalar(p.response_v@), response_scalar(p.response_r@))
        == ristretto_mul_add_spec(
        p.announcement@,
        challenge_spec(p.commitment@, p.announcement@),
        p.commitment@,
    )
}

/// `p` is a proof for commitment `c` of the opening `(v, r)`, made with some
/// nonces `k_v`, `k_r`.
pub open spec fn proves_opening(p: CommitmentKnowledgeProof, c: Seq<u8>, v: Seq<u8>, r: Seq<u8>) -> bool {
    &&& p.commitment@ == c
    &&& exists|kv: Seq<u8>, kr: Seq<u8>| #[trigger] pedersen_commitment(kv, kr) == p.announcement@ && {
        let e = challenge_spec(c, p.announcement@);
        &&& p.response_v@ == scalar_mul_add_spec(e, v, kv)
        &&& p.response_r@ == scalar_mul_add_spec(e, r, kr)
    }
}

/// `p` was made by the protocol: its commitment and announcement commit to
/// some `(v, r)` and nonces `(kv, kr)`, and its responses are
/// `e*v + kv` and `e*r + kr` for the challenge `e`.
pub open spec fn honestly_made(p: CommitmentKnowledgeProof) -> bool {
    exists|v: Seq<u8>, r: Seq<u8>, kv: Seq<u8>, kr: Seq<u8>|
        #![trigger pedersen_commitment(v, r), pedersen_commitment(kv, kr)]
        {
            let e = challenge_spec(p.commitment@, p.announcement@);
            &&& v.len() == 32 && r.len() == 32 && kv.len() == 32 && kr.len() == 32
            &&& p.commitment@ == pedersen_commitment(v, r)
            &&& p.announcement@ == pedersen_commitment(kv, kr)
            &&& p.response_v@ == scalar_mul_add_spec(e, v, kv)
            &&& p.response_r@ == scalar_mul_add_spec(e, r, kr)
        }
}

/// The scalar encoding of a value.
fn value_to_scalar(value: u64) -> (res: [u8; 32])
    ensures
        res@ == value_scalar(value),
{
    let le = u64_le_bytes(value);
    let mut padded = [0u8; 32];
    let mut i: usize = 0;
    while i < 8
        invariant
            i <= 8,
            le@ == le_bytes_u64(value),
            forall|j: int| 0 <= j < i ==> padded@[j] == le@[j],
            forall|j: int| 8 <= j < 32 ==> padded@[j] == 0,
        decreases 8 - i,
    {
        padded.set(i, le[i]);
        i = i + 1;
    }
    assert(padded@ =~= u64_scalar_bytes(value));
    scalar_reduce(&padded)
}

/// The challenge `e = SHA-256("C0DL3:ck_proof:" || C || R)` reduced to a
/// scalar.
pub fn compute_challenge(commitment: &[u8; 32], announcement: &[u8; 32]) -> (res: [u8; 32])
    ensures
        res@ == challenge_spec(commitment@, announcement@),
{
    let mut buf: Vec<u8> = Vec::new();
    extend_str_bytes(&mut buf, "C0DL3:ck_proof:");
    extend_bytes(&mut buf, commitment);
    extend_bytes(&mut buf, announcement);
    let h = sha256(buf.as_slice());
    scalar_reduce(&h)
}

/// Two fresh random nonces.
fn random_scalars() -> (res: ([u8; 32], [u8; 32])) {
    (random_scalar(), random_scalar())
}

/// Proves knowledge of `(value, blinding)` for the commitment
/// `value*B + blinding*H`, which it computes.
pub fn prove_commitment_knowledge(value: u64, blinding: &[u8; 32]) -> (res: CommitmentKnowledgeProof)
    ensures
        proves_opening(res, pedersen_commitment(value_scalar(value), blinding@), value_scalar(value), blinding@),
        honestly_made(res),
{
    let v = value_to_scalar(value);
    let c = pedersen_commit(&v, blinding);
    prove_inner(&v, blinding, &c)
}

/// Proves knowledge of `(value, blinding)` for a commitment the caller
/// already holds.
pub fn prove_commitment_knowledge_with_commitment(value: u64, blinding: &[u8; 32], commitment: [u8; 32]) -> (res:
    CommitmentKnowledgeProof)
    ensures
        proves_opening(res, commitment@, value_scalar(value), blinding@),
{
    let v = value_to_scalar(value);
    prove_inner(&v, blinding, &commitment)
}

/// The sigma protocol: random nonces, announcement, challenge, responses.
fn prove_inner(v: &[u8; 32], blinding: &[u8; 32], c: &[u8; 32]) -> (res: CommitmentKnowledgeProof)
    ensures
        proves_opening(res, c@, v@, blinding@),
        c@ == pedersen_commitment(v@, blinding@) ==> honestly_made(res),
{
    let (k_v, k_r) = random_scalars();
    let r = pedersen_commit(&k_v, &k_r);
    let e = compute_challenge(c, &r);
    let s_v = scalar_mul_add(&e, v, &k_v);
    let s_r = scalar_mul_add(&e, blinding, &k_r);
    let proof = CommitmentKnowledgeProof { commitment: *c, announcement: r, response_v: s_v, response_r: s_r };
    assert(pedersen_commitment(k_v@, k_r@) == proof.announcement@);
    proof
}

/// A response read as a scalar: canonical bytes as they are, others reduced.
fn read_response(bytes: &[u8; 32]) -> (res: [u8; 32])
    ensures
        res@ == response_scalar(bytes@),
        is_scalar_mul_add(bytes@) ==> res@ == bytes@,
{
    match scalar_from_canonical(bytes) {
        Some(s) => s,
        None => scalar_reduce(bytes),
    }
}

/// Verifies a proof: both points must decode and `s_v*B + s_r*H` must equal
/// `R + e*C`. Never fails otherwise; returns `false` on any invalid input.
/// A proof made by the protocol verifies.
pub fn verify_commitment_knowledge(proof: &CommitmentKnowledgeProof) -> (res: bool)
    ensures
        res == knowledge_proof_valid(*proof),
        honestly_made(*proof) ==> res,
{
    if ristretto_decompress(&proof.commitment).is_none() {
        return false;
    }
    if ristretto_decompress(&proof.announcement).is_none() {
        return false;
    }
    let e = compute_challenge(&proof.commitment, &proof.announcement);
    let s_v = read_response(&proof.response_v);
    let s_r = read_response(&proof.response_r);
    let lhs = pedersen_commit(&s_v, &s_r);
    let rhs = match ristretto_mul_add(&proof.announcement, &e, &proof.commitment) {
        Some(x) => x,
        None => return false,
    };
    proof {
        if honestly_made(*proof) {
            let (v, r, kv, kr) = choose|v: Seq<u8>, r: Seq<u8>, kv: Seq<u8>, kr: Seq<u8>|
                #![trigger pedersen_commitment(v, r), pedersen_commitment(kv, kr)]
                {
                    let e = challenge_spec(proof.commitment@, proof.announcement@);
                    &&& v.len() == 32 && r.len() == 32 && kv.len() == 32 && kr.len() == 32
                    &&& proof.commitment@ == pedersen_commitment(v, r)
                    &&& proof.announcement@ == pedersen_commitment(kv, kr)
                    &&& proof.response_v@ == scalar_mul_add_spec(e, v, kv)
                    &&& proof.response_r@ == scalar_mul_add_spec(e, r, kr)
                };
            assert(is_scalar_mul_add(proof.response_v@));
            assert(is_scalar_mul_add(proof.response_r@));
            assert(rhs@ == pedersen_commitment(scalar_mul_add_spec(e@, v, kv), scalar_mul_add_spec(e@, r, kr)));
            assert(lhs@ == rhs@);
        }
    }
    bytes_equal(&lhs, &rhs)
}

/// A proof whose commitment or announcement does not decode is refused.
pub proof fn lemma_invalid_points_rejected(p: CommitmentKnowledgeProof)
    requires
        !ristretto_valid(p.commitment@) || !ristretto_valid(p.announcement@),
    ensures
        !knowledge_proof_valid(p),
{
}

} // verus!
