//! Ristretto255 and scalar arithmetic from `curve25519-dalek-ng`, and
//! Pedersen commitments and range proofs from `bulletproofs`, all taken on
//! their 32-byte encodings. Every function here is a trusted boundary; its
//! doc comment says what its contract claims of the code it calls.
use vstd::prelude::*;
use curve25519_dalek_ng::ristretto::{CompressedRistretto, RistrettoPoint};
use curve25519_dalek_ng::scalar::Scalar;
use bulletproofs::{BulletproofGens, PedersenGens};
use crate::confidential_transactions::{range_proof_label_spec, RANGE_PROOF_GENS_CAPACITY, RANGE_PROOF_PARTY_CAPACITY};

verus! {

#[verifier::external_type_specification]
#[verifier::external_body]
pub struct ExRistrettoPoint(RistrettoPoint);

/// Whether 32 bytes are the canonical encoding of a Ristretto point.
pub uninterp spec fn ristretto_valid(bytes: Seq<u8>) -> bool;

/// The 32-byte little-endian encoding of a `u64` as a scalar (what
/// `Scalar::from(u64)` holds): its eight bytes, then zeros.
pub open spec fn u64_scalar_bytes(v: u64) -> Seq<u8> {
    crate::text::le_bytes_u64(v) + Seq::new(24, |i: int| 0u8)
}

/// Whether both encodings are valid Ristretto points.
pub open spec fn ristretto_pair_valid(a: Seq<u8>, b: Seq<u8>) -> bool {
    ristretto_valid(a) && ristretto_valid(b)
}

/// The compressed Pedersen commitment `v*B + r*B_blinding` under the default
/// generators of `bulletproofs`, with `v` and `r` the scalars that the
/// 32-byte little-endian encodings reduce to modulo the group order.
pub uninterp spec fn pedersen_commitment(v: Seq<u8>, r: Seq<u8>) -> Seq<u8>;

/// The compressed sum of two Ristretto points.
pub uninterp spec fn ristretto_add_spec(a: Seq<u8>, b: Seq<u8>) -> Seq<u8>;

/// The compressed difference of two Ristretto points.
pub uninterp spec fn ristretto_sub_spec(a: Seq<u8>, b: Seq<u8>) -> Seq<u8>;

/// The compressed point `R + e*C`.
pub uninterp spec fn ristretto_mul_add_spec(r: Seq<u8>, e: Seq<u8>, c: Seq<u8>) -> Seq<u8>;

/// The canonical encoding of 32 bytes reduced modulo the group order.
pub uninterp spec fn scalar_reduce_spec(bytes: Seq<u8>) -> Seq<u8>;

/// Whether 32 bytes are a canonical scalar encoding.
pub uninterp spec fn scalar_canonical(bytes: Seq<u8>) -> bool;

/// The encoding of the sum of two scalars (each reduced first).
pub uninterp spec fn scalar_add_spec(a: Seq<u8>, b: Seq<u8>) -> Seq<u8>;

/// The encoding of the difference of two scalars (each reduced first).
pub uninterp spec fn scalar_sub_spec(a: Seq<u8>, b: Seq<u8>) -> Seq<u8>;

/// The encoding of `a*b + c` over scalars (each reduced first).
pub uninterp spec fn scalar_mul_add_spec(a: Seq<u8>, b: Seq<u8>, c: Seq<u8>) -> Seq<u8>;

/// The length in bytes of a single-value Bulletproofs range proof over
/// `bits` bits: 32 bytes for each of seven elements, then the inner-product
/// proof's two points per halving of `bits` and its two scalars.
pub open spec fn bulletproof_len(bits: usize) -> int {
    if bits == 8 {
        480
    } else if bits == 16 {
        544
    } else if bits == 32 {
        608
    } else {
        672
    }
}

/// Whether bytes parse as a `bulletproofs::RangeProof`.
pub uninterp spec fn range_proof_parses(bytes: Seq<u8>) -> bool;

/// `Scalar::from_bytes_mod_order` of both encodings, `PedersenGens::commit`
/// under the default generators, then `compress` and `to_bytes`. Claimed: the
/// result is the commitment named by `pedersen_commitment`.
#[verifier::external_body]
pub(crate) fn pedersen_commit(v: &[u8; 32], r: &[u8; 32]) -> (res: [u8; 32])
    ensures
        res@ == pedersen_commitment(v@, r@),
{
    let gens = PedersenGens::default();
    gens.commit(Scalar::from_bytes_mod_order(*v), Scalar::from_bytes_mod_order(*r)).compress().to_bytes()
}

/// `bytes` is the Pedersen commitment to some 32-byte value and blinding.
pub open spec fn is_pedersen_commitment(bytes: Seq<u8>) -> bool {
    exists|v: Seq<u8>, r: Seq<u8>| v.len() == 32 && r.len() == 32 && #[trigger] pedersen_commitment(v, r) == bytes
}

/// `bytes` is the result of some scalar `a*b + c`.
pub open spec fn is_scalar_mul_add(bytes: Seq<u8>) -> bool {
    exists|a: Seq<u8>, b: Seq<u8>, c: Seq<u8>|
        a.len() == 32 && b.len() == 32 && c.len() == 32 && #[trigger] scalar_mul_add_spec(a, b, c) == bytes
}

/// Where `r` and `c` commit to `(kv, kr)` and `(v, w)`, all of 32 bytes,
/// `res` is the commitment to `(e*v + kv, e*w + kr)`.
pub open spec fn mul_adds_commitments(r: Seq<u8>, e: Seq<u8>, c: Seq<u8>, res: Option<[u8; 32]>) -> bool {
    forall|kv: Seq<u8>, kr: Seq<u8>, v: Seq<u8>, w: Seq<u8>|
        #![trigger pedersen_commitment(kv, kr), pedersen_commitment(v, w)]
        kv.len() == 32 && kr.len() == 32 && v.len() == 32 && w.len() == 32 && r == pedersen_commitment(kv, kr) && c
            == pedersen_commitment(v, w) ==> (res matches Some(x) && x@ == pedersen_commitment(
            scalar_mul_add_spec(e, v, kv),
            scalar_mul_add_spec(e, w, kr),
        ))
}

/// `CompressedRistretto::decompress`. Claimed: it yields a point exactly on
/// valid encodings; and the encoding of a Pedersen commitment, being the
/// compression of a point, is one of them.
#[verifier::external_body]
pub(crate) fn ristretto_decompress(bytes: &[u8; 32]) -> (res: Option<RistrettoPoint>)
    ensures
        res is Some <==> ristretto_valid(bytes@),
        is_pedersen_commitment(bytes@) ==> res is Some,
{
    CompressedRistretto(*bytes).decompress()
}

/// Where `a` and `b` commit to `x` and `y` under 32-byte blinding factors
/// `r1` and `r2`, and `x + y` fits in a `u64`, `res` is the commitment to
/// `x + y` under the scalar sum of `r1` and `r2`.
pub open spec fn sums_commitments(a: Seq<u8>, b: Seq<u8>, res: Option<[u8; 32]>) -> bool {
    forall|x: u64, y: u64, r1: Seq<u8>, r2: Seq<u8>|
        #![trigger pedersen_commitment(u64_scalar_bytes(x), r1), pedersen_commitment(u64_scalar_bytes(y), r2)]
        x + y <= u64::MAX && r1.len() == 32 && r2.len() == 32 && a == pedersen_commitment(u64_scalar_bytes(x), r1)
            && b == pedersen_commitment(u64_scalar_bytes(y), r2) ==> (res matches Some(c) && c@ == pedersen_commitment(
            u64_scalar_bytes((x + y) as u64),
            scalar_add_spec(r1, r2),
        ))
}

/// Where `a` and `b` commit to `x` and `y <= x` under 32-byte blinding
/// factors `r1` and `r2`, `res` is the commitment to `x - y` under the
/// scalar difference of `r1` and `r2`.
pub open spec fn subtracts_commitments(a: Seq<u8>, b: Seq<u8>, res: Option<[u8; 32]>) -> bool {
    forall|x: u64, y: u64, r1: Seq<u8>, r2: Seq<u8>|
        #![trigger pedersen_commitment(u64_scalar_bytes(x), r1), pedersen_commitment(u64_scalar_bytes(y), r2)]
        y <= x && r1.len() == 32 && r2.len() == 32 && a == pedersen_commitment(u64_scalar_bytes(x), r1) && b
            == pedersen_commitment(u64_scalar_bytes(y), r2) ==> (res matches Some(c) && c@ == pedersen_commitment(
            u64_scalar_bytes((x - y) as u64),
            scalar_sub_spec(r1, r2),
        ))
}

/// Decompresses both encodings, adds the points (`RistrettoPoint + RistrettoPoint`)
/// and compresses. Claimed: `None` exactly when an encoding is invalid;
/// otherwise the compressed sum. Claimed too, as the group law gives for
/// `PedersenGens::commit` (`v*B + r*B_blinding`, compressed, which always
/// decompresses): the sum of the commitments to `x` and `y` under `r1` and
/// `r2` is the commitment to `x + y` under the scalar sum of `r1` and `r2`,
/// where `x + y` fits in a `u64`.
#[verifier::external_body]
pub(crate) fn ristretto_add(a: &[u8; 32], b: &[u8; 32]) -> (res: Option<[u8; 32]>)
    ensures
        res is Some <==> ristretto_pair_valid(a@, b@),
        res matches Some(c) ==> c@ == ristretto_add_spec(a@, b@),
        sums_commitments(a@, b@, res),
{
    match (CompressedRistretto(*a).decompress(), CompressedRistretto(*b).decompress()) {
        (Some(p), Some(q)) => Some((p + q).compress().to_bytes()),
        _ => None,
    }
}

/// Decompresses both encodings, subtracts the points and compresses.
/// Claimed: `None` exactly when an encoding is invalid; otherwise the
/// compressed difference. Claimed too, as the group law gives for
/// `PedersenGens::commit`: the difference of the commitments to `x` and
/// `y <= x` under `r1` and `r2` is the commitment to `x - y` under the
/// scalar difference of `r1` and `r2`.
#[verifier::external_body]
pub(crate) fn ristretto_sub(a: &[u8; 32], b: &[u8; 32]) -> (res: Option<[u8; 32]>)
    ensures
        res is Some <==> ristretto_pair_valid(a@, b@),
        res matches Some(c) ==> c@ == ristretto_sub_spec(a@, b@),
        subtracts_commitments(a@, b@, res),
{
    match (CompressedRistretto(*a).decompress(), CompressedRistretto(*b).decompress()) {
        (Some(p), Some(q)) => Some((p - q).compress().to_bytes()),
        _ => None,
    }
}

/// Decompresses `r` and `c`, computes `r + e*c` with `e` reduced by
/// `Scalar::from_bytes_mod_order`, and compresses. Claimed: `None` exactly
/// when an encoding is invalid; otherwise the compressed result. Claimed
/// too, as the group law gives for `PedersenGens::commit`: where `r` and `c`
/// commit to `(kv, kr)` and `(v, w)`, the result commits to
/// `(e*v + kv, e*w + kr)`.
#[verifier::external_body]
pub(crate) fn ristretto_mul_add(r: &[u8; 32], e: &[u8; 32], c: &[u8; 32]) -> (res: Option<[u8; 32]>)
    ensures
        res is Some <==> ristretto_pair_valid(r@, c@),
        res matches Some(x) ==> x@ == ristretto_mul_add_spec(r@, e@, c@),
        mul_adds_commitments(r@, e@, c@, res),
{
    match (CompressedRistretto(*r).decompress(), CompressedRistretto(*c).decompress()) {
        (Some(rp), Some(cp)) => Some((rp + Scalar::from_bytes_mod_order(*e) * cp).compress().to_bytes()),
        _ => None,
    }
}

/// `Scalar::from_bytes_mod_order` then `to_bytes`. Claimed: the reduced
/// canonical encoding.
#[verifier::external_body]
pub(crate) fn scalar_reduce(bytes: &[u8; 32]) -> (res: [u8; 32])
    ensures
        res@ == scalar_reduce_spec(bytes@),
{
    Scalar::from_bytes_mod_order(*bytes).to_bytes()
}

/// `Scalar::from_canonical_bytes` then `to_bytes`. Claimed: `Some` exactly on
/// canonical encodings, and then the same bytes; the encoding of a result of
/// scalar arithmetic, which is reduced, is canonical.
#[verifier::external_body]
pub(crate) fn scalar_from_canonical(bytes: &[u8; 32]) -> (res: Option<[u8; 32]>)
    ensures
        res is Some <==> scalar_canonical(bytes@),
        res matches Some(s) ==> s@ == bytes@,
        is_scalar_mul_add(bytes@) ==> res is Some,
{
    Scalar::from_canonical_bytes(*bytes).map(|s| s.to_bytes())
}

/// Scalar addition (`Scalar + Scalar`) of the reduced encodings. Claimed:
/// the encoding of the sum.
#[verifier::external_body]
pub(crate) fn scalar_add(a: &[u8; 32], b: &[u8; 32]) -> (res: [u8; 32])
    ensures
        res@ == scalar_add_spec(a@, b@),
{
    (Scalar::from_bytes_mod_order(*a) + Scalar::from_bytes_mod_order(*b)).to_bytes()
}

/// Scalar subtraction (`Scalar - Scalar`) of the reduced encodings.
/// Claimed: the encoding of the difference.
#[verifier::external_body]
pub(crate) fn scalar_sub(a: &[u8; 32], b: &[u8; 32]) -> (res: [u8; 32])
    ensures
        res@ == scalar_sub_spec(a@, b@),
{
    (Scalar::from_bytes_mod_order(*a) - Scalar::from_bytes_mod_order(*b)).to_bytes()
}

/// `a*b + c` over the reduced scalars. Claimed: the encoding of the result.
#[verifier::external_body]
pub(crate) fn scalar_mul_add(a: &[u8; 32], b: &[u8; 32], c: &[u8; 32]) -> (res: [u8; 32])
    ensures
        res@ == scalar_mul_add_spec(a@, b@, c@),
{
    (Scalar::from_bytes_mod_order(*c) + Scalar::from_bytes_mod_order(*a) * Scalar::from_bytes_mod_order(*b)).to_bytes()
}

/// `Scalar::random` over `rand::thread_rng`, then `to_bytes`. Nothing is
/// claimed of the value: it is chance.
#[verifier::external_body]
pub(crate) fn random_scalar() -> (res: [u8; 32]) {
    Scalar::random(&mut rand::thread_rng()).to_bytes()
}

/// `bulletproofs::RangeProof::prove_single` over the default Pedersen
/// generators, `BulletproofGens::new(gens_capacity, party_capacity)` and a
/// transcript labelled `label`, then `to_bytes` of the proof and the
/// committed point. The caller passes this library's protocol constants.
/// Claimed, as the crate's source shows: it fails where the bit size is not
/// 8, 16, 32 or 64, and the committed point is the Pedersen commitment of
/// `v` (as a scalar) under the blinding; the proof has seven 32-byte
/// elements and an inner-product proof of `log2(bits)` point pairs and two
/// scalars, so its length is `bulletproof_len(bits)`. The proof bytes
/// themselves depend on chance.
#[verifier::external_body]
pub(crate) fn range_proof_prove(
    v: u64,
    blinding: &[u8; 32],
    bits: usize,
    label: &'static str,
    gens_capacity: usize,
    party_capacity: usize,
) -> (res: Option<(Vec<u8>, [u8; 32])>)
    requires
        label@ == range_proof_label_spec(),
        gens_capacity == RANGE_PROOF_GENS_CAPACITY,
        party_capacity == RANGE_PROOF_PARTY_CAPACITY,
    ensures
        !(bits == 8 || bits == 16 || bits == 32 || bits == 64) ==> res is None,
        res matches Some(p) ==> p.1@ == pedersen_commitment(u64_scalar_bytes(v), blinding@),
        res matches Some(p) ==> p.0@.len() == bulletproof_len(bits),
{
    let bp_gens = BulletproofGens::new(gens_capacity, party_capacity);
    let pc_gens = PedersenGens::default();
    let mut transcript = merlin::Transcript::new(label.as_bytes());
    let r = Scalar::from_bytes_mod_order(*blinding);
    bulletproofs::RangeProof::prove_single(&bp_gens, &pc_gens, &mut transcript, v, &r, bits)
        .ok()
        .map(|(proof, committed)| (proof.to_bytes(), committed.to_bytes()))
}

/// `bulletproofs::RangeProof::from_bytes`, then `verify_single` against the
/// committed point with generators and transcript label built from the
/// arguments, which the caller takes from the same protocol constants as
/// proving. Claimed: `None` exactly when the bytes do not parse; and an
/// accepting verdict only where the bit size is 8, 16, 32 or 64 and the
/// proof's inner-product part has `log2(bits)` point pairs, that is where
/// its length is `bulletproof_len(bits)` (`verify_multiple_with_rng` and
/// `verification_scalars` refuse otherwise, before any random weight is
/// drawn). Whether a proof of the right shape is accepted is not stated.
#[verifier::external_body]
pub(crate) fn range_proof_verify(
    proof: &[u8],
    commitment: &[u8; 32],
    bits: usize,
    label: &'static str,
    gens_capacity: usize,
    party_capacity: usize,
) -> (res: Option<bool>)
    requires
        label@ == range_proof_label_spec(),
        gens_capacity == RANGE_PROOF_GENS_CAPACITY,
        party_capacity == RANGE_PROOF_PARTY_CAPACITY,
    ensures
        res is Some <==> range_proof_parses(proof@),
        res == Some(true) ==> (bits == 8 || bits == 16 || bits == 32 || bits == 64) && proof@.len()
            == bulletproof_len(bits),
{
    let parsed = match bulletproofs::RangeProof::from_bytes(proof) {
        Ok(p) => p,
        Err(_) => return None,
    };
    let bp_gens = BulletproofGens::new(gens_capacity, party_capacity);
    let pc_gens = PedersenGens::default();
    let mut transcript = merlin::Transcript::new(label.as_bytes());
    Some(parsed.verify_single(&bp_gens, &pc_gens, &mut transcript, &CompressedRistretto(*commitment), bits).is_ok())
}

} // verus!
