//! Block commitment proofs (STARK-COMMITMENT-V1): a SHA-256 Merkle root over
//! the commitment hashes of a block's transactions, bound to the block height
//! and transaction count. The proof carries its leaves, so a verifier
//! recomputes the root with nothing but SHA-256.
//!
//! This proves commitment integrity only, not execution of the block.
use vstd::prelude::*;
use vstd::string::*;
use crate::crypto::{sha256, sha256_spec};
use crate::error::PrivacyError;
use crate::text::{extend_bytes, extend_str_bytes, le_bytes_u64, u64_le_bytes, bytes_equal, owned};

verus! {

/// The public inputs a block commitment proof is checked against.
#[derive(Debug, Clone)]
pub struct BlockProofPublicInputs {
    /// Block height.
    pub block_height: u64,
    /// Number of transactions in the block.
    pub tx_count: u64,
    /// Merkle root over the transaction commitment hashes.
    pub commitment_tree_root: [u8; 32],
}

/// A verifiable Merkle root over a block's transaction commitment hashes.
#[derive(Debug, Clone)]
pub struct BlockCommitmentProof {
    /// Proof type identifier, `STARK-COMMITMENT-V1`.
    pub proof_type: String,
    /// Block height this proof covers.
    pub block_height: u64,
    /// Number of transactions.
    pub tx_count: u64,
    /// SHA-256 Merkle root of the leaves.
    pub commitment_tree_root: [u8; 32],
    /// One leaf hash per transaction, in order.
    pub tx_commitment_hashes: Vec<[u8; 32]>,
    /// SHA-256 over the domain tag, height, count and root.
    pub proof_binding: [u8; 32],
}

/// The leaf hashes as byte strings.
pub open spec fn leaf_views(leaves: Seq<[u8; 32]>) -> Seq<Seq<u8>> {
    leaves.map_values(|l: [u8; 32]| l@)
}

/// The hash of the pair at position `j` of a tree level; an odd last node is
/// paired with itself.
pub open spec fn pair_hash(level: Seq<Seq<u8>>, j: int) -> Seq<u8> {
    if 2 * j + 1 < level.len() {
        sha256_spec(level[2 * j] + level[2 * j + 1])
    } else {
        sha256_spec(level[2 * j] + level[2 * j])
    }
}

/// The next level up of a Merkle tree.
pub open spec fn merkle_level(level: Seq<Seq<u8>>) -> Seq<Seq<u8>> {
    Seq::new(((level.len() + 1) / 2) as nat, |j: int| pair_hash(level, j))
}

/// The root reached by folding non-empty levels until one node is left.
pub open spec fn merkle_fold(level: Seq<Seq<u8>>) -> Seq<u8>
    decreases level.len(),
{
    if level.len() <= 1 {
        level[0]
    } else {
        merkle_fold(merkle_level(level))
    }
}

/// The hash that stands for a block with no transactions.
pub open spec fn empty_block_root() -> Seq<u8> {
    sha256_spec("empty_block".spec_bytes())
}

/// The Merkle root of a list of leaves: the empty-block hash for none, the
/// leaf itself for one, and pairwise SHA-256 level by level otherwise.
pub open spec fn merkle_root_spec(leaves: Seq<Seq<u8>>) -> Seq<u8> {
    if leaves.len() == 0 {
        empty_block_root()
    } else {
        merkle_fold(leaves)
    }
}

/// The leaf of one transaction: SHA-256 over `tx_commitment` and its bytes.
pub open spec fn tx_leaf_spec(commitment: Seq<u8>) -> Seq<u8> {
    sha256_spec("tx_commitment".spec_bytes() + commitment)
}

/// The binding digest over the domain tag, height, count and root.
pub open spec fn proof_binding_spec(block_height: u64, tx_count: u64, root: Seq<u8>) -> Seq<u8> {
    sha256_spec(
        "COLDL3:commitment:v1".spec_bytes() + le_bytes_u64(block_height) + le_bytes_u64(tx_count) + root,
    )
}

/// `proof` is what generation produces from `block_height` and the
/// transaction commitments `txs`.
pub open spec fn generated_from(proof: BlockCommitmentProof, block_height: u64, txs: Seq<Seq<u8>>) -> bool {
    &&& proof.proof_type@ == "STARK-COMMITMENT-V1"@
    &&& proof.block_height == block_height
    &&& proof.tx_count == txs.len()
    &&& leaf_views(proof.tx_commitment_hashes@) == txs.map_values(|c: Seq<u8>| tx_leaf_spec(c))
    &&& proof.commitment_tree_root@ == merkle_root_spec(leaf_views(proof.tx_commitment_hashes@))
    &&& proof.proof_binding@ == proof_binding_spec(block_height, proof.tx_count, proof.commitment_tree_root@)
}

/// The verdict of verification: the proof matches the expected public
/// inputs, has one leaf per transaction, its root is the Merkle root of its
/// leaves, and its binding digest is the one over its public inputs.
pub open spec fn proof_verifies(proof: BlockCommitmentProof, expected: BlockProofPublicInputs) -> bool {
    &&& proof.block_height == expected.block_height
    &&& proof.tx_count == expected.tx_count
    &&& proof.commitment_tree_root@ == expected.commitment_tree_root@
    &&& proof.tx_commitment_hashes@.len() == proof.tx_count
    &&& merkle_root_spec(leaf_views(proof.tx_commitment_hashes@)) == proof.commitment_tree_root@
    &&& proof.proof_binding@ == proof_binding_spec(
        proof.block_height,
        proof.tx_count,
        proof.commitment_tree_root@,
    )
}

/// The public inputs that a proof claims for itself.
pub open spec fn claimed_inputs(proof: BlockCommitmentProof) -> BlockProofPublicInputs {
    BlockProofPublicInputs {
        block_height: proof.block_height,
        tx_count: proof.tx_count,
        commitment_tree_root: proof.commitment_tree_root,
    }
}

/// SHA-256 over the concatenation of two nodes.
fn hash_pair(left: &[u8; 32], right: &[u8; 32]) -> (res: [u8; 32])
    ensures
        res@ == sha256_spec(left@ + right@),
{
    let mut buf: Vec<u8> = Vec::new();
    extend_bytes(&mut buf, left);
    extend_bytes(&mut buf, right);
    sha256(buf.as_slice())
}

/// One level of the Merkle tree: adjacent nodes hashed pairwise, the last
/// node paired with itself when the count is odd.
fn merkle_next_level(current: &Vec<[u8; 32]>) -> (next: Vec<[u8; 32]>)
    requires
        current@.len() >= 1,
    ensures
        leaf_views(next@) == merkle_level(leaf_views(current@)),
        next@.len() == (current@.len() + 1) / 2,
{
    let ghost level = leaf_views(current@);
    let mut next: Vec<[u8; 32]> = Vec::new();
    let n = current.len();
    let pairs = n / 2 + n % 2;
    let mut j: usize = 0;
    while j < pairs
        invariant
            level == leaf_views(current@),
            n == current@.len(),
            pairs == (n + 1) / 2,
            j <= pairs,
            next@.len() == j,
            forall|k: int| 0 <= k < next@.len() ==> #[trigger] next@[k]@ == pair_hash(level, k),
        decreases pairs - j,
    {
        let i = j + j;
        let left = current[i];
        let right = if i + 1 < n {
            current[i + 1]
        } else {
            current[i]
        };
        let h = hash_pair(&left, &right);
        proof {
            assert(level[i as int] == left@);
            if i + 1 < current@.len() {
                assert(level[i + 1] == right@);
            }
        }
        next.push(h);
        j = j + 1;
    }
    assert(leaf_views(next@) =~= merkle_level(level));
    next
}

/// The SHA-256 Merkle root of the leaves (see `merkle_root_spec`).
fn merkle_root(leaves: &Vec<[u8; 32]>) -> (res: [u8; 32])
    ensures
        res@ == merkle_root_spec(leaf_views(leaves@)),
{
    if leaves.len() == 0 {
        let mut buf: Vec<u8> = Vec::new();
        extend_str_bytes(&mut buf, "empty_block");
        return sha256(buf.as_slice());
    }
    if leaves.len() == 1 {
        return leaves[0];
    }
    let mut current: Vec<[u8; 32]> = merkle_next_level(leaves);
    while current.len() > 1
        invariant
            current@.len() >= 1,
            merkle_fold(leaf_views(current@)) == merkle_fold(leaf_views(leaves@)),
        decreases current@.len(),
    {
        let next = merkle_next_level(&current);
        current = next;
    }
    current[0]
}

/// The leaf of one transaction commitment.
fn hash_tx_commitment(commitment_bytes: &[u8]) -> (res: [u8; 32])
    ensures
        res@ == tx_leaf_spec(commitment_bytes@),
{
    let mut buf: Vec<u8> = Vec::new();
    extend_str_bytes(&mut buf, "tx_commitment");
    extend_bytes(&mut buf, commitment_bytes);
    sha256(buf.as_slice())
}

/// The proof binding digest.
fn compute_proof_binding(block_height: u64, tx_count: u64, root: &[u8; 32]) -> (res: [u8; 32])
    ensures
        res@ == proof_binding_spec(block_height, tx_count, root@),
{
    let mut buf: Vec<u8> = Vec::new();
    extend_str_bytes(&mut buf, "COLDL3:commitment:v1");
    let h = u64_le_bytes(block_height);
    extend_bytes(&mut buf, h.as_slice());
    let c = u64_le_bytes(tx_count);
    extend_bytes(&mut buf, c.as_slice());
    extend_bytes(&mut buf, root);
    sha256(buf.as_slice())
}

/// Builds the commitment proof of a block from the raw commitment bytes of
/// its transactions, one entry per transaction. It always succeeds.
pub fn generate_block_commitment_proof(block_height: u64, tx_commitments: &[Vec<u8>]) -> (res: Result<
    BlockCommitmentProof,
    PrivacyError,
>)
    ensures
        res matches Ok(p) && generated_from(
            p,
            block_height,
            tx_commitments@.map_values(|c: Vec<u8>| c@),
        ),
{
    let tx_count = tx_commitments.len() as u64;
    let ghost txs = tx_commitments@.map_values(|c: Vec<u8>| c@);
    let mut leaves: Vec<[u8; 32]> = Vec::new();
    let mut i: usize = 0;
    while i < tx_commitments.len()
        invariant
            i <= tx_commitments@.len(),
            txs == tx_commitments@.map_values(|c: Vec<u8>| c@),
            leaves@.len() == i,
            forall|j: int| 0 <= j < i ==> #[trigger] leaves@[j]@ == tx_leaf_spec(txs[j]),
        decreases tx_commitments@.len() - i,
    {
        let leaf = hash_tx_commitment(tx_commitments[i].as_slice());
        leaves.push(leaf);
        i = i + 1;
    }
    assert(leaf_views(leaves@) =~= txs.map_values(|c: Seq<u8>| tx_leaf_spec(c)));
    let commitment_tree_root = merkle_root(&leaves);
    let proof_binding = compute_proof_binding(block_height, tx_count, &commitment_tree_root);
    let proof_type = owned("STARK-COMMITMENT-V1");
    Ok(BlockCommitmentProof {
        proof_type,
        block_height,
        tx_count,
        commitment_tree_root,
        tx_commitment_hashes: leaves,
        proof_binding,
    })
}

/// Checks a block commitment proof against the expected public inputs:
/// height, count and root must match, there must be one leaf per
/// transaction, the recomputed Merkle root must equal the claimed one and the
/// binding digest must be the one over the public inputs. It never errs.
pub fn verify_block_commitment_proof(proof: &BlockCommitmentProof, expected: &BlockProofPublicInputs) -> (res: Result<
    bool,
    PrivacyError,
>)
    ensures
        res == Ok::<bool, PrivacyError>(proof_verifies(*proof, *expected)),
{
    if proof.block_height != expected.block_height {
        return Ok(false);
    }
    if proof.tx_count != expected.tx_count {
        return Ok(false);
    }
    if !bytes_equal(&proof.commitment_tree_root, &expected.commitment_tree_root) {
        return Ok(false);
    }
    if proof.tx_commitment_hashes.len() as u64 != proof.tx_count {
        return Ok(false);
    }
    let recomputed_root = merkle_root(&proof.tx_commitment_hashes);
    if !bytes_equal(&recomputed_root, &proof.commitment_tree_root) {
        return Ok(false);
    }
    let expected_binding = compute_proof_binding(
        proof.block_height,
        proof.tx_count,
        &proof.commitment_tree_root,
    );
    if !bytes_equal(&proof.proof_binding, &expected_binding) {
        return Ok(false);
    }
    Ok(true)
}

/// Completeness: a proof generated from any block height and any list of
/// transaction commitments verifies against the public inputs it claims.
pub proof fn lemma_generated_proof_verifies(proof: BlockCommitmentProof, block_height: u64, txs: Seq<Seq<u8>>)
    requires
        generated_from(proof, block_height, txs),
    ensures
        proof_verifies(proof, claimed_inputs(proof)),
        claimed_inputs(proof).block_height == block_height,
        claimed_inputs(proof).tx_count == txs.len(),
{
}

/// Soundness of the check itself: whatever verifies has one leaf per
/// transaction, a root that is the Merkle root of those leaves and equal to
/// the expected one, and a binding digest over exactly the expected inputs.
pub proof fn lemma_verified_proof_binds_inputs(proof: BlockCommitmentProof, expected: BlockProofPublicInputs)
    requires
        proof_verifies(proof, expected),
    ensures
        expected.commitment_tree_root@ == merkle_root_spec(leaf_views(proof.tx_commitment_hashes@)),
        proof.tx_commitment_hashes@.len() == expected.tx_count,
        proof.proof_binding@ == proof_binding_spec(
            expected.block_height,
            expected.tx_count,
            expected.commitment_tree_root@,
        ),
{
}

/// A block with one transaction has that transaction's leaf as its root.
pub proof fn lemma_single_leaf_root(leaf: Seq<u8>)
    ensures
        merkle_root_spec(seq![leaf]) == leaf,
{
}

/// The Merkle rule, level by level: a level of two or more nodes has the
/// root of the level above it, whose node `j` is SHA-256 over nodes `2j`
/// and `2j + 1`, and, where the level has odd length, SHA-256 over its last
/// node twice.
pub proof fn lemma_merkle_level_rule(level: Seq<Seq<u8>>)
    requires
        level.len() >= 2,
    ensures
        merkle_root_spec(level) == merkle_root_spec(
            Seq::new(
                ((level.len() + 1) / 2) as nat,
                |j: int|
                    if 2 * j + 1 < level.len() {
                        sha256_spec(level[2 * j] + level[2 * j + 1])
                    } else {
                        sha256_spec(level[2 * j] + level[2 * j])
                    },
            ),
        ),
{
    let up = Seq::new(
        ((level.len() + 1) / 2) as nat,
        |j: int|
            if 2 * j + 1 < level.len() {
                sha256_spec(level[2 * j] + level[2 * j + 1])
            } else {
                sha256_spec(level[2 * j] + level[2 * j])
            },
    );
    assert(merkle_level(level) =~= up);
}

/// Two leaves: the root is SHA-256 over the pair.
pub proof fn lemma_two_leaf_root(l0: Seq<u8>, l1: Seq<u8>)
    ensures
        merkle_root_spec(seq![l0, l1]) == sha256_spec(l0 + l1),
{
    lemma_merkle_level_rule(seq![l0, l1]);
    assert(Seq::new(1, |j: int| if 2 * j + 1 < 2 { sha256_spec(seq![l0, l1][2 * j] + seq![l0, l1][2 * j + 1]) } else {
        sha256_spec(seq![l0, l1][2 * j] + seq![l0, l1][2 * j])
    }) =~= seq![sha256_spec(l0 + l1)]);
    lemma_single_leaf_root(sha256_spec(l0 + l1));
}

/// Five leaves: the odd last node is paired with itself on every level,
/// so the root is `H(H(H(l0|l1) | H(l2|l3)) | H(H(l4|l4) | H(l4|l4)))`.
pub proof fn lemma_five_leaf_root(l0: Seq<u8>, l1: Seq<u8>, l2: Seq<u8>, l3: Seq<u8>, l4: Seq<u8>)
    ensures
        merkle_root_spec(seq![l0, l1, l2, l3, l4]) == sha256_spec(
            sha256_spec(sha256_spec(l0 + l1) + sha256_spec(l2 + l3)) + sha256_spec(
                sha256_spec(l4 + l4) + sha256_spec(l4 + l4),
            ),
        ),
{
    let h01 = sha256_spec(l0 + l1);
    let h23 = sha256_spec(l2 + l3);
    let h44 = sha256_spec(l4 + l4);
    let a = sha256_spec(h01 + h23);
    let b = sha256_spec(h44 + h44);
    let leaves = seq![l0, l1, l2, l3, l4];
    lemma_merkle_level_rule(leaves);
    let up1 = Seq::new(
        ((leaves.len() + 1) / 2) as nat,
        |j: int|
            if 2 * j + 1 < leaves.len() {
                sha256_spec(leaves[2 * j] + leaves[2 * j + 1])
            } else {
                sha256_spec(leaves[2 * j] + leaves[2 * j])
            },
    );
    assert(up1 =~= seq![h01, h23, h44]);
    let l1s = seq![h01, h23, h44];
    lemma_merkle_level_rule(l1s);
    let up2 = Seq::new(
        ((l1s.len() + 1) / 2) as nat,
        |j: int|
            if 2 * j + 1 < l1s.len() {
                sha256_spec(l1s[2 * j] + l1s[2 * j + 1])
            } else {
                sha256_spec(l1s[2 * j] + l1s[2 * j])
            },
    );
    assert(up2 =~= seq![a, b]);
    lemma_two_leaf_root(a, b);
}

/// A proof whose claimed height differs from the expected one never verifies.
pub proof fn lemma_wrong_height_rejected(proof: BlockCommitmentProof, expected: BlockProofPublicInputs)
    requires
        proof.block_height != expected.block_height,
    ensures
        !proof_verifies(proof, expected),
{
}

} // verus!
