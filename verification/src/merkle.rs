//! The Merkle eligibility verifier.
//!
//! A claim's seven business parameters are authenticated by recomputing a
//! leaf digest from their exact byte rendering and folding it against the
//! proof elements up to the round's published root. The fold orders each
//! sibling pair byte-wise (so proofs carry no left/right positions), and the
//! leaf concatenates the fields with no separators; both choices are part of
//! the published tree format and are preserved exactly.

use vstd::prelude::*;

use crate::bytes::{dec_rep, lex_le, lex_le_bytes, bytes_eq, push_dec_u128, push_dec_u64};
use crate::digest::{sha256, sha256_of};
use crate::error::VestError;
use crate::hexenc::{decode_hex32, hex_decoded, is_hex32};

verus! {

/// The byte string whose digest is a claim's leaf: the account's display
/// identifier followed by the decimal renderings of stage, total amount,
/// TGE fraction, start time, duration and cliff, in that order, with no
/// separators.
pub open spec fn leaf_bytes(
    account: Seq<u8>,
    stage: u128,
    total_amount: u128,
    tge: u128,
    start_at: u64,
    cliff: u64,
    duration: u64,
) -> Seq<u8> {
    account + dec_rep(stage as nat) + dec_rep(total_amount as nat) + dec_rep(tge as nat)
        + dec_rep(start_at as nat) + dec_rep(duration as nat) + dec_rep(cliff as nat)
}

/// Digest of the parent of two sibling digests: the pair is ordered
/// byte-wise before concatenation, so the proof need not say which side each
/// sibling was on.
pub open spec fn node_hash(a: Seq<u8>, b: Seq<u8>) -> Seq<u8> {
    if lex_le(a, b) {
        sha256_of(a + b)
    } else {
        sha256_of(b + a)
    }
}

/// Folds a running digest against a sequence of sibling digests.
pub open spec fn fold_proof(h: Seq<u8>, nodes: Seq<Seq<u8>>) -> Seq<u8>
    decreases nodes.len(),
{
    if nodes.len() == 0 {
        h
    } else {
        fold_proof(node_hash(h, nodes[0]), nodes.drop_first())
    }
}

/// Folding one more node hashes it against the fold of the ones before it.
pub proof fn lemma_fold_proof_push(h: Seq<u8>, nodes: Seq<Seq<u8>>, x: Seq<u8>)
    ensures
        fold_proof(h, nodes.push(x)) == node_hash(fold_proof(h, nodes), x),
    decreases nodes.len(),
{
    if nodes.len() == 0 {
        assert(nodes.push(x).drop_first() =~= nodes);
        assert(nodes.push(x)[0] == x);
        assert(fold_proof(h, nodes.push(x)) == fold_proof(node_hash(h, x), nodes));
        assert(fold_proof(node_hash(h, x), nodes) == node_hash(h, x));
        assert(fold_proof(h, nodes) == h);
    } else {
        assert(nodes.push(x)[0] == nodes[0]);
        assert(nodes.push(x).drop_first() =~= nodes.drop_first().push(x));
        assert(fold_proof(h, nodes.push(x)) == fold_proof(
            node_hash(h, nodes[0]),
            nodes.drop_first().push(x),
        ));
        lemma_fold_proof_push(node_hash(h, nodes[0]), nodes.drop_first(), x);
        assert(fold_proof(h, nodes) == fold_proof(node_hash(h, nodes[0]), nodes.drop_first()));
    }
}

/// Every element of `nodes` is a hex encoding of 32 bytes.
pub open spec fn proof_encoding_ok(nodes: Seq<Seq<u8>>) -> bool {
    forall|i: int| 0 <= i < nodes.len() ==> is_hex32(nodes[i])
}

/// The 32-byte buffers that the proof elements decode to.
pub open spec fn decoded_nodes(nodes: Seq<Seq<u8>>) -> Seq<Seq<u8>> {
    nodes.map_values(|s: Seq<u8>| hex_decoded(s))
}

/// What verification returns, as a value: encoding failures first (proof
/// elements, then the root), then the byte-for-byte comparison of the folded
/// digest against the decoded root.
pub open spec fn verify_outcome(
    proof_nodes: Seq<Seq<u8>>,
    account: Seq<u8>,
    stage: u128,
    total_amount: u128,
    tge: u128,
    start_at: u64,
    cliff: u64,
    duration: u64,
    merkle_root: Seq<u8>,
) -> Result<bool, VestError> {
    if !proof_encoding_ok(proof_nodes) {
        Err(VestError::InvalidProofEncoding)
    } else if !is_hex32(merkle_root) {
        Err(VestError::InvalidRootEncoding)
    } else if fold_proof(
        sha256_of(leaf_bytes(account, stage, total_amount, tge, start_at, cliff, duration)),
        decoded_nodes(proof_nodes),
    ) == hex_decoded(merkle_root) {
        Ok(true)
    } else {
        Err(VestError::ProofVerificationFailed)
    }
}

/// Builds the leaf byte string of [`leaf_bytes`].
fn build_leaf(
    account: &Vec<u8>,
    stage: u128,
    total_amount: u128,
    tge: u128,
    start_at: u64,
    cliff: u64,
    duration: u64,
) -> (r: Vec<u8>)
    ensures
        r@ == leaf_bytes(account@, stage, total_amount, tge, start_at, cliff, duration),
{
    let mut out: Vec<u8> = Vec::new();
    let mut i: usize = 0;
    proof {
        assert(out@ + account@.take(0) =~= out@);
    }
    while i < account.len()
        invariant
            i <= account@.len(),
            out@ == account@.take(i as int),
        decreases account@.len() - i,
    {
        out.push(account[i]);
        proof {
            assert(account@.take(i as int).push(account@[i as int]) =~= account@.take(
                i as int + 1,
            ));
        }
        i = i + 1;
    }
    proof {
        assert(account@.take(account@.len() as int) =~= account@);
    }
    push_dec_u128(&mut out, stage);
    push_dec_u128(&mut out, total_amount);
    push_dec_u128(&mut out, tge);
    push_dec_u64(&mut out, start_at);
    push_dec_u64(&mut out, duration);
    push_dec_u64(&mut out, cliff);
    out
}

/// Concatenates the ordered pair of two equal-length digests and rehashes.
fn combine(a: &Vec<u8>, b: &Vec<u8>) -> (r: Vec<u8>)
    requires
        a@.len() == b@.len(),
    ensures
        r@ == node_hash(a@, b@),
        r@.len() == 32,
{
    let a_first = lex_le_bytes(a, b);
    let (lo, hi) = if a_first { (a, b) } else { (b, a) };
    let mut cat: Vec<u8> = Vec::new();
    let mut i: usize = 0;
    proof {
        assert(lo@.take(0) =~= cat@);
    }
    while i < lo.len()
        invariant
            i <= lo@.len(),
            cat@ == lo@.take(i as int),
        decreases lo@.len() - i,
    {
        cat.push(lo[i]);
        proof {
            assert(lo@.take(i as int).push(lo@[i as int]) =~= lo@.take(i as int + 1));
        }
        i = i + 1;
    }
    proof {
        assert(lo@.take(lo@.len() as int) =~= lo@);
    }
    let mut j: usize = 0;
    while j < hi.len()
        invariant
            j <= hi@.len(),
            cat@ == lo@ + hi@.take(j as int),
        decreases hi@.len() - j,
    {
        cat.push(hi[j]);
        proof {
            assert((lo@ + hi@.take(j as int)).push(hi@[j as int]) =~= lo@ + hi@.take(
                j as int + 1,
            ));
        }
        j = j + 1;
    }
    proof {
        assert(lo@ + hi@.take(hi@.len() as int) =~= lo@ + hi@);
    }
    sha256(&cat)
}

/// Recomputes the leaf digest for the claimed parameters, folds it against
/// the proof elements, and compares the result to the round's root.
///
/// Returns `Ok(true)` exactly when every proof element and the root decode
/// from hex and the folded digest equals the decoded root.
pub fn verify_user_vesting_stats(
    proof_nodes: &Vec<Vec<u8>>,
    account: &Vec<u8>,
    stage: u128,
    total_amount: u128,
    tge: u128,
    start_at: u64,
    cliff: u64,
    duration: u64,
    merkle_root: &Vec<u8>,
) -> (r: Result<bool, VestError>)
    ensures
        r == verify_outcome(
            proof_nodes@.map_values(|v: Vec<u8>| v@),
            account@,
            stage,
            total_amount,
            tge,
            start_at,
            cliff,
            duration,
            merkle_root@,
        ),
{
    let ghost nodes_view = proof_nodes@.map_values(|v: Vec<u8>| v@);
    let ghost leaf_digest = sha256_of(
        leaf_bytes(account@, stage, total_amount, tge, start_at, cliff, duration),
    );
    let leaf = build_leaf(account, stage, total_amount, tge, start_at, cliff, duration);
    let mut hash = sha256(&leaf);
    let mut i: usize = 0;
    proof {
        assert(decoded_nodes(nodes_view.take(0)) =~= Seq::<Seq<u8>>::empty());
    }
    while i < proof_nodes.len()
        invariant
            i <= nodes_view.len(),
            nodes_view == proof_nodes@.map_values(|v: Vec<u8>| v@),
            nodes_view.len() == proof_nodes@.len(),
            forall|j: int| 0 <= j < i ==> is_hex32(nodes_view[j]),
            hash@.len() == 32,
            hash@ == fold_proof(leaf_digest, decoded_nodes(nodes_view.take(i as int))),
        decreases nodes_view.len() - i,
    {
        let decoded = decode_hex32(&proof_nodes[i]);
        match decoded {
            None => {
                proof {
                    assert(nodes_view[i as int] == proof_nodes@[i as int]@);
                    assert(!is_hex32(nodes_view[i as int]));
                    assert(!proof_encoding_ok(nodes_view));
                }
                return Err(VestError::InvalidProofEncoding);
            },
            Some(node) => {
                proof {
                    assert(decoded_nodes(nodes_view.take(i as int)).push(node@)
                        =~= decoded_nodes(nodes_view.take(i as int + 1)));
                    lemma_fold_proof_push(
                        leaf_digest,
                        decoded_nodes(nodes_view.take(i as int)),
                        node@,
                    );
                }
                hash = combine(&hash, &node);
            },
        }
        i = i + 1;
    }
    proof {
        assert(nodes_view.take(nodes_view.len() as int) =~= nodes_view);
    }
    let root = decode_hex32(merkle_root);
    match root {
        None => Err(VestError::InvalidRootEncoding),
        Some(root_buf) => {
            if bytes_eq(&root_buf, &hash) {
                Ok(true)
            } else {
                Err(VestError::ProofVerificationFailed)
            }
        },
    }
}

} // verus!
