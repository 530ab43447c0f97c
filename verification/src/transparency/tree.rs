//! RFC 6962-style Merkle tree over leaf hashes.

use vstd::prelude::*;
use crate::encoding::{hex_encode, hex_encode_spec, sha256, sha256_digest};
use crate::errors::TransparencyError;
use crate::transparency::proofs::MerkleInclusionProof;

verus! {

/// `2^b`.
pub open spec fn p2(b: nat) -> nat
    decreases b,
{
    if b == 0 {
        1
    } else {
        2 * p2((b - 1) as nat)
    }
}

/// The exponent of the largest power of two below `n` (for `n >= 2`).
pub open spec fn lp2_exp(n: nat) -> nat
    decreases n,
{
    if n <= 2 {
        0
    } else {
        1 + lp2_exp(((n + 1) / 2) as nat)
    }
}

/// The largest power of two strictly below `n` (for `n >= 2`).
pub open spec fn lp2(n: nat) -> nat {
    p2(lp2_exp(n))
}

/// Every power of two is positive.
pub proof fn lemma_p2_pos(b: nat)
    ensures
        p2(b) >= 1,
    decreases b,
{
    if b > 0 {
        lemma_p2_pos((b - 1) as nat);
    }
}

/// Powers of two grow with the exponent.
pub proof fn lemma_p2_mono(a: nat, b: nat)
    requires
        a <= b,
    ensures
        p2(a) <= p2(b),
    decreases b,
{
    lemma_p2_pos(b);
    if a < b {
        lemma_p2_mono(a, (b - 1) as nat);
    }
}

/// A larger exponent gives at least double.
pub proof fn lemma_p2_strict(a: nat, b: nat)
    requires
        a < b,
    ensures
        2 * p2(a) <= p2(b),
    decreases b,
{
    lemma_p2_mono(a, (b - 1) as nat);
}

/// `lp2(n)` is the power of two `p` with `p < n <= 2p`.
pub proof fn lemma_lp2(n: nat)
    requires
        n >= 2,
    ensures
        lp2(n) < n <= 2 * lp2(n),
        lp2(n) >= 1,
    decreases n,
{
    lemma_p2_pos(lp2_exp(n));
    if n > 2 {
        let m = ((n + 1) / 2) as nat;
        lemma_lp2(m);
        assert(lp2(n) == 2 * lp2(m));
    }
}

/// Only one power of two `p` has `p < n <= 2p`.
pub proof fn lemma_lp2_unique(n: nat, b: nat)
    requires
        p2(b) < n <= 2 * p2(b),
    ensures
        p2(b) == lp2(n),
{
    lemma_lp2(n);
    let c = lp2_exp(n);
    if b < c {
        lemma_p2_strict(b, c);
    } else if c < b {
        lemma_p2_strict(c, b);
    }
}

/// The largest power of two strictly below `n`.
pub fn largest_power_of_two_less_than(n: usize) -> (p: usize)
    requires
        n > 1,
    ensures
        p == lp2(n as nat),
{
    let mut p: usize = 1;
    let ghost mut b: nat = 0;
    while p < n - p
        invariant
            n > 1,
            1 <= p < n,
            p == p2(b),
        decreases n - p,
    {
        p = p * 2;
        proof {
            b = b + 1;
        }
    }
    proof {
        lemma_lp2_unique(n as nat, b);
    }
    p
}

/// RFC 6962 leaf hash: SHA-256 of `0x00 || data`.
pub open spec fn leaf_hash_spec(data: Seq<u8>) -> Seq<u8> {
    sha256(seq![0u8] + data)
}

/// RFC 6962 interior-node hash: SHA-256 of `0x01 || left || right`.
pub open spec fn node_hash_spec(left: Seq<u8>, right: Seq<u8>) -> Seq<u8> {
    sha256(seq![1u8] + left + right)
}

/// The Merkle tree hash of a list of leaf hashes: the SHA-256 of nothing for
/// no leaves, the leaf itself for one, else the node over the largest
/// power-of-two prefix and the rest.
pub open spec fn mroot(leaves: Seq<Seq<u8>>) -> Seq<u8>
    decreases leaves.len(),
{
    if leaves.len() == 0 {
        sha256(Seq::empty())
    } else if leaves.len() == 1 {
        leaves[0]
    } else {
        let k = lp2(leaves.len());
        if 1 <= k < leaves.len() {
            node_hash_spec(mroot(leaves.take(k as int)), mroot(leaves.skip(k as int)))
        } else {
            Seq::empty()
        }
    }
}

/// The audit path of leaf `i`: sibling subtree hashes from the bottom up.
pub open spec fn ipath(leaves: Seq<Seq<u8>>, i: int) -> Seq<Seq<u8>>
    decreases leaves.len(),
{
    if leaves.len() <= 1 {
        Seq::empty()
    } else {
        let k = lp2(leaves.len());
        if 1 <= k < leaves.len() {
            if i < k {
                ipath(leaves.take(k as int), i).push(mroot(leaves.skip(k as int)))
            } else {
                ipath(leaves.skip(k as int), i - k).push(mroot(leaves.take(k as int)))
            }
        } else {
            Seq::empty()
        }
    }
}

/// The byte strings held by a list of vectors.
pub open spec fn views(s: Seq<Vec<u8>>) -> Seq<Seq<u8>> {
    s.map_values(|v: Vec<u8>| v@)
}

/// Leaf hash of a log entry.
pub fn leaf_hash(data: &[u8]) -> (r: Vec<u8>)
    ensures
        r@ == leaf_hash_spec(data@),
        r@.len() == 32,
{
    let mut buf: Vec<u8> = Vec::new();
    buf.push(0u8);
    let mut i: usize = 0;
    while i < data.len()
        invariant
            i <= data@.len(),
            buf@ == seq![0u8] + data@.subrange(0, i as int),
        decreases data.len() - i,
    {
        buf.push(data[i]);
        i = i + 1;
    }
    assert(data@.subrange(0, data@.len() as int) =~= data@);
    sha256_digest(buf.as_slice())
}

/// Interior-node hash of two subtree hashes.
pub fn node_hash(left: &[u8], right: &[u8]) -> (r: Vec<u8>)
    ensures
        r@ == node_hash_spec(left@, right@),
        r@.len() == 32,
{
    let mut buf: Vec<u8> = Vec::new();
    buf.push(1u8);
    let mut i: usize = 0;
    while i < left.len()
        invariant
            i <= left@.len(),
            buf@ == seq![1u8] + left@.subrange(0, i as int),
        decreases left.len() - i,
    {
        buf.push(left[i]);
        i = i + 1;
    }
    assert(left@.subrange(0, left@.len() as int) =~= left@);
    let mut j: usize = 0;
    while j < right.len()
        invariant
            j <= right@.len(),
            buf@ == seq![1u8] + left@ + right@.subrange(0, j as int),
        decreases right.len() - j,
    {
        buf.push(right[j]);
        j = j + 1;
    }
    assert(right@.subrange(0, right@.len() as int) =~= right@);
    sha256_digest(buf.as_slice())
}

/// The Merkle tree hash of leaf hashes.
pub fn merkle_root(leaves: &[Vec<u8>]) -> (r: Vec<u8>)
    ensures
        r@ == mroot(views(leaves@)),
        (forall|j: int| 0 <= j < leaves@.len() ==> (#[trigger] leaves@[j])@.len() == 32) ==> r@.len()
            == 32,
    decreases leaves@.len(),
{
    let n = leaves.len();
    if n == 0 {
        let empty: Vec<u8> = Vec::new();
        let r = sha256_digest(empty.as_slice());
        assert(empty@ =~= Seq::<u8>::empty());
        return r;
    }
    if n == 1 {
        return leaves[0].clone();
    }
    let split = largest_power_of_two_less_than(n);
    proof {
        lemma_lp2(n as nat);
    }
    let left = vstd::slice::slice_subrange(leaves, 0, split);
    let right = vstd::slice::slice_subrange(leaves, split, n);
    let l = merkle_root(left);
    let r = merkle_root(right);
    proof {
        assert(forall|j: int| 0 <= j < left@.len() ==> left@[j] == leaves@[j]);
        assert(forall|j: int| 0 <= j < right@.len() ==> right@[j] == leaves@[split + j]);
        assert(views(left@) =~= views(leaves@).take(split as int));
        assert(views(right@) =~= views(leaves@).skip(split as int));
    }
    node_hash(l.as_slice(), r.as_slice())
}

fn inclusion_path(leaves: &[Vec<u8>], index: usize, out: &mut Vec<Vec<u8>>)
    requires
        index < leaves@.len(),
    ensures
        views(final(out)@) == views(old(out)@) + ipath(views(leaves@), index as int),
        (forall|j: int| 0 <= j < leaves@.len() ==> (#[trigger] leaves@[j])@.len() == 32) ==> (
        forall|j: int| 0 <= j < final(out)@.len() ==> (#[trigger] final(out)@[j])@.len() == 32 || (
        j < old(out)@.len() && old(out)@[j]@.len() != 32)),
    decreases leaves@.len(),
{
    let n = leaves.len();
    if n <= 1 {
        assert(views(out@) =~= views(out@) + ipath(views(leaves@), index as int));
        return;
    }
    let split = largest_power_of_two_less_than(n);
    proof {
        lemma_lp2(n as nat);
    }
    let left = vstd::slice::slice_subrange(leaves, 0, split);
    let right = vstd::slice::slice_subrange(leaves, split, n);
    proof {
        assert(views(left@) =~= views(leaves@).take(split as int));
        assert(views(right@) =~= views(leaves@).skip(split as int));
    }
    let ghost before = views(out@);
    proof {
        assert(forall|j: int| 0 <= j < left@.len() ==> left@[j] == leaves@[j]);
        assert(forall|j: int| 0 <= j < right@.len() ==> right@[j] == leaves@[split + j]);
    }
    if index < split {
        inclusion_path(left, index, out);
        let ghost mid = views(out@);
        let h = merkle_root(right);
        out.push(h);
        assert(views(out@) =~= mid.push(h@));
        assert(ipath(views(leaves@), index as int) == ipath(views(left@), index as int).push(
            mroot(views(right@)),
        ));
        assert(views(out@) =~= before + ipath(views(leaves@), index as int));
    } else {
        inclusion_path(right, index - split, out);
        let ghost mid = views(out@);
        let h = merkle_root(left);
        out.push(h);
        assert(views(out@) =~= mid.push(h@));
        assert(ipath(views(leaves@), index as int) == ipath(views(right@), index - split).push(
            mroot(views(left@)),
        ));
        assert(views(out@) =~= before + ipath(views(leaves@), index as int));
    }
}

/// Hex of each byte string.
pub open spec fn hexes(s: Seq<Seq<u8>>) -> Seq<Seq<char>> {
    s.map_values(|b: Seq<u8>| hex_encode_spec(b))
}

/// The inclusion proof of leaf `index` in the tree of `leaves`.
pub fn inclusion_proof(leaves: &[Vec<u8>], index: usize) -> (r: Result<MerkleInclusionProof, TransparencyError>)
    requires
        forall|j: int| 0 <= j < leaves@.len() ==> (#[trigger] leaves@[j])@.len() == 32,
    ensures
        r matches Ok(p) ==> crate::transparency::verify::inclusion_verdict(p) == Some(true),
        index >= leaves@.len() ==> r == Err::<MerkleInclusionProof, TransparencyError>(
            TransparencyError::InvalidInclusionProof,
        ),
        index < leaves@.len() ==> (r matches Ok(p) && {
            &&& p.leaf_index == index
            &&& p.tree_size == leaves@.len()
            &&& p.leaf_hash@ == hex_encode_spec(leaves@[index as int]@)
            &&& p.audit_path@.map_values(|s: String| s@) == hexes(ipath(views(leaves@), index as int))
            &&& p.root_hash@ == hex_encode_spec(mroot(views(leaves@)))
        }),
{
    if index >= leaves.len() {
        return Err(TransparencyError::InvalidInclusionProof);
    }
    let mut path: Vec<Vec<u8>> = Vec::new();
    inclusion_path(leaves, index, &mut path);
    assert(views(path@) =~= ipath(views(leaves@), index as int));
    let mut audit: Vec<String> = Vec::new();
    let mut i: usize = 0;
    while i < path.len()
        invariant
            i <= path@.len(),
            audit@.len() == i,
            forall|j: int| 0 <= j < i ==> #[trigger] audit@[j]@ == hex_encode_spec(path@[j]@),
        decreases path.len() - i,
    {
        audit.push(hex_encode(path[i].as_slice()));
        i = i + 1;
    }
    assert(audit@.map_values(|s: String| s@) =~= hexes(ipath(views(leaves@), index as int)));
    let root = merkle_root(leaves);
    let proof_value = MerkleInclusionProof {
        leaf_index: index as u64,
        tree_size: leaves.len() as u64,
        leaf_hash: hex_encode(leaves[index].as_slice()),
        audit_path: audit,
        root_hash: hex_encode(root.as_slice()),
    };
    proof {
        let l = views(leaves@);
        assert(l[index as int] == leaves@[index as int]@);
        assert(forall|j: int| 0 <= j < path@.len() ==> (#[trigger] path@[j])@.len() == 32);
        assert(forall|j: int| 0 <= j < ipath(l, index as int).len() ==> #[trigger] ipath(l, index as int)[j] == path@[j]@);
        crate::transparency::verify::inclusion_path_leads_to_root(l, index as int);
        crate::crypto::lemma_hex_roundtrip(l[index as int]);
        assert(crate::transparency::verify::texts(proof_value.audit_path@) =~= hexes(ipath(l, index as int)));
    }
    Ok(proof_value)
}

} // verus!
