//! Verification of Merkle proofs, checkpoints and identifier histories.

use vstd::prelude::*;
use crate::encoding::{hex_decode, hex_decode_spec, hex_encode, hex_encode_spec, hex_valid};
use crate::errors::{SatsPathError, TransparencyError};
use crate::text::{chars_of, chars_eq, str_eq};
use crate::transparency::proofs::{MerkleConsistencyProof, MerkleInclusionProof};
use crate::transparency::tree::{
    hexes, ipath, lemma_lp2, lemma_lp2_unique, lemma_p2_mono, lemma_p2_pos, lp2, lp2_exp, merkle_root,
    mroot, node_hash, node_hash_spec, p2, views,
};
use crate::crypto::{lemma_hex_roundtrip, sig_check_bytes, sig_check_result, verify_signed_profile};
use crate::profile::SignedPaymentProfile;
use crate::transparency::events::NameEvent;

verus! {

/// Hex text of a 32-byte hash.
pub open spec fn hash_text_ok(s: Seq<char>) -> bool {
    hex_valid(s) && hex_decode_spec(s).len() == 32
}

/// Decodes the hex of a 32-byte hash.
pub fn decode_hash(value: &str) -> (r: Result<Vec<u8>, SatsPathError>)
    ensures
        r is Ok <==> hash_text_ok(value@),
        r matches Ok(b) ==> b@ == hex_decode_spec(value@),
        r is Err ==> r == Err::<Vec<u8>, SatsPathError>(
            SatsPathError::Transparency(TransparencyError::InvalidInclusionProof),
        ),
{
    match hex_decode(value) {
        Ok(b) => {
            if b.len() != 32 {
                return Err(SatsPathError::Transparency(TransparencyError::InvalidInclusionProof));
            }
            Ok(b)
        },
        Err(_) => Err(SatsPathError::Transparency(TransparencyError::InvalidInclusionProof)),
    }
}

/// While the index is even and not zero, halve it and the last index.
pub open spec fn skip_evens(f: nat, s: nat) -> (nat, nat)
    decreases f,
{
    if f % 2 == 0 && f != 0 {
        skip_evens(f / 2, s / 2)
    } else {
        (f, s)
    }
}

/// RFC 9162 inclusion verification, step by step over the audit path: the
/// running hash, the node index and the last node index of the level; `None`
/// when a path entry is not the hex of a 32-byte hash.
pub open spec fn fold_state(h: Seq<u8>, f: nat, s: nat, path: Seq<Seq<char>>) -> Option<
    (Seq<u8>, nat, nat),
>
    decreases path.len(),
{
    if path.len() == 0 {
        Some((h, f, s))
    } else if !hash_text_ok(path[0]) {
        None
    } else {
        let sib = hex_decode_spec(path[0]);
        if f % 2 == 1 || f == s {
            let (f2, s2) = skip_evens(f, s);
            fold_state(node_hash_spec(sib, h), f2 / 2, s2 / 2, path.drop_first())
        } else {
            fold_state(node_hash_spec(h, sib), f / 2, s / 2, path.drop_first())
        }
    }
}

/// The texts of a list of strings.
pub open spec fn texts(s: Seq<String>) -> Seq<Seq<char>> {
    s.map_values(|t: String| t@)
}

/// The verdict on an inclusion proof: `None` for a malformed proof, else
/// whether folding the path from the leaf gives the root and exhausts the
/// tree.
pub open spec fn inclusion_verdict(p: MerkleInclusionProof) -> Option<bool> {
    if p.tree_size == 0 || p.leaf_index >= p.tree_size {
        None
    } else if !hash_text_ok(p.leaf_hash@) {
        None
    } else {
        match fold_state(
            hex_decode_spec(p.leaf_hash@),
            p.leaf_index as nat,
            (p.tree_size - 1) as nat,
            texts(p.audit_path@),
        ) {
            None => None,
            Some((h, f, s)) => Some(hex_encode_spec(h) == p.root_hash@ && s == 0),
        }
    }
}

/// Verifies an inclusion proof against its root hash.
pub fn verify_inclusion_proof(proof: &MerkleInclusionProof) -> (r: Result<bool, SatsPathError>)
    ensures
        r is Ok <==> inclusion_verdict(*proof) is Some,
        r matches Ok(b) ==> inclusion_verdict(*proof) == Some(b),
        r is Err ==> r == Err::<bool, SatsPathError>(
            SatsPathError::Transparency(TransparencyError::InvalidInclusionProof),
        ),
{
    if proof.tree_size == 0 || proof.leaf_index >= proof.tree_size {
        return Err(SatsPathError::Transparency(TransparencyError::InvalidInclusionProof));
    }
    let mut hash = match decode_hash(proof.leaf_hash.as_str()) {
        Ok(h) => h,
        Err(e) => return Err(e),
    };
    let mut index: u64 = proof.leaf_index;
    let mut last: u64 = proof.tree_size - 1;
    let ghost path = texts(proof.audit_path@);
    let mut i: usize = 0;
    assert(path.skip(0) =~= path);
    while i < proof.audit_path.len()
        invariant
            i <= proof.audit_path@.len(),
            path == texts(proof.audit_path@),
            fold_state(
                hex_decode_spec(proof.leaf_hash@),
                proof.leaf_index as nat,
                (proof.tree_size - 1) as nat,
                path,
            ) == fold_state(hash@, index as nat, last as nat, path.skip(i as int)),
        decreases proof.audit_path.len() - i,
    {
        assert(path.skip(i as int)[0] == proof.audit_path@[i as int]@);
        assert(path.skip(i as int).drop_first() =~= path.skip(i + 1));
        let sibling = match decode_hash(proof.audit_path[i].as_str()) {
            Ok(h) => h,
            Err(e) => return Err(e),
        };
        if index % 2 == 1 || index == last {
            hash = node_hash(sibling.as_slice(), hash.as_slice());
            let ghost f0 = index as nat;
            let ghost s0 = last as nat;
            while index % 2 == 0 && index != 0
                invariant
                    skip_evens(f0, s0) == skip_evens(index as nat, last as nat),
                decreases index,
            {
                index = index / 2;
                last = last / 2;
            }
        } else {
            hash = node_hash(hash.as_slice(), sibling.as_slice());
        }
        index = index / 2;
        last = last / 2;
        i = i + 1;
    }
    let root = chars_of(hex_encode(hash.as_slice()).as_str());
    let expected = chars_of(proof.root_hash.as_str());
    Ok(chars_eq(&root, &expected) && last == 0)
}

/// The verdict on a consistency proof: `None` for a malformed proof, else
/// whether the first `old_tree_size` leaves give the old root and all the
/// leaves the new root.
pub open spec fn consistency_verdict(p: MerkleConsistencyProof) -> Option<bool> {
    if p.old_tree_size == 0 || p.old_tree_size > p.new_tree_size || p.audit_path@.len()
        != p.new_tree_size {
        None
    } else if !(forall|i: int| 0 <= i < p.audit_path@.len() ==> hash_text_ok(#[trigger] p.audit_path@[i]@)) {
        None
    } else {
        let leaves = texts(p.audit_path@).map_values(|t: Seq<char>| hex_decode_spec(t));
        Some(
            hex_encode_spec(mroot(leaves.take(p.old_tree_size as int))) == p.old_root@
                && hex_encode_spec(mroot(leaves)) == p.new_root@,
        )
    }
}

/// Verifies a version-1 consistency proof.
pub fn verify_consistency_proof(proof: &MerkleConsistencyProof) -> (r: Result<bool, SatsPathError>)
    ensures
        r is Ok <==> consistency_verdict(*proof) is Some,
        r matches Ok(b) ==> consistency_verdict(*proof) == Some(b),
{
    if proof.old_tree_size == 0 || proof.old_tree_size > proof.new_tree_size
        || proof.audit_path.len() as u64 != proof.new_tree_size {
        return Err(SatsPathError::Transparency(TransparencyError::InvalidConsistencyProof));
    }
    let mut leaves: Vec<Vec<u8>> = Vec::new();
    let mut i: usize = 0;
    while i < proof.audit_path.len()
        invariant
            i <= proof.audit_path@.len(),
            leaves@.len() == i,
            forall|j: int| 0 <= j < i ==> hash_text_ok(#[trigger] proof.audit_path@[j]@),
            forall|j: int| 0 <= j < i ==> #[trigger] leaves@[j]@ == hex_decode_spec(proof.audit_path@[j]@),
        decreases proof.audit_path.len() - i,
    {
        let h = match decode_hash(proof.audit_path[i].as_str()) {
            Ok(h) => h,
            Err(e) => {
                assert(!hash_text_ok(proof.audit_path@[i as int]@));
                return Err(e);
            },
        };
        leaves.push(h);
        i = i + 1;
    }
    let ghost spec_leaves = texts(proof.audit_path@).map_values(|t: Seq<char>| hex_decode_spec(t));
    assert(views(leaves@) =~= spec_leaves);
    let old_size = proof.old_tree_size as usize;
    let old_leaves = vstd::slice::slice_subrange(leaves.as_slice(), 0, old_size);
    assert(views(old_leaves@) =~= spec_leaves.take(old_size as int));
    let old_root = merkle_root(old_leaves);
    let new_root = merkle_root(leaves.as_slice());
    let a = chars_of(hex_encode(old_root.as_slice()).as_str());
    let b = chars_of(proof.old_root.as_str());
    let c = chars_of(hex_encode(new_root.as_slice()).as_str());
    let d = chars_of(proof.new_root.as_str());
    Ok(chars_eq(&a, &b) && chars_eq(&c, &d))
}

proof fn lemma_fold_append(h: Seq<u8>, f: nat, s: nat, a: Seq<Seq<char>>, b: Seq<Seq<char>>)
    ensures
        fold_state(h, f, s, a + b) == match fold_state(h, f, s, a) {
            None => None,
            Some((h1, f1, s1)) => fold_state(h1, f1, s1, b),
        },
    decreases a.len(),
{
    if a.len() == 0 {
        assert(a + b =~= b);
    } else {
        assert((a + b)[0] == a[0]);
        assert((a + b).drop_first() =~= a.drop_first() + b);
        if hash_text_ok(a[0]) {
            let sib = hex_decode_spec(a[0]);
            if f % 2 == 1 || f == s {
                let (f2, s2) = skip_evens(f, s);
                lemma_fold_append(node_hash_spec(sib, h), f2 / 2, s2 / 2, a.drop_first(), b);
            } else {
                lemma_fold_append(node_hash_spec(h, sib), f / 2, s / 2, a.drop_first(), b);
            }
        }
    }
}

/// One step of the fold over the hex of a 32-byte hash.
proof fn lemma_fold_one(h: Seq<u8>, f: nat, s: nat, x: Seq<u8>)
    requires
        x.len() == 32,
    ensures
        fold_state(h, f, s, seq![hex_encode_spec(x)]) == if f % 2 == 1 || f == s {
            Some((node_hash_spec(x, h), skip_evens(f, s).0 / 2, skip_evens(f, s).1 / 2))
        } else {
            Some((node_hash_spec(h, x), f / 2, s / 2))
        },
{
    lemma_hex_roundtrip(x);
    let p = seq![hex_encode_spec(x)];
    assert(p.drop_first() =~= Seq::<Seq<char>>::empty());
    reveal_with_fuel(fold_state, 2);
}

proof fn lemma_hexes_push(a: Seq<Seq<u8>>, x: Seq<u8>)
    ensures
        hexes(a.push(x)) == hexes(a) + seq![hex_encode_spec(x)],
{
    assert(hexes(a.push(x)) =~= hexes(a) + seq![hex_encode_spec(x)]);
}

proof fn lemma_p2_add(a: nat, b: nat)
    ensures
        p2(a + b) == p2(a) * p2(b),
    decreases b,
{
    if b == 0 {
        assert(p2(a) * 1 == p2(a));
    } else {
        lemma_p2_add(a, (b - 1) as nat);
        assert((a + b - 1) as nat == a + ((b - 1) as nat));
        assert(p2(a + b) == 2 * p2((a + b - 1) as nat));
        assert(p2(a) * p2(b) == p2(a) * (2 * p2((b - 1) as nat)));
        assert(p2(a) * (2 * p2((b - 1) as nat)) == 2 * (p2(a) * p2((b - 1) as nat))) by (nonlinear_arith);
    }
}

proof fn lemma_div_exact(x: int, q: int, k: int)
    requires
        k > 0,
        q * k <= x < (q + 1) * k,
    ensures
        x / k == q,
{
    assert(x / k == q) by (nonlinear_arith)
        requires
            k > 0,
            q * k <= x < (q + 1) * k,
    ;
}

/// Skipping a level is halving: an odd value times `2^e` halves back to the
/// odd value.
proof fn lemma_skip_evens(hh: nat, e: nat)
    requires
        hh % 2 == 1,
    ensures
        skip_evens(hh * p2(e), hh * p2(e)) == (hh, hh),
    decreases e,
{
    lemma_p2_pos(e);
    if e == 0 {
        assert(p2(e) == 1);
        assert(hh * p2(e) == hh) by (nonlinear_arith)
            requires
                p2(e) == 1,
        ;
    } else {
        let x = hh * p2(e);
        let y = hh * p2((e - 1) as nat);
        assert(x == 2 * y) by (nonlinear_arith)
            requires
                x == hh * p2(e),
                y == hh * p2((e - 1) as nat),
                p2(e) == 2 * p2((e - 1) as nat),
        ;
        assert(y >= 1) by (nonlinear_arith)
            requires
                y == hh * p2((e - 1) as nat),
                hh >= 1,
                p2((e - 1) as nat) >= 1,
        ;
        assert(x % 2 == 0 && x != 0);
        assert(x / 2 == y);
        lemma_skip_evens(hh, (e - 1) as nat);
    }
}

/// The fold over the audit path of a leaf in a complete subtree of `2^b`
/// leaves whose first leaf is node `pp * 2^b` of its level, while the level's
/// last node lies beyond the subtree, climbs to the subtree root.
proof fn lemma_fold_complete(l: Seq<Seq<u8>>, b: nat, i: int, pp: nat, s: nat)
    requires
        l.len() == p2(b),
        0 <= i < p2(b),
        forall|j: int| 0 <= j < ipath(l, i).len() ==> (#[trigger] ipath(l, i)[j]).len() == 32,
        s >= (pp + 1) * p2(b),
    ensures
        fold_state(l[i], (pp * p2(b) + i) as nat, s, hexes(ipath(l, i))) == Some(
            (mroot(l), pp, s / p2(b)),
        ),
    decreases b,
{
    lemma_p2_pos(b);
    if b == 0 {
        assert(hexes(ipath(l, i)) =~= Seq::<Seq<char>>::empty());
        assert(i == 0);
        assert(p2(b) == 1);
        assert(pp * p2(b) + i == pp) by (nonlinear_arith)
            requires
                p2(b) == 1,
                i == 0,
        ;
        assert(s / 1 == s);
        assert(mroot(l) == l[0]);
    } else {
        let n = p2(b);
        let b1 = (b - 1) as nat;
        let k = p2(b1);
        lemma_p2_pos(b1);
        assert(n == 2 * k);
        lemma_lp2_unique(n, b1);
        lemma_lp2(n);
        let left = l.take(k as int);
        let right = l.skip(k as int);
        assert(mroot(l) == node_hash_spec(mroot(left), mroot(right)));
        assert(s / k >= 2 * pp + 2) by {
            assert((2 * pp + 2) * k == (pp + 1) * n) by (nonlinear_arith)
                requires
                    n == 2 * k,
            ;
            vstd::arithmetic::div_mod::lemma_div_is_ordered(((2 * pp + 2) * k) as int, s as int, k as int);
            vstd::arithmetic::div_mod::lemma_div_multiples_vanish((2 * pp + 2) as int, k as int);
            assert((2 * pp + 2) * k == k * (2 * pp + 2)) by (nonlinear_arith);
        }
        let sk = s / k;
        assert(sk / 2 == s / n) by {
            vstd::arithmetic::div_mod::lemma_div_denominator(s as int, k as int, 2);
            assert(k * 2 == n);
        }
        if i < k {
            assert(ipath(l, i) == ipath(left, i).push(mroot(right)));
            let sub = ipath(left, i);
            assert(forall|j: int| 0 <= j < sub.len() ==> #[trigger] sub[j] == ipath(l, i)[j]);
            assert(mroot(right).len() == 32) by {
                assert(ipath(l, i)[sub.len() as int] == mroot(right));
            }
            lemma_hexes_push(sub, mroot(right));
            assert(left[i] == l[i]);
            assert(pp * n + i == 2 * pp * k + i) by (nonlinear_arith)
                requires
                    n == 2 * k,
            ;
            assert(s >= (2 * pp + 1) * k) by (nonlinear_arith)
                requires
                    s >= (pp + 1) * n,
                    n == 2 * k,
                    k >= 1,
            ;
            lemma_fold_complete(left, b1, i, 2 * pp, s);
            lemma_fold_append(l[i], (pp * n + i) as nat, s, hexes(sub), seq![hex_encode_spec(mroot(right))]);
            lemma_fold_one(mroot(left), 2 * pp, sk, mroot(right));
            assert((2 * pp) % 2 == 0);
            assert((2 * pp) / 2 == pp);
        } else {
            assert(ipath(l, i) == ipath(right, i - k).push(mroot(left)));
            let sub = ipath(right, i - k);
            assert(forall|j: int| 0 <= j < sub.len() ==> #[trigger] sub[j] == ipath(l, i)[j]);
            assert(mroot(left).len() == 32) by {
                assert(ipath(l, i)[sub.len() as int] == mroot(left));
            }
            lemma_hexes_push(sub, mroot(left));
            assert(right.len() == k);
            assert(right[i - k] == l[i]);
            assert(pp * n + i == (2 * pp + 1) * k + (i - k)) by (nonlinear_arith)
                requires
                    n == 2 * k,
            ;
            assert(s >= (2 * pp + 2) * k) by (nonlinear_arith)
                requires
                    s >= (pp + 1) * n,
                    n == 2 * k,
            ;
            lemma_fold_complete(right, b1, i - k, 2 * pp + 1, s);
            lemma_fold_append(l[i], (pp * n + i) as nat, s, hexes(sub), seq![hex_encode_spec(mroot(left))]);
            lemma_fold_one(mroot(right), 2 * pp + 1, sk, mroot(left));
            assert((2 * pp + 1) % 2 == 1);
            assert(skip_evens(2 * pp + 1, sk) == (2 * pp + 1, sk));
            assert((2 * pp + 1) / 2 == pp);
        }
    }
}

/// The fold over the audit path of leaf `i` of a tree of `m <= 2^d` leaves,
/// placed at node `hh * 2^d` of its level with the level's last node being
/// its own last leaf, ends at the tree root with index and last index equal
/// to `hh * 2^e` for some `e <= d`.
proof fn lemma_fold_general(l: Seq<Seq<u8>>, i: int, hh: nat, d: nat) -> (e: nat)
    requires
        l.len() >= 1,
        0 <= i < l.len(),
        l.len() <= p2(d),
        forall|j: int| 0 <= j < ipath(l, i).len() ==> (#[trigger] ipath(l, i)[j]).len() == 32,
    ensures
        e <= d,
        fold_state(
            l[i],
            (hh * p2(d) + i) as nat,
            (hh * p2(d) + l.len() - 1) as nat,
            hexes(ipath(l, i)),
        ) == Some((mroot(l), hh * p2(e), hh * p2(e))),
    decreases l.len(),
{
    let m = l.len();
    lemma_p2_pos(d);
    if m == 1 {
        assert(hexes(ipath(l, i)) =~= Seq::<Seq<char>>::empty());
        assert(i == 0);
        assert(mroot(l) == l[0]);
        d
    } else {
        let bb = lp2_exp(m);
        let k = p2(bb);
        lemma_lp2(m);
        assert(lp2(m) == k);
        if d <= bb {
            lemma_p2_mono(d, bb);
            assert(false);
        }
        let dd = (d - bb) as nat;
        lemma_p2_add(dd, bb);
        assert(dd + bb == d);
        let d1 = (dd - 1) as nat;
        lemma_p2_pos(d1);
        lemma_p2_pos(bb);
        assert(p2(dd) == 2 * p2(d1));
        let left = l.take(k as int);
        let right = l.skip(k as int);
        assert(mroot(l) == node_hash_spec(mroot(left), mroot(right)));
        let base = hh * p2(d);
        let pp = hh * p2(dd);
        assert(base == pp * k) by (nonlinear_arith)
            requires
                base == hh * p2(d),
                pp == hh * p2(dd),
                p2(d) == p2(dd) * k,
        ;
        let half = hh * p2(d1);
        assert(pp == 2 * half) by (nonlinear_arith)
            requires
                pp == hh * p2(dd),
                half == hh * p2(d1),
                p2(dd) == 2 * p2(d1),
        ;
        if i < k {
            assert(ipath(l, i) == ipath(left, i).push(mroot(right)));
            let sub = ipath(left, i);
            assert(forall|j: int| 0 <= j < sub.len() ==> #[trigger] sub[j] == ipath(l, i)[j]);
            assert(mroot(right).len() == 32) by {
                assert(ipath(l, i)[sub.len() as int] == mroot(right));
            }
            lemma_hexes_push(sub, mroot(right));
            assert(left[i] == l[i]);
            let s = (base + m - 1) as nat;
            assert(s >= (pp + 1) * k) by (nonlinear_arith)
                requires
                    s == base + m - 1,
                    base == pp * k,
                    m - 1 >= k,
            ;
            lemma_fold_complete(left, bb, i, pp, s);
            assert((pp + 1) * k <= s < (pp + 2) * k) by (nonlinear_arith)
                requires
                    s == base + m - 1,
                    base == pp * k,
                    k <= m - 1 < 2 * k,
            ;
            lemma_div_exact(s as int, (pp + 1) as int, k as int);
            lemma_fold_append(l[i], (base + i) as nat, s, hexes(sub), seq![hex_encode_spec(mroot(right))]);
            lemma_fold_one(mroot(left), pp, pp + 1, mroot(right));
            assert(pp % 2 == 0);
            assert(pp / 2 == half);
            assert((pp + 1) / 2 == half);
            d1
        } else {
            assert(ipath(l, i) == ipath(right, i - k).push(mroot(left)));
            let sub = ipath(right, i - k);
            assert(forall|j: int| 0 <= j < sub.len() ==> #[trigger] sub[j] == ipath(l, i)[j]);
            assert(mroot(left).len() == 32) by {
                assert(ipath(l, i)[sub.len() as int] == mroot(left));
            }
            lemma_hexes_push(sub, mroot(left));
            assert(right[i - k] == l[i]);
            let hh2 = pp + 1;
            assert(base + k == hh2 * k) by (nonlinear_arith)
                requires
                    base == pp * k,
                    hh2 == pp + 1,
            ;
            let e2 = lemma_fold_general(right, i - k, hh2, bb);
            assert(base + i == hh2 * k + (i - k));
            assert(base + m - 1 == hh2 * k + right.len() - 1);
            let x = hh2 * p2(e2);
            lemma_fold_append(l[i], (base + i) as nat, (base + m - 1) as nat, hexes(sub), seq![hex_encode_spec(mroot(left))]);
            lemma_fold_one(mroot(right), x, x, mroot(left));
            assert(hh2 % 2 == 1);
            lemma_skip_evens(hh2, e2);
            assert(hh2 / 2 == half);
            d1
        }
    }
}

proof fn lemma_p2_ge(n: nat)
    ensures
        p2(n) >= n,
    decreases n,
{
    if n > 0 {
        lemma_p2_ge((n - 1) as nat);
        lemma_p2_pos((n - 1) as nat);
    }
}

/// Completeness of inclusion proofs: the audit path of any leaf, folded from
/// that leaf, gives the root of the whole tree and exhausts the tree.
pub proof fn inclusion_path_leads_to_root(leaves: Seq<Seq<u8>>, i: int)
    requires
        0 <= i < leaves.len(),
        forall|j: int| 0 <= j < ipath(leaves, i).len() ==> (#[trigger] ipath(leaves, i)[j]).len() == 32,
    ensures
        fold_state(leaves[i], i as nat, (leaves.len() - 1) as nat, hexes(ipath(leaves, i)))
            == Some((mroot(leaves), 0nat, 0nat)),
{
    let d = leaves.len();
    lemma_p2_ge(d);
    let e = lemma_fold_general(leaves, i, 0, d);
    assert(0 * p2(d) == 0);
    assert(0 * p2(e) == 0);
}

/// Checks that a signed profile is the one an event commits to, then its
/// signature. `profile_hash` is the hash of the profile's serialisation and
/// `canonical_bytes` the canonical serialisation its signature covers.
pub fn verify_event_profile(
    event: &NameEvent,
    profile: &SignedPaymentProfile,
    profile_hash: &str,
    canonical_bytes: &[u8],
) -> (r: Result<bool, SatsPathError>)
    ensures
        (event.profile_hash@ != profile_hash@ || event.identity_pubkey@ != profile.profile.identity_pubkey@)
            ==> r == Err::<bool, SatsPathError>(SatsPathError::Transparency(TransparencyError::ProfileHashMismatch)),
        (event.profile_hash@ == profile_hash@ && event.identity_pubkey@ == profile.profile.identity_pubkey@)
            ==> sig_check_result(
            sig_check_bytes(canonical_bytes@, profile.signature@, profile.profile.identity_pubkey@),
            r,
        ),
{
    if !str_eq(event.profile_hash.as_str(), profile_hash) || !str_eq(
        event.identity_pubkey.as_str(),
        profile.profile.identity_pubkey.as_str(),
    ) {
        return Err(SatsPathError::Transparency(TransparencyError::ProfileHashMismatch));
    }
    verify_signed_profile(profile, canonical_bytes)
}

/// A well-formed consistency proof is accepted exactly when the Merkle root
/// of its first `old_tree_size` leaves (the hex-decoded audit path) is the
/// claimed old root and the root of all its leaves is the claimed new root:
/// neither root is taken on trust.
pub proof fn consistency_accepts_exactly_matching_roots(p: MerkleConsistencyProof)
    requires
        consistency_verdict(p) is Some,
    ensures
        ({
            let leaves = Seq::new(p.audit_path@.len(), |i: int| hex_decode_spec(p.audit_path@[i]@));
            consistency_verdict(p) == Some(true) <==> (hex_encode_spec(mroot(leaves.take(p.old_tree_size as int)))
                == p.old_root@ && hex_encode_spec(mroot(leaves)) == p.new_root@)
        }),
{
    let leaves = Seq::new(p.audit_path@.len(), |i: int| hex_decode_spec(p.audit_path@[i]@));
    assert(texts(p.audit_path@).map_values(|t: Seq<char>| hex_decode_spec(t)) =~= leaves);
}

} // verus!
