//! Merkle proof records.

use vstd::prelude::*;

verus! {

/// An audit path from a leaf to the root of a tree of `tree_size` leaves.
#[derive(Debug, Clone, PartialEq, Eq)]
pub struct MerkleInclusionProof {
    pub leaf_index: u64,
    pub tree_size: u64,
    pub leaf_hash: String,
    pub audit_path: Vec<String>,
    pub root_hash: String,
}

/// Version-1 consistency proofs carry the complete leaf-hash sequence of the
/// new tree in `audit_path`: the first `old_tree_size` leaves must give
/// `old_root` and all of them `new_root`.
#[derive(Debug, Clone, PartialEq, Eq)]
pub struct MerkleConsistencyProof {
    pub version: u16,
    pub old_tree_size: u64,
    pub new_tree_size: u64,
    pub old_root: String,
    pub new_root: String,
    pub audit_path: Vec<String>,
}

} // verus!
