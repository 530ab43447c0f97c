//! Append-only transparency log of name events: Merkle trees, proofs,
//! checkpoints and their verification.

pub mod checkpoint;
pub mod events;
pub mod history;
pub mod log;
pub mod proofs;
pub mod tree;
pub mod verify;
