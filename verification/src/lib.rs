//! Compares the witness bytes a stateless client must download to verify
//! blockchain state under a Merkle Patricia Trie and under a Verkle tree,
//! across a handful of reference usage scenarios, and asks whether each
//! witness fits in the byte budget of a single network slot.

pub mod comparison;
pub mod costs;
pub mod scenarios;
pub mod text;
