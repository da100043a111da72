//! Preprocessing of Merkle–Patricia trie proofs into the fixed-size layout
//! expected by circuits with static input dimensions.

pub mod error;
pub mod padding;
pub mod preprocess;
pub mod extract;
pub mod laws;
pub mod render;
