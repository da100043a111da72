use vstd::prelude::*;

verus! {

/// Why a proof could not be brought into the fixed-size layout.
///
/// Every kind signals that a caller-supplied limit is too small for the real
/// data, or that the raw proof is unusable; none is transient.
#[derive(Debug, Clone, PartialEq, Eq)]
pub enum ProofError {
    /// A byte string is longer than the length it must be padded to.
    DimensionExceeded { actual: usize, max: usize },
    /// The proof has more nodes than the maximum depth.
    DepthExceeded { actual: usize, max: usize },
    /// The node at `index` is longer than the maximum node length.
    NodeLengthExceeded { index: usize, actual: usize, max: usize },
    /// The terminal node is not an RLP list of byte strings, or the list is empty.
    MalformedProof,
    /// The proof holds no node at all.
    EmptyProof,
}

} // verus!
