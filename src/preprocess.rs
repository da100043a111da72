use vstd::prelude::*;
use vstd::arithmetic::div_mod::lemma_fundamental_div_mod_converse;

use crate::error::ProofError;
use crate::padding::{left_pad, left_padded};

verus! {

/// A trie proof in fixed-size layout: `max_depth` node slots of
/// `max_node_len` bytes each, laid end to end, and the value left-padded to
/// `max_value_len` bytes.
#[derive(Debug, Clone, PartialEq, Eq)]
pub struct TrieProof {
    /// Unhashed key, as supplied.
    pub key: Vec<u8>,
    /// Flat proof: every node right-padded with zeros to a full slot, empty
    /// slots after the real nodes.
    pub proof: Vec<u8>,
    /// Number of real nodes in the proof.
    pub depth: usize,
    /// The value the proof resolves to, left-padded with zeros.
    pub value: Vec<u8>,
}

/// The nodes of a proof as byte sequences.
pub open spec fn nodes_view(proof: Seq<Vec<u8>>) -> Seq<Seq<u8>> {
    proof.map_values(|n: Vec<u8>| n@)
}

/// Byte `j` of slot `i`: the node's byte where the node has one, zero elsewhere
/// (the rest of the slot, and every slot past the real nodes).
pub open spec fn slot_byte(nodes: Seq<Seq<u8>>, i: int, j: int) -> u8 {
    if 0 <= i < nodes.len() && 0 <= j < nodes[i].len() {
        nodes[i][j]
    } else {
        0u8
    }
}

/// The flat layout of `nodes`: `max_depth` slots of `max_node_len` bytes each.
pub open spec fn flat_proof(nodes: Seq<Seq<u8>>, max_depth: nat, max_node_len: nat) -> Seq<u8> {
    Seq::new(
        max_depth * max_node_len,
        |k: int| slot_byte(nodes, k / (max_node_len as int), k % (max_node_len as int)),
    )
}

/// Whether every node fits in a slot of `max_node_len` bytes.
pub open spec fn nodes_fit(nodes: Seq<Seq<u8>>, max_node_len: nat) -> bool {
    forall|i: int| 0 <= i < nodes.len() ==> #[trigger] nodes[i].len() <= max_node_len
}

/// Whether `index` is the first node longer than `max_node_len`.
pub open spec fn first_oversized(nodes: Seq<Seq<u8>>, max_node_len: nat, index: int) -> bool {
    &&& 0 <= index < nodes.len()
    &&& nodes[index].len() > max_node_len
    &&& nodes_fit(nodes.subrange(0, index), max_node_len)
}

/// What preprocessing yields when the proof, its nodes and the value all fit.
pub open spec fn is_preprocessed(
    r: TrieProof,
    nodes: Seq<Seq<u8>>,
    key: Seq<u8>,
    value: Seq<u8>,
    max_depth: nat,
    max_node_len: nat,
    max_value_len: nat,
) -> bool {
    &&& r.key@ == key
    &&& r.proof@ == flat_proof(nodes, max_depth, max_node_len)
    &&& r.depth == nodes.len()
    &&& r.value@ == left_padded(value, max_value_len)
}

/// The outcome of preprocessing: the first check that fails decides the error
/// (depth, then node lengths, then value, then key); when all pass, the record.
pub open spec fn preprocess_result(
    r: Result<TrieProof, ProofError>,
    nodes: Seq<Seq<u8>>,
    key: Seq<u8>,
    value: Seq<u8>,
    max_depth: nat,
    max_node_len: nat,
    max_value_len: nat,
) -> bool {
    if nodes.len() > max_depth {
        r == Err::<TrieProof, ProofError>(
            ProofError::DepthExceeded { actual: nodes.len() as usize, max: max_depth as usize },
        )
    } else if !nodes_fit(nodes, max_node_len) {
        exists|i: int|
            first_oversized(nodes, max_node_len, i) && r == Err::<TrieProof, ProofError>(
                ProofError::NodeLengthExceeded {
                    index: i as usize,
                    actual: nodes[i].len() as usize,
                    max: max_node_len as usize,
                },
            )
    } else if value.len() > max_value_len {
        r == Err::<TrieProof, ProofError>(
            ProofError::DimensionExceeded { actual: value.len() as usize, max: max_value_len as usize },
        )
    } else if key.len() > max_value_len {
        r == Err::<TrieProof, ProofError>(
            ProofError::DimensionExceeded { actual: key.len() as usize, max: max_value_len as usize },
        )
    } else {
        r.is_ok() && is_preprocessed(r.unwrap(), nodes, key, value, max_depth, max_node_len, max_value_len)
    }
}

/// Lays out `proof` in fixed size: checks its depth against `max_depth` and
/// each node against `max_node_len`, pads every node to a full slot, fills the
/// slots past the real nodes with zeros, and left-pads `value` to
/// `max_value_len` bytes. The key is kept as it is but may not be longer than
/// `max_value_len` either.
pub fn preprocess_proof(
    proof: Vec<Vec<u8>>,
    key: Vec<u8>,
    value: Vec<u8>,
    max_depth: usize,
    max_node_len: usize,
    max_value_len: usize,
) -> (r: Result<TrieProof, ProofError>)
    requires
        max_depth * max_node_len <= usize::MAX,
    ensures
        preprocess_result(
            r,
            nodes_view(proof@),
            key@,
            value@,
            max_depth as nat,
            max_node_len as nat,
            max_value_len as nat,
        ),
{
    let depth: usize = proof.len();
    if depth > max_depth {
        return Err(ProofError::DepthExceeded { actual: depth, max: max_depth });
    }
    let ghost nodes = nodes_view(proof@);
    let mut t: usize = 0;
    while t < depth
        invariant
            depth == proof@.len(),
            depth <= max_depth,
            nodes == nodes_view(proof@),
            t <= depth,
            nodes_fit(nodes.subrange(0, t as int), max_node_len as nat),
        decreases depth - t,
    {
        let node_len: usize = proof[t].len();
        if node_len > max_node_len {
            assert(first_oversized(nodes, max_node_len as nat, t as int));
            return Err(ProofError::NodeLengthExceeded { index: t, actual: node_len, max: max_node_len });
        }
        t = t + 1;
        assert forall|i: int| 0 <= i < t implies #[trigger] nodes.subrange(0, t as int)[i].len()
            <= max_node_len by {
            if i < t - 1 {
                assert(nodes.subrange(0, t - 1)[i] == nodes.subrange(0, t as int)[i]);
            }
        }
    }
    assert(nodes.subrange(0, depth as int) =~= nodes);
    let flat = flatten_padded(&proof, max_depth, max_node_len);
    let padded_value = match left_pad(&value, max_value_len) {
        Ok(p) => p,
        Err(e) => {
            return Err(e);
        },
    };
    if key.len() > max_value_len {
        return Err(ProofError::DimensionExceeded { actual: key.len(), max: max_value_len });
    }
    Ok(TrieProof { key, proof: flat, depth, value: padded_value })
}

/// The flat layout of nodes that are known to fit their slots.
fn flatten_padded(proof: &Vec<Vec<u8>>, max_depth: usize, max_node_len: usize) -> (r: Vec<u8>)
    requires
        proof@.len() <= max_depth,
        nodes_fit(nodes_view(proof@), max_node_len as nat),
        max_depth * max_node_len <= usize::MAX,
    ensures
        r@ == flat_proof(nodes_view(proof@), max_depth as nat, max_node_len as nat),
{
    let ghost nodes = nodes_view(proof@);
    let ghost n = max_node_len as int;
    let mut out: Vec<u8> = Vec::new();
    let mut i: usize = 0;
    while i < max_depth
        invariant
            i <= max_depth,
            nodes == nodes_view(proof@),
            n == max_node_len as int,
            proof@.len() <= max_depth,
            nodes_fit(nodes, max_node_len as nat),
            out@.len() == i * n,
            forall|k: int| 0 <= k < out@.len() ==> #[trigger] out@[k] == slot_byte(nodes, k / n, k % n),
        decreases max_depth - i,
    {
        let mut j: usize = 0;
        while j < max_node_len
            invariant
                i < max_depth,
                j <= max_node_len,
                nodes == nodes_view(proof@),
                n == max_node_len as int,
                proof@.len() <= max_depth,
                out@.len() == i * n + j,
                forall|k: int| 0 <= k < out@.len() ==> #[trigger] out@[k] == slot_byte(nodes, k / n, k % n),
            decreases max_node_len - j,
        {
            let b: u8 = if i < proof.len() && j < proof[i].len() {
                proof[i][j]
            } else {
                0u8
            };
            proof {
                lemma_fundamental_div_mod_converse(i * n + j, n, i as int, j as int);
            }
            out.push(b);
            j = j + 1;
        }
        assert((i + 1) * n == i * n + n) by (nonlinear_arith);
        i = i + 1;
    }
    assert(out@ =~= flat_proof(nodes, max_depth as nat, max_node_len as nat));
    out
}

} // verus!
