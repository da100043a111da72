use vstd::prelude::*;
use vstd::arithmetic::div_mod::lemma_fundamental_div_mod_converse;

use crate::error::ProofError;
use crate::preprocess::{flat_proof, nodes_fit, preprocess_result, TrieProof};

verus! {

/// A record that preprocessing produced has a flat proof of exactly
/// `max_depth * max_node_len` bytes and a value of exactly `max_value_len`
/// bytes, whatever the real depth and value length were.
pub proof fn lemma_fixed_dimensions(
    r: Result<TrieProof, ProofError>,
    nodes: Seq<Seq<u8>>,
    key: Seq<u8>,
    value: Seq<u8>,
    max_depth: nat,
    max_node_len: nat,
    max_value_len: nat,
)
    requires
        preprocess_result(r, nodes, key, value, max_depth, max_node_len, max_value_len),
        r is Ok,
    ensures
        r.unwrap().proof@.len() == max_depth * max_node_len,
        r.unwrap().value@.len() == max_value_len,
{
    assert(nodes.len() <= max_depth);
    assert(nodes_fit(nodes, max_node_len));
    assert(value.len() <= max_value_len);
    assert(key.len() <= max_value_len);
}

/// A record that preprocessing produced carries the number of real nodes it
/// was given as its depth, not the number of slots.
pub proof fn lemma_depth_fidelity(
    r: Result<TrieProof, ProofError>,
    nodes: Seq<Seq<u8>>,
    key: Seq<u8>,
    value: Seq<u8>,
    max_depth: nat,
    max_node_len: nat,
    max_value_len: nat,
)
    requires
        preprocess_result(r, nodes, key, value, max_depth, max_node_len, max_value_len),
        r is Ok,
    ensures
        r.unwrap().depth == nodes.len(),
{
    assert(nodes.len() <= max_depth);
    assert(nodes_fit(nodes, max_node_len));
    assert(value.len() <= max_value_len);
    assert(key.len() <= max_value_len);
}

/// One node more than `max_depth` is refused with `DepthExceeded`; exactly
/// `max_depth` nodes are accepted when the nodes, the value and the key fit.
pub proof fn lemma_depth_boundary(
    r: Result<TrieProof, ProofError>,
    nodes: Seq<Seq<u8>>,
    key: Seq<u8>,
    value: Seq<u8>,
    max_depth: nat,
    max_node_len: nat,
    max_value_len: nat,
)
    requires
        preprocess_result(r, nodes, key, value, max_depth, max_node_len, max_value_len),
    ensures
        nodes.len() == max_depth + 1 ==> r is Err && r.unwrap_err() is DepthExceeded,
        nodes.len() == max_depth && nodes_fit(nodes, max_node_len) && value.len()
            <= max_value_len && key.len() <= max_value_len ==> r is Ok,
{
}

/// Within the depth limit, a node of `max_node_len + 1` bytes is refused with
/// `NodeLengthExceeded`; a node of exactly `max_node_len` bytes, among nodes
/// that all fit, fills its slot with its own bytes and no padding.
pub proof fn lemma_node_length_boundary(
    r: Result<TrieProof, ProofError>,
    nodes: Seq<Seq<u8>>,
    key: Seq<u8>,
    value: Seq<u8>,
    max_depth: nat,
    max_node_len: nat,
    max_value_len: nat,
    i: int,
)
    requires
        preprocess_result(r, nodes, key, value, max_depth, max_node_len, max_value_len),
        nodes.len() <= max_depth,
        0 <= i < nodes.len(),
    ensures
        nodes[i].len() == max_node_len + 1 ==> r is Err && r.unwrap_err() is NodeLengthExceeded,
        nodes[i].len() == max_node_len && nodes_fit(nodes, max_node_len) && value.len()
            <= max_value_len && key.len() <= max_value_len ==> r is Ok && r.unwrap().proof@.subrange(
            i * max_node_len,
            (i + 1) * max_node_len,
        ) == nodes[i],
{
    let n = max_node_len as int;
    if nodes[i].len() == max_node_len + 1 {
        assert(!nodes_fit(nodes, max_node_len));
    }
    if nodes[i].len() == max_node_len && nodes_fit(nodes, max_node_len) && value.len()
        <= max_value_len && key.len() <= max_value_len {
        let flat = flat_proof(nodes, max_depth, max_node_len);
        assert(r.unwrap().proof@ == flat);
        assert((i + 1) * n <= max_depth * n) by (nonlinear_arith)
            requires
                i + 1 <= max_depth,
                n >= 0,
        ;
        assert((i + 1) * n == i * n + n) by (nonlinear_arith);
        assert(i * n >= 0) by (nonlinear_arith)
            requires
                i >= 0,
                n >= 0,
        ;
        assert forall|k: int| 0 <= k < n implies flat.subrange(i * n, (i + 1) * n)[k]
            == nodes[i][k] by {
            lemma_fundamental_div_mod_converse(i * n + k, n, i, k);
        }
        assert(flat.subrange(i * n, (i + 1) * n) =~= nodes[i]);
    }
}

} // verus!
