use vstd::prelude::*;

use ethers::utils::rlp::DecoderError;

use crate::error::ProofError;
use crate::preprocess::{nodes_view, preprocess_proof, preprocess_result, TrieProof};

verus! {

/// Largest length of a state or storage trie node, in bytes.
pub const MAX_TRIE_NODE_LENGTH: usize = 532;

/// Largest length of the value held in a storage slot, in bytes.
pub const MAX_STORAGE_VALUE_LENGTH: usize = 32;

/// Largest length of the RLP-encoded list of an account's state, in bytes.
pub const MAX_ACCOUNT_STATE_LENGTH: usize = 134;

#[verifier::external_type_specification]
#[verifier::external_body]
pub struct ExDecoderError(DecoderError);

/// The byte strings that rlp decodes from `bytes` read as a list; `None` where
/// it reports an error.
pub uninterp spec fn rlp_byte_list(bytes: Seq<u8>) -> Option<Seq<Seq<u8>>>;

/// Relies on rlp's `Rlp::as_list::<Vec<u8>>`: it decodes `node` as a list of
/// byte strings, and what it returns depends on the bytes alone.
#[verifier::external_body]
fn decode_byte_list(node: &Vec<u8>) -> (r: Result<Vec<Vec<u8>>, DecoderError>)
    ensures
        r matches Ok(items) ==> rlp_byte_list(node@) == Some(nodes_view(items@)),
        r is Err ==> rlp_byte_list(node@) is None,
{
    ethers::utils::rlp::Rlp::new(node.as_slice()).as_list::<Vec<u8>>()
}

/// The value resolved by a terminal node whose decoded list is `items`: its
/// last element; a list that did not decode, or is empty, is malformed.
pub open spec fn value_of_list(items: Option<Seq<Seq<u8>>>) -> Result<Seq<u8>, ProofError> {
    match items {
        Some(s) => if s.len() > 0 {
            Ok(s.last())
        } else {
            Err(ProofError::MalformedProof)
        },
        None => Err(ProofError::MalformedProof),
    }
}

/// The value resolved by a whole proof: that of its terminal node.
pub open spec fn value_of_proof(nodes: Seq<Seq<u8>>) -> Result<Seq<u8>, ProofError> {
    if nodes.len() == 0 {
        Err(ProofError::EmptyProof)
    } else {
        value_of_list(rlp_byte_list(nodes.last()))
    }
}

/// A byte-string result seen as a byte sequence.
pub open spec fn bytes_result_view(r: Result<Vec<u8>, ProofError>) -> Result<Seq<u8>, ProofError> {
    match r {
        Ok(v) => Ok(v@),
        Err(e) => Err(e),
    }
}

/// Picks the resolved value out of the decoded terminal node `items`.
pub fn value_from_list(items: Option<Vec<Vec<u8>>>) -> (r: Result<Vec<u8>, ProofError>)
    ensures
        bytes_result_view(r) == value_of_list(
            match items {
                Some(v) => Some(nodes_view(v@)),
                None => None,
            },
        ),
{
    match items {
        Some(mut v) => {
            if v.len() == 0 {
                Err(ProofError::MalformedProof)
            } else {
                let ghost before = v@;
                let last = v.pop().unwrap();
                assert(last@ == nodes_view(before).last());
                Ok(last)
            }
        },
        None => Err(ProofError::MalformedProof),
    }
}

/// The value a state proof resolves to: the last element of the RLP list in
/// its terminal node.
pub fn extract_value(proof: &Vec<Vec<u8>>) -> (r: Result<Vec<u8>, ProofError>)
    ensures
        bytes_result_view(r) == value_of_proof(nodes_view(proof@)),
{
    if proof.len() == 0 {
        return Err(ProofError::EmptyProof);
    }
    let decoded = decode_byte_list(&proof[proof.len() - 1]);
    let items = match decoded {
        Ok(v) => Some(v),
        Err(_) => None,
    };
    value_from_list(items)
}

/// The fixed-size record of an account's state proof, keyed by `address`; the
/// value is taken from the terminal node.
pub fn state_proof_record(account_proof: Vec<Vec<u8>>, address: Vec<u8>, max_depth: usize) -> (r:
    Result<TrieProof, ProofError>)
    requires
        max_depth * MAX_TRIE_NODE_LENGTH <= usize::MAX,
    ensures
        value_of_proof(nodes_view(account_proof@)) matches Err(e) ==> r == Err::<
            TrieProof,
            ProofError,
        >(e),
        value_of_proof(nodes_view(account_proof@)) matches Ok(v) ==> preprocess_result(
            r,
            nodes_view(account_proof@),
            address@,
            v,
            max_depth as nat,
            MAX_TRIE_NODE_LENGTH as nat,
            MAX_ACCOUNT_STATE_LENGTH as nat,
        ),
{
    let value = match extract_value(&account_proof) {
        Ok(v) => v,
        Err(e) => {
            return Err(e);
        },
    };
    preprocess_proof(
        account_proof,
        address,
        value,
        max_depth,
        MAX_TRIE_NODE_LENGTH,
        MAX_ACCOUNT_STATE_LENGTH,
    )
}

/// The fixed-size record of a storage proof for the slot `key`, whose value
/// the node reported directly as big-endian bytes.
pub fn storage_proof_record(
    storage_proof: Vec<Vec<u8>>,
    key: Vec<u8>,
    value: Vec<u8>,
    max_depth: usize,
) -> (r: Result<TrieProof, ProofError>)
    requires
        max_depth * MAX_TRIE_NODE_LENGTH <= usize::MAX,
    ensures
        preprocess_result(
            r,
            nodes_view(storage_proof@),
            key@,
            value@,
            max_depth as nat,
            MAX_TRIE_NODE_LENGTH as nat,
            MAX_STORAGE_VALUE_LENGTH as nat,
        ),
{
    preprocess_proof(
        storage_proof,
        key,
        value,
        max_depth,
        MAX_TRIE_NODE_LENGTH,
        MAX_STORAGE_VALUE_LENGTH,
    )
}

} // verus!
