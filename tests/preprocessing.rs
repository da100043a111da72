use noir_trie_proofs::error::ProofError;
use noir_trie_proofs::extract::{
    extract_value, state_proof_record, storage_proof_record, value_from_list,
    MAX_ACCOUNT_STATE_LENGTH, MAX_STORAGE_VALUE_LENGTH, MAX_TRIE_NODE_LENGTH,
};
use noir_trie_proofs::padding::left_pad;
use noir_trie_proofs::preprocess::preprocess_proof;

#[test]
fn left_pad_prepends_zeros() {
    assert_eq!(left_pad(&vec![0x01, 0x02], 5), Ok(vec![0, 0, 0, 0x01, 0x02]));
}

#[test]
fn left_pad_exact_length_is_unchanged() {
    assert_eq!(left_pad(&vec![0x07, 0x08, 0x09], 3), Ok(vec![0x07, 0x08, 0x09]));
}

#[test]
fn left_pad_empty_input_gives_zeros() {
    assert_eq!(left_pad(&vec![], 4), Ok(vec![0, 0, 0, 0]));
    assert_eq!(left_pad(&vec![], 0), Ok(vec![]));
}

#[test]
fn left_pad_rejects_longer_input() {
    assert_eq!(
        left_pad(&vec![1, 2, 3], 2),
        Err(ProofError::DimensionExceeded { actual: 3, max: 2 })
    );
}

#[test]
fn left_pad_round_trip_on_values() {
    let v = vec![0x00, 0x5a, 0x00, 0xff];
    let padded = left_pad(&v, 9).unwrap();
    assert_eq!(padded.len(), 9);
    assert!(padded[..5].iter().all(|b| *b == 0));
    assert_eq!(padded[5..].to_vec(), v);
}

#[test]
fn concrete_scenario() {
    let r = preprocess_proof(vec![vec![0xAA, 0xBB], vec![0xCC]], vec![0x11], vec![0x01], 3, 4, 2)
        .unwrap();
    assert_eq!(r.depth, 2);
    assert_eq!(
        r.proof,
        vec![0xAA, 0xBB, 0x00, 0x00, 0xCC, 0x00, 0x00, 0x00, 0x00, 0x00, 0x00, 0x00]
    );
    assert_eq!(r.value, vec![0x00, 0x01]);
    assert_eq!(r.key, vec![0x11]);
}

#[test]
fn dimensions_do_not_depend_on_depth() {
    for depth in 0..=5usize {
        let proof: Vec<Vec<u8>> = (0..depth).map(|i| vec![i as u8 + 1; i + 1]).collect();
        let r = preprocess_proof(proof, vec![], vec![9; depth], 5, 6, 7).unwrap();
        assert_eq!(r.proof.len(), 30);
        assert_eq!(r.value.len(), 7);
        assert_eq!(r.depth, depth);
    }
}

#[test]
fn empty_proof_is_all_padding() {
    let r = preprocess_proof(vec![], vec![1], vec![], 2, 3, 1).unwrap();
    assert_eq!(r.depth, 0);
    assert_eq!(r.proof, vec![0; 6]);
    assert_eq!(r.value, vec![0]);
}

#[test]
fn depth_one_over_maximum_is_refused() {
    let proof = vec![vec![1], vec![2], vec![3], vec![4]];
    assert_eq!(
        preprocess_proof(proof, vec![], vec![], 3, 4, 2),
        Err(ProofError::DepthExceeded { actual: 4, max: 3 })
    );
}

#[test]
fn depth_at_maximum_is_accepted() {
    let proof = vec![vec![1], vec![2], vec![3]];
    let r = preprocess_proof(proof, vec![], vec![], 3, 2, 2).unwrap();
    assert_eq!(r.depth, 3);
    assert_eq!(r.proof, vec![1, 0, 2, 0, 3, 0]);
}

#[test]
fn node_one_over_maximum_is_refused() {
    let proof = vec![vec![1, 2], vec![1, 2, 3, 4, 5], vec![1, 2, 3, 4, 5, 6]];
    assert_eq!(
        preprocess_proof(proof, vec![], vec![], 3, 4, 2),
        Err(ProofError::NodeLengthExceeded { index: 1, actual: 5, max: 4 })
    );
}

#[test]
fn node_at_maximum_fills_its_slot() {
    let proof = vec![vec![0xA1, 0xA2, 0xA3, 0xA4], vec![0xB1]];
    let r = preprocess_proof(proof, vec![], vec![], 2, 4, 0).unwrap();
    assert_eq!(r.proof, vec![0xA1, 0xA2, 0xA3, 0xA4, 0xB1, 0, 0, 0]);
    assert_eq!(r.value, Vec::<u8>::new());
}

#[test]
fn depth_is_checked_before_node_length() {
    let proof = vec![vec![0; 9], vec![0; 9]];
    assert_eq!(
        preprocess_proof(proof, vec![], vec![], 1, 4, 2),
        Err(ProofError::DepthExceeded { actual: 2, max: 1 })
    );
}

#[test]
fn value_too_long_is_refused() {
    assert_eq!(
        preprocess_proof(vec![vec![1]], vec![], vec![1, 2, 3], 1, 1, 2),
        Err(ProofError::DimensionExceeded { actual: 3, max: 2 })
    );
}

#[test]
fn key_too_long_is_refused() {
    assert_eq!(
        preprocess_proof(vec![vec![1]], vec![1, 2, 3, 4], vec![1], 1, 1, 2),
        Err(ProofError::DimensionExceeded { actual: 4, max: 2 })
    );
}

#[test]
fn value_extractor_scenario() {
    let terminal = vec![0xc6, 0x80, 0x80, 0x80, 0x82, 0xDE, 0xAD];
    assert_eq!(extract_value(&vec![vec![0x01], terminal]), Ok(vec![0xDE, 0xAD]));
}

#[test]
fn value_extractor_empty_list_is_malformed() {
    assert_eq!(extract_value(&vec![vec![0xc0]]), Err(ProofError::MalformedProof));
}

#[test]
fn value_extractor_nested_list_is_malformed() {
    assert_eq!(extract_value(&vec![vec![0xc1, 0xc0]]), Err(ProofError::MalformedProof));
}

#[test]
fn value_extractor_empty_proof() {
    assert_eq!(extract_value(&vec![]), Err(ProofError::EmptyProof));
}

#[test]
fn value_from_list_takes_last_item() {
    assert_eq!(value_from_list(Some(vec![vec![1], vec![], vec![2, 3]])), Ok(vec![2, 3]));
    assert_eq!(value_from_list(Some(vec![])), Err(ProofError::MalformedProof));
    assert_eq!(value_from_list(None), Err(ProofError::MalformedProof));
}

#[test]
fn state_proof_record_uses_terminal_value() {
    let terminal = vec![0xc6, 0x80, 0x80, 0x80, 0x82, 0xDE, 0xAD];
    let address = vec![0x42; 20];
    let r = state_proof_record(vec![vec![0x01, 0x02], terminal.clone()], address.clone(), 2).unwrap();
    assert_eq!(r.depth, 2);
    assert_eq!(r.key, address);
    assert_eq!(r.proof.len(), 2 * MAX_TRIE_NODE_LENGTH);
    assert_eq!(r.proof[..2].to_vec(), vec![0x01, 0x02]);
    assert_eq!(r.proof[MAX_TRIE_NODE_LENGTH..MAX_TRIE_NODE_LENGTH + 7].to_vec(), terminal);
    let mut value = vec![0; MAX_ACCOUNT_STATE_LENGTH - 2];
    value.extend_from_slice(&[0xDE, 0xAD]);
    assert_eq!(r.value, value);
}

#[test]
fn state_proof_record_empty_proof() {
    assert_eq!(state_proof_record(vec![], vec![0; 20], 3), Err(ProofError::EmptyProof));
}

#[test]
fn storage_proof_record_pads_to_slot_width() {
    let r = storage_proof_record(vec![vec![0x0f]], vec![7; 32], vec![0x05], 1).unwrap();
    assert_eq!(r.value.len(), MAX_STORAGE_VALUE_LENGTH);
    assert_eq!(r.value[MAX_STORAGE_VALUE_LENGTH - 1], 0x05);
    assert_eq!(r.proof.len(), MAX_TRIE_NODE_LENGTH);
    assert_eq!(r.proof[0], 0x0f);
    assert!(r.proof[1..].iter().all(|b| *b == 0));
}
