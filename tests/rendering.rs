use noir_trie_proofs::preprocess::preprocess_proof;

fn std_rendering(name: &str, key: &Vec<u8>, proof: &Vec<u8>, depth: usize, value: &Vec<u8>) -> String {
    format!(
        "[{}]\nkey = {:#04x?}\nproof = {:#04x?}\ndepth = {:#04x?}\nvalue = {:#04x?}",
        name, key, proof, depth, value
    )
}

#[test]
fn toml_string_exact_text() {
    let r = preprocess_proof(vec![vec![0xAB]], vec![0x0c], vec![0xff], 1, 2, 1).unwrap();
    assert_eq!(
        r.to_toml_string("p"),
        "[p]\nkey = [\n    0x0c,\n]\nproof = [\n    0xab,\n    0x00,\n]\ndepth = 0x01\nvalue = [\n    0xff,\n]"
    );
}

#[test]
fn toml_string_empty_arrays() {
    let r = preprocess_proof(vec![], vec![], vec![], 0, 0, 0).unwrap();
    assert_eq!(r.to_toml_string("t"), "[t]\nkey = []\nproof = []\ndepth = 0x00\nvalue = []");
}

#[test]
fn toml_string_matches_std_hex_debug() {
    let proof: Vec<Vec<u8>> = (0..300usize).map(|i| vec![(i % 256) as u8, 0x10]).collect();
    let r = preprocess_proof(proof, vec![0x00, 0x09, 0x10, 0xfe], vec![0x7f, 0x80], 301, 3, 5).unwrap();
    assert_eq!(r.depth, 300);
    assert_eq!(
        r.to_toml_string("state_proof"),
        std_rendering("state_proof", &r.key, &r.proof, r.depth, &r.value)
    );
}

#[test]
fn toml_string_small_depths_match_std() {
    for depth in 0..20usize {
        let proof: Vec<Vec<u8>> = (0..depth).map(|i| vec![i as u8]).collect();
        let r = preprocess_proof(proof, vec![1], vec![], 20, 1, 1).unwrap();
        assert_eq!(
            r.to_toml_string("storage_proof"),
            std_rendering("storage_proof", &r.key, &r.proof, r.depth, &r.value)
        );
    }
}
