use cw_cyber_airdrop::errors::ContractError;
use cw_cyber_airdrop::merkle::{combine_hashes, leaf_hash, verify_merkle_proof};

fn sha256_vec(data: &[u8]) -> Vec<u8> {
    <sha2::Sha256 as sha2::Digest>::digest(data).to_vec()
}

fn flip_hex_char(s: &str, k: usize) -> String {
    let mut chars: Vec<char> = s.chars().collect();
    chars[k] = if chars[k] == '0' { '1' } else { '0' };
    chars.into_iter().collect()
}

#[test]
fn single_leaf_root_verifies_with_empty_proof() {
    let root = hex::encode(sha256_vec(b"abc100"));
    let r = verify_merkle_proof(&root, "abc", 100, &vec![]);
    assert_eq!(r, Ok(true));
}

#[test]
fn single_leaf_wrong_root_is_mismatch() {
    let root = hex::encode(sha256_vec(b"abc101"));
    let r = verify_merkle_proof(&root, "abc", 100, &vec![]);
    assert_eq!(r, Err(ContractError::VerificationMismatch));
}

#[test]
fn leaf_hash_is_digest_of_address_then_amount() {
    assert_eq!(leaf_hash("abc", 100), sha256_vec(b"abc100"));
    assert_eq!(leaf_hash("", 0), sha256_vec(b"0"));
    assert_eq!(
        leaf_hash("cosmos1xyz", 340282366920938463463374607431768211455),
        sha256_vec(b"cosmos1xyz340282366920938463463374607431768211455")
    );
}

#[test]
fn combine_is_symmetric() {
    let a = leaf_hash("alice", 10);
    let b = leaf_hash("bob", 20);
    assert_eq!(combine_hashes(&a, &b), combine_hashes(&b, &a));
    assert_eq!(combine_hashes(&a, &a), combine_hashes(&a, &a));
}

#[test]
fn two_leaf_tree_proofs_verify() {
    let l_alice = leaf_hash("alice", 10);
    let l_bob = leaf_hash("bob", 20);
    let root = hex::encode(combine_hashes(&l_alice, &l_bob));
    assert_eq!(
        verify_merkle_proof(&root, "alice", 10, &vec![hex::encode(&l_bob)]),
        Ok(true)
    );
    assert_eq!(
        verify_merkle_proof(&root, "bob", 20, &vec![hex::encode(&l_alice)]),
        Ok(true)
    );
}

#[test]
fn four_leaf_tree_proofs_verify() {
    let leaves = [
        leaf_hash("alice", 10),
        leaf_hash("bob", 20),
        leaf_hash("carol", 30),
        leaf_hash("dave", 40),
    ];
    let n01 = combine_hashes(&leaves[0], &leaves[1]);
    let n23 = combine_hashes(&leaves[2], &leaves[3]);
    let root = hex::encode(combine_hashes(&n01, &n23));
    let senders = ["alice", "bob", "carol", "dave"];
    let amounts = [10u128, 20, 30, 40];
    let siblings = [
        vec![hex::encode(&leaves[1]), hex::encode(&n23)],
        vec![hex::encode(&leaves[0]), hex::encode(&n23)],
        vec![hex::encode(&leaves[3]), hex::encode(&n01)],
        vec![hex::encode(&leaves[2]), hex::encode(&n01)],
    ];
    for i in 0..4 {
        assert_eq!(
            verify_merkle_proof(&root, senders[i], amounts[i], &siblings[i]),
            Ok(true)
        );
    }
}

#[test]
fn every_root_character_flip_fails() {
    let l_alice = leaf_hash("alice", 10);
    let l_bob = leaf_hash("bob", 20);
    let root = hex::encode(combine_hashes(&l_alice, &l_bob));
    let proof = vec![hex::encode(&l_bob)];
    assert_eq!(verify_merkle_proof(&root, "alice", 10, &proof), Ok(true));
    for k in 0..64 {
        let tampered = flip_hex_char(&root, k);
        assert_eq!(
            verify_merkle_proof(&tampered, "alice", 10, &proof),
            Err(ContractError::VerificationMismatch),
            "flip at root position {} must fail",
            k
        );
    }
}

#[test]
fn every_proof_entry_character_flip_fails() {
    let l_alice = leaf_hash("alice", 10);
    let l_bob = leaf_hash("bob", 20);
    let root = hex::encode(combine_hashes(&l_alice, &l_bob));
    let entry = hex::encode(&l_bob);
    for k in 0..64 {
        let proof = vec![flip_hex_char(&entry, k)];
        assert_eq!(
            verify_merkle_proof(&root, "alice", 10, &proof),
            Err(ContractError::VerificationMismatch),
            "flip at proof position {} must fail",
            k
        );
    }
}

#[test]
fn wrong_sibling_is_mismatch_not_malformed() {
    let l_alice = leaf_hash("alice", 10);
    let l_bob = leaf_hash("bob", 20);
    let root = hex::encode(combine_hashes(&l_alice, &l_bob));
    let r = verify_merkle_proof(&root, "alice", 10, &vec![hex::encode(&l_alice)]);
    assert_eq!(r, Err(ContractError::VerificationMismatch));
}

#[test]
fn non_hex_proof_entry_is_malformed() {
    let root = hex::encode(sha256_vec(b"abc100"));
    let bad = "g".repeat(64);
    let r = verify_merkle_proof(&root, "abc", 100, &vec![bad]);
    assert_eq!(r, Err(ContractError::MalformedHex));
}

#[test]
fn short_proof_entry_is_malformed() {
    let root = hex::encode(sha256_vec(b"abc100"));
    let r = verify_merkle_proof(&root, "abc", 100, &vec!["abcd".to_string()]);
    assert_eq!(r, Err(ContractError::MalformedHex));
}

#[test]
fn malformed_root_is_reported_as_such() {
    let r = verify_merkle_proof("not-hex-at-all", "abc", 100, &vec![]);
    assert_eq!(r, Err(ContractError::MalformedHex));
}

#[test]
fn repeated_verification_gives_identical_results() {
    let l_alice = leaf_hash("alice", 10);
    let l_bob = leaf_hash("bob", 20);
    let root = hex::encode(combine_hashes(&l_alice, &l_bob));
    let proof = vec![hex::encode(&l_bob)];
    let r1 = verify_merkle_proof(&root, "alice", 10, &proof);
    let r2 = verify_merkle_proof(&root, "alice", 10, &proof);
    assert_eq!(r1, r2);
    let e1 = verify_merkle_proof(&root, "mallory", 10, &proof);
    let e2 = verify_merkle_proof(&root, "mallory", 10, &proof);
    assert_eq!(e1, e2);
}
