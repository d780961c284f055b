//! The store's accessor semantics: upsert creates or replaces, update-only
//! leaves an absent key absent, lookups fail with `NotFound`, and the
//! reserved zero key helper.
//!
//! These tests feed the store opaque at-rest blobs; nothing here runs the
//! encryption scheme itself, whose key generation is far too slow in an
//! unoptimized build to run inside a test.

use fhe_ledger::LedgerError;
use fhe_ledger::engine::StoredCiphertext;
use fhe_ledger::ledger::zero_account_key;
use fhe_ledger::store::CiphertextStore;
use fhe_ledger::store::bytes_equal;

#[test]
fn zero_key_is_thirty_two_zero_bytes() {
    let z = zero_account_key();
    assert_eq!(z.len(), 32);
    assert!(z.iter().all(|b| *b == 0));
}

#[test]
fn bytes_equal_compares_contents() {
    assert!(bytes_equal(&vec![1u8, 2, 3], &vec![1u8, 2, 3]));
    assert!(!bytes_equal(&vec![1u8, 2, 3], &vec![1u8, 2, 4]));
    assert!(!bytes_equal(&vec![1u8, 2], &vec![1u8, 2, 3]));
    assert!(bytes_equal(&Vec::new(), &Vec::new()));
}

#[test]
fn get_missing_key_is_not_found() {
    let store = CiphertextStore::new();
    let k = vec![6u8; 32];
    assert!(matches!(store.get_ciphertext(&k), Err(LedgerError::NotFound)));
}

#[test]
fn update_only_does_not_create_a_record() {
    let mut store = CiphertextStore::new();
    let k = vec![5u8; 32];
    let blob = StoredCiphertext::from_raw_bytes(vec![9u8, 9, 9]);
    store.update_ciphertext(&k, blob);
    assert!(matches!(store.get_ciphertext(&k), Err(LedgerError::NotFound)));
}

#[test]
fn insert_creates_and_overwrites() {
    let mut store = CiphertextStore::new();
    let k = vec![7u8; 32];
    store.insert_ciphertext(k.clone(), StoredCiphertext::from_raw_bytes(vec![1u8, 1]));
    assert!(bytes_equal(store.get_ciphertext(&k).unwrap().as_bytes(), &vec![1u8, 1]));
    store.insert_ciphertext(k.clone(), StoredCiphertext::from_raw_bytes(vec![2u8, 2]));
    assert!(bytes_equal(store.get_ciphertext(&k).unwrap().as_bytes(), &vec![2u8, 2]));
}

#[test]
fn update_replaces_an_existing_record() {
    let mut store = CiphertextStore::new();
    let k = vec![8u8; 32];
    let other = vec![9u8; 32];
    store.insert_ciphertext(k.clone(), StoredCiphertext::from_raw_bytes(vec![1u8]));
    store.insert_ciphertext(other.clone(), StoredCiphertext::from_raw_bytes(vec![5u8]));
    store.update_ciphertext(&k, StoredCiphertext::from_raw_bytes(vec![3u8]));
    assert!(bytes_equal(store.get_ciphertext(&k).unwrap().as_bytes(), &vec![3u8]));
    assert!(bytes_equal(store.get_ciphertext(&other).unwrap().as_bytes(), &vec![5u8]));
}

#[test]
fn records_are_independent() {
    let mut store = CiphertextStore::new();
    let a = vec![1u8; 32];
    let b = zero_account_key();
    store.insert_ciphertext(a.clone(), StoredCiphertext::from_raw_bytes(vec![10u8]));
    store.insert_ciphertext(b.clone(), StoredCiphertext::from_raw_bytes(vec![20u8]));
    store.update_ciphertext(&a, StoredCiphertext::from_raw_bytes(vec![11u8]));
    assert!(bytes_equal(store.get_ciphertext(&a).unwrap().as_bytes(), &vec![11u8]));
    assert!(bytes_equal(store.get_ciphertext(&b).unwrap().as_bytes(), &vec![20u8]));
}
