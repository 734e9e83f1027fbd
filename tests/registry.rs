use poe::module::Module;
use poe::store::ProofStore;
use poe::transition::{decide_create, decide_remove, decide_transact};
use poe::types::{same_bytes, AccountId, ClaimRecord, Error, Event};

fn acct(b: u8) -> AccountId {
    AccountId::new(vec![b; 4])
}

fn rec(owner: u8, h: u64) -> ClaimRecord {
    ClaimRecord::new(acct(owner), h)
}

const ALICE: u8 = 1;
const BOB: u8 = 2;
const CAROL: u8 = 3;

#[test]
fn end_to_end_scenario() {
    let doc1 = b"doc1".to_vec();
    let mut m = Module::new();
    assert_eq!(m.len(), 0);

    let ev = m.create(acct(ALICE), doc1.clone(), 10);
    assert_eq!(ev, Ok(Event::ClaimNew(acct(ALICE), doc1.clone())));
    assert_eq!(m.len(), 1);
    assert_eq!(m.proofs(&doc1), Some(rec(ALICE, 10)));

    let ev = m.remove(acct(BOB), doc1.clone());
    assert_eq!(ev, Err(Error::ClaimNotOwner));
    assert_eq!(m.len(), 1);
    assert_eq!(m.proofs(&doc1), Some(rec(ALICE, 10)));

    let ev = m.transact(acct(ALICE), doc1.clone(), acct(BOB));
    assert_eq!(ev, Ok(Event::ClaimTransact(acct(ALICE), doc1.clone(), acct(BOB), 10)));
    assert_eq!(m.len(), 1);
    assert_eq!(m.proofs(&doc1), Some(rec(BOB, 10)));

    let ev = m.remove(acct(BOB), doc1.clone());
    assert_eq!(ev, Ok(Event::ClaimRemove(acct(BOB), doc1.clone(), 10)));
    assert!(!m.contains(&doc1));
    assert_eq!(m.len(), 0);
    assert_eq!(m.proofs(&doc1), None);
}

#[test]
fn create_then_see_record() {
    let mut m = Module::new();
    let k = vec![0xde, 0xad];
    assert!(!m.contains(&k));
    assert!(m.create(acct(ALICE), k.clone(), 42).is_ok());
    assert!(m.contains(&k));
    assert_eq!(m.proofs(&k), Some(rec(ALICE, 42)));
}

#[test]
fn empty_claim_is_a_key_like_any_other() {
    let mut m = Module::new();
    let empty: Vec<u8> = Vec::new();
    assert_eq!(m.create(acct(ALICE), empty.clone(), 1), Ok(Event::ClaimNew(acct(ALICE), Vec::new())));
    assert!(m.contains(&empty));
    assert!(!m.contains(&vec![0]));
    assert_eq!(m.create(acct(BOB), empty.clone(), 2), Err(Error::ClaimExisted));
}

#[test]
fn double_registration_rejected() {
    let mut m = Module::new();
    let k = b"k".to_vec();
    m.create(acct(ALICE), k.clone(), 5).unwrap();
    assert_eq!(m.create(acct(BOB), k.clone(), 6), Err(Error::ClaimExisted));
    assert_eq!(m.create(acct(ALICE), k.clone(), 7), Err(Error::ClaimExisted));
    assert_eq!(m.proofs(&k), Some(rec(ALICE, 5)));
}

#[test]
fn release_by_non_owner_rejected() {
    let mut m = Module::new();
    let k = b"k".to_vec();
    m.create(acct(ALICE), k.clone(), 5).unwrap();
    assert_eq!(m.remove(acct(BOB), k.clone()), Err(Error::ClaimNotOwner));
    assert_eq!(m.proofs(&k), Some(rec(ALICE, 5)));
}

#[test]
fn release_deletes_record() {
    let mut m = Module::new();
    let k = b"k".to_vec();
    m.create(acct(ALICE), k.clone(), 5).unwrap();
    assert_eq!(m.remove(acct(ALICE), k.clone()), Ok(Event::ClaimRemove(acct(ALICE), k.clone(), 5)));
    assert!(!m.contains(&k));
}

#[test]
fn transfer_keeps_height() {
    let mut m = Module::new();
    let k = b"k".to_vec();
    m.create(acct(ALICE), k.clone(), 3).unwrap();
    // other activity at later heights does not touch the record's height
    m.create(acct(CAROL), b"other".to_vec(), 99).unwrap();
    assert!(m.transact(acct(ALICE), k.clone(), acct(BOB)).is_ok());
    assert_eq!(m.proofs(&k), Some(rec(BOB, 3)));
    assert_eq!(m.proofs(&b"other".to_vec()), Some(rec(CAROL, 99)));
}

#[test]
fn transfer_by_non_owner_rejected() {
    let mut m = Module::new();
    let k = b"k".to_vec();
    m.create(acct(ALICE), k.clone(), 3).unwrap();
    assert_eq!(m.transact(acct(BOB), k.clone(), acct(BOB)), Err(Error::ClaimNotOwner));
    assert_eq!(m.transact(acct(CAROL), k.clone(), acct(ALICE)), Err(Error::ClaimNotOwner));
    assert_eq!(m.proofs(&k), Some(rec(ALICE, 3)));
}

#[test]
fn absent_claim_rejected() {
    let mut m = Module::new();
    let k = b"never".to_vec();
    assert_eq!(m.remove(acct(ALICE), k.clone()), Err(Error::ClaimNotExist));
    assert_eq!(m.transact(acct(ALICE), k.clone(), acct(BOB)), Err(Error::ClaimNotExist));
    assert!(!m.contains(&k));
}

#[test]
fn released_claim_rejected() {
    let mut m = Module::new();
    let k = b"k".to_vec();
    m.create(acct(ALICE), k.clone(), 1).unwrap();
    m.remove(acct(ALICE), k.clone()).unwrap();
    assert_eq!(m.remove(acct(ALICE), k.clone()), Err(Error::ClaimNotExist));
    assert_eq!(m.transact(acct(ALICE), k.clone(), acct(BOB)), Err(Error::ClaimNotExist));
}

#[test]
fn existence_checked_before_ownership() {
    let mut m = Module::new();
    m.create(acct(ALICE), b"a".to_vec(), 1).unwrap();
    // a different key owned by nobody: absence wins over ownership
    assert_eq!(m.remove(acct(BOB), b"b".to_vec()), Err(Error::ClaimNotExist));
    assert_eq!(m.transact(acct(BOB), b"b".to_vec(), acct(ALICE)), Err(Error::ClaimNotExist));
}

#[test]
fn self_transfer_succeeds() {
    let mut m = Module::new();
    let k = b"k".to_vec();
    m.create(acct(ALICE), k.clone(), 8).unwrap();
    assert_eq!(
        m.transact(acct(ALICE), k.clone(), acct(ALICE)),
        Ok(Event::ClaimTransact(acct(ALICE), k.clone(), acct(ALICE), 8))
    );
    assert_eq!(m.proofs(&k), Some(rec(ALICE, 8)));
}

#[test]
fn claim_cycles_through_states() {
    let mut m = Module::new();
    let k = b"k".to_vec();
    m.create(acct(ALICE), k.clone(), 1).unwrap();
    m.remove(acct(ALICE), k.clone()).unwrap();
    assert_eq!(m.create(acct(BOB), k.clone(), 20), Ok(Event::ClaimNew(acct(BOB), k.clone())));
    assert_eq!(m.proofs(&k), Some(rec(BOB, 20)));
}

#[test]
fn keys_differ_by_exact_bytes() {
    let mut m = Module::new();
    m.create(acct(ALICE), vec![1, 2], 1).unwrap();
    m.create(acct(BOB), vec![1, 2, 0], 2).unwrap();
    m.create(acct(CAROL), vec![2, 1], 3).unwrap();
    assert_eq!(m.proofs(&vec![1, 2]), Some(rec(ALICE, 1)));
    assert_eq!(m.proofs(&vec![1, 2, 0]), Some(rec(BOB, 2)));
    assert_eq!(m.proofs(&vec![2, 1]), Some(rec(CAROL, 3)));
    assert_eq!(m.proofs(&vec![1]), None);
    assert_eq!(m.len(), 3);
    m.remove(acct(BOB), vec![1, 2, 0]).unwrap();
    assert_eq!(m.len(), 2);
    assert_eq!(m.proofs(&vec![1, 2]), Some(rec(ALICE, 1)));
    assert_eq!(m.proofs(&vec![2, 1]), Some(rec(CAROL, 3)));
    assert_eq!(m.proofs(&vec![1, 2, 0]), None);
}

#[test]
fn largest_height_is_kept() {
    let mut m = Module::new();
    let k = b"k".to_vec();
    m.create(acct(ALICE), k.clone(), u64::MAX).unwrap();
    m.transact(acct(ALICE), k.clone(), acct(BOB)).unwrap();
    assert_eq!(m.remove(acct(BOB), k.clone()), Ok(Event::ClaimRemove(acct(BOB), k, u64::MAX)));
}

#[test]
fn accounts_compare_by_bytes() {
    assert!(acct(ALICE).same_as(&AccountId::new(vec![1, 1, 1, 1])));
    assert!(!acct(ALICE).same_as(&AccountId::new(vec![1, 1, 1])));
    assert!(same_bytes(&vec![], &vec![]));
    assert!(!same_bytes(&vec![0], &vec![]));
}

#[test]
fn store_put_get_delete() {
    let mut s = ProofStore::new();
    let k = b"key".to_vec();
    assert!(!s.contains_key(&k));
    assert_eq!(s.get(&k), None);
    s.insert(&k, rec(ALICE, 1));
    assert_eq!(s.get(&k), Some(&rec(ALICE, 1)));
    assert_eq!(s.len(), 1);
    s.insert(&k, rec(BOB, 2));
    assert_eq!(s.get(&k), Some(&rec(BOB, 2)));
    assert_eq!(s.len(), 1);
    s.insert(&b"other".to_vec(), rec(CAROL, 3));
    assert_eq!(s.len(), 2);
    s.remove(&k);
    assert_eq!(s.len(), 1);
    assert_eq!(s.get(&b"other".to_vec()), Some(&rec(CAROL, 3)));
    assert!(!s.contains_key(&k));
    // deleting an absent key is harmless
    s.remove(&k);
    assert!(!s.contains_key(&k));
}

#[test]
fn decide_on_single_claim() {
    let k = b"k".to_vec();
    let held = rec(ALICE, 4);
    assert_eq!(decide_create(&acct(BOB), &k, Some(&held), 9), Err(Error::ClaimExisted));
    assert_eq!(
        decide_create(&acct(BOB), &k, None, 9),
        Ok((Some(rec(BOB, 9)), Event::ClaimNew(acct(BOB), k.clone())))
    );
    assert_eq!(decide_remove(&acct(BOB), &k, None), Err(Error::ClaimNotExist));
    assert_eq!(decide_remove(&acct(BOB), &k, Some(&held)), Err(Error::ClaimNotOwner));
    assert_eq!(
        decide_remove(&acct(ALICE), &k, Some(&held)),
        Ok((None, Event::ClaimRemove(acct(ALICE), k.clone(), 4)))
    );
    assert_eq!(decide_transact(&acct(ALICE), &k, &acct(BOB), None), Err(Error::ClaimNotExist));
    assert_eq!(decide_transact(&acct(CAROL), &k, &acct(BOB), Some(&held)), Err(Error::ClaimNotOwner));
    assert_eq!(
        decide_transact(&acct(ALICE), &k, &acct(BOB), Some(&held)),
        Ok((Some(rec(BOB, 4)), Event::ClaimTransact(acct(ALICE), k.clone(), acct(BOB), 4)))
    );
}
