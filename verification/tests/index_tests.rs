use land_ledger::ids::derive_id;
use land_ledger::index::OwnerIndex;

#[test]
fn add_and_list_tokens_per_owner() {
    let mut idx = OwnerIndex::new();
    let alice = "alice.near".to_string();
    idx.add(&alice, derive_id("alice.near"), "t1".to_string());
    idx.add(&alice, String::new(), "t2".to_string());
    let ids = idx.list(&alice);
    assert_eq!(ids, vec!["t1".to_string(), "t2".to_string()]);
    assert_eq!(idx.list(&"bob.near".to_string()).len(), 0);
}

#[test]
fn remove_token_keeps_empty_slot() {
    let mut idx = OwnerIndex::new();
    let alice = "alice.near".to_string();
    idx.add(&alice, derive_id("alice.near"), "t1".to_string());
    idx.remove(&alice, &"t1".to_string());
    assert_eq!(idx.list(&alice).len(), 0);
    assert!(idx.contains_owner(&alice));
}

#[test]
fn remove_of_absent_token_changes_nothing() {
    let mut idx = OwnerIndex::new();
    let alice = "alice.near".to_string();
    idx.add(&alice, derive_id("alice.near"), "t1".to_string());
    idx.remove(&alice, &"t9".to_string());
    idx.remove(&"bob.near".to_string(), &"t1".to_string());
    assert_eq!(idx.list(&alice), vec!["t1".to_string()]);
}

#[test]
fn owner_slots_are_separate() {
    let mut idx = OwnerIndex::new();
    let alice = "alice.near".to_string();
    let bob = "bob.near".to_string();
    idx.add(&alice, derive_id("alice.near"), "t1".to_string());
    idx.add(&bob, derive_id("bob.near"), "t2".to_string());
    assert_eq!(idx.list(&alice), vec!["t1".to_string()]);
    assert_eq!(idx.list(&bob), vec!["t2".to_string()]);
}
