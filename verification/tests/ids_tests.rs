use land_ledger::ids::{derive_id, make_seed, u64_to_dec};

#[test]
fn derive_id_is_deterministic() {
    let a = derive_id("genesis#0");
    let b = derive_id("genesis#0");
    assert_eq!(a, b);
}

#[test]
fn derive_id_matches_known_digest_of_empty_seed() {
    assert_eq!(
        derive_id(""),
        "e3b0c44298fc1c149afbf4c8996fb92427ae41e4649b934ca495991b7852b855"
    );
}

#[test]
fn derive_id_matches_known_digest() {
    assert_eq!(
        derive_id("abc"),
        "ba7816bf8f01cfea414140de5dae2223b00361a396177a9cb410ff61f20015ad"
    );
}

#[test]
fn derive_id_is_lowercase_hex_of_fixed_length() {
    let id = derive_id("some seed");
    assert_eq!(id.len(), 64);
    assert!(id.chars().all(|c| ('0'..='9').contains(&c) || ('a'..='f').contains(&c)));
}

#[test]
fn distinct_seeds_give_distinct_identifiers() {
    assert_ne!(derive_id("genesis#0"), derive_id("genesis#1"));
}

#[test]
fn decimal_rendering() {
    assert_eq!(u64_to_dec(0), "0");
    assert_eq!(u64_to_dec(7), "7");
    assert_eq!(u64_to_dec(10), "10");
    assert_eq!(u64_to_dec(90217), "90217");
    assert_eq!(u64_to_dec(u64::MAX), "18446744073709551615");
}

#[test]
fn seed_building() {
    assert_eq!(make_seed(&"genesis".to_string(), 0), "genesis#0");
    assert_eq!(make_seed(&"Company".to_string(), 42), "Company#42");
}
