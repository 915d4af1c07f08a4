use land_ledger::contract::{Contract, SalePolicy};
use land_ledger::errors::ContractError;
use land_ledger::ids::derive_id;
use land_ledger::metadata::TokenMetadata;

fn lax_policy() -> SalePolicy {
    SalePolicy { enforce_close_time: false, enforce_limit: true, enforce_exact_price: false }
}

fn strict_policy() -> SalePolicy {
    SalePolicy { enforce_close_time: true, enforce_limit: true, enforce_exact_price: true }
}

fn plain_meta(title: &str) -> TokenMetadata {
    TokenMetadata {
        title: Some(title.to_string()),
        description: Some(title.to_string()),
        media: None,
        media_hash: None,
        copies: Some(1),
        issued_at: Some(0),
        city: None,
        location: None,
        rare: None,
        level: None,
        company_type: None,
        mining_efficiency: None,
        mining_power: None,
    }
}

#[test]
fn calibration_constant_is_positive_and_exact() {
    let c = Contract::new_default_meta("owner.near".to_string(), lax_policy());
    // 40 fixed slot bytes + two 68-byte strings + (64 - 10) identity adjustment
    assert_eq!(c.extra_storage_in_bytes_per_token, 230);
    assert!(c.extra_storage_in_bytes_per_token > 0);
    let shorter = Contract::new_default_meta("ab.near".to_string(), lax_policy());
    assert_eq!(shorter.extra_storage_in_bytes_per_token, 233);
}

#[test]
fn calibration_constant_is_computed_once() {
    let mut c = Contract::new_default_meta("owner.near".to_string(), lax_policy());
    let extra = c.extra_storage_in_bytes_per_token;
    c.open_area("owner.near".to_string(), "genesis".to_string(), 2, 100, 10, 1000).unwrap();
    c.buy_land("alice.near".to_string(), "genesis".to_string(), 20, 1_000_000).unwrap();
    c.nft_mint(Some("tok".to_string()), plain_meta("t"), None, "bob.near".to_string(), 1_000_000)
        .unwrap();
    assert_eq!(c.extra_storage_in_bytes_per_token, extra);
}

#[test]
fn default_collection_metadata() {
    let c = Contract::new_default_meta("owner.near".to_string(), lax_policy());
    assert_eq!(c.metadata.spec, "nft-1.0.0");
    assert_eq!(c.metadata.name, "The metaverse");
    assert_eq!(c.metadata.symbol, "Land");
    assert!(c.metadata.icon.as_ref().unwrap().starts_with("data:image/svg+xml"));
    assert!(c.metadata.base_uri.is_none());
}

#[test]
fn genesis_sale_scenario() {
    let mut c = Contract::new_default_meta("owner.near".to_string(), lax_policy());
    c.open_area("owner.near".to_string(), "genesis".to_string(), 2, 100, 10, 1000).unwrap();
    let area = c.get_area("genesis".to_string()).unwrap();
    assert_eq!(area.name, "genesis");
    assert_eq!(area.limit, 2);
    assert_eq!(area.land_sold, 0);
    assert_eq!(area.land_price, 100);

    let r1 = c.buy_land("alice.near".to_string(), "genesis".to_string(), 20, 1_000_000);
    assert!(r1.is_ok());
    assert_eq!(c.get_area("genesis".to_string()).unwrap().land_sold, 1);
    let first = c.get_land("genesis#0".to_string()).unwrap();
    assert_eq!(first.title.as_deref(), Some("genesis#0"));
    assert_eq!(first.city.as_deref(), Some("genesis"));
    assert_eq!(first.rare.as_deref(), Some("R"));
    assert_eq!(first.issued_at, Some(20));

    let r2 = c.buy_land("alice.near".to_string(), "genesis".to_string(), 30, 1_000_000);
    assert!(r2.is_ok());
    assert_eq!(c.get_area("genesis".to_string()).unwrap().land_sold, 2);
    assert!(c.get_land("genesis#1".to_string()).is_some());

    let r3 = c.buy_land("alice.near".to_string(), "genesis".to_string(), 40, 1_000_000);
    assert_eq!(r3, Err(ContractError::SoldOut));
    assert_eq!(c.get_area("genesis".to_string()).unwrap().land_sold, 2);

    let lands = c.get_lands_by_owner("alice.near".to_string());
    assert_eq!(lands.len(), 2);
}

#[test]
fn bought_land_is_owned_by_the_buyer() {
    let mut c = Contract::new_default_meta("owner.near".to_string(), lax_policy());
    c.open_area("owner.near".to_string(), "genesis".to_string(), 5, 100, 10, 1000).unwrap();
    c.buy_land("alice.near".to_string(), "genesis".to_string(), 20, 1_000_000).unwrap();
    let id = derive_id("genesis#0");
    assert_eq!(c.tokens_by_id.owner(&id).as_deref(), Some("alice.near"));
}

#[test]
fn non_owner_cannot_open_area() {
    let mut c = Contract::new_default_meta("owner.near".to_string(), lax_policy());
    let r = c.open_area("mallory.near".to_string(), "genesis".to_string(), 2, 100, 10, 1000);
    assert_eq!(r, Err(ContractError::Unauthorized));
    assert!(c.get_area("genesis".to_string()).is_none());
    assert_eq!(c.get_all_areas().len(), 0);
}

#[test]
fn exact_price_is_enforced_when_configured() {
    let mut c = Contract::new_default_meta("owner.near".to_string(), strict_policy());
    c.open_area("owner.near".to_string(), "genesis".to_string(), 2, 500_000, 10, 1000).unwrap();
    let r = c.buy_land("alice.near".to_string(), "genesis".to_string(), 20, 499);
    assert_eq!(r, Err(ContractError::InsufficientDeposit));
    assert!(c.get_land("genesis#0".to_string()).is_none());
    assert_eq!(c.get_area("genesis".to_string()).unwrap().land_sold, 0);

    let refund = c
        .buy_land("alice.near".to_string(), "genesis".to_string(), 20, 500_000)
        .unwrap();
    let consumed = 500_000 - refund;
    assert!(consumed >= c.extra_storage_in_bytes_per_token as u128);
    assert!(c.get_land("genesis#0".to_string()).is_some());
}

#[test]
fn purchase_before_window_opens_is_rejected() {
    let mut c = Contract::new_default_meta("owner.near".to_string(), lax_policy());
    c.open_area("owner.near".to_string(), "genesis".to_string(), 2, 100, 10, 1000).unwrap();
    let r = c.buy_land("alice.near".to_string(), "genesis".to_string(), 10, 1_000_000);
    assert_eq!(r, Err(ContractError::NotYetOpen));
    assert!(c.get_land("genesis#0".to_string()).is_none());
}

#[test]
fn purchase_after_window_closes_is_rejected_when_configured() {
    let mut c = Contract::new_default_meta("owner.near".to_string(), strict_policy());
    c.open_area("owner.near".to_string(), "genesis".to_string(), 2, 500_000, 10, 1000).unwrap();
    let r = c.buy_land("alice.near".to_string(), "genesis".to_string(), 1000, 500_000);
    assert_eq!(r, Err(ContractError::WindowClosed));
}

#[test]
fn purchase_in_unknown_area_is_rejected() {
    let mut c = Contract::new_default_meta("owner.near".to_string(), lax_policy());
    let r = c.buy_land("alice.near".to_string(), "atlantis".to_string(), 20, 1_000_000);
    assert_eq!(r, Err(ContractError::NotFound));
}

#[test]
fn duplicate_identifier_is_rejected_without_partial_state() {
    let mut c = Contract::new_default_meta("owner.near".to_string(), lax_policy());
    c.nft_mint(
        Some("tok".to_string()),
        plain_meta("first"),
        None,
        "alice.near".to_string(),
        1_000_000,
    )
    .unwrap();
    let r = c.nft_mint(
        Some("tok".to_string()),
        plain_meta("second"),
        Some("bob.near".to_string()),
        "bob.near".to_string(),
        1_000_000,
    );
    assert_eq!(r, Err(ContractError::DuplicateIdentifier));
    assert_eq!(c.get_lands_by_owner("alice.near".to_string()).len(), 1);
    assert_eq!(c.get_lands_by_owner("bob.near".to_string()).len(), 0);
    assert_eq!(c.tokens_by_id.owner(&"tok".to_string()).as_deref(), Some("alice.near"));
}

#[test]
fn mint_refunds_excess_above_requirement() {
    let mut c = Contract::new_default_meta("owner.near".to_string(), lax_policy());
    let refund = c
        .nft_mint(
            Some("tok".to_string()),
            plain_meta("t"),
            None,
            "alice.near".to_string(),
            1_000_000,
        )
        .unwrap();
    let required = 1_000_000 - refund;
    assert!(required >= c.extra_storage_in_bytes_per_token as u128);
    // The exact requirement under the byte model: the calibrated 230,
    // a 136-byte token record, an 11-byte index item, and a fresh
    // 122-byte owner slot.
    assert_eq!(required, 499);
}

#[test]
fn mint_with_insufficient_deposit_is_rejected() {
    let mut c = Contract::new_default_meta("owner.near".to_string(), lax_policy());
    let r = c.nft_mint(Some("tok".to_string()), plain_meta("t"), None, "alice.near".to_string(), 1);
    assert_eq!(r, Err(ContractError::InsufficientDeposit));
    assert_eq!(c.get_lands_by_owner("alice.near".to_string()).len(), 0);
}

#[test]
fn mint_without_identifier_numbers_from_record_count() {
    let mut c = Contract::new_default_meta("owner.near".to_string(), lax_policy());
    c.nft_mint(None, plain_meta("t"), None, "alice.near".to_string(), 1_000_000).unwrap();
    assert!(c.tokens_by_id.contains(&"1".to_string()));
    c.nft_mint(None, plain_meta("u"), None, "alice.near".to_string(), 1_000_000).unwrap();
    assert!(c.tokens_by_id.contains(&"2".to_string()));
}

#[test]
fn reopening_an_area_resets_its_sold_counter() {
    // A noted gap of the design, kept as observed: overwriting loses
    // the counter.
    let mut c = Contract::new_default_meta("owner.near".to_string(), lax_policy());
    c.open_area("owner.near".to_string(), "genesis".to_string(), 2, 100, 10, 1000).unwrap();
    c.buy_land("alice.near".to_string(), "genesis".to_string(), 20, 1_000_000).unwrap();
    assert_eq!(c.get_area("genesis".to_string()).unwrap().land_sold, 1);
    c.open_area("owner.near".to_string(), "genesis".to_string(), 2, 100, 10, 1000).unwrap();
    assert_eq!(c.get_area("genesis".to_string()).unwrap().land_sold, 0);
}

#[test]
fn active_areas_are_those_whose_window_contains_now() {
    let mut c = Contract::new_default_meta("owner.near".to_string(), lax_policy());
    c.open_area("owner.near".to_string(), "early".to_string(), 2, 100, 10, 50).unwrap();
    c.open_area("owner.near".to_string(), "late".to_string(), 2, 100, 100, 500).unwrap();
    let active = c.get_active_areas(200);
    assert_eq!(active.len(), 1);
    assert_eq!(active[0].name, "late");
    assert_eq!(c.get_all_areas().len(), 2);
}

#[test]
fn open_box_mints_sequential_company_tokens_and_requests_transfer() {
    let mut c = Contract::new_default_meta("owner.near".to_string(), lax_policy());
    let (req, _refund) = c.open_box("bob.near".to_string(), 77, 1_000_000).unwrap();
    assert_eq!(req.target_contract, "ft.nft-test.testnet");
    assert_eq!(req.receiver_id, "box.nft-test.testnet");
    assert_eq!(req.amount, "1");
    assert_eq!(req.memo.as_deref(), Some("Openbox"));
    assert_eq!(req.attached_deposit, 1);
    assert_eq!(req.gas, 15_000_000_000_000);
    assert_eq!(c.total, 1);
    let company = c.get_land("Company#0".to_string()).unwrap();
    assert_eq!(company.title.as_deref(), Some("Company#0"));
    assert_eq!(company.company_type.as_deref(), Some("finance"));
    assert_eq!(company.level, Some(1));
    assert_eq!(company.mining_efficiency, Some(20));
    assert_eq!(company.mining_power, Some(10));
    assert_eq!(company.issued_at, Some(77));

    c.open_box("bob.near".to_string(), 78, 1_000_000).unwrap();
    assert_eq!(c.total, 2);
    assert!(c.get_land("Company#1".to_string()).is_some());
    assert_eq!(c.get_companies_by_owner("bob.near".to_string()).len(), 2);
}

#[test]
fn error_messages() {
    assert_eq!(ContractError::DuplicateIdentifier.message(), "Token already exists");
    assert_eq!(ContractError::Unauthorized.message(), "Caller is not owner.");
    assert_eq!(ContractError::NotFound.message(), "Area no exist.");
    assert_eq!(
        ContractError::NotYetOpen.message(),
        "This area has not started selling lands yet"
    );
    assert_eq!(ContractError::WindowClosed.message(), "This area has ended lands sales");
    assert_eq!(ContractError::SoldOut.message(), "All lands are sold out");
    assert_eq!(ContractError::InsufficientDeposit.message(), "Deposit is insufficient");
}
