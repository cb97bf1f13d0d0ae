use nft_simple::contract::Contract;
use nft_simple::error::MintError;
use nft_simple::str_map::StrMap;
use nft_simple::token::TokenMetadata;

fn s(x: &str) -> String {
    String::from(x)
}

fn md(extra: Option<&str>) -> TokenMetadata {
    TokenMetadata { title: Some(s("a token")), description: None, extra: extra.map(s) }
}

fn perp_map(entries: &[(&str, u32)]) -> StrMap<u32> {
    let mut m = StrMap::new();
    for (k, v) in entries {
        m.insert(s(k), *v);
    }
    m
}

const PLENTY: u128 = 1_000_000;

#[test]
fn minting_the_same_explicit_id_twice_fails_with_duplicate_token() {
    let mut c = Contract::new(s("alice"), 0, 100);
    let first = c.nft_mint(Some(s("t1")), md(None), None, None, s("alice"), PLENTY);
    assert!(first.is_ok());
    let second = c.nft_mint(Some(s("t1")), md(None), None, None, s("alice"), PLENTY);
    assert_eq!(second, Err(MintError::DuplicateToken));
}

#[test]
fn minted_token_records_owner_and_royalty() {
    let mut c = Contract::new(s("alice"), 500, 100);
    let perp = perp_map(&[("carol", 1000)]);
    let r = c.nft_mint(Some(s("t1")), md(None), Some(perp), None, s("bob"), PLENTY);
    assert!(r.is_ok());
    let token = c.token_by_id(&s("t1")).expect("the token must be recorded");
    assert_eq!(token.owner_id.as_str(), "bob");
    assert_eq!(token.next_approval_id, 0);
    assert_eq!(token.approved_account_ids.len(), 0);
    assert_eq!(token.royalty.get(&s("owner:bob")).copied(), Some(8500));
    assert_eq!(token.royalty.get(&s("alice")).copied(), Some(500));
    assert_eq!(token.royalty.get(&s("carol")).copied(), Some(1000));
    let bobs_ids = c.tokens_per_owner.get(&s("bob")).expect("bob's owner index exists");
    assert!(bobs_ids.contains(&s("t1")));
}

#[test]
fn receiver_override_owns_the_token() {
    let mut c = Contract::new(s("alice"), 0, 100);
    let r = c.nft_mint(Some(s("t1")), md(None), None, Some(s("carol")), s("bob"), PLENTY);
    assert!(r.is_ok());
    let token = c.token_by_id(&s("t1")).expect("the token must be recorded");
    assert_eq!(token.owner_id.as_str(), "carol");
    assert_eq!(token.royalty.get(&s("owner:carol")).copied(), Some(10000));
}

#[test]
fn missing_id_resolves_to_registry_size_plus_one() {
    let mut c = Contract::new(s("alice"), 0, 100);
    assert!(c.nft_mint(None, md(None), None, None, s("alice"), PLENTY).is_ok());
    assert!(c.nft_mint(None, md(None), None, None, s("alice"), PLENTY).is_ok());
    assert!(c.token_by_id(&s("1")).is_some());
    assert!(c.token_by_id(&s("2")).is_some());
    assert!(c.token_by_id(&s("3")).is_none());
}

#[test]
fn supply_cap_limits_mints_of_a_configured_type() {
    let mut c = Contract::new(s("alice"), 0, 100);
    c.set_hard_cap(s("rare"), 2);
    let first = c.nft_mint(Some(s("t1")), md(Some("rare")), None, None, s("alice"), PLENTY);
    assert!(first.is_ok());
    let second = c.nft_mint(Some(s("t2")), md(Some("rare")), None, None, s("alice"), PLENTY);
    assert!(second.is_ok());
    assert_eq!(c.nft_supply_for_type(&s("rare")), 2);
    let third = c.nft_mint(Some(s("t3")), md(Some("rare")), None, None, s("alice"), PLENTY);
    assert_eq!(third, Err(MintError::SupplyExhausted));
    assert_eq!(c.nft_supply_for_type(&s("rare")), 2);
    assert!(c.token_by_id(&s("t3")).is_none());
    let rare_ids = c.tokens_per_type.get(&s("rare")).expect("the rare type has a set");
    assert_eq!(rare_ids.item_at(0).as_str(), "t1");
    assert_eq!(rare_ids.item_at(1).as_str(), "t2");
    assert!(!rare_ids.contains(&s("t3")));
}

#[test]
fn unconfigured_type_fails_with_unknown_token_type() {
    let mut c = Contract::new(s("alice"), 0, 100);
    c.set_hard_cap(s("rare"), 2);
    let r = c.nft_mint(Some(s("t1")), md(Some("epic")), None, None, s("alice"), PLENTY);
    assert_eq!(r, Err(MintError::UnknownTokenType));
    assert!(c.token_by_id(&s("t1")).is_none());
}

#[test]
fn short_payment_fails_and_commits_nothing() {
    let mut c = Contract::new(s("alice"), 0, 100);
    c.set_hard_cap(s("rare"), 2);
    let r = c.nft_mint(Some(s("t1")), md(Some("rare")), None, None, s("bob"), 10);
    assert_eq!(r, Err(MintError::InsufficientDeposit));
    // No token, metadata, owner-index or type-set entry is observable.
    assert!(c.token_by_id(&s("t1")).is_none());
    assert_eq!(c.tokens_by_id.len(), 0);
    assert_eq!(c.token_metadata_by_id.len(), 0);
    assert_eq!(c.tokens_per_owner.len(), 0);
    assert_eq!(c.tokens_per_type.len(), 0);
    assert_eq!(c.nft_supply_for_type(&s("rare")), 0);
}

#[test]
fn exact_refund_of_the_excess_payment() {
    // Token record: id(2) + owner(5) + 8 + royalty("owner:alice" = 11 chars + 4) = 30.
    // Metadata record: id(2) + title(7) = 9.  Owner index: 5 + 2 = 7.
    // Required = 100 (baseline) + 30 + 9 + 7 = 146.
    let mut c = Contract::new(s("alice"), 0, 100);
    let r = c.nft_mint(Some(s("t1")), md(None), None, None, s("alice"), 1000);
    assert_eq!(r, Ok(1000 - 146));
}

#[test]
fn exact_payment_refunds_nothing() {
    let mut c = Contract::new(s("alice"), 0, 100);
    let r = c.nft_mint(Some(s("t1")), md(None), None, None, s("alice"), 146);
    assert_eq!(r, Ok(0));
    let short = c.nft_mint(Some(s("t2")), md(None), None, None, s("alice"), 145);
    assert_eq!(short, Err(MintError::InsufficientDeposit));
}

#[test]
fn type_set_creation_is_charged_once() {
    // First mint of a type pays for the new set (tag, 4 chars) and its id
    // entry; the second mint of the same type pays for its id entry only.
    let mut c = Contract::new(s("alice"), 0, 100);
    c.set_hard_cap(s("rare"), 9);
    let first = c.nft_mint(Some(s("t1")), md(Some("rare")), None, None, s("alice"), PLENTY);
    let second = c.nft_mint(Some(s("t2")), md(Some("rare")), None, None, s("alice"), PLENTY);
    // Metadata extra adds 4 chars to the metadata record of both mints.
    // First: 146 + 4 + (2 + 4) = 156 consumed; second: 146 + 4 + 2 = 152.
    assert_eq!(first, Ok(PLENTY - 156));
    assert_eq!(second, Ok(PLENTY - 152));
}

#[test]
fn failed_mint_preserves_earlier_mints() {
    let mut c = Contract::new(s("alice"), 0, 100);
    assert!(c.nft_mint(Some(s("t1")), md(None), None, None, s("alice"), PLENTY).is_ok());
    let perp = perp_map(&[("a1", 3000)]);
    let r = c.nft_mint(Some(s("t2")), md(None), Some(perp), None, s("bob"), PLENTY);
    assert_eq!(r, Err(MintError::RoyaltyTooHigh));
    assert!(c.token_by_id(&s("t1")).is_some());
    assert!(c.token_by_id(&s("t2")).is_none());
    assert_eq!(c.tokens_by_id.len(), 1);
}
