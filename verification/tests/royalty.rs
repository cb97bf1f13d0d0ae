use nft_simple::error::MintError;
use nft_simple::royalty::compute_royalty;
use nft_simple::str_map::StrMap;

fn s(x: &str) -> String {
    String::from(x)
}

fn perp_map(entries: &[(&str, u32)]) -> StrMap<u32> {
    let mut m = StrMap::new();
    for (k, v) in entries {
        m.insert(s(k), *v);
    }
    m
}

fn values_total(m: &StrMap<u32>) -> u64 {
    let mut total: u64 = 0;
    let mut i = 0;
    while i < m.len() {
        total += u64::from(*m.val_at(i));
        i += 1;
    }
    total
}

fn value_of(m: &StrMap<u32>, key: &str) -> Option<u32> {
    m.get(&s(key)).copied()
}

#[test]
fn sample_split_sums_to_exactly_10000() {
    let perp = perp_map(&[("carol", 700), ("dave", 800), ("erin", 500)]);
    let r = compute_royalty(&s("bob"), Some(&perp), &s("alice"), 300);
    let m = r.expect("a valid perpetual map must split");
    assert_eq!(values_total(&m), 10000);
}

#[test]
fn primary_sale_split_sums_to_exactly_10000() {
    let perp = perp_map(&[("carol", 2000)]);
    let r = compute_royalty(&s("alice"), Some(&perp), &s("alice"), 300);
    let m = r.expect("a primary sale must split");
    assert_eq!(values_total(&m), 10000);
}

#[test]
fn owner_mint_without_royalties_gives_owner_everything() {
    // Contract owner alice, cut 0, no receiver, no perpetual royalties.
    let r = compute_royalty(&s("alice"), None, &s("alice"), 0);
    let m = r.expect("the empty split must succeed");
    assert_eq!(m.len(), 1);
    assert_eq!(m.key_at(0).as_str(), "owner:alice");
    assert_eq!(*m.val_at(0), 10000);
}

#[test]
fn minter_sentinel_contract_cut_and_perpetual_shares() {
    // Contract owner alice, cut 500; bob mints with perpetual {carol: 1000}.
    let perp = perp_map(&[("carol", 1000)]);
    let r = compute_royalty(&s("bob"), Some(&perp), &s("alice"), 500);
    let m = r.expect("the split must succeed");
    assert_eq!(m.len(), 3);
    assert_eq!(value_of(&m, "owner:bob"), Some(8500));
    assert_eq!(value_of(&m, "alice"), Some(500));
    assert_eq!(value_of(&m, "carol"), Some(1000));
    assert_eq!(values_total(&m), 10000);
}

#[test]
fn six_entries_with_sum_2000_succeed() {
    let perp = perp_map(&[
        ("a1", 300),
        ("a2", 300),
        ("a3", 300),
        ("a4", 300),
        ("a5", 300),
        ("a6", 500),
    ]);
    let r = compute_royalty(&s("bob"), Some(&perp), &s("alice"), 500);
    let m = r.expect("six entries summing to 2000 must succeed");
    assert_eq!(values_total(&m), 10000);
}

#[test]
fn seven_entries_fail_with_too_many_royalties() {
    let perp = perp_map(&[
        ("a1", 100),
        ("a2", 100),
        ("a3", 100),
        ("a4", 100),
        ("a5", 100),
        ("a6", 100),
        ("a7", 100),
    ]);
    let r = compute_royalty(&s("bob"), Some(&perp), &s("alice"), 500);
    assert!(matches!(r, Err(MintError::TooManyRoyalties)));
}

#[test]
fn sum_2001_fails_with_royalty_too_high() {
    let perp = perp_map(&[("carol", 2001)]);
    let r = compute_royalty(&s("bob"), Some(&perp), &s("alice"), 0);
    assert!(matches!(r, Err(MintError::RoyaltyTooHigh)));
}

#[test]
fn perpetual_key_equal_to_contract_owner_unbalances_the_split() {
    // The caller placed the contract owner's real account key in the
    // perpetual map; the contract's cut overwrites it and the defensive sum
    // check refuses the mint.
    let perp = perp_map(&[("alice", 500)]);
    let r = compute_royalty(&s("bob"), Some(&perp), &s("alice"), 0);
    assert!(matches!(r, Err(MintError::RoyaltyImbalance)));
}

#[test]
fn error_messages_name_the_violated_invariant() {
    assert_eq!(MintError::DuplicateToken.message(), "Token already exists");
    assert_eq!(
        MintError::TooManyRoyalties.message(),
        "Cannot add more than 6 perpetual royalty amounts"
    );
    assert_eq!(
        MintError::RoyaltyTooHigh.message(),
        "Perpetual royalties cannot be more than 20%"
    );
}
