use nft::account_map::AccountMap;
use nft::contract::{Contract, ContractError};
use nft::royalty::{apply_percent, Payout, Royalties, RoyaltyError};
use nft::text::u128_to_decimal;

fn s(x: &str) -> String {
    x.to_string()
}

fn shares(entries: &[(&str, u8)]) -> AccountMap<u8> {
    let mut m = AccountMap::new();
    for (k, v) in entries {
        m.insert(s(k), *v);
    }
    m
}

fn paid(p: &Payout, account: &str) -> Option<u128> {
    p.payout.get(account)
}

fn total(p: &Payout) -> u128 {
    let mut t = 0u128;
    for i in 0..p.payout.len() {
        t += p.payout.entry_at(i).1;
    }
    t
}

#[test]
fn royalty_rules() {
    assert_eq!(
        Royalties::new(shares(&[("a", 50)]), 101).err(),
        Some(RoyaltyError::PercentTooHigh)
    );
    let eleven: Vec<(String, u8)> = (0..11).map(|i| (format!("acc{}", i), 1u8)).collect();
    let mut many = AccountMap::new();
    for (k, v) in eleven {
        many.insert(k, v);
    }
    assert_eq!(
        Royalties::new(many, 10).err(),
        Some(RoyaltyError::TooManyAccounts)
    );
    assert_eq!(
        Royalties::new(shares(&[("a", 101)]), 10).err(),
        Some(RoyaltyError::ShareTooHigh)
    );
    assert_eq!(
        Royalties::new(shares(&[("a", 60), ("b", 41)]), 10).err(),
        Some(RoyaltyError::TotalTooHigh)
    );
    let ok = Royalties::new(shares(&[("a", 60), ("b", 40)]), 100).unwrap();
    assert_eq!(ok.percent, 100);
    assert_eq!(ok.validate(), Ok(()));
}

#[test]
fn apply_percent_rounds_down() {
    assert_eq!(apply_percent(5, 1000), 50);
    assert_eq!(apply_percent(33, 10), 3);
    assert_eq!(apply_percent(0, 1000), 0);
    assert_eq!(apply_percent(100, 7), 7);
}

#[test]
fn payout_splits_royalty_and_rest() {
    let r = Royalties::new(shares(&[("a", 60), ("b", 40)]), 10).unwrap();
    assert!(r.can_pay_out(1000, "c"));
    let p = r.create_payout(1000, "c");
    assert_eq!(paid(&p, "a"), Some(60));
    assert_eq!(paid(&p, "b"), Some(40));
    assert_eq!(paid(&p, "c"), Some(900));
    assert_eq!(p.payout.len(), 3);
    assert_eq!(total(&p), 1000);
}

#[test]
fn owner_with_a_split_gets_it_on_top_of_the_rest() {
    let r = Royalties::new(shares(&[("alice", 100)]), 5).unwrap();
    let p = r.create_payout(1000, "alice");
    assert_eq!(paid(&p, "alice"), Some(1000));
    assert_eq!(p.payout.len(), 1);
}

#[test]
fn rounding_never_pays_more_than_the_balance() {
    let r = Royalties::new(shares(&[("a", 33), ("b", 33), ("c", 34)]), 7).unwrap();
    let p = r.create_payout(999, "o");
    assert_eq!(paid(&p, "a"), Some(22));
    assert_eq!(paid(&p, "b"), Some(22));
    assert_eq!(paid(&p, "c"), Some(23));
    assert_eq!(paid(&p, "o"), Some(930));
    assert_eq!(total(&p), 997);
    assert!(total(&p) <= 999);
}

#[test]
fn payout_bounds_are_checked() {
    let r = Royalties::new(shares(&[("a", 50)]), 5).unwrap();
    assert!(!r.can_pay_out(u128::MAX, "o"));
    assert!(r.can_pay_out(u128::MAX / 100, "o"));
}

#[test]
fn contract_payout_needs_a_token_owner() {
    let c = Contract::new_init(
        s("alice"),
        1,
        None,
        10,
        s("n"),
        s("s"),
        s("i"),
        s("b"),
        s("d"),
    );
    assert_eq!(
        c.nft_payout(None, 100, None).err(),
        Some(ContractError::NoSuchToken)
    );
    let p = c.nft_payout(Some(s("bob")), 1000, None).unwrap();
    assert_eq!(paid(&p, "alice"), Some(50));
    assert_eq!(paid(&p, "bob"), Some(950));
    assert_eq!(
        c.nft_transfer_payout(0, Some(s("bob")), 1000, None).err(),
        Some(ContractError::RequiresOneYocto)
    );
    let q = c.nft_transfer_payout(1, Some(s("bob")), 1000, None).unwrap();
    assert_eq!(paid(&q, "bob"), Some(950));
}

#[test]
fn no_royalties_pay_nobody() {
    let mut c = Contract::new_init(
        s("alice"),
        1,
        None,
        10,
        s("n"),
        s("s"),
        s("i"),
        s("b"),
        s("d"),
    );
    c.royalties = None;
    let p = c.nft_payout(Some(s("bob")), 1000, Some(0)).unwrap();
    assert_eq!(p.payout.len(), 0);
    assert_eq!(Payout::empty().payout.len(), 0);
}

#[test]
fn account_map_insert_updates_in_place() {
    let mut m: AccountMap<u32> = AccountMap::new();
    m.insert(s("a"), 1);
    m.insert(s("b"), 2);
    m.insert(s("a"), 3);
    assert_eq!(m.len(), 2);
    assert_eq!(m.get("a"), Some(3));
    assert_eq!(m.get("b"), Some(2));
    assert_eq!(m.get("c"), None);
    assert_eq!(m.entry_at(0).0, &s("a"));
    assert_eq!(m.position("b"), Some(1));
}

#[test]
fn decimal_text() {
    assert_eq!(u128_to_decimal(0), s("0"));
    assert_eq!(u128_to_decimal(9), s("9"));
    assert_eq!(u128_to_decimal(10), s("10"));
    assert_eq!(u128_to_decimal(1234567890), s("1234567890"));
    assert_eq!(u128_to_decimal(u128::MAX), u128::MAX.to_string());
}

#[test]
fn token_ids_differ_for_different_supplies() {
    let a = Contract::internal_nft_mint(10, s("x"), 0).unwrap();
    let b = Contract::internal_nft_mint(100, s("x"), 0).unwrap();
    assert_ne!(a.token_id, b.token_id);
    assert_eq!(a.token_id, s("11"));
    assert_eq!(b.token_id, s("101"));
}

#[test]
fn payout_longer_than_the_limit_is_refused() {
    let c = Contract::new_init(
        s("alice"),
        1,
        None,
        10,
        s("n"),
        s("s"),
        s("i"),
        s("b"),
        s("d"),
    );
    assert_eq!(
        c.nft_payout(Some(s("bob")), 1000, Some(1)).err(),
        Some(ContractError::PayoutTooLong)
    );
    assert_eq!(
        c.nft_payout(Some(s("bob")), 1000, Some(0)).err(),
        Some(ContractError::PayoutTooLong)
    );
    let p = c.nft_payout(Some(s("bob")), 1000, Some(2)).unwrap();
    assert_eq!(p.payout.len(), 2);
    let own = c.nft_payout(Some(s("alice")), 1000, Some(1)).unwrap();
    assert_eq!(paid(&own, "alice"), Some(1000));
    assert_eq!(
        c.nft_transfer_payout(1, Some(s("bob")), 1000, Some(1)).err(),
        Some(ContractError::PayoutTooLong)
    );
    assert_eq!(
        c.nft_transfer_payout(2, Some(s("bob")), 1000, Some(1)).err(),
        Some(ContractError::RequiresOneYocto)
    );
}
