use nft::constants::{MAX_SUPPLY, MINT_COST, NFT_TOKEN_DESCRIPTION};
use nft::contract::{Contract, ContractError};
use nft::metadata::{standard_spec, ContractMetadata, MetadataError};
use nft::mint::EntryUpdate;
use nft::get_random_number;
use nft::is_valid_account_id;

fn s(x: &str) -> String {
    x.to_string()
}

fn sample_contract(owner: &str) -> Contract {
    Contract::new_init(
        s(owner),
        MINT_COST,
        None,
        666,
        s("Nephilim"),
        s("NEPH"),
        s("data:image/svg+xml,icon"),
        s("https://example.org/"),
        s("A drop"),
    )
}

fn open_contract(owner: &str) -> Contract {
    let mut c = sample_contract(owner);
    c.flip_public_sale(owner).unwrap();
    c
}

#[test]
fn test_mint() {
    let contract = open_contract("alice");
    let token = contract.nft_mint(s("alice"), MINT_COST, 0, 0).unwrap();
    assert_eq!(token.token_id, "1".to_string());
    assert_eq!(token.receiver_id, s("alice"));
}

#[test]
fn test_mint_multi() {
    let contract = sample_contract("alice");
    let token = contract
        .nft_mint_multi(s("alice"), MINT_COST * 3, 3, 0, 0)
        .unwrap();
    assert_eq!(token.len(), 3);
}

#[test]
fn test_rand_num() {
    let seed: Vec<u8> = (0u8..32).collect();
    let a = get_random_number(&seed, 5);
    println!("{}", a);
    assert_eq!(a, u32::from_le_bytes([5, 6, 7, 8]));
}

#[test]
fn test_add_white_list() {
    let contract = sample_contract("alice");
    let mut whitelist: Vec<(String, u32)> = Vec::new();
    let update = contract.add_to_whitelist("alice", 1).unwrap();
    assert_eq!(update, EntryUpdate::SetTo(1));
    if let EntryUpdate::SetTo(n) = update {
        whitelist.push((s("bob"), n));
    }
    let listed: Vec<String> = whitelist.iter().map(|e| e.0.clone()).collect();
    assert!(Contract::is_whitelisted(&listed, "bob"));
    assert!(!Contract::is_whitelisted(&listed, "charlie"));
}

#[test]
fn new_init_sets_up_closed_sales_and_owner_royalties() {
    let c = sample_contract("alice");
    assert_eq!(c.get_owner(), s("alice"));
    assert!(!c.get_sale_status());
    assert!(!c.get_presale_status());
    assert_eq!(c.get_mint_pirce(), MINT_COST);
    assert_eq!(c.get_wl_mint_price(), MINT_COST);
    assert_eq!(c.get_max_supply(), 666);
    assert_eq!(c.nft_metadata().spec, s("nft-1.0.0"));
    assert_eq!(c.nft_metadata().base_uri, Some(s("https://example.org/")));
    let royalties = c.royalties.as_ref().unwrap();
    assert_eq!(royalties.percent, 5);
    assert_eq!(royalties.accounts.get("alice"), Some(100));
    assert_eq!(royalties.accounts.len(), 1);
    assert_eq!(royalties.validate(), Ok(()));
}

#[test]
fn whitelist_price_defaults_to_mint_price_unless_given() {
    let c = Contract::new_init(
        s("alice"),
        10,
        Some(7),
        5,
        s("n"),
        s("s"),
        s("i"),
        s("b"),
        s("d"),
    );
    assert_eq!(c.get_mint_pirce(), 10);
    assert_eq!(c.get_wl_mint_price(), 7);
}

fn metadata(spec: &str, reference: Option<String>, hash: Option<Vec<u8>>) -> ContractMetadata {
    ContractMetadata {
        spec: s(spec),
        name: s("Nephilim"),
        symbol: s("NEPH"),
        icon: None,
        base_uri: None,
        reference,
        reference_hash: hash,
    }
}

#[test]
fn new_checks_metadata() {
    let bad_spec = Contract::new(s("alice"), metadata("nft-2.0.0", None, None), 1, None, 10, s("d"));
    assert_eq!(
        bad_spec.err(),
        Some(ContractError::InvalidMetadata(MetadataError::SpecMismatch))
    );
    let no_hash = Contract::new(
        s("alice"),
        metadata("nft-1.0.0", Some(s("ref.json")), None),
        1,
        None,
        10,
        s("d"),
    );
    assert_eq!(
        no_hash.err(),
        Some(ContractError::InvalidMetadata(MetadataError::ReferenceMismatch))
    );
    let short_hash = Contract::new(
        s("alice"),
        metadata("nft-1.0.0", Some(s("ref.json")), Some(vec![0u8; 31])),
        1,
        None,
        10,
        s("d"),
    );
    assert_eq!(
        short_hash.err(),
        Some(ContractError::InvalidMetadata(MetadataError::ReferenceHashLength))
    );
    let good = Contract::new(
        s("alice"),
        metadata("nft-1.0.0", Some(s("ref.json")), Some(vec![7u8; 32])),
        1,
        Some(2),
        10,
        s("d"),
    )
    .unwrap();
    assert_eq!(good.get_owner(), s("alice"));
    assert_eq!(good.get_wl_mint_price(), 2);
    assert_eq!(good.nft_metadata().reference, Some(s("ref.json")));
}

#[test]
fn standard_spec_is_nft_1_0_0() {
    assert_eq!(standard_spec(), s("nft-1.0.0"));
}

#[test]
fn owner_operations_refuse_others_and_change_nothing() {
    let mut c = sample_contract("alice");
    assert_eq!(c.flip_public_sale("bob"), Err(ContractError::NotOwner));
    assert_eq!(c.flip_presale("bob"), Err(ContractError::NotOwner));
    assert_eq!(c.set_mint_price("bob", 1), Err(ContractError::NotOwner));
    assert_eq!(c.set_wl_mint_price("bob", 1), Err(ContractError::NotOwner));
    assert_eq!(c.update_drop_supply("bob", 1), Err(ContractError::NotOwner));
    assert_eq!(c.update_uri("bob", s("x")), Err(ContractError::NotOwner));
    assert_eq!(c.transfer_ownership("bob", s("bob")), Err(ContractError::NotOwner));
    assert!(!c.get_sale_status());
    assert!(!c.get_presale_status());
    assert_eq!(c.get_mint_pirce(), MINT_COST);
    assert_eq!(c.get_wl_mint_price(), MINT_COST);
    assert_eq!(c.get_max_supply(), 666);
    assert_eq!(c.nft_metadata().base_uri, Some(s("https://example.org/")));
    assert_eq!(c.get_owner(), s("alice"));
    assert_eq!(c.assert_owner("bob"), Err(ContractError::NotOwner));
    assert_eq!(c.assert_owner("alice"), Ok(()));
}

#[test]
fn flipping_twice_restores_the_sale_flags() {
    let mut c = sample_contract("alice");
    c.flip_public_sale("alice").unwrap();
    assert!(c.get_sale_status());
    c.flip_public_sale("alice").unwrap();
    assert!(!c.get_sale_status());
    c.flip_presale("alice").unwrap();
    assert!(c.get_presale_status());
    c.flip_presale("alice").unwrap();
    assert!(!c.get_presale_status());
}

#[test]
fn owner_settings_read_back() {
    let mut c = sample_contract("alice");
    c.set_mint_price("alice", 42).unwrap();
    c.set_wl_mint_price("alice", 41).unwrap();
    c.update_drop_supply("alice", 1000).unwrap();
    c.update_uri("alice", s("ipfs://new/")).unwrap();
    assert_eq!(c.get_mint_pirce(), 42);
    assert_eq!(c.get_wl_mint_price(), 41);
    assert_eq!(c.get_max_supply(), 1000);
    assert_eq!(c.nft_metadata().base_uri, Some(s("ipfs://new/")));
    assert_eq!(c.nft_metadata().name, s("Nephilim"));
}

#[test]
fn transfer_ownership_moves_control() {
    let mut c = sample_contract("alice");
    c.transfer_ownership("alice", s("bob")).unwrap();
    assert_eq!(c.get_owner(), s("bob"));
    assert_eq!(c.flip_public_sale("alice"), Err(ContractError::NotOwner));
    assert_eq!(c.flip_public_sale("bob"), Ok(()));
}

#[test]
fn migrate_keeps_state_and_resets_royalties() {
    let mut prev = sample_contract("alice");
    prev.set_mint_price("alice", 9).unwrap();
    let refused = Contract::migrate(sample_contract("alice"), s("carol"), "bob");
    assert_eq!(refused.err(), Some(ContractError::NotOwner));
    let c = Contract::migrate(prev, s("carol"), "alice").unwrap();
    assert_eq!(c.get_owner(), s("alice"));
    assert_eq!(c.get_mint_pirce(), 9);
    let royalties = c.royalties.as_ref().unwrap();
    assert_eq!(royalties.accounts.get("carol"), Some(100));
    assert_eq!(royalties.accounts.get("alice"), None);
    assert_eq!(royalties.percent, 5);
}

#[test]
fn sub_contract_account_ids() {
    assert_eq!(
        Contract::create_sub_contract(s("drop"), "nft.near"),
        Ok(s("drop.nft.near"))
    );
    assert_eq!(
        Contract::create_sub_contract(s("Drop"), "nft.near"),
        Err(ContractError::InvalidAccountId)
    );
    assert_eq!(
        Contract::create_sub_contract(s(""), "nft.near"),
        Err(ContractError::InvalidAccountId)
    );
}

#[test]
fn account_id_rules() {
    assert!(is_valid_account_id("alice.near"));
    assert!(is_valid_account_id("a-b_c.d"));
    assert!(is_valid_account_id("aa"));
    assert!(!is_valid_account_id("a"));
    assert!(!is_valid_account_id("Alice"));
    assert!(!is_valid_account_id("a..b"));
    assert!(!is_valid_account_id(".ab"));
    assert!(!is_valid_account_id("ab."));
    assert!(!is_valid_account_id(&"a".repeat(65)));
    assert!(is_valid_account_id(&"a".repeat(64)));
}

#[test]
fn first_mint_metadata() {
    let p = Contract::internal_nft_mint(0, s("bob"), 1_700_000_000_000_000_000).unwrap();
    assert_eq!(p.token_id, s("1"));
    assert_eq!(p.receiver_id, s("bob"));
    assert_eq!(p.metadata.title, s("Nephilim#1"));
    assert_eq!(p.metadata.media, s("1.gif"));
    assert_eq!(p.metadata.reference, s("1.json"));
    assert_eq!(p.metadata.description, s(NFT_TOKEN_DESCRIPTION));
    assert_eq!(p.metadata.issued_at, s("1700000000000000000"));
}

#[test]
fn last_mint_and_exhausted_supply() {
    let p = Contract::internal_nft_mint(MAX_SUPPLY - 1, s("bob"), 0).unwrap();
    assert_eq!(p.token_id, MAX_SUPPLY.to_string());
    assert_eq!(p.metadata.issued_at, s("0"));
    assert_eq!(
        Contract::internal_nft_mint(MAX_SUPPLY, s("bob"), 0).err(),
        Some(ContractError::SupplyReached)
    );
}

#[test]
fn public_mint_refusals() {
    let closed = sample_contract("alice");
    assert_eq!(
        closed.nft_mint(s("bob"), MINT_COST, 0, 0).err(),
        Some(ContractError::PublicSaleNotActive)
    );
    let open = open_contract("alice");
    assert_eq!(
        open.nft_mint(s("bob"), MINT_COST - 1, 0, 0).err(),
        Some(ContractError::NotEnoughDeposit)
    );
    assert_eq!(
        open.nft_mint(s("bob"), MINT_COST, MAX_SUPPLY, 0).err(),
        Some(ContractError::SupplyReached)
    );
    let p = open.nft_mint(s("bob"), MINT_COST, 41, 0).unwrap();
    assert_eq!(p.token_id, s("42"));
}

#[test]
fn whitelist_mint_uses_one_allowance() {
    let mut c = sample_contract("alice");
    c.flip_presale("alice").unwrap();
    let (u, p) = c
        .whitelist_nft_mint(s("bob"), MINT_COST, Some(2), 3, 0)
        .unwrap();
    assert_eq!(u, EntryUpdate::SetTo(1));
    assert_eq!(p.token_id, s("4"));
    assert_eq!(p.receiver_id, s("bob"));
    let (u, _) = c
        .whitelist_nft_mint(s("bob"), MINT_COST, Some(1), 4, 0)
        .unwrap();
    assert_eq!(u, EntryUpdate::Remove);
    assert_eq!(
        c.whitelist_nft_mint(s("bob"), MINT_COST, None, 5, 0).err(),
        Some(ContractError::NotWhitelisted)
    );
    assert_eq!(
        c.whitelist_nft_mint(s("bob"), MINT_COST - 1, Some(1), 5, 0).err(),
        Some(ContractError::NotEnoughDeposit)
    );
    assert_eq!(
        c.whitelist_nft_mint(s("bob"), MINT_COST, Some(1), MAX_SUPPLY, 0).err(),
        Some(ContractError::SupplyReached)
    );
    let closed = sample_contract("alice");
    assert_eq!(
        closed.whitelist_nft_mint(s("bob"), MINT_COST, Some(1), 0, 0).err(),
        Some(ContractError::SaleNotActive)
    );
}

#[test]
fn whitelist_allowance_of_three_admits_three_mints() {
    let c = open_contract("alice");
    let mut entry = Some(3u32);
    let mut minted = 0u128;
    while let Some(_) = entry {
        let (u, p) = c
            .whitelist_nft_mint(s("bob"), MINT_COST, entry, minted, 0)
            .unwrap();
        assert_eq!(p.token_id, (minted + 1).to_string());
        entry = match u {
            EntryUpdate::Keep => entry,
            EntryUpdate::Remove => None,
            EntryUpdate::SetTo(n) => Some(n),
        };
        minted += 1;
    }
    assert_eq!(minted, 3);
}

#[test]
fn free_mint_entries() {
    let c = open_contract("alice");
    let (u, p) = c.free_mint(s("bob"), Some(1), 0, 0).unwrap();
    assert_eq!(u, EntryUpdate::Remove);
    assert_eq!(p.token_id, s("1"));
    let (u, _) = c.free_mint(s("bob"), Some(3), 0, 0).unwrap();
    assert_eq!(u, EntryUpdate::Keep);
    assert_eq!(
        c.free_mint(s("bob"), None, 0, 0).err(),
        Some(ContractError::NotInFreeMintList)
    );
    assert_eq!(
        c.free_mint(s("bob"), Some(1), MAX_SUPPLY, 0).err(),
        Some(ContractError::SupplyReached)
    );
    let closed = sample_contract("alice");
    assert_eq!(
        closed.free_mint(s("bob"), Some(1), 0, 0).err(),
        Some(ContractError::SaleNotActive)
    );
}

#[test]
fn multi_mint_ids_and_limits() {
    let c = sample_contract("alice");
    let v = c
        .nft_mint_multi(s("bob"), MINT_COST * 2, 2, MAX_SUPPLY - 2, 0)
        .unwrap();
    assert_eq!(v.len(), 2);
    assert_eq!(v[0].token_id, (MAX_SUPPLY - 1).to_string());
    assert_eq!(v[1].token_id, MAX_SUPPLY.to_string());
    assert_eq!(
        c.nft_mint_multi(s("bob"), MINT_COST * 3, 3, MAX_SUPPLY - 2, 0).err(),
        Some(ContractError::SupplyReached)
    );
    assert_eq!(
        c.nft_mint_multi(s("bob"), MINT_COST * 3 - 1, 3, 0, 0).err(),
        Some(ContractError::NotEnoughDeposit)
    );
    assert_eq!(c.nft_mint_multi(s("bob"), 0, 0, MAX_SUPPLY, 0).unwrap().len(), 0);
}

#[test]
fn whitelist_membership_and_amounts() {
    let c = sample_contract("alice");
    assert_eq!(c.add_to_whitelist("bob", 4), Err(ContractError::NotOwner));
    let listed = vec![s("bob"), s("carol")];
    assert!(Contract::is_whitelisted(&listed, "carol"));
    assert!(!Contract::is_whitelisted(&listed, "dave"));
    assert!(!Contract::is_whitelisted(&Vec::new(), "dave"));
    assert_eq!(Contract::get_wl_amount(Some(4)), 4);
    assert_eq!(Contract::get_wl_amount(None), 0);
}

#[test]
fn random_number_rotates_the_seed() {
    let seed: Vec<u8> = vec![1, 2, 3, 4, 5, 6];
    assert_eq!(get_random_number(&seed, 0), u32::from_le_bytes([1, 2, 3, 4]));
    assert_eq!(get_random_number(&seed, 4), u32::from_le_bytes([5, 6, 1, 2]));
    assert_eq!(get_random_number(&seed, 10), u32::from_le_bytes([5, 6, 1, 2]));
    let four: Vec<u8> = vec![255, 255, 255, 255];
    assert_eq!(get_random_number(&four, 7), u32::MAX);
}

#[test]
fn whitelist_mint_with_zero_or_no_allowance_mints_nothing() {
    let c = open_contract("alice");
    assert_eq!(
        c.whitelist_nft_mint(s("bob"), MINT_COST, None, 0, 0).err(),
        Some(ContractError::NotWhitelisted)
    );
    let closed = sample_contract("alice");
    assert_eq!(
        closed.whitelist_nft_mint(s("bob"), MINT_COST, Some(0), 0, 0).err(),
        Some(ContractError::SaleNotActive)
    );
    assert_eq!(
        c.whitelist_nft_mint(s("bob"), 0, Some(0), 0, 0).err(),
        Some(ContractError::NotEnoughDeposit)
    );
}

#[test]
fn new_init_is_new_with_standard_metadata() {
    let a = sample_contract("alice");
    let md = ContractMetadata {
        spec: standard_spec(),
        name: s("Nephilim"),
        symbol: s("NEPH"),
        icon: Some(s("data:image/svg+xml,icon")),
        base_uri: Some(s("https://example.org/")),
        reference: None,
        reference_hash: None,
    };
    let b = Contract::new(s("alice"), md, MINT_COST, None, 666, s("A drop")).unwrap();
    assert_eq!(a.get_owner(), b.get_owner());
    assert_eq!(a.nft_metadata().spec, b.nft_metadata().spec);
    assert_eq!(a.nft_metadata().name, b.nft_metadata().name);
    assert_eq!(a.nft_metadata().icon, b.nft_metadata().icon);
    assert_eq!(a.nft_metadata().base_uri, b.nft_metadata().base_uri);
    assert_eq!(a.get_mint_pirce(), b.get_mint_pirce());
    assert_eq!(a.get_wl_mint_price(), b.get_wl_mint_price());
    assert_eq!(a.get_max_supply(), b.get_max_supply());
    assert_eq!(a.description, b.description);
    let ra = a.royalties.as_ref().unwrap();
    let rb = b.royalties.as_ref().unwrap();
    assert_eq!(ra.percent, rb.percent);
    assert_eq!(ra.accounts.get("alice"), rb.accounts.get("alice"));
}
