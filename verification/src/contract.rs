//! The contract's own state, its owner-only administration and its
//! initialisation.

use vstd::prelude::*;
use vstd::utf8::encode_utf8;

use crate::account::{is_valid_account_id, valid_account_bytes};
use crate::account_map::AccountMap;
use crate::metadata::{ContractMetadata, MetadataError};
use crate::royalty::Royalties;

verus! {

/// Why the contract refuses a call.
#[derive(Debug, Clone, Copy, PartialEq, Eq, Structural)]
pub enum ContractError {
    /// The caller is not the contract's owner.
    NotOwner,
    /// The contract metadata breaks a rule of the metadata standard.
    InvalidMetadata(MetadataError),
    /// The name built for a sub-account is not a valid account id.
    InvalidAccountId,
    /// Neither the pre-sale nor the public sale is open.
    SaleNotActive,
    /// The public sale is not open.
    PublicSaleNotActive,
    /// The attached deposit does not pay for the tokens asked for.
    NotEnoughDeposit,
    /// The caller has no free mint left.
    NotInFreeMintList,
    /// The caller is not on the whitelist.
    NotWhitelisted,
    /// The supply of tokens is exhausted.
    SupplyReached,
    /// No token has the given id.
    NoSuchToken,
    /// The call must carry a deposit of exactly one yoctoNEAR.
    RequiresOneYocto,
    /// The payout has more entries than the caller allows.
    PayoutTooLong,
}

/// State of the sale contract, apart from the token ledger and the two
/// allowance lists, which live in the chain's storage. Tokens are minted in
/// order of their ids, so the state holds no pool of tokens to draw from:
/// `update_drop_supply`, `new` and `migrate` only set or keep `max_supply`,
/// whose value is not limited.
pub struct Contract {
    /// The account allowed to administer the contract.
    pub owner_id: String,
    /// Metadata of the token collection.
    pub metadata: ContractMetadata,
    /// Royalties paid on each sale, once they are set.
    pub royalties: Option<Royalties>,
    /// Size of the drop.
    pub max_supply: u128,
    /// Price of a public mint.
    pub mint_price: u128,
    /// Price of a whitelist mint.
    pub wl_price: u128,
    /// Whether the public sale is open.
    pub sales_active: bool,
    /// Whether the pre-sale is open.
    pub pre_sale_active: bool,
    /// Free text describing the drop.
    pub description: String,
}

/// The royalty split set up at initialisation: all of it to `owner`, at 5
/// percent, which passes the royalty rules.
pub open spec fn owner_royalties(r: Option<Royalties>, owner: Seq<char>) -> bool {
    &&& r matches Some(x)
    &&& x.percent == 5
    &&& x.accounts.entry_seq() == seq![(owner, 100u8)]
    &&& x.accounts@ == map![owner => 100u8]
    &&& x.is_valid()
}

/// Royalties of 5 percent, all paid to `owner_id`.
fn royalties_for(owner_id: String) -> (r: Option<Royalties>)
    ensures
        owner_royalties(r, owner_id@),
{
    let mut accounts: AccountMap<u8> = AccountMap::new();
    let ghost key = owner_id@;
    accounts.insert(owner_id, 100u8);
    let r = Royalties { accounts, percent: 5u8 };
    proof {
        let s = r.accounts.entry_seq();
        assert(s == seq![(key, 100u8)]);
        assert(s.drop_last() =~= Seq::<(Seq<char>, u8)>::empty());
        assert(s.last() == (key, 100u8));
        assert(crate::royalty::share_total(s.drop_last()) == 0);
        assert(crate::royalty::share_total(s) == 100);
        assert(r.accounts@ =~= map![key => 100u8]);
    }
    Some(r)
}

impl Contract {
    /// Whether `account` is the owner.
    pub open spec fn is_owner(&self, account: Seq<char>) -> bool {
        self.owner_id@ == account
    }

    /// The state after the owner flips the public sale.
    pub open spec fn with_public_sale_flipped(self) -> Contract {
        Contract { sales_active: !self.sales_active, ..self }
    }

    /// The state after the owner flips the pre-sale.
    pub open spec fn with_presale_flipped(self) -> Contract {
        Contract { pre_sale_active: !self.pre_sale_active, ..self }
    }

    /// Checks that `account_id` is the owner.
    pub fn assert_owner(&self, account_id: &str) -> (r: Result<(), ContractError>)
        ensures
            r is Ok <==> self.is_owner(account_id@),
            r is Err ==> r == Err::<(), ContractError>(ContractError::NotOwner),
    {
        if String::from_str(account_id) == self.owner_id {
            Ok(())
        } else {
            Err(ContractError::NotOwner)
        }
    }

    /// Opens the public sale if it is closed, and closes it if it is open.
    pub fn flip_public_sale(&mut self, signer: &str) -> (r: Result<(), ContractError>)
        ensures
            old(self).is_owner(signer@) ==> r is Ok && *final(self) == old(self).with_public_sale_flipped(),
            old(self).is_owner(signer@) ==> final(self).sales_active == !old(self).sales_active
                && final(self).pre_sale_active == old(self).pre_sale_active
                && final(self).owner_id == old(self).owner_id && final(self).mint_price == old(self).mint_price
                && final(self).wl_price == old(self).wl_price && final(self).max_supply == old(self).max_supply,
            !old(self).is_owner(signer@) ==> r == Err::<(), ContractError>(ContractError::NotOwner)
                && *final(self) == *old(self),
    {
        self.assert_owner(signer)?;
        self.sales_active = !self.sales_active;
        Ok(())
    }

    /// Opens the pre-sale if it is closed, and closes it if it is open.
    pub fn flip_presale(&mut self, signer: &str) -> (r: Result<(), ContractError>)
        ensures
            old(self).is_owner(signer@) ==> r is Ok && *final(self) == old(self).with_presale_flipped(),
            old(self).is_owner(signer@) ==> final(self).pre_sale_active == !old(self).pre_sale_active
                && final(self).sales_active == old(self).sales_active
                && final(self).owner_id == old(self).owner_id && final(self).mint_price == old(self).mint_price
                && final(self).wl_price == old(self).wl_price && final(self).max_supply == old(self).max_supply,
            !old(self).is_owner(signer@) ==> r == Err::<(), ContractError>(ContractError::NotOwner)
                && *final(self) == *old(self),
    {
        self.assert_owner(signer)?;
        self.pre_sale_active = !self.pre_sale_active;
        Ok(())
    }

    /// Hands the contract over to `account_id`.
    pub fn transfer_ownership(&mut self, signer: &str, account_id: String) -> (r: Result<(), ContractError>)
        ensures
            old(self).is_owner(signer@) ==> r is Ok && *final(self) == (Contract { owner_id: account_id, ..*old(self) }),
            !old(self).is_owner(signer@) ==> r == Err::<(), ContractError>(ContractError::NotOwner)
                && *final(self) == *old(self),
    {
        self.assert_owner(signer)?;
        self.owner_id = account_id;
        Ok(())
    }

    /// Sets the price of a public mint.
    pub fn set_mint_price(&mut self, signer: &str, price: u128) -> (r: Result<(), ContractError>)
        ensures
            old(self).is_owner(signer@) ==> r is Ok && *final(self) == (Contract { mint_price: price, ..*old(self) }),
            !old(self).is_owner(signer@) ==> r == Err::<(), ContractError>(ContractError::NotOwner)
                && *final(self) == *old(self),
    {
        self.assert_owner(signer)?;
        self.mint_price = price;
        Ok(())
    }

    /// Sets the price of a whitelist mint.
    pub fn set_wl_mint_price(&mut self, signer: &str, price: u128) -> (r: Result<(), ContractError>)
        ensures
            old(self).is_owner(signer@) ==> r is Ok && *final(self) == (Contract { wl_price: price, ..*old(self) }),
            !old(self).is_owner(signer@) ==> r == Err::<(), ContractError>(ContractError::NotOwner)
                && *final(self) == *old(self),
    {
        self.assert_owner(signer)?;
        self.wl_price = price;
        Ok(())
    }

    /// Sets the size of the drop to `add_supply`.
    pub fn update_drop_supply(&mut self, signer: &str, add_supply: u128) -> (r: Result<(), ContractError>)
        ensures
            old(self).is_owner(signer@) ==> r is Ok && *final(self) == (Contract { max_supply: add_supply, ..*old(self) }),
            !old(self).is_owner(signer@) ==> r == Err::<(), ContractError>(ContractError::NotOwner)
                && *final(self) == *old(self),
    {
        self.assert_owner(signer)?;
        self.max_supply = add_supply;
        Ok(())
    }

    /// Points the collection's metadata at a new base URI.
    pub fn update_uri(&mut self, signer: &str, uri: String) -> (r: Result<(), ContractError>)
        ensures
            old(self).is_owner(signer@) ==> r is Ok && *final(self) == (Contract {
                metadata: ContractMetadata { base_uri: Some(uri), ..old(self).metadata },
                ..*old(self)
            }),
            !old(self).is_owner(signer@) ==> r == Err::<(), ContractError>(ContractError::NotOwner)
                && *final(self) == *old(self),
    {
        self.assert_owner(signer)?;
        self.metadata.base_uri = Some(uri);
        Ok(())
    }

    /// The owner of the contract.
    pub fn get_owner(&self) -> (r: String)
        ensures
            r@ == self.owner_id@,
    {
        self.owner_id.clone()
    }

    /// Whether the public sale is open.
    pub fn get_sale_status(&self) -> (r: bool)
        ensures
            r == self.sales_active,
    {
        self.sales_active
    }

    /// Whether the pre-sale is open.
    pub fn get_presale_status(&self) -> (r: bool)
        ensures
            r == self.pre_sale_active,
    {
        self.pre_sale_active
    }

    /// Price of a public mint.
    pub fn get_mint_pirce(&self) -> (r: u128)
        ensures
            r == self.mint_price,
    {
        self.mint_price
    }

    /// Price of a whitelist mint.
    pub fn get_wl_mint_price(&self) -> (r: u128)
        ensures
            r == self.wl_price,
    {
        self.wl_price
    }

    /// Size of the drop.
    pub fn get_max_supply(&self) -> (r: u128)
        ensures
            r == self.max_supply,
    {
        self.max_supply
    }

    /// Metadata of the collection.
    pub fn nft_metadata(&self) -> (r: &ContractMetadata)
        ensures
            *r == self.metadata,
    {
        &self.metadata
    }

    /// The state set up by `new` once the metadata has passed its checks.
    pub open spec fn initial(
        self,
        owner_id: Seq<char>,
        metadata: ContractMetadata,
        mint_price: u128,
        wl_price: Option<u128>,
        max_supply: u128,
        description: Seq<char>,
    ) -> bool {
        &&& self.owner_id@ == owner_id
        &&& self.metadata == metadata
        &&& owner_royalties(self.royalties, owner_id)
        &&& self.max_supply == max_supply
        &&& self.mint_price == mint_price
        &&& self.wl_price == match wl_price {
            Some(p) => p,
            None => mint_price,
        }
        &&& !self.sales_active
        &&& !self.pre_sale_active
        &&& self.description@ == description
    }

    fn init_state(
        owner_id: String,
        metadata: ContractMetadata,
        mint_price: u128,
        wl_price: Option<u128>,
        max_supply: u128,
        description: String,
    ) -> (r: Contract)
        ensures
            r.initial(owner_id@, metadata, mint_price, wl_price, max_supply, description@),
    {
        let royalties = royalties_for(owner_id.clone());
        Contract {
            owner_id,
            metadata,
            royalties,
            max_supply,
            mint_price,
            wl_price: match wl_price {
                Some(p) => p,
                None => mint_price,
            },
            sales_active: false,
            pre_sale_active: false,
            description,
        }
    }

    /// Sets up the contract for `owner_id`, with both sales closed and all
    /// royalties going to the owner, provided the metadata passes its checks.
    pub fn new(
        owner_id: String,
        metadata: ContractMetadata,
        mint_price: u128,
        wl_price: Option<u128>,
        max_supply: u128,
        description: String,
    ) -> (r: Result<Contract, ContractError>)
        ensures
            match metadata.metadata_error() {
                Some(e) => r == Err::<Contract, ContractError>(ContractError::InvalidMetadata(e)),
                None => r matches Ok(c) && c.initial(
                    owner_id@,
                    metadata,
                    mint_price,
                    wl_price,
                    max_supply,
                    description@,
                ),
            },
            r matches Ok(c) ==> c.mint_price == mint_price && c.wl_price == (if wl_price is Some {
                wl_price.unwrap()
            } else {
                mint_price
            }) && !c.sales_active && !c.pre_sale_active && c.max_supply == max_supply,
            r is Ok ==> (metadata.reference is Some) == (metadata.reference_hash is Some)
                && metadata.spec@ == crate::metadata::metadata_spec_text(),
    {
        match metadata.assert_valid() {
            Err(e) => Err(ContractError::InvalidMetadata(e)),
            Ok(()) => Ok(
                Self::init_state(owner_id, metadata, mint_price, wl_price, max_supply, description),
            ),
        }
    }

    /// Sets up the contract with metadata of the current standard built from
    /// the name, symbol, icon and base URI given.
    pub fn new_init(
        owner_id: String,
        mint_price: u128,
        wl_price: Option<u128>,
        max_supply: u128,
        nft_name: String,
        nft_symbol: String,
        icon: String,
        base_uri: String,
        description: String,
    ) -> (r: Contract)
        ensures
            r.initial(
                owner_id@,
                ContractMetadata {
                    spec: r.metadata.spec,
                    name: nft_name,
                    symbol: nft_symbol,
                    icon: Some(icon),
                    base_uri: Some(base_uri),
                    reference: None,
                    reference_hash: None,
                },
                mint_price,
                wl_price,
                max_supply,
                description@,
            ),
            r.metadata.spec@ == crate::metadata::metadata_spec_text(),
            r.mint_price == mint_price,
            wl_price is None ==> r.wl_price == mint_price,
            wl_price matches Some(p) ==> r.wl_price == p,
            !r.sales_active && !r.pre_sale_active,
    {
        let metadata = ContractMetadata {
            spec: crate::metadata::standard_spec(),
            name: nft_name,
            symbol: nft_symbol,
            icon: Some(icon),
            base_uri: Some(base_uri),
            reference: None,
            reference_hash: None,
        };
        Self::init_state(owner_id, metadata, mint_price, wl_price, max_supply, description)
    }

    /// The state after a migration by the owner: everything is kept but the
    /// royalties, which go entirely to `owner_id` again.
    pub fn migrate(prev: Contract, owner_id: String, signer: &str) -> (r: Result<Contract, ContractError>)
        ensures
            !prev.is_owner(signer@) ==> r == Err::<Contract, ContractError>(ContractError::NotOwner),
            prev.is_owner(signer@) ==> (r matches Ok(c) && c == (Contract { royalties: c.royalties, ..prev })
                && owner_royalties(c.royalties, owner_id@)),
    {
        if let Err(e) = prev.assert_owner(signer) {
            return Err(e);
        }
        let royalties = royalties_for(owner_id);
        Ok(Contract { royalties, ..prev })
    }

    /// The account id of a sub-account `account_prefix`.`current_account_id`,
    /// when the runtime accepts it as an account id.
    pub fn create_sub_contract(account_prefix: String, current_account_id: &str) -> (r: Result<String, ContractError>)
        ensures
            ({
                let text = account_prefix@ + seq!['.'] + current_account_id@;
                &&& valid_account_bytes(encode_utf8(text)) ==> (r matches Ok(id) && id@ == text)
                &&& !valid_account_bytes(encode_utf8(text)) ==> r == Err::<String, ContractError>(ContractError::InvalidAccountId)
            }),
    {
        let ghost prefix = account_prefix@;
        let mut account_id = account_prefix;
        proof {
            reveal_strlit(".");
        }
        account_id.append(".");
        account_id.append(current_account_id);
        assert(account_id@ =~= prefix + seq!['.'] + current_account_id@);
        if is_valid_account_id(account_id.as_str()) {
            Ok(account_id)
        } else {
            Err(ContractError::InvalidAccountId)
        }
    }

    /// What an entry of the whitelist allows: its amount, or 0 for an account
    /// that is not listed.
    pub fn get_wl_amount(whitelist_entry: Option<u32>) -> (r: u32)
        ensures
            r == match whitelist_entry {
                Some(n) => n,
                None => 0,
            },
    {
        match whitelist_entry {
            Some(n) => n,
            None => 0,
        }
    }
}

} // verus!
