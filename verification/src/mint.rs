//! Minting: who may mint, at what deposit, and which token each mint creates.

use vstd::prelude::*;

use crate::constants::{MAX_SUPPLY, MINT_COST, NFT_TOKEN_DESCRIPTION};
use crate::contract::{Contract, ContractError};
use crate::metadata::TokenMetadataFields;
use crate::text::{decimal, u128_to_decimal};

verus! {

/// What happens to an account's entry in an allowance list.
#[derive(Debug, Clone, Copy, PartialEq, Eq, Structural)]
pub enum EntryUpdate {
    /// The entry stays as it is.
    Keep,
    /// The entry is removed.
    Remove,
    /// The entry is set to this amount.
    SetTo(u32),
}

/// The entry an allowance list holds after `u` is applied to `entry`.
pub open spec fn apply_update(entry: Option<u32>, u: EntryUpdate) -> Option<u32> {
    match u {
        EntryUpdate::Keep => entry,
        EntryUpdate::Remove => None,
        EntryUpdate::SetTo(n) => Some(n),
    }
}

/// A token to be minted.
pub struct MintPlan {
    /// Id of the new token.
    pub token_id: String,
    /// Account that receives it.
    pub receiver_id: String,
    /// Metadata written into it.
    pub metadata: TokenMetadataFields,
}

/// Id of the token minted when `supply` tokens exist: the next number, in decimal.
pub open spec fn token_id_for(supply: int) -> Seq<char> {
    decimal((supply + 1) as nat)
}

/// `Nephilim#`
pub open spec fn title_prefix() -> Seq<char> {
    seq!['N', 'e', 'p', 'h', 'i', 'l', 'i', 'm', '#']
}

/// `.gif`
pub open spec fn media_suffix() -> Seq<char> {
    seq!['.', 'g', 'i', 'f']
}

/// `.json`
pub open spec fn reference_suffix() -> Seq<char> {
    seq!['.', 'j', 's', 'o', 'n']
}

/// `p` is the token minted to `receiver` at `timestamp` when `supply` tokens exist.
pub open spec fn is_mint_of(p: MintPlan, supply: int, receiver: Seq<char>, timestamp: u64) -> bool {
    let id = token_id_for(supply);
    &&& p.token_id@ == id
    &&& p.receiver_id@ == receiver
    &&& p.metadata.title@ == title_prefix() + id
    &&& p.metadata.media@ == id + media_suffix()
    &&& p.metadata.reference@ == id + reference_suffix()
    &&& p.metadata.description@ == NFT_TOKEN_DESCRIPTION@
    &&& p.metadata.issued_at@ == decimal(timestamp as nat)
}

/// The entry update of a whitelist mint by an account allowed `amount` mints.
pub open spec fn whitelist_after_mint(amount: u32) -> EntryUpdate {
    if amount - 1 == 0 {
        EntryUpdate::Remove
    } else {
        EntryUpdate::SetTo((amount - 1) as u32)
    }
}

/// The entry update of a free mint by an account listed with `amount`: the
/// entry goes when the amount was one, and otherwise stays as it was.
pub open spec fn free_after_mint(amount: u32) -> EntryUpdate {
    if amount - 1 <= 0 {
        EntryUpdate::Remove
    } else {
        EntryUpdate::Keep
    }
}

/// Whether either sale is open.
pub open spec fn any_sale_open(c: Contract) -> bool {
    c.pre_sale_active || c.sales_active
}

/// Whether a whitelist mint in state `c`, with `deposit` attached, by an
/// account whose whitelist entry is `entry`, when `supply` tokens exist,
/// mints a token. An entry of 0 mints nothing.
pub open spec fn whitelist_call_admits(c: Contract, deposit: u128, entry: Option<u32>, supply: u128) -> bool {
    &&& deposit >= MINT_COST
    &&& any_sale_open(c)
    &&& entry matches Some(n) && n >= 1
    &&& supply < MAX_SUPPLY
}

/// The whitelist entry after such a call: one mint of the allowance is used
/// when the call mints, and the entry is unchanged otherwise.
pub open spec fn whitelist_entry_after_call(c: Contract, deposit: u128, entry: Option<u32>, supply: u128) -> Option<u32> {
    if whitelist_call_admits(c, deposit, entry, supply) {
        apply_update(entry, whitelist_after_mint(entry.unwrap()))
    } else {
        entry
    }
}

impl Contract {
    /// The token minted to `receiver_id` when `supply` tokens exist, or
    /// `SupplyReached` once `MAX_SUPPLY` tokens exist.
    pub fn internal_nft_mint(supply: u128, receiver_id: String, block_timestamp: u64) -> (r: Result<MintPlan, ContractError>)
        ensures
            supply >= MAX_SUPPLY ==> r == Err::<MintPlan, ContractError>(ContractError::SupplyReached),
            supply < MAX_SUPPLY ==> (r matches Ok(p) && is_mint_of(p, supply as int, receiver_id@, block_timestamp)),
    {
        if supply >= MAX_SUPPLY {
            return Err(ContractError::SupplyReached);
        }
        let token_id = u128_to_decimal(supply + 1);
        proof {
            reveal_strlit("Nephilim#");
            reveal_strlit(".gif");
            reveal_strlit(".json");
        }
        let mut title = String::from_str("Nephilim#");
        title.append(token_id.as_str());
        let mut media = token_id.clone();
        media.append(".gif");
        let mut reference = token_id.clone();
        reference.append(".json");
        let metadata = TokenMetadataFields {
            title,
            description: String::from_str(NFT_TOKEN_DESCRIPTION),
            media,
            issued_at: u128_to_decimal(block_timestamp as u128),
            reference,
        };
        let p = MintPlan { token_id, receiver_id, metadata };
        assert(p.metadata.title@ =~= title_prefix() + token_id_for(supply as int));
        assert(p.metadata.media@ =~= token_id_for(supply as int) + media_suffix());
        assert(p.metadata.reference@ =~= token_id_for(supply as int) + reference_suffix());
        Ok(p)
    }

    /// A public mint by `predecessor`: the public sale must be open and the
    /// deposit must cover `MINT_COST`.
    pub fn nft_mint(&self, predecessor: String, attached_deposit: u128, supply: u128, block_timestamp: u64) -> (r: Result<MintPlan, ContractError>)
        ensures
            !self.sales_active ==> r == Err::<MintPlan, ContractError>(ContractError::PublicSaleNotActive),
            self.sales_active && attached_deposit < MINT_COST ==> r == Err::<MintPlan, ContractError>(
                ContractError::NotEnoughDeposit,
            ),
            self.sales_active && attached_deposit >= MINT_COST && supply >= MAX_SUPPLY ==> r == Err::<MintPlan, ContractError>(
                ContractError::SupplyReached,
            ),
            self.sales_active && attached_deposit >= MINT_COST && supply < MAX_SUPPLY ==> (r matches Ok(p)
                && is_mint_of(p, supply as int, predecessor@, block_timestamp)),
    {
        if !self.sales_active {
            return Err(ContractError::PublicSaleNotActive);
        }
        if attached_deposit < MINT_COST {
            return Err(ContractError::NotEnoughDeposit);
        }
        Self::internal_nft_mint(supply, predecessor, block_timestamp)
    }

    /// A whitelist mint by `predecessor`, whose whitelist entry is
    /// `whitelist_entry`: the deposit must cover `MINT_COST`, a sale must be
    /// open and the account must be listed; one mint of its allowance is used.
    pub fn whitelist_nft_mint(
        &self,
        predecessor: String,
        attached_deposit: u128,
        whitelist_entry: Option<u32>,
        supply: u128,
        block_timestamp: u64,
    ) -> (r: Result<(EntryUpdate, MintPlan), ContractError>)
        requires
            attached_deposit >= MINT_COST && any_sale_open(*self) ==> whitelist_entry != Some(0u32),
        ensures
            attached_deposit < MINT_COST ==> r == Err::<(EntryUpdate, MintPlan), ContractError>(
                ContractError::NotEnoughDeposit,
            ),
            attached_deposit >= MINT_COST && !any_sale_open(*self) ==> r == Err::<
                (EntryUpdate, MintPlan),
                ContractError,
            >(ContractError::SaleNotActive),
            attached_deposit >= MINT_COST && any_sale_open(*self) && whitelist_entry is None ==> r
                == Err::<(EntryUpdate, MintPlan), ContractError>(ContractError::NotWhitelisted),
            attached_deposit >= MINT_COST && any_sale_open(*self) && whitelist_entry is Some && supply
                >= MAX_SUPPLY ==> r == Err::<(EntryUpdate, MintPlan), ContractError>(
                ContractError::SupplyReached,
            ),
            attached_deposit >= MINT_COST && any_sale_open(*self) && whitelist_entry is Some && supply
                < MAX_SUPPLY ==> (r matches Ok((u, p)) && u == whitelist_after_mint(
                whitelist_entry.unwrap(),
            ) && is_mint_of(p, supply as int, predecessor@, block_timestamp)),
            (r is Ok) == whitelist_call_admits(*self, attached_deposit, whitelist_entry, supply),
            r matches Ok((u, _)) ==> apply_update(whitelist_entry, u) == whitelist_entry_after_call(
                *self,
                attached_deposit,
                whitelist_entry,
                supply,
            ),
    {
        if attached_deposit < MINT_COST {
            return Err(ContractError::NotEnoughDeposit);
        }
        if !(self.pre_sale_active || self.sales_active) {
            return Err(ContractError::SaleNotActive);
        }
        match whitelist_entry {
            Some(amount) => {
                let new_amount = amount - 1;
                let update = if new_amount == 0 {
                    EntryUpdate::Remove
                } else {
                    EntryUpdate::SetTo(new_amount)
                };
                match Self::internal_nft_mint(supply, predecessor, block_timestamp) {
                    Ok(p) => Ok((update, p)),
                    Err(e) => Err(e),
                }
            },
            None => Err(ContractError::NotWhitelisted),
        }
    }

    /// A free mint by `signer`, whose free-mint entry is `free_entry`: a sale
    /// must be open and the account must be listed. The entry is removed when
    /// its amount was one; a larger amount is left as it was.
    pub fn free_mint(&self, signer: String, free_entry: Option<u32>, supply: u128, block_timestamp: u64) -> (r: Result<(EntryUpdate, MintPlan), ContractError>)
        requires
            any_sale_open(*self) ==> free_entry != Some(0u32),
        ensures
            !any_sale_open(*self) ==> r == Err::<(EntryUpdate, MintPlan), ContractError>(
                ContractError::SaleNotActive,
            ),
            any_sale_open(*self) && free_entry is None ==> r == Err::<(EntryUpdate, MintPlan), ContractError>(
                ContractError::NotInFreeMintList,
            ),
            any_sale_open(*self) && free_entry is Some && supply >= MAX_SUPPLY ==> r == Err::<
                (EntryUpdate, MintPlan),
                ContractError,
            >(ContractError::SupplyReached),
            any_sale_open(*self) && free_entry is Some && supply < MAX_SUPPLY ==> (r matches Ok((u, p))
                && u == free_after_mint(free_entry.unwrap()) && is_mint_of(
                p,
                supply as int,
                signer@,
                block_timestamp,
            )),
            r matches Ok((u, _)) ==> (free_entry == Some(1u32) <==> u == EntryUpdate::Remove),
            r matches Ok((u, _)) ==> (free_entry matches Some(n) && n >= 2 ==> u == EntryUpdate::Keep),
    {
        if !(self.pre_sale_active || self.sales_active) {
            return Err(ContractError::SaleNotActive);
        }
        match free_entry {
            Some(amount) => {
                let free_amount = amount - 1;
                let update = if free_amount <= 0 {
                    EntryUpdate::Remove
                } else {
                    EntryUpdate::Keep
                };
                match Self::internal_nft_mint(supply, signer, block_timestamp) {
                    Ok(p) => Ok((update, p)),
                    Err(e) => Err(e),
                }
            },
            None => Err(ContractError::NotInFreeMintList),
        }
    }

    /// `amount` mints in a row to `predecessor`, paid by one deposit of
    /// `amount` times `MINT_COST`. No sale needs to be open. The tokens get the
    /// next `amount` ids; if the supply runs out before the last one, nothing
    /// is minted.
    pub fn nft_mint_multi(
        &self,
        predecessor: String,
        attached_deposit: u128,
        amount: u128,
        supply: u128,
        block_timestamp: u64,
    ) -> (r: Result<Vec<MintPlan>, ContractError>)
        requires
            MINT_COST * amount <= u128::MAX,
        ensures
            attached_deposit < MINT_COST * amount ==> r == Err::<Vec<MintPlan>, ContractError>(
                ContractError::NotEnoughDeposit,
            ),
            attached_deposit >= MINT_COST * amount && amount > 0 && supply + amount > MAX_SUPPLY ==> r
                == Err::<Vec<MintPlan>, ContractError>(ContractError::SupplyReached),
            attached_deposit >= MINT_COST * amount && (amount == 0 || supply + amount <= MAX_SUPPLY) ==> (r matches Ok(v)
                && v.len() == amount && forall|i: int|
                0 <= i < amount ==> is_mint_of(#[trigger] v[i], supply + i, predecessor@, block_timestamp)),
    {
        let mut result: Vec<MintPlan> = Vec::new();
        if attached_deposit < MINT_COST * amount {
            return Err(ContractError::NotEnoughDeposit);
        }
        let mut i: u128 = 0;
        while i < amount
            invariant
                i <= amount,
                attached_deposit >= MINT_COST * amount,
                result.len() == i,
                supply + i <= MAX_SUPPLY || i == 0,
                forall|j: int| 0 <= j < i ==> is_mint_of(#[trigger] result[j], supply + j, predecessor@, block_timestamp),
            decreases amount - i,
        {
            if supply >= MAX_SUPPLY || supply + i >= MAX_SUPPLY {
                return Err(ContractError::SupplyReached);
            }
            let token = Self::internal_nft_mint(supply + i, predecessor.clone(), block_timestamp);
            match token {
                Ok(p) => {
                    result.push(p);
                },
                Err(e) => {
                    return Err(e);
                },
            }
            i = i + 1;
        }
        Ok(result)
    }
}

} // verus!
