//! Fixed parameters of the sale.
//!
//! `MINT_COST` is the price of 6.66 NEAR per token. `MAX_SUPPLY` and
//! `NFT_TOKEN_DESCRIPTION` are settings of this crate; a deployment that
//! wants another drop size or description changes them here.

use vstd::prelude::*;

verus! {

/// Deposit asked for each minted token, in yoctoNEAR (6.66 NEAR).
pub const MINT_COST: u128 = 6_660_000_000_000_000_000_000_000u128;

/// Number of tokens after which no more can be minted.
pub const MAX_SUPPLY: u128 = 666u128;

/// Description written into the metadata of every minted token.
pub const NFT_TOKEN_DESCRIPTION: &'static str = "A Nephilim of the collection.";

} // verus!
