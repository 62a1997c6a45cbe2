//! Sale, whitelist and royalty logic of a NEAR non-fungible-token contract.

pub mod account;
pub mod account_map;
pub mod constants;
pub mod contract;
pub mod laws;
pub mod metadata;
pub mod mint;
pub mod royalty;
pub mod text;
pub mod utils;
pub mod whitelist;

pub use account::is_valid_account_id;
pub use account_map::AccountMap;
pub use contract::{Contract, ContractError};
pub use metadata::{ContractMetadata, MetadataError, TokenMetadataFields};
pub use mint::{EntryUpdate, MintPlan};
pub use royalty::{apply_percent, Payout, Royalties, RoyaltyError};
pub use utils::get_random_number;
