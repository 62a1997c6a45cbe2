//! The whitelist of accounts allowed to mint during the pre-sale.

use vstd::prelude::*;

use crate::contract::{Contract, ContractError};
use crate::mint::EntryUpdate;

verus! {

impl Contract {
    /// The owner `predecessor` allows an account `amount` whitelist mints:
    /// that account's whitelist entry is set to `amount`.
    pub fn add_to_whitelist(&self, predecessor: &str, amount: u32) -> (r: Result<EntryUpdate, ContractError>)
        ensures
            self.is_owner(predecessor@) ==> r == Ok::<EntryUpdate, ContractError>(EntryUpdate::SetTo(amount)),
            !self.is_owner(predecessor@) ==> r == Err::<EntryUpdate, ContractError>(ContractError::NotOwner),
    {
        self.assert_owner(predecessor)?;
        Ok(EntryUpdate::SetTo(amount))
    }

    /// Whether `account_id` is among the whitelisted accounts.
    pub fn is_whitelisted(whitelisted: &Vec<String>, account_id: &str) -> (r: bool)
        ensures
            r == exists|i: int| 0 <= i < whitelisted.len() && (#[trigger] whitelisted[i])@ == account_id@,
    {
        let key = String::from_str(account_id);
        let n = whitelisted.len();
        let mut i: usize = 0;
        while i < n
            invariant
                n == whitelisted.len(),
                i <= n,
                key@ == account_id@,
                forall|j: int| 0 <= j < i ==> (#[trigger] whitelisted[j])@ != account_id@,
            decreases n - i,
        {
            if whitelisted[i] == key {
                return true;
            }
            i = i + 1;
        }
        false
    }
}

} // verus!
