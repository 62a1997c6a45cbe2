//! Royalties: the share of a sale that goes to the creators, and the payout
//! that splits a sale price between them and the token's owner.

use vstd::prelude::*;

use crate::account_map::{keys_distinct, AccountMap};

verus! {

/// `amount` times `percent`, divided by 100 and rounded down.
pub open spec fn percent_of(percent: int, amount: int) -> int {
    amount * percent / 100
}

/// Sum of the percentages in a list of entries.
pub open spec fn share_total(s: Seq<(Seq<char>, u8)>) -> int
    decreases s.len(),
{
    if s.len() == 0 {
        0
    } else {
        share_total(s.drop_last()) + s.last().1
    }
}

/// Sum of what each entry's percentage of `amount` comes to.
pub open spec fn share_sum(amount: int, s: Seq<(Seq<char>, u8)>) -> int
    decreases s.len(),
{
    if s.len() == 0 {
        0
    } else {
        share_sum(amount, s.drop_last()) + percent_of(s.last().1 as int, amount)
    }
}

/// Sum of the amounts in a payout's entries.
pub open spec fn amount_total(s: Seq<(Seq<char>, u128)>) -> int
    decreases s.len(),
{
    if s.len() == 0 {
        0
    } else {
        amount_total(s.drop_last()) + s.last().1
    }
}

/// Replacing one amount changes the total by the difference.
pub proof fn lemma_amount_total_update(s: Seq<(Seq<char>, u128)>, i: int, e: (Seq<char>, u128))
    requires
        0 <= i < s.len(),
    ensures
        amount_total(s.update(i, e)) == amount_total(s) - s[i].1 + e.1,
    decreases s.len(),
{
    let t = s.update(i, e);
    if i == s.len() - 1 {
        assert(t.drop_last() =~= s.drop_last());
    } else {
        assert(t.drop_last() =~= s.drop_last().update(i, e));
        lemma_amount_total_update(s.drop_last(), i, e);
    }
}

/// `amount` times `percent`, divided by 100 and rounded down.
pub fn apply_percent(percent: u8, amount: u128) -> (r: u128)
    requires
        amount * percent <= u128::MAX,
    ensures
        r == percent_of(percent as int, amount as int),
{
    amount * percent as u128 / 100u128
}

/// Why a set of royalties is refused.
#[derive(Debug, Clone, Copy, PartialEq, Eq, Structural)]
pub enum RoyaltyError {
    /// The royalty percent of a sale is above 100.
    PercentTooHigh,
    /// More than 10 accounts split the royalty.
    TooManyAccounts,
    /// One account's split is above 100.
    ShareTooHigh,
    /// The splits add up to more than 100.
    TotalTooHigh,
}

/// Creators' share of each sale, and how they split it.
pub struct Royalties {
    /// Percentage of the royalty that goes to each account.
    pub accounts: AccountMap<u8>,
    /// Percentage of a sale price that is paid as royalty.
    pub percent: u8,
}

/// What each account is paid out of a sale.
pub struct Payout {
    /// Amount paid to each account.
    pub payout: AccountMap<u128>,
}

impl Payout {
    /// Sum of all the amounts paid out.
    pub open spec fn total(&self) -> int {
        amount_total(self.payout.entry_seq())
    }
}

impl Royalties {
    /// The first rule that these royalties break, if any: the percent first,
    /// then the number of accounts, then each split, then their sum.
    pub open spec fn royalty_error(&self) -> Option<RoyaltyError> {
        let s = self.accounts.entry_seq();
        if self.percent > 100 {
            Some(RoyaltyError::PercentTooHigh)
        } else if s.len() > 10 {
            Some(RoyaltyError::TooManyAccounts)
        } else if exists|i: int| 0 <= i < s.len() && #[trigger] s[i].1 > 100 {
            Some(RoyaltyError::ShareTooHigh)
        } else if share_total(s) > 100 {
            Some(RoyaltyError::TotalTooHigh)
        } else {
            None
        }
    }

    /// The royalties break none of the rules.
    pub open spec fn is_valid(&self) -> bool {
        self.royalty_error() is None
    }

    /// Checks the royalty rules: `Ok` exactly when no rule is broken, else the
    /// first broken rule.
    pub fn validate(&self) -> (r: Result<(), RoyaltyError>)
        ensures
            r == (match self.royalty_error() {
                Some(e) => Err::<(), RoyaltyError>(e),
                None => Ok(()),
            }),
            r is Ok ==> self.percent <= 100 && self.accounts.entry_seq().len() <= 10
                && share_total(self.accounts.entry_seq()) <= 100,
            share_total(self.accounts.entry_seq()) > 100 ==> r is Err,
            r is Ok ==> forall|i: int|
                0 <= i < self.accounts.entry_seq().len() ==> #[trigger] self.accounts.entry_seq()[i].1 <= 100,
            self.percent > 100 ==> r == Err::<(), RoyaltyError>(RoyaltyError::PercentTooHigh),
            self.percent <= 100 && self.accounts.entry_seq().len() > 10 ==> r == Err::<(), RoyaltyError>(
                RoyaltyError::TooManyAccounts,
            ),
    {
        if self.percent > 100 {
            return Err(RoyaltyError::PercentTooHigh);
        }
        let n = self.accounts.len();
        if n > 10 {
            return Err(RoyaltyError::TooManyAccounts);
        }
        let ghost s = self.accounts.entry_seq();
        let mut total: u32 = 0;
        let mut i: usize = 0;
        while i < n
            invariant
                n == s.len(),
                n <= 10,
                self.percent <= 100,
                s == self.accounts.entry_seq(),
                i <= n,
                total == share_total(s.take(i as int)),
                total <= 100 * i,
                forall|j: int| 0 <= j < i ==> #[trigger] s[j].1 <= 100,
            decreases n - i,
        {
            let (_, p) = self.accounts.entry_at(i);
            if p > 100 {
                assert(s[i as int].1 > 100);
                return Err(RoyaltyError::ShareTooHigh);
            }
            assert(s.take(i + 1).drop_last() =~= s.take(i as int));
            total = total + p as u32;
            i = i + 1;
        }
        assert(s.take(n as int) =~= s);
        if total > 100 {
            return Err(RoyaltyError::TotalTooHigh);
        }
        Ok(())
    }

    /// Royalties from the given splits and percent, or the first rule they break.
    pub fn new(accounts: AccountMap<u8>, percent: u8) -> (r: Result<Self, RoyaltyError>)
        ensures
            match (Royalties { accounts, percent }).royalty_error() {
                Some(e) => r == Err::<Royalties, RoyaltyError>(e),
                None => r == Ok::<Royalties, RoyaltyError>(Royalties { accounts, percent }),
            },
            r is Ok ==> percent <= 100 && share_total(accounts.entry_seq()) <= 100,
            share_total(accounts.entry_seq()) > 100 ==> r is Err,
    {
        let this = Self { accounts, percent };
        match this.validate() {
            Ok(()) => Ok(this),
            Err(e) => Err(e),
        }
    }

    /// The part of `balance` paid as royalty.
    pub open spec fn royalty_of(&self, balance: int) -> int {
        percent_of(self.percent as int, balance)
    }

    /// What the owner's own split of the royalty comes to (0 when the owner
    /// has no split).
    pub open spec fn owner_share(&self, balance: int, owner: Seq<char>) -> int {
        if self.accounts@.contains_key(owner) {
            percent_of(self.accounts@[owner] as int, self.royalty_of(balance))
        } else {
            0
        }
    }

    /// The payout arithmetic stays within `u128` and the royalty does not
    /// exceed the balance.
    pub open spec fn payout_fits(&self, balance: u128, owner: Seq<char>) -> bool {
        let s = self.accounts.entry_seq();
        &&& balance * self.percent <= u128::MAX
        &&& self.royalty_of(balance as int) <= balance
        &&& forall|i: int| 0 <= i < s.len() ==> self.royalty_of(balance as int) * (#[trigger] s[i]).1 <= u128::MAX
        &&& self.owner_share(balance as int, owner) + balance - self.royalty_of(balance as int) <= u128::MAX
    }

    /// Whether a payout of `balance` to `owner_id` stays within the arithmetic
    /// bounds, that is, whether `create_payout` may be called.
    pub fn can_pay_out(&self, balance: u128, owner_id: &str) -> (r: bool)
        ensures
            r == self.payout_fits(balance, owner_id@),
    {
        proof {
            use_type_invariant(&self.accounts);
        }
        let product = match balance.checked_mul(self.percent as u128) {
            Some(x) => x,
            None => {
                return false;
            },
        };
        let royalty_payment = product / 100u128;
        if royalty_payment > balance {
            return false;
        }
        let ghost s = self.accounts.entry_seq();
        let n = self.accounts.len();
        let mut i: usize = 0;
        while i < n
            invariant
                n == s.len(),
                s == self.accounts.entry_seq(),
                i <= n,
                royalty_payment == self.royalty_of(balance as int),
                forall|j: int| 0 <= j < i ==> royalty_payment * (#[trigger] s[j]).1 <= u128::MAX,
            decreases n - i,
        {
            let (_, p) = self.accounts.entry_at(i);
            if royalty_payment.checked_mul(p as u128).is_none() {
                assert(!(royalty_payment * s[i as int].1 <= u128::MAX));
                return false;
            }
            i = i + 1;
        }
        let own = match self.accounts.get(owner_id) {
            Some(p) => apply_percent(p, royalty_payment),
            None => 0,
        };
        (balance - royalty_payment).checked_add(own).is_some()
    }

    /// The payout as a map: each account gets its split of the royalty, and the
    /// owner gets the rest of the balance on top of its own split.
    pub open spec fn payout_map(&self, balance: int, owner: Seq<char>) -> Map<Seq<char>, u128> {
        let r = self.royalty_of(balance);
        self.accounts@.map_values(|p: u8| percent_of(p as int, r) as u128).insert(
            owner,
            (self.owner_share(balance, owner) + balance - r) as u128,
        )
    }

    /// Splits `balance` between the royalty accounts and the owner `owner_id`.
    pub fn create_payout(&self, balance: u128, owner_id: &str) -> (r: Payout)
        requires
            self.payout_fits(balance, owner_id@),
        ensures
            r.payout@ == self.payout_map(balance as int, owner_id@),
            r.total() == share_sum(self.royalty_of(balance as int), self.accounts.entry_seq())
                + balance - self.royalty_of(balance as int),
            r.payout@.dom().finite(),
            r.payout@.dom().len() == payout_size(Some(*self), owner_id@),
    {
        proof {
            use_type_invariant(&self.accounts);
        }
        let ghost s = self.accounts.entry_seq();
        let royalty_payment = apply_percent(self.percent, balance);
        let ghost rp = royalty_payment as int;
        let mut payout: AccountMap<u128> = AccountMap::new();
        let n = self.accounts.len();
        let mut i: usize = 0;
        while i < n
            invariant
                n == s.len(),
                s == self.accounts.entry_seq(),
                keys_distinct(s),
                self.payout_fits(balance, owner_id@),
                rp == self.royalty_of(balance as int),
                royalty_payment == rp,
                i <= n,
                payout.entry_seq().len() == i,
                forall|j: int|
                    0 <= j < i ==> (#[trigger] payout.entry_seq()[j]).0 == s[j].0
                        && payout.entry_seq()[j].1 == percent_of(s[j].1 as int, rp),
                amount_total(payout.entry_seq()) == share_sum(rp, s.take(i as int)),
            decreases n - i,
        {
            let (account, percent) = self.accounts.entry_at(i);
            proof {
                assert(self.royalty_of(balance as int) * s[i as int].1 <= u128::MAX);
            }
            let share = apply_percent(percent, royalty_payment);
            let ghost before = payout.entry_seq();
            proof {
                assert forall|j: int| 0 <= j < before.len() implies #[trigger] before[j].0 != account@ by {
                    assert(before[j].0 == s[j].0);
                    assert(s[j].0 != s[i as int].0);
                }
            }
            payout.insert(account.clone(), share);
            proof {
                let after = payout.entry_seq();
                assert(after == before.push((account@, share)));
                assert(after.drop_last() =~= before);
                assert(s.take(i + 1).drop_last() =~= s.take(i as int));
            }
            i = i + 1;
        }
        proof {
            assert(s.take(n as int) =~= s);
            let ps = payout.entry_seq();
            assert forall|k: Seq<char>| #[trigger] payout@.contains_key(k) <==> self.accounts@.contains_key(k) by {
                if payout@.contains_key(k) {
                    let j = choose|j: int| 0 <= j < ps.len() && #[trigger] ps[j].0 == k;
                    assert(s[j].0 == k);
                }
                if self.accounts@.contains_key(k) {
                    let j = choose|j: int| 0 <= j < s.len() && #[trigger] s[j].0 == k;
                    assert(ps[j].0 == k);
                }
            }
            assert forall|k: Seq<char>| #[trigger] payout@.contains_key(k) implies payout@[k]
                == percent_of(self.accounts@[k] as int, rp) as u128 by {
                let j = choose|j: int| 0 <= j < ps.len() && #[trigger] ps[j].0 == k;
                crate::account_map::lemma_entry_in_map(ps, j);
                assert(s[j].0 == k);
                crate::account_map::lemma_entry_in_map(s, j);
            }
            assert(payout@ =~= self.accounts@.map_values(|p: u8| percent_of(p as int, rp) as u128));
        }
        let rest = balance - royalty_payment;
        let current = match payout.get(owner_id) {
            Some(x) => x,
            None => 0,
        };
        proof {
            if self.accounts@.contains_key(owner_id@) {
                assert(current == percent_of(self.accounts@[owner_id@] as int, rp));
            }
        }
        let owner_payout: u128 = current + rest;
        let ghost before = payout.entry_seq();
        payout.insert(String::from_str(owner_id), owner_payout);
        let _ = payout.len();
        proof {
            let after = payout.entry_seq();
            if exists|j: int| 0 <= j < before.len() && #[trigger] before[j].0 == owner_id@ {
                let j = choose|j: int| 0 <= j < before.len() && #[trigger] before[j].0 == owner_id@;
                crate::account_map::lemma_entry_in_map(before, j);
                lemma_amount_total_update(before, j, (owner_id@, owner_payout));
            } else {
                crate::account_map::lemma_absent_from_map(before, owner_id@);
                assert(after.drop_last() =~= before);
            }
        }
        Payout { payout }
    }
}

} // verus!

verus! {

/// Each split rounds down, so the splits of `amount` add up to at most
/// `amount` times the sum of the percentages, over 100.
proof fn lemma_share_sum_bound(amount: int, s: Seq<(Seq<char>, u8)>)
    requires
        amount >= 0,
    ensures
        0 <= 100 * share_sum(amount, s) <= amount * share_total(s),
        share_total(s) >= 0,
    decreases s.len(),
{
    if s.len() > 0 {
        let p = s.last().1 as int;
        lemma_share_sum_bound(amount, s.drop_last());
        assert(0 <= amount * p) by (nonlinear_arith)
            requires
                amount >= 0,
                p >= 0,
        ;
        assert(0 <= 100 * ((amount * p) / 100) <= amount * p) by (nonlinear_arith)
            requires
                amount * p >= 0,
        ;
        assert(amount * share_total(s) == amount * share_total(s.drop_last()) + amount * p)
            by (nonlinear_arith)
            requires
                share_total(s) == share_total(s.drop_last()) + p,
        ;
    }
}

/// When the royalty percent and the splits each add up to at most 100, the
/// payout never exceeds the sale price: the royalty accounts share at most
/// the royalty, and the owner gets the rest.
pub proof fn lemma_payout_within_balance(r: &Royalties, balance: u128)
    requires
        r.percent <= 100,
        share_total(r.accounts.entry_seq()) <= 100,
    ensures
        balance - r.royalty_of(balance as int) <= share_sum(r.royalty_of(balance as int), r.accounts.entry_seq())
            + balance - r.royalty_of(balance as int) <= balance,
{
    let amount = r.royalty_of(balance as int);
    let s = r.accounts.entry_seq();
    let pct = r.percent as int;
    assert(0 <= balance * pct) by (nonlinear_arith)
        requires
            balance >= 0,
            pct >= 0,
    ;
    assert(0 <= amount);
    lemma_share_sum_bound(amount, s);
    let t = share_total(s);
    assert(amount * t <= amount * 100) by (nonlinear_arith)
        requires
            amount >= 0,
            t <= 100,
    ;
}

/// Valid royalties can pay out any balance whose royalty product fits in
/// `u128`.
pub proof fn lemma_valid_payout_fits(r: &Royalties, balance: u128, owner: Seq<char>)
    requires
        r.is_valid(),
        balance * r.percent <= u128::MAX,
    ensures
        r.payout_fits(balance, owner),
{
    let amount = r.royalty_of(balance as int);
    let s = r.accounts.entry_seq();
    let pct = r.percent as int;
    assert(0 <= balance * pct <= balance * 100) by (nonlinear_arith)
        requires
            balance >= 0,
            0 <= pct <= 100,
    ;
    assert(0 <= amount <= balance);
    assert forall|i: int| 0 <= i < s.len() implies amount * (#[trigger] s[i]).1 <= u128::MAX by {
        let p = s[i].1 as int;
        assert(p <= 100);
        assert(100 * amount <= balance * pct) by (nonlinear_arith)
            requires
                amount == (balance * pct) / 100,
                balance * pct >= 0,
        ;
        assert(amount * p <= amount * 100) by (nonlinear_arith)
            requires
                amount >= 0,
                p <= 100,
        ;
    }
    if r.accounts@.contains_key(owner) {
        let j = crate::account_map::lemma_map_value_from_entry(s, owner);
        let p = r.accounts@[owner] as int;
        assert(p == s[j].1);
        assert(0 <= p <= 100);
        assert(0 <= (amount * p) / 100 <= amount) by (nonlinear_arith)
            requires
                amount >= 0,
                0 <= p <= 100,
        ;
    }
}

} // verus!

verus! {

/// The payout of a sale at `balance` of a token owned by `owner`, under
/// `royalties`: nothing is paid out while no royalties are set.
pub open spec fn payout_under(royalties: Option<Royalties>, balance: int, owner: Seq<char>) -> Map<Seq<char>, u128> {
    match royalties {
        Some(r) => r.payout_map(balance, owner),
        None => Map::empty(),
    }
}

/// Number of accounts paid under `royalties` when `owner` owns the token:
/// every royalty account, and the owner if it is not one of them.
pub open spec fn payout_size(royalties: Option<Royalties>, owner: Seq<char>) -> nat {
    match royalties {
        Some(r) => r.accounts.entry_seq().len() + if r.accounts@.contains_key(owner) {
            0nat
        } else {
            1nat
        },
        None => 0,
    }
}

/// The payout arithmetic under `royalties` stays within bounds.
pub open spec fn payout_fits_under(royalties: Option<Royalties>, balance: u128, owner: Seq<char>) -> bool {
    royalties matches Some(r) ==> r.payout_fits(balance, owner)
}

impl Payout {
    /// A payout that pays nobody.
    pub fn empty() -> (r: Payout)
        ensures
            r.payout@ == Map::<Seq<char>, u128>::empty(),
            r.total() == 0,
            r.payout.entry_seq().len() == 0,
    {
        Payout { payout: AccountMap::new() }
    }
}

/// The payout has more entries than `max_len_payout` allows (no limit when
/// it is `None`).
pub open spec fn exceeds_limit(size: nat, max_len_payout: Option<u32>) -> bool {
    max_len_payout matches Some(m) && size > m
}

impl crate::contract::Contract {
    /// The payout of a sale of a token at `balance`, given the token's owner
    /// as the ledger knows it: `NoSuchToken` when the token has no owner, and
    /// `PayoutTooLong` when the payout has more entries than `max_len_payout`.
    pub fn nft_payout(&self, token_owner: Option<String>, balance: u128, max_len_payout: Option<u32>) -> (r: Result<Payout, crate::contract::ContractError>)
        requires
            token_owner matches Some(o) ==> payout_fits_under(self.royalties, balance, o@),
        ensures
            token_owner is None ==> r == Err::<Payout, crate::contract::ContractError>(
                crate::contract::ContractError::NoSuchToken,
            ),
            token_owner matches Some(o) ==> (exceeds_limit(payout_size(self.royalties, o@), max_len_payout)
                ==> r == Err::<Payout, crate::contract::ContractError>(crate::contract::ContractError::PayoutTooLong)),
            token_owner matches Some(o) ==> (!exceeds_limit(payout_size(self.royalties, o@), max_len_payout)
                ==> (r matches Ok(p) && p.payout@ == payout_under(self.royalties, balance as int, o@))),
            r matches Ok(p) ==> p.payout@.dom().finite() && (token_owner matches Some(o) ==> p.payout@.dom().len() == payout_size(self.royalties, o@)),
            r matches Ok(p) ==> (self.royalties matches Some(roy) ==> p.total()
                == share_sum(roy.royalty_of(balance as int), roy.accounts.entry_seq()) + balance
                - roy.royalty_of(balance as int)),
    {
        match token_owner {
            None => Err(crate::contract::ContractError::NoSuchToken),
            Some(owner_id) => {
                let p = match &self.royalties {
                    Some(r) => r.create_payout(balance, owner_id.as_str()),
                    None => Payout::empty(),
                };
                let n = p.payout.len();
                match max_len_payout {
                    Some(m) => {
                        if n > m as usize {
                            return Err(crate::contract::ContractError::PayoutTooLong);
                        }
                    },
                    None => {},
                }
                Ok(p)
            },
        }
    }

    /// The payout of a sale settled by transferring the token: the call must
    /// carry exactly one yoctoNEAR, and the payout is that of `nft_payout`.
    pub fn nft_transfer_payout(
        &self,
        attached_deposit: u128,
        token_owner: Option<String>,
        balance: u128,
        max_len_payout: Option<u32>,
    ) -> (r: Result<Payout, crate::contract::ContractError>)
        requires
            attached_deposit == 1 ==> (token_owner matches Some(o) ==> payout_fits_under(self.royalties, balance, o@)),
        ensures
            attached_deposit != 1 ==> r == Err::<Payout, crate::contract::ContractError>(
                crate::contract::ContractError::RequiresOneYocto,
            ),
            attached_deposit == 1 && token_owner is None ==> r == Err::<Payout, crate::contract::ContractError>(
                crate::contract::ContractError::NoSuchToken,
            ),
            attached_deposit == 1 ==> (token_owner matches Some(o) ==> (exceeds_limit(payout_size(self.royalties, o@), max_len_payout)
                ==> r == Err::<Payout, crate::contract::ContractError>(crate::contract::ContractError::PayoutTooLong))),
            attached_deposit == 1 ==> (token_owner matches Some(o) ==> (!exceeds_limit(payout_size(self.royalties, o@), max_len_payout)
                ==> (r matches Ok(p) && p.payout@ == payout_under(self.royalties, balance as int, o@)))),
    {
        if attached_deposit != 1 {
            return Err(crate::contract::ContractError::RequiresOneYocto);
        }
        self.nft_payout(token_owner, balance, max_len_payout)
    }
}

} // verus!
