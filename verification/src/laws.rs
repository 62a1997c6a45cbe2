//! Properties that hold across several operations of the contract.

use vstd::prelude::*;

use crate::contract::Contract;
use crate::metadata::{metadata_spec_text, ContractMetadata};
use crate::royalty::{percent_of, share_total, Royalties};
use crate::text::{decimal, digit_char};
use crate::mint::{
    free_after_mint,
    apply_update, token_id_for, whitelist_after_mint, whitelist_call_admits,
    whitelist_entry_after_call,
};
use crate::text::lemma_decimal_injective;

verus! {

/// Flipping the public sale twice gives back the state it started from.
pub proof fn lemma_flip_public_sale_twice(c: Contract)
    ensures
        c.with_public_sale_flipped().with_public_sale_flipped() == c,
{
}

/// Flipping the pre-sale twice gives back the state it started from.
pub proof fn lemma_flip_presale_twice(c: Contract)
    ensures
        c.with_presale_flipped().with_presale_flipped() == c,
{
}

/// After the owner hands the contract to `new_owner`, exactly `new_owner`
/// passes the owner check.
pub proof fn lemma_transfer_ownership_moves_control(c: Contract, new_owner: String, account: Seq<char>)
    ensures
        (Contract { owner_id: new_owner, ..c }).is_owner(account) <==> account == new_owner@,
{
}

/// A price set by the owner is the price read back.
pub proof fn lemma_prices_read_back(c: Contract, price: u128)
    ensures
        (Contract { mint_price: price, ..c }).mint_price == price,
        (Contract { wl_price: price, ..c }).wl_price == price,
        (Contract { max_supply: price, ..c }).max_supply == price,
{
}

/// The whitelist entry of an account after `k` whitelist mints, starting
/// from `entry`.
pub open spec fn whitelist_entry_after(entry: Option<u32>, k: nat) -> Option<u32>
    decreases k,
{
    if k == 0 {
        entry
    } else {
        match whitelist_entry_after(entry, (k - 1) as nat) {
            Some(n) => apply_update(Some(n), whitelist_after_mint(n)),
            None => None,
        }
    }
}

/// An allowance of `n` admits exactly `n` whitelist mints: after `k < n`
/// mints `n - k` are left, and after `n` the account is off the list.
pub proof fn lemma_whitelist_allowance(n: u32, k: nat)
    requires
        1 <= n,
        k <= n,
    ensures
        k < n ==> whitelist_entry_after(Some(n), k) == Some((n - k) as u32),
        k == n ==> whitelist_entry_after(Some(n), k) is None,
    decreases k,
{
    if k > 0 {
        lemma_whitelist_allowance(n, (k - 1) as nat);
    }
}

/// Mints at different supplies create tokens with different ids, so a
/// token id is never issued twice.
pub proof fn lemma_token_ids_distinct(a: nat, b: nat)
    requires
        a != b,
    ensures
        token_id_for(a as int) != token_id_for(b as int),
{
    if token_id_for(a as int) == token_id_for(b as int) {
        lemma_decimal_injective(a + 1, b + 1);
    }
}

/// Mints still open to an account with whitelist entry `entry`.
pub open spec fn allowance(entry: Option<u32>) -> nat {
    match entry {
        Some(n) => n as nat,
        None => 0,
    }
}

/// The whitelist entry after a sequence of whitelist mint calls by one
/// account, each given as the contract state, the deposit and the supply at
/// the time of the call.
pub open spec fn whitelist_entry_after_calls(calls: Seq<(Contract, u128, u128)>, entry: Option<u32>) -> Option<u32>
    decreases calls.len(),
{
    if calls.len() == 0 {
        entry
    } else {
        let (c, deposit, supply) = calls.last();
        whitelist_entry_after_call(c, deposit, whitelist_entry_after_calls(calls.drop_last(), entry), supply)
    }
}

/// How many calls of such a sequence mint a token.
pub open spec fn whitelist_mints_in_calls(calls: Seq<(Contract, u128, u128)>, entry: Option<u32>) -> nat
    decreases calls.len(),
{
    if calls.len() == 0 {
        0
    } else {
        let (c, deposit, supply) = calls.last();
        let before = whitelist_entry_after_calls(calls.drop_last(), entry);
        whitelist_mints_in_calls(calls.drop_last(), entry) + if whitelist_call_admits(c, deposit, before, supply) {
            1nat
        } else {
            0nat
        }
    }
}

/// Of any sequence of whitelist mint calls by one account, with no new
/// allowance granted in between, at most as many mint a token as the
/// account's allowance at the start: none for an account that is not listed
/// or is listed with 0, whatever the sale state, deposits and supplies.
pub proof fn lemma_whitelist_mints_bounded(calls: Seq<(Contract, u128, u128)>, entry: Option<u32>)
    ensures
        whitelist_mints_in_calls(calls, entry) + allowance(whitelist_entry_after_calls(calls, entry))
            <= allowance(entry),
        whitelist_mints_in_calls(calls, entry) <= allowance(entry),
    decreases calls.len(),
{
    if calls.len() > 0 {
        lemma_whitelist_mints_bounded(calls.drop_last(), entry);
    }
}

/// The text of an optional string.
pub open spec fn opt_text(o: Option<String>) -> Option<Seq<char>> {
    match o {
        Some(x) => Some(x@),
        None => None,
    }
}

/// Two metadata values that say the same: every text field has the same
/// characters and the reference hash the same bytes.
pub open spec fn same_metadata(a: ContractMetadata, b: ContractMetadata) -> bool {
    &&& a.spec@ == b.spec@
    &&& a.name@ == b.name@
    &&& a.symbol@ == b.symbol@
    &&& opt_text(a.icon) == opt_text(b.icon)
    &&& opt_text(a.base_uri) == opt_text(b.base_uri)
    &&& opt_text(a.reference) == opt_text(b.reference)
    &&& (a.reference_hash is Some) == (b.reference_hash is Some)
    &&& (a.reference_hash matches Some(x) ==> (b.reference_hash matches Some(y) && x@ == y@))
}

/// Two contract states that say the same in every field.
pub open spec fn same_state(a: Contract, b: Contract) -> bool {
    &&& a.owner_id@ == b.owner_id@
    &&& same_metadata(a.metadata, b.metadata)
    &&& (a.royalties is Some) == (b.royalties is Some)
    &&& (a.royalties matches Some(x) ==> (b.royalties matches Some(y) && x.percent == y.percent
        && x.accounts.entry_seq() == y.accounts.entry_seq() && x.accounts@ == y.accounts@))
    &&& a.max_supply == b.max_supply
    &&& a.mint_price == b.mint_price
    &&& a.wl_price == b.wl_price
    &&& a.sales_active == b.sales_active
    &&& a.pre_sale_active == b.pre_sale_active
    &&& a.description@ == b.description@
}

/// `new_init` is `new` with metadata of the current standard: that metadata
/// passes the checks, so `new` succeeds on it, and the state that `new_init`
/// sets up is the state that `new` sets up from the same arguments.
pub proof fn lemma_new_init_same_as_new(
    from_init: Contract,
    init_metadata: ContractMetadata,
    from_new: Contract,
    new_metadata: ContractMetadata,
    owner_id: Seq<char>,
    mint_price: u128,
    wl_price: Option<u128>,
    max_supply: u128,
    description: Seq<char>,
)
    requires
        init_metadata.spec@ == metadata_spec_text(),
        init_metadata.reference is None,
        init_metadata.reference_hash is None,
        same_metadata(init_metadata, new_metadata),
        from_init.initial(owner_id, init_metadata, mint_price, wl_price, max_supply, description),
        from_new.initial(owner_id, new_metadata, mint_price, wl_price, max_supply, description),
    ensures
        new_metadata.metadata_error() is None,
        same_state(from_init, from_new),
{
}

/// Royalties pass the rules only when the royalty percent is at most 100, at
/// most 10 accounts share it, no split is above 100 and the splits add up to
/// at most 100; splits adding up to more than 100 are always refused.
pub proof fn lemma_valid_royalties_bounded(r: Royalties)
    ensures
        r.is_valid() ==> r.percent <= 100 && r.accounts.entry_seq().len() <= 10 && share_total(
            r.accounts.entry_seq(),
        ) <= 100 && forall|i: int|
            0 <= i < r.accounts.entry_seq().len() ==> #[trigger] r.accounts.entry_seq()[i].1 <= 100,
        share_total(r.accounts.entry_seq()) > 100 ==> !r.is_valid(),
        r.percent > 100 ==> !r.is_valid(),
{
}

/// A free mint removes an account's entry exactly when it had one free mint
/// left; an account listed with two or more stays on the list as it was.
pub proof fn lemma_free_mint_entry(n: u32)
    requires
        n >= 1,
    ensures
        n == 1 ==> apply_update(Some(n), free_after_mint(n)) is None,
        n >= 2 ==> apply_update(Some(n), free_after_mint(n)) == Some(n),
{
}

/// A state set up from a mint price and no whitelist price sells whitelist
/// mints at the mint price; a given whitelist price is kept as given. Both
/// sales start closed.
pub proof fn lemma_initial_prices(
    c: Contract,
    owner_id: Seq<char>,
    metadata: ContractMetadata,
    mint_price: u128,
    wl_price: Option<u128>,
    max_supply: u128,
    description: Seq<char>,
)
    requires
        c.initial(owner_id, metadata, mint_price, wl_price, max_supply, description),
    ensures
        c.mint_price == mint_price,
        wl_price is None ==> c.wl_price == mint_price,
        wl_price matches Some(p) ==> c.wl_price == p,
        !c.sales_active && !c.pre_sale_active,
        c.max_supply == max_supply,
{
}

/// Metadata passes the checks only when it names the current standard, its
/// reference and reference hash are both present or both absent, and a hash
/// has 32 bytes; a reference without a hash, or a hash without a reference,
/// is always refused.
pub proof fn lemma_valid_metadata(m: ContractMetadata)
    ensures
        m.metadata_error() is None ==> m.spec@ == metadata_spec_text() && (m.reference is Some) == (
        m.reference_hash is Some) && (m.reference_hash matches Some(h) ==> h@.len() == 32),
        (m.reference is Some) != (m.reference_hash is Some) ==> m.metadata_error() is Some,
{
}

/// Flipping the public sale toggles only the public sale: the pre-sale, the
/// owner, the prices, the supply, the metadata and the royalties stay as
/// they were. Flipping the pre-sale likewise toggles only the pre-sale.
pub proof fn lemma_flips_touch_one_flag(c: Contract)
    ensures
        c.with_public_sale_flipped().sales_active == !c.sales_active,
        c.with_public_sale_flipped().pre_sale_active == c.pre_sale_active,
        c.with_public_sale_flipped().owner_id == c.owner_id,
        c.with_public_sale_flipped().mint_price == c.mint_price,
        c.with_public_sale_flipped().wl_price == c.wl_price,
        c.with_public_sale_flipped().max_supply == c.max_supply,
        c.with_public_sale_flipped().metadata == c.metadata,
        c.with_public_sale_flipped().royalties == c.royalties,
        c.with_public_sale_flipped().description == c.description,
        c.with_presale_flipped().pre_sale_active == !c.pre_sale_active,
        c.with_presale_flipped().sales_active == c.sales_active,
        c.with_presale_flipped().owner_id == c.owner_id,
        c.with_presale_flipped().mint_price == c.mint_price,
        c.with_presale_flipped().wl_price == c.wl_price,
        c.with_presale_flipped().max_supply == c.max_supply,
        c.with_presale_flipped().metadata == c.metadata,
        c.with_presale_flipped().royalties == c.royalties,
        c.with_presale_flipped().description == c.description,
{
}

/// A percentage of an amount is the amount times the percentage over 100,
/// rounded down: at most the exact value, and less than one below it.
pub proof fn lemma_percent_rounds_down(percent: int, amount: int)
    requires
        percent >= 0,
        amount >= 0,
    ensures
        0 <= 100 * percent_of(percent, amount) <= amount * percent,
        amount * percent < 100 * percent_of(percent, amount) + 100,
{
    assert(amount * percent >= 0) by (nonlinear_arith)
        requires
            amount >= 0,
            percent >= 0,
    ;
    let x = amount * percent;
    assert(100 * (x / 100) <= x < 100 * (x / 100) + 100) by (nonlinear_arith)
        requires
            x >= 0,
    ;
}

/// The number that a text of decimal digits stands for.
pub open spec fn decimal_value(s: Seq<char>) -> int
    decreases s.len(),
{
    if s.len() == 0 {
        0
    } else {
        10 * decimal_value(s.drop_last()) + (s.last() as int - '0' as int)
    }
}

/// The decimal text of `n` is made of digits and reads back as `n`.
pub proof fn lemma_decimal_reads_back(n: nat)
    ensures
        decimal_value(decimal(n)) == n,
        forall|i: int| 0 <= i < decimal(n).len() ==> '0' <= #[trigger] decimal(n)[i] <= '9',
    decreases n,
{
    let d = n % 10;
    assert(digit_char(d) as int - '0' as int == d);
    if n < 10 {
        assert(decimal(n).drop_last() =~= Seq::<char>::empty());
        assert(decimal_value(Seq::<char>::empty()) == 0);
        assert(decimal(n).last() == digit_char(n));
        assert(d == n);
    } else {
        lemma_decimal_reads_back(n / 10);
        assert(decimal(n).drop_last() =~= decimal(n / 10));
        assert(decimal(n).last() == digit_char(d));
        assert(decimal_value(decimal(n)) == 10 * decimal_value(decimal(n / 10)) + d);
        assert(n == 10 * (n / 10) + d);
        assert forall|i: int| 0 <= i < decimal(n).len() implies '0' <= #[trigger] decimal(n)[i] <= '9' by {
            if i < decimal(n).len() - 1 {
                assert(decimal(n)[i] == decimal(n / 10)[i]);
            }
        }
    }
}

} // verus!
