//! Account identifiers as the NEAR runtime accepts them.

use vstd::prelude::*;
use vstd::string::StringSliceAdditionalSpecFns;

verus! {

/// A byte that may stand in an account identifier without being a separator.
pub open spec fn is_id_char(b: u8) -> bool {
    (0x61 <= b && b <= 0x7a) || (0x30 <= b && b <= 0x39)
}

/// A separator byte: `-`, `_` or `.`.
pub open spec fn is_id_separator(b: u8) -> bool {
    b == 0x2d || b == 0x5f || b == 0x2e
}

/// The account-id rule of the NEAR runtime: 2 to 64 bytes, only lower-case
/// letters, digits and separators, no separator first or last, and no two
/// separators in a row.
pub open spec fn valid_account_bytes(s: Seq<u8>) -> bool {
    &&& 2 <= s.len() <= 64
    &&& forall|i: int| 0 <= i < s.len() ==> is_id_char(#[trigger] s[i]) || is_id_separator(s[i])
    &&& !is_id_separator(s[0])
    &&& !is_id_separator(s[s.len() - 1])
    &&& forall|i: int| 0 <= i < s.len() - 1 ==> !(is_id_separator(#[trigger] s[i]) && is_id_separator(s[i + 1]))
}

/// Parses `id` as a `near_sdk::AccountId` (its `FromStr`) and reports whether
/// that succeeded. The parse checks the bytes with
/// `near_sdk::env::is_valid_account_id`, which accepts exactly the identifiers
/// described by `valid_account_bytes`.
#[verifier::external_body]
fn parses_as_account_id(id: &str) -> (r: bool)
    ensures
        r == valid_account_bytes(id.spec_bytes()),
{
    id.parse::<near_sdk::AccountId>().is_ok()
}

/// Whether `id` is an account identifier that the runtime accepts.
pub fn is_valid_account_id(id: &str) -> (r: bool)
    ensures
        r == valid_account_bytes(id.spec_bytes()),
{
    parses_as_account_id(id)
}

} // verus!
