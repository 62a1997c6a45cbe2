# nft

The sale logic of a NEAR non-fungible-token contract, verified with Verus.

- `src/` is the library. It decides every call of the contract from plain
  values: who may administer it, whether a mint is admitted and which token it
  creates, how whitelist and free-mint allowances change, how a sale price is
  split into royalties and the owner's share, and which sub-account names are
  valid. Its contracts are stated over `Seq`, `Map` and spec functions, and
  `src/laws.rs` together with `src/royalty.rs` holds the properties that span
  several calls.
- `app/` is the contract as deployed: storage collections, the token ledger of
  `near-contract-standards`, the runtime environment (caller, deposit, block
  time, random seed), promises and events. It reads those, calls the library,
  and carries out what the library returns.
- `tests/` runs the library on concrete values.

Settings and choices:

- `MAX_SUPPLY` and `NFT_TOKEN_DESCRIPTION` in `src/constants.rs` are settings
  of this crate; `MINT_COST` is 6.66 NEAR per token.
- Tokens are minted in order of their ids, so no pool of tokens to draw from
  is kept: setting up, migrating and resizing the drop only set the supply,
  and its value is not limited.
- The app deploys the wasm code passed to `create_sub_contract` as an
  argument.
