# mpl-core-staking

A staking program for Metaplex Core assets on Solana, with its rules verified by Verus.

- `src/` holds the verified library: the US-market schedule (`market`), the collection
  oracle's answers (`oracle`), the staking configuration (`config`), the plugins a staking
  collection starts with (`collection`), the burn bonus and the collection's staked count
  (`burn`), decimal reading and writing of attribute values (`text`), and the reading of
  Metaplex Core account data (`account`).
- `app/` is the Anchor program: account constraints, cross-program invocations into
  Metaplex Core and the token program, and conversions between on-chain types and the
  library's plain values.
- `tests/` exercises the library on concrete values.
