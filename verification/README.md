# realbox_smart_contract_solana

The logic of the Realbox crowdfunding vault program, verified with Verus.

- `src/` is the verified library: the sale life cycle (`schema.rs`), the
  purchase, return, finalization and settlement instructions
  (`instructions/`), the settlement model (`settlement.rs`), the error codes
  and the shared enums. Every instruction states its result and its effect
  on the vault exactly, and keeps the vault invariant `VaultModel::wf`.
- `app/` is the Solana program around it: Anchor account validation, the
  clock, token mints, burns and transfers, and the pricing of settled tokens
  in floating point.
- `tests/` runs the library on concrete vaults.
