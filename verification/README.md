# upshift_vault

A share-based vault and its delayed-redemption queue.

- `src/vault/`: share pricing, deposits, redemptions, operator funds, admin
  settings, and the vault's laws in `laws.rs`.
- `src/queue/`: withdrawal requests, their schedule and settlement, batch
  instructions, the deposit-mint policy, and the queue's laws in `laws.rs`.
- `src/key.rs`, `src/token.rs`, `src/account.rs`, `src/address.rs`: keys,
  token account contents, account facts and program addresses.
- `tests/`: scenarios on concrete values.
- `app/`: account layouts, token and metadata transfers, events, error codes
  and the vault program's instruction entry points.
