# propchain

Verified logic of the PropChain contracts.

- `src/cache.rs`: `TtlCache`, a single-entry cache whose value stays fresh
  for `ttl` ticks.
- `src/crypto.rs`, `src/randomness.rs`: commitments (Blake2x256 through the
  ink! environment) and commit-reveal randomness rounds; each operation is
  specified as a step on `RoundView`, with the round invariants and phase
  laws proved.
- `src/third_party/`: the third-party service integration (services, KYC,
  fiat payments, alerts). `model.rs` says what each message does to
  `IntegrationView`; `integration.rs` implements it; `laws.rs` proves what
  holds across messages.
- `src/account_map.rs`, `src/primitives.rs`: account-keyed maps, account ids
  and digests.
- `src/proxy.rs`: the proxy stub.
- `app/`: reads the caller and block time from the ink! environment and
  converts ink! accounts and hashes.
