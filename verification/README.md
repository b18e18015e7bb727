# warden

The policy engine of a smart-wallet guard: for each transfer a wallet is about
to make it answers `Allow` or `RequireStepUp(reason)`, from the wallet's own
policy (per-transfer ceiling, fixed hourly and daily velocity caps, trusted
recipients whose trust decays), an admin-managed registry of flagged
addresses, and a guardian recovery state machine that can only ever move an
account toward less restriction.

Layout:

- `src/` — the verified library (Verus).
  - `address.rs` — account identities and the address-keyed map that holds
    every per-wallet table.
  - `types.rs`, `errors.rs` — the data model and the errors.
  - `env.rs` — the environment an operation runs in: ledger time, storage
    entries, published events.
  - `storage.rs` — reads and writes of each kind of storage entry.
  - `rules.rs` — the rules as specifications: valid policies, fixed windows,
    trust decay, the decision order, and the outcome of every operation.
  - `contract.rs` — the operations, each proved against `rules.rs`.
  - `laws.rs` — properties relating the operations, proved.
- `tests/` — tests of the library.
- `app/` — the Soroban contract around the library: authorisation, ledger
  storage and event publishing.
