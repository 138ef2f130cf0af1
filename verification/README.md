# credence

Verified core of the Credence protocol contracts, written in Verus.

`src/` holds the contract logic with its contracts and laws; every item in
it is checked by Verus:

- `accounts` – addresses held by their strkey text.
- `arbitration` – arbitrator registration, vote weight from the bonded balance, vote admission and dispute status symbols.
- `cli` – admin command planning: contract function, encoded arguments, contract-id and signer decoding, dry-run report.
- `delegation` – delegation registry: pause gate, per-identity nonces, expiry window, revocation, validity, attestation status.
- `drain` – timelocked, pause-gated, admin-only emergency drain with an append-only audit trail.
- `fuzz_rng` – SplitMix64 generator and fuzz settings.
- `penalty` – early-exit penalty.
- `scheme` – signature scheme tags and their wire values.
- `slash_history` – per-identity slash history with bounded pagination.
- `tiers` – bond tiers from thresholds, and tier-change announcements.
- `token` – token configuration, and the step-by-step guarded transfer (allowance, balance, transfer, balance-delta check).

`app/` is the `credence-admin` binary (argument parsing, building the
transaction, whose time bounds come from the clock, RPC) and the Soroban glue (storage, events, authorization and
token calls) around the library. `tests/` exercises the library.
