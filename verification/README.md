# settrum

Settlement infrastructure for regulated institutions: operators register
with collateral, issue assets, submit settlements that root finalizes or
disputes, attach proofs, and run multi-leg cross-operator settlements that
apply all their legs or none.

## Layout

- `src/` — the verified library (Verus).
  - `runtime.rs` — the chain state (`Runtime`, viewed as `ChainState`),
    origins, dispatch errors and events.
  - `operators.rs`, `asset_registry.rs`, `settlement_engine.rs`,
    `settlement_proofs.rs`, `cross_settlement.rs` — the pallets. Each
    dispatchable's contract is a spec function from the state before the
    call to the state after it or the error; a refused call leaves the
    chain untouched.
  - `laws.rs` — properties that span calls: invariants every call keeps,
    what one call undoes, which states are final.
  - `bounded.rs` — vectors with a length bound.
  - `mock.rs` — a ready-made chain for exercising the pallets.
  - `client.rs` — when a chain client retries and when it gives up.
  - `node.rs` — the handles the node's RPC extensions are built from.
  - `api/` — the REST layer's decisions: request checks, authorization,
    error answers, settings, rate-limit intervals, health answers.
- `tests/` — the pallets' scenarios and the library's own tests.
- `app/` — the HTTP server: routing, database access, token signing,
  reading the environment. It calls the library for every decision.
