# napi_uniffi_engine

Planning for the Node and OHOS N-API backends of a UniFFI frontend, written
in Verus.

- `src/` is the verified library.
  - `family`, `rules`, `validate`, `entrypoints`, `plan`: the family planner.
    `FamilyPlan::build` validates a mechanical operation table (dense ids,
    receivers, dispatch, value paths, result resources, callback and stream
    use sites, stream slots) and derives the runtime entrypoints; its
    contract is the ordered rule list `rules::plan_check`.
  - `bridge`, `bridge_rules`, `bridge_validate`: the Rust call plan, checked
    against a family plan by `RustBridgePlan::build_with_resource_hooks`
    (contract: `bridge_rules::bridge_check`).
  - `engine`, `generation`: per-operation decisions of a generated module
    and the rules under which a pair of plans can be generated at all.
  - `napi_module`: the plan of a generated module (`plan_napi_module`):
    the dense function table, each native function's lowering decisions,
    the session descriptor of every operation, the resource callbacks and
    the one exported factory.
  - `session`: the operation table and bookkeeping of a backend session
    (`SessionLedger`: invocations, retained callbacks, input streams and
    resource leases, each released at most once, and what closing releases).
  - `laws`, `order_laws`, `bridge_laws`, `generation_laws`: what every
    accepted input has.
  - `plan_error`, `engine_error`, `text`, `bigint`, `backend`: errors and
    their messages, value-path texts, BigInt words, plain backend enums.
- `app/` is ordinary Rust around the library: the N-API value/error
  envelope, the native session object, and the backend function builder.
- `tests/` exercise the library through its public API.
