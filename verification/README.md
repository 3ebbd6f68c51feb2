# apalache_learn

Set-ups for model-based testing of Rust code against TLA+ specifications with
Apalache, through `tla_connect`.

- `src/model_check.rs`: the two set-ups, `ApalacheMBT` (generate traces, then
  replay them) and `InteractiveMBT` (step through a specification on an
  Apalache explorer server), their settings as mathematical models, the laws
  of their setters, the derivation of `tla_connect`'s configurations, and the
  count of generated states.
- `src/bindings.rs`: the outside types and calls, each with the contract that
  its source shows.
- `app/lib.rs`: `run` for both set-ups, which start Apalache or talk to its
  server and print progress.
- `tests/`: tests of the set-ups, the configurations and the state count.
