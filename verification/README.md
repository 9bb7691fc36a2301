# warlock_gateway

A registry of workers (hosts) and VMs (guests) for a Firecracker control
plane, verified with Verus.

- `src/models.rs` – the records (workers, VMs, lookups, capacity reports) and
  their views.
- `src/model.rs` – the mathematical model: the two tables as sequences of rows
  and what each operation does to them.
- `src/registry.rs` – the executable registry, each operation proved against
  the model.
- `src/placement.rs` – best-fit placement of a new VM.
- `src/api/` – the HTTP endpoints as functions from registry and request to
  status code and answer.
- `src/endpoints.rs`, `src/text.rs` – worker API addresses and decimal text.
- `src/laws.rs` – properties across operations (lookup after registration,
  deregistration undoing registration, stale workers receiving no traffic, …).
- `src/clock.rs` – the wall clock, in whole seconds since the Unix epoch.
- `app/` – the axum server, the SQLite store the registry is persisted to, the
  calls to the workers, and the health monitor loop.
