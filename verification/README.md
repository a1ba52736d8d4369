# tetra_entities

Call control of a TETRA base station (EN 300 392-2 clause 14): the circuit
manager, group and individual call records with floor control, the call
setup, connect, disconnect and release procedures, calls bridged to a
network, the parrot test service, subscriber bookkeeping and short data
routing. The library in `src/` is verified by Verus: the procedures carry
contracts over the call records, and the few calls into `std` and `uuid`
stand behind small trusted wrappers whose contracts are assumed.

Layout:

- `src/` — the verified library, one module per concern (`circuit_mgr`,
  `call`, `floor`, `group_setup`, `individual_setup`, `connect`,
  `connect_ack`, `release`, `teardown`, `disconnect_flow`, `network_*`,
  `floor_activation`, `sds*`, `raw_sds`, `live_sds`, `timers`,
  `dashboard`, ...). The call-control procedures take the state they read
  and return what is to be sent; the message plumbing stays outside.
  `entity` holds the sub-entity together with its tables of pending
  procedures (cached D-SETUPs, group releases, individual releases waiting
  for delivery, connect guards); each of its steps runs one procedure and
  keeps the tables in line with the call records.
- `tests/` — tests of the library on concrete values.
- `app/` — glue for the surroundings: bridge call UUIDs and loops that
  advance the pending-procedure tables.

Verify with `verus` on `src/lib.rs` (crate type `lib`).
