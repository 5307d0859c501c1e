# gear_logic

Verified core logic of parts of the Gear runtime, written in Verus.

- `src/kv_program.rs` — the key-value test program: requests, replies and the
  map they act on, with laws relating successive requests.
- `src/lazy_pages.rs` — the lazy-pages memory-fault handler as a state
  machine (`handler_step`): which interval to unprotect, which pages to load
  and save with their data, and the errors it reports.
- `src/ext.rs`, `src/host_funcs.rs` — the externalities interface and the host
  functions a wasm program calls through it.
- `src/runtime.rs` — the wasmi backend's call state and its sandbox memory
  accesses.
- `src/scheduler.rs` — scheduler interfaces.
- `src/traps.rs` — trap strings and their recognition.

`app/` holds what Verus does not check: SCALE encoding of the key-value
program's messages, the signal-handler loop that performs the state
machine's actions (memory protection, storage reads), and decoding of values read from sandbox memory.
