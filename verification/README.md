# qubit_clock

Injectable time for deterministic code, verified with Verus.

- `src/` is the library. Every clock keeps its state in a plain value and
  every operation is a single verified step on it: monotonic instants and
  clock domains, an explicitly advanced manual clock with deadline waiters
  and waiter-count observers, controllable wall clocks with frozen or
  monotonic progression, mock timelines and clocks anchored on them,
  stopwatches, and human-readable duration formatting. Readings of the
  machine's clocks and calls into chrono enter only through a few trusted
  wrappers in `time_source.rs`, `duration.rs`, `wall_time.rs` and
  `waiter_registry.rs`.
- `app/` shares that state between threads and tasks: mutex-protected
  handles, blocking waits on condition variables that follow the
  library's wait steps, futures, task waking with panic isolation, chrono
  `DateTime` views, a Tokio-backed clock, and error types with `Display`.
- `tests/` exercises the library on concrete values.
