# tokio_util_watchdog

A watchdog utility for detecting deadlocks in tokio runtimes, with its decisions verified by Verus.

* `src/` is the library: configuration, the loops of the watchdog thread and of the heartbeat task
  as state machines, and snapshots of runtime metrics. It starts no thread and does not sleep.
  `src/laws.rs` states what holds of every watchdog.
* `app/` starts the thread and the task, performs the actions that the library asks for, and logs.
* `tests/` runs the library.

With the crate under `app/`, one line in `main` starts a watchdog for the current runtime:

```rust
let _watchdog = Watchdog::builder().build();
```

In the library itself, `Builder::build` starts nothing. It returns a `Result`: a state machine for
the current runtime, or why there is no such runtime.

The watchdog is disarmed gracefully if it is dropped. With `--cfg tokio_unstable` more metrics are
collected, and with `--cfg tokio_taskdump` in addition, task dumps are attempted.
