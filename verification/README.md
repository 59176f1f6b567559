# mio_egal

A small multi-threaded async executor with an I/O reactor built on `mio`.

- `src/` is the verified library (Verus):
  - `task.rs`: task identifiers and the source that hands them out;
  - `executor.rs`: tasks, the table of tasks parked between polls, the main
    loop's decision on a wake-up, a worker's decision after a poll, and the
    runtime's termination rule;
  - `slots.rs`: the reactor's table of parked wakers and the routing of
    readiness events;
  - `stream.rs`: when a non-blocking stream registers with the reactor and
    when it leaves.
- `app/` holds the threads, channels, the operating system's poller, the raw
  waker and the example program, and calls the library for every decision.
- `tests/` exercises the library.
