# kafka-console

The verified core of a desktop shell that runs a bundled JVM web backend on a loopback
port and shows it in a window.

- `src/` — the library, checked by Verus:
  - `config`: the JVM's environment (loopback binding, dynamic configuration, log file,
    heap limit) and the backend's URLs;
  - `paths`, `resources`: where the application's files and the bundled runtime are;
  - `settings`: reading and writing the heap limit in the JSON settings file;
  - `sidecar`: launching the backend and polling it until it is ready, it exits, or the
    rounds allowed run out; each decision of the polling is one step of a state machine
    (`poll_step`), which `wait_until_ready` drives, with the laws of that machine;
  - `supervisor`: the watchdog that restarts a crashed backend once, and what closing a
    window or choosing a menu entry does;
  - `error`, `time`, `text`: errors and their messages, spans of time, text helpers.
- `tests/` — tests of the library, run with the real outside crates.
- `app/` — the shell around the library: windows, tray, processes, HTTP, files.
