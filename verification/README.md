# openclaw_gui

The verified core of the OpenClaw desktop console, which supervises the
`openclaw gateway` process from a tray application.

- `src/` — the library, verified with Verus:
  - `gateway.rs`: the supervisor's state (running process, last error and
    exit, bounded log) and every transition of it: starting, stopping,
    observing an exit, taking in output lines, logging launches. Each
    transition returns the events the front end is to be told.
  - `process.rs`: how a stop proceeds from what the process reports, and the
    exit records and messages.
  - `model.rs`: the data the front end sees, with their mathematical views.
  - `lifecycle.rs`: the quitting flag and what closing a window does.
  - `commands.rs`: the shell lines, the tray menu and its actions.
  - `text.rs`, `clock.rs`: decimal text, blank-line detection, the wall clock.
  - `laws.rs`: properties that span several operations, proved.
- `tests/` — tests on concrete values.
- `app/` — the Tauri shell: spawning and killing processes, reader and
  monitor threads, the window and tray, and serialisable copies of the
  core's types.
