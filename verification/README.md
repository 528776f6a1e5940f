# codex_pet

Codex Pet is a Windows desktop companion that shows the Codex rate-limit
quota in a small always-on-top window, manages a ChatGPT login through the
Codex App Server, and keeps its window placement and tray preferences.

The crate is split in two:

- `src/` is the verified library (Verus). It holds the application's
  rules and state machines:
  - `account`, `account_session`: the login state machine, how account
    reads drive it (with one reconnect after a broken connection), and what
    a login whose browser page did not open comes to;
  - `codex_adapter`: reading each line the App Server writes (through
    serde_json) and the JSON-RPC routing of its messages, the table of
    pending requests, the bounded stderr buffer, when the end of the
    server's stdout fails the client, and the child-process shutdown steps;
  - `quota`: one shared read at a time, a single follow-up read for
    notifications, notification debouncing and what a failed read publishes;
  - `window_state`: tray-driven window preferences that change only after
    every native step succeeded (with compensation), monitor choice, and
    which window moves are persisted;
  - `settings`, `paths`: the settings version policy, backup and temporary
    file names, and the debounced settings write;
  - `runtime`, `version`: runtime selection and version parsing;
  - `startup_metrics`, `text`: startup timing and small text helpers.
- `app/` is the Tauri application around it: the window, tray and commands,
  the App Server process and its threads (including starting the process and
  killing it again when its pipes cannot be taken), the JSON that the
  client writes, the settings file on disk, and the quota snapshots read
  from the server's responses, whose percentages are floating point.

`tests/` exercises the library from outside.
