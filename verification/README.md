# gnome_mcp

Two desktop tools for GNOME, with their decision logic verified in Verus:

- **window management** (`WindowManagement`): turns an action name and its
  parameters into a GNOME Shell script, runs it through `org.gnome.Shell.Eval`,
  and reports the outcome;
- **screenshots** (`Screenshot`): asks the desktop portal, and falls back to
  GNOME Shell's screenshot service when the portal fails.

Layout:

- `src/` — the verified library. Each tool run is a session (`WindowSession`,
  `ScreenshotSession`) whose `step` function takes what happened and returns
  the next thing to do, with contracts that pin down every script, message and
  transition. `scripts.rs` holds the GNOME Shell scripts, `decimal.rs` and
  `text.rs` the text helpers they need, `json.rs` the calls into `serde_json`.
- `app/` — the unverified glue that performs the steps with `zbus`, `ashpd`
  and the system clock.
- `tests/` — tests of the library on concrete values.
