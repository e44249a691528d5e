# orbitdock_connector

The connector layer of OrbitDock: it turns what an AI coding runtime
(Codex) reports into conversation rows, approval requests and session state,
and decides each step of a session through a pure state transition. Every
function under `src/` is verified with Verus against its contract.

## Layout

- `src/transition/` — the session state machine: `transition` takes a state,
  an event, the time and a row id and gives the next state and the effects
  to perform; laws about it are in `laws.rs`.
- `src/approval/` — approval previews: shell command segments, risk
  findings, questions and the manifest shown to the user.
- `src/codex/` — the Codex connector's rules: settings and overrides,
  sandbox policies, how runtime items, notifications and server requests
  become rows and approvals, and the buffers kept between events.
- `src/direct_codex.rs`, `src/connectors.rs` — the direct connector's
  translation of runtime events into connector events.
- `src/json.rs`, `src/text.rs`, `src/keyed.rs` — reading and writing JSON
  text, text helpers, and a map keyed by text.
- `app/` — what stays outside verification: the clock, the environment,
  panic payloads and the error type with its derives.
- `tests/` — scenarios on concrete values.

Outside crates are reached through a few trusted wrappers (`serde_json` for
reading and quoting JSON, `uuid` for fresh row ids, and parts of std), each
with a doc comment saying what its contract claims.
