# codex_code_mode

Code mode for a platform without embedded V8: the code of each cell runs in a Node bridge
process that exchanges one JSON message per line with the session.

- `src/` is the verified library: the JSON values of the line protocol (`json`), the values that
  cells store across runs (`store`), the exchange with the bridge as a state machine from event to
  next action (`bridge`), the session, its cells and the no-op delegate (`session`), and the text
  helpers for error messages (`text`).
- `app/` drives a run: it spawns the bridge, reads and writes lines with serde_json and tokio,
  awaits the delegate's calls, and feeds what happened back to `NodeBridge`.
- `tests/` runs the library on concrete exchanges.
