# rust_websocket

A WebSocket chat server whose decision logic is verified with Verus.

- `src/` is the verified library:
  - `stats` — connection counters, the connection tracker and the published report;
  - `users` — the set of taken usernames (each name held once);
  - `session` — the per-connection protocol as a state machine (`Session::step`,
    `Session::record_send`, `Session::finish`), with
    its laws as proof functions;
  - `status` — who may read the statistics;
  - `config` and `text` — the configuration computed from environment variables.
- `app/` is the server around it: HTTP routing with axum, the socket loop that performs
  what `Session::step` decides, shared state behind mutexes, the database connection
  and the JSON encoding of the status report.
- `tests/` exercises the library on concrete values.
