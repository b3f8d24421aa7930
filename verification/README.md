# cpa_route_control

A management client for CLIProxyAPI (CPA), verified with Verus.

- `src/` is the verified library: base-URL normalisation (`base_url`),
  startup credentials from the `.env` file beside the executable and from the
  process environment (`startup`), the startup state machine that tries the
  sources in priority order (`bootstrap`), the current connection
  (`connection`), request and response rules (`request`), key redaction
  (`redact`), text operations (`text`) and message texts (`messages`).
- `app/` is the Tauri shell: commands, file, environment, credential-store
  and HTTP access. It drives `bootstrap::bootstrap_step` with what it reads.
- `tests/` holds the tests.
