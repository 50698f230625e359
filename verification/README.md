# lacis_proxy

The logic of LacisProxyGateway2, a reverse-proxy gateway for a facility
network, as a library verified with Verus: sessions and permissions, proxy
routes, DDNS updates, nginx configuration, the network topology (node order,
reparenting, collapsing), LacisID candidates, health tracking, diagnostics,
dashboard readings and Discord notices.

- `src/` — the verified library. Each public function states in its contract
  what it returns; the public `lemma_*` proof functions state properties that
  span several functions (what a saved setting reads back as, that a move the
  reparent check accepts keeps a loop-free tree loop-free, that re-ingesting a
  node never moves it, ...).
  Calls into `bcrypt`, `base64`, `url` and `serde_json` stand behind small
  trusted wrappers whose contracts say what the crates document.
- `tests/` — tests that run the compiled library.
- `app/` — the HTTP server around the library (axum): it reads requests,
  files and command output, hands plain values to the library and writes its
  answers back.

Verify with Verus on `src/lib.rs`; build and test with Cargo.
