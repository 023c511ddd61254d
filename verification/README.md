# servir

Common HTTP server infrastructure for self-hosted servers: structured
errors with their HTTP mapping, the JSON response envelope, password
hashing, JWT access and refresh tokens, and the decisions the auth routes
make. The library in `src/` is written in Verus. Verus proves the
contracts of the library's own functions; the small wrappers that call
outside crates (marked `external_body`) carry contracts that are trusted,
each with a doc comment saying what it claims of the outside code.

## Layout

- `src/error.rs` — the error model: status, identifier, structured context,
  the human-readable rendering and the JSON context map of every error.
- `src/response.rs` — the `ApiResponse` envelope and the error body JSON.
- `src/json.rs` — JSON string quoting (with serde_json's escape rules
  stated), hexadecimal digits and decimal numbers.
- `src/auth/` — claims and configuration (`claims.rs`), the JWT calls
  (`jwt.rs`), Argon2 password hashing (`password.rs`), registration,
  login, token rotation and bearer authentication (`http.rs`), and the
  order in which the register, login and refresh routes consult the store
  (`flow.rs`).
- `src/db.rs` — the user record, user IDs, insert-failure classification,
  refresh-token expiry and signing-secret generation.
- `src/server.rs`, `src/profile.rs` — builder defaults and the consumer's
  user profile.
- `app/` — the axum server, the SQLite store, tracing and middleware around
  the library.
- `tests/` — tests of the library on concrete values.
