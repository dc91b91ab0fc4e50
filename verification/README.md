# rust_backend_boilerplate

An HTTP API with email/password registration, login and cookie sessions,
whose decisions are proved correct with Verus.

- `src/` is the verified library: the error format of the API and the
  mapping of statuses to error codes, email and password validation,
  registration and login decisions (Argon2id hashing through `password-auth`),
  the frontend-origin setting, CSRF protection, error-response rewriting, the
  session store's decisions, request-log levels, the HTTP policies (CORS,
  session cookie, limits) and the graceful-shutdown state machine.
  `src/laws.rs` states and proves properties that span several operations.
- `app/` is the server around it: axum routing and middleware, axum-login and
  tower-sessions integration, the PostgreSQL store and migrations (SeaORM),
  and `main`.
- `tests/` exercises the library on concrete values.
