# logs_api

A small log-collection service. Services send log messages with a service
token; users log in with a name and password, query the logs of chosen
applications, and administrators manage accounts, log types and service
tokens.

- `src/` is the verified library (Verus): settings parsing, session and
  service token checks, request admission, Argon2 password hashing, log
  completion and log selection (type filter plus stable ordering by
  timestamp), and the laws that tie them together.
- `app/` is the HTTP server (axum, MongoDB, JSON web tokens) around it.
- `tests/` runs the library on concrete values.
