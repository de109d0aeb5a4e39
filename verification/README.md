# rst02_users_crud_auth

A small users service (register, log in, read, update, delete) over MySQL.

- `src/` is the verified library (Verus):
  - `model.rs`: the user record and the request payloads;
  - `validation.rs`: the payload rules (lengths, username format, email check);
  - `password.rs`: argon2 hashing and verification;
  - `response.rs`, `replies.rs`: the responses the service sends and how each is chosen;
  - `flows.rs`: register, update and login as steps from a stage and an event
    (a database answer) to the next stage and an action (a query, a write, a reply);
  - `table.rs`: the users table as a sequence of rows, with the answers it gives and the writes;
  - `laws.rs`: properties that span several steps and functions.
- `app/` is the server: actix-web handlers that run the flows against the
  database with sqlx and render responses as JSON.
- `tests/` exercises the library.
