# site_management

The verified core of a small website-management service: accounts with
Argon2i-hashed passwords, login sessions, website memberships, and the
decisions of each HTTP route.

- `src/` is the library, verified with Verus.
  - `text`: upper-case hexadecimal, decimal numbers, ASCII upper-casing.
  - `argon2`: password hashing (through `argon2rs`) and its stored form.
  - `random`, `clock`: random keys and salts (through `rand`), the wall clock.
  - `models`: the records and the computations on loaded rows.
  - `db`: the queries a handler asks for and the answers it gets back.
  - `auth`, `user_login`, `routes`: the handlers, each a state machine
    that asks one query at a time and ends with its result.
  - `responses`: replies and page contexts.
- `app/` is the Rocket web server around it: it runs the queries with
  Diesel on PostgreSQL and renders the replies.
- `tests/` runs the library, with the handlers driven against in-memory
  answers.
