# gangrennes

A small community board served by two Axum servers, with its logic verified by
Verus:

- a JSON API (`/auth/register`, `/auth/login`, `/api/items`, `/api/items/{id}`)
  with JWT authentication and SQLite storage;
- web pages (login and registration, a list of posts with reactions and pins, a
  monthly calendar, a profile page) with cookie sessions.

## Layout

- `src/` is the verified library: the checks of every request, the settings read
  from the environment, the answers to each error, password hashing and session
  tokens (through `argon2`, `sha2`, `base64` and `rand`), dates and their
  normalisation, the calendar grid, and the values each page is rendered from.
  Each public function states its result in its contract; the `law_*` proof
  functions state what holds across functions.
- `app/` is the servers themselves: routing, request extraction, SQL statements,
  cookies, file uploads, token signing and template rendering.
- `tests/` runs the library on concrete values.
