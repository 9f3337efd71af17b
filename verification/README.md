# film-record-lite

A lightweight film-record HTTP service backed by SQLite, with token
authentication. The decisions of the service are a verified library; the HTTP
server around it is ordinary Rust.

- `src/` — the library, verified with Verus:
  - `models.rs`: film records and requests, rating and paging validation;
  - `auth.rs`: reading a request's token (header or query string) and deciding
    whether it may reach a data route;
  - `config.rs`: choosing the token and settings from the command line and the
    environment;
  - `db.rs`: `LIKE` patterns, the statement of a partial update, record dates;
  - `format.rs`: the Markdown summary of a film;
  - `routes.rs`: the replies of the data routes;
  - `error.rs`: the status and detail of each error;
  - `text.rs`: decimal rendering;
  - `laws.rs`: properties that span several functions.
- `app/` — the server: command-line parsing, SQLite access, HTTP routing,
  OpenAPI documentation and the conversion of `f64` ratings.
- `tests/` — tests of the library.
