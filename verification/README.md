# filesharing

A small self-hosted file-sharing server: accounts with rights, uploads that can be
protected by a password and deleted at a set time, uploads sent in chunks, a browser
sign-in kept in a cookie, and a JSON API behind bearer tokens.

- `src/` is the library, verified with Verus. It decides everything the server does:
  who may do what (`auth`, `permissions`, `api`), how uploads are named, stored and put
  together from chunks (`upload`), who may download what (`download`), what the
  database steps answer (`db`), what the periodic clean-up removes (`schedule`), the
  token rules (`token`), the settings (`config`), who may open each page and what it shows
  (`pages`, `views`).
  Password hashes (`bcrypt`), `Basic` authorization values (`http-auth-basic`), random
  identifiers (`uuid`, drawing its bytes with `getrandom`) and the clock and dates (`chrono`) are called through small
  trusted wrappers whose contracts say what the library relies on.
- `app/` is the server around it: `axum` routing, `sqlx` queries, the disk, the HTML
  written with `maud`, JSON with `serde` and tokens signed with `jsonwebtoken`.
- `tests/` runs the library on concrete values.
