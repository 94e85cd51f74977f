# bitwarden_rs

A lightweight Bitwarden-compatible password-vault server. The library
(`src/`) holds the server's logic with Verus contracts:

- `crypto`: master-password hashing (PBKDF2-HMAC-SHA256 salted with the
  lower-cased e-mail, base64 text), verification, random tokens.
- `auth`: access-token claims, bearer and basic authorization decisions,
  login, prelogin, registration and two-factor rules.
- `api`: the answer of every vault endpoint for each outcome of the store.
- `models`: the API's data types and the mapping of stored rows into them.
- `config`: where the database path, listening address and signing secret come from.
- `text`: prefix stripping and small string helpers.

`app/` is the HTTP server around it: axum routing, the SQLite store
(rusqlite), JSON encoding (serde) and JWT signing (jsonwebtoken).
