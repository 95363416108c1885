# user_management

The user management service of the Globelise platform: accounts, sign-up and
log-in, refresh and one-time tokens, password reset, Google sign-in,
onboarding forms, bulk upload of contractors, and the access rules of the
client endpoints.

## Layout

- `src/` is the library, written and proved with Verus. Each public function
  states in its contract what it returns for every input; the laws that tie
  several functions together are public proof functions (`law_*`, `lemma_*`).
  - `sessions` — session tables of token hashes with their expiry: opening,
    revoking, clearing expired entries, single-use redemption of one-time
    tokens, and the state-store keys.
  - `credentials` — password normalisation, hashing and checking, sign-up and
    registration rules, log-in.
  - `token` — one-time token audiences, lifetimes, claims and their checks;
    access and refresh token claims.
  - `google` — CSRF check, redirect with a one-time token, sign-in and
    sign-up decisions, marketplace registration.
  - `password_reset` — the reset mail and the reset flow's decisions.
  - `onboarding` — multipart forms, image checks, onboarding details.
  - `bulk_add` — upload file kinds, CSV reading, and the steps of each row.
  - `pay_items`, `access`, `user`, `ids`, `error`, `requests` — stored names,
    access decisions, accounts, identifiers, error answers and request types.
- `tests/` runs the library with the real outside crates.
- `app/` is the HTTP service around the library: routes, database queries,
  the Dapr state store, token signing and mail.
