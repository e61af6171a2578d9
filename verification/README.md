# portfolio_tracker_backend

The backend of a crypto portfolio tracker: users register and log in, keep
a list of assets (tokens on blockchain networks), record their holdings and
the share of the portfolio they expect each asset to take, and a job fetches
USD rates from a price provider.

- `src/` is the verified library: the domain model (networks and their
  identifiers, assets, holdings, allocations), exact decimals, the price
  provider's response model and its mapping into rates, the mapping of
  stored rows into domain values (including grouping holding rows per asset
  and valuing them), authentication helpers (password hashing, bearer
  tokens, token claims), request validation, and the classification of
  errors into API responses. Every function carries a contract that Verus
  proves; calls into `rust_decimal`, `uuid`, `itertools`, `argon2` and
  `validator` go through a few trusted wrappers whose contracts are stated
  next to them.
- `app/` is the HTTP server around it: configuration, PostgreSQL queries
  with `sqlx`, the price provider's HTTP client with `reqwest`, JSON with
  `serde`, tokens with `jsonwebtoken`, and the `axum` router.
- `tests/` exercises the library on concrete values.
