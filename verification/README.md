# olympus_core

The core service of the Olympus marketplace: authentication, role-based
access control, catalogue, cart, checkout, payments and seller/admin views.

## Layout

- `src/` — the verified library (Verus). Each module holds the decisions of
  one area of the service as functions from plain values to plain values,
  with `requires`/`ensures` contracts over spec functions, and the laws of
  that area as public proof functions (`lemma_*`). Money is an exact decimal
  (`money::Money`); its arithmetic is done by `rust_decimal` behind trusted
  wrappers whose results are named by uninterpreted spec functions.
  Cryptography (HMAC-SHA256, Argon2), hex decoding and UUID parsing are
  likewise called through small trusted wrappers.
- `tests/` — tests of the library on concrete values.
- `app/` — the HTTP service around the library: Axum routes and
  middleware, SQL queries (sqlx), JWT encoding and decoding, the AI service
  client, configuration from the environment. It performs the I/O and hands
  the library plain values.
