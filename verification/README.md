# yookasa_sdk

A client library for the YooKassa HTTP API, written in Verus.

- `src/` is the verified library: credentials (`auth`), client configuration and
  the decisions every call makes (`client`: base URL handling, endpoint URLs,
  the `Authorization` to present, idempotence keys, the OAuth-only rule for
  webhooks, classification of responses), the table of API operations
  (`operation`), the reqwest client with the settings it was built with
  (`http`), idempotence-key rules (`idempotence`), string helpers (`text`),
  errors (`error`) and the data model (`model`).
- `app/` is the asynchronous client built on `reqwest`: it asks the library to
  prepare each request, sends it, and hands status and body back to the library.
  It also holds the serde-enabled copies of the model types, conversions to and
  from the library's types, and the few model types that carry floating-point
  quantities.
- `tests/` exercises the library on concrete values.
