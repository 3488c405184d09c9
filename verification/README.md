# haskepay

HASKEpay turns a settled Bitcoin Lightning payment into a signed access pass
that a gate can check offline with the issuer's public key.

This crate is written in Verus. `src/` is the verified library:

- `token`, `sign`, `verify`, `compact`: the two pass formats (a signed JSON
  token and a compact `payload.signature` token), their canonical JSON bytes,
  signing and offline verification. `sign_token` and `sign_compact_payload`
  state that what they produce verifies under the matching public key (until
  expiry, for signed tokens).
- `json`, `text`, `store`, `random`: canonical JSON writing, decimal numbers,
  white space and case rules, a keyed record store, random identifiers.
- `crypto`, `keys`, `clock`: the Ed25519, Base64, random and clock primitives,
  each behind one trusted wrapper whose contract names what it computes.
- `access`, `mock_backend`, `node`, `funding`: the Lightning node's access
  service (invoice sessions, settlement, pass issuance) and its settings.
- `lightning_adapter`, `stellar`, `checkout`, `shared`: the payment rails and
  the checkout API's decisions.
- `admission`: the offline acceptance rule and public-key loading.

`app/` holds the parts that are input and output: the offline verifier
command line, JSON reading with serde, the asynchronous provider traits,
and the HTTP routes.
