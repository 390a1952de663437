# auth_service

An authentication web service whose decisions carry proved contracts.

- `src/` is the verified library: the reply envelope (`response`), the
  request validation rules (`validation`), Argon2 password hashing
  (`password`), HS256 access tokens (`jwt`, `ids`), request authentication
  by bearer token and revocation list (`auth`), the endpoint decisions
  (`handlers`, `revocation`) and the table definitions (`schema`).
- `app/` is the server around it: actix-web routing, the sea-orm store and
  migrations, the serde wire types, and the request extractor.
- `tests/` runs the library against the real outside crates.

Each endpoint that waits on the store is split in two library calls: the
first decides what to ask the store (or replies at once), the second turns
the store's answer into the reply.
