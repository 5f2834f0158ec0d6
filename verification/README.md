# silicon-briefcase: verified decisions behind the storage adapters

A multi-tenant file store keeps its state in PostgreSQL and learns who its
callers are from an identity service. This crate holds everything that is
decided between the two: which callers an answer of the identity service
vouches for, what a stored row means, whether a request may run, what it
writes, and what it is answered. Every function of the library carries a
contract. Verus proves all of them but those of the few wrappers and assumed
specifications that stand for calls into other crates and the standard library;
each of these says in its comment what it relies on.

- `src/iam*`: claims of tokens and proofs, their binding to a member, an
  organization and a plane, retries, and the resolution of recipients.
- `src/postgres*`: tenants and planes, reserved folders, entries, grants,
  requests, notifications, listings, sharing by link, quotas, uploads, storage,
  versions and delegated uploads.
- `src/model.rs`, `ids.rs`, `json.rs`, `text.rs`, `order.rs`, `clock.rs`,
  `encoding.rs`, `secret.rs`, `error.rs`: the values that both sides speak of,
  and the few calls into other crates with what is relied on of them.

Functions that decide from what a database read returned take the rows as
arguments and answer with the rows to write. Laws that hold across functions
are public proof functions whose names start with `law_`.

`app/` runs the statements and calls and hands their results to the library.
What the surrounding service brings (its access policy, its checked types, its
quota rules, its platform storage and the client of the identity service) are
the traits `Domain` and `IdentityService` there. `extras/migrations/` holds the
SQL functions that `app/` calls, to be applied after the schema.
