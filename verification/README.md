# property-defs-rs

Query planning for the property-definitions endpoint of the PostHog
property-definitions service, verified with Verus.

- `src/text.rs` — string equality, splitting at a character, trimming,
  and parsing of `bool` and `i32` values, each against a spec function.
- `src/params.rs` — the raw query-string parameters and their parsed form
  (`parse_params`), with the defaults of the endpoint.
- `src/sql.rs` — the `sqlx` query builder behind trusted wrappers, and the
  model of a query as text parts and bound values (`render`).
- `src/query.rs` — the query manager: the count query and the
  property-definitions query, which share their join and filters, and the
  check that every bound value fits Postgres' encoding.
- `src/api.rs` — the endpoint's decisions: a request without a parent
  property type is turned down; otherwise its parsed parameters, both
  queries and the (empty) response.
- `src/response.rs` — the response body.
- `src/laws.rs` — properties that span several functions.
- `app/` — the axum routes, the Postgres pool and the JSON copies of the
  response types.
