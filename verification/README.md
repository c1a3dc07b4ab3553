# court_api

Request-handling logic of a federal court case management API (criminal
cases, dockets and calendars, deadlines, judges, orders, opinions, filings,
PDF documents), written in Verus and verified.

- `src/` — the verified library: request models, parameter and query
  parsing, validation, partial updates, order and recusal rules, reply
  formats, the order in which a document or filing request is checked
  (as step functions from what was learned to what comes next), and the
  small text and number routines they rest on. Calls into uuid, chrono,
  base64 and url go through a few trusted wrappers whose contracts state
  or name what those crates compute.
- `tests/` — tests of the library on concrete values.
- `app/` — the Spin HTTP layer: JSON shapes with serde, response writing,
  and handlers that read requests, run the document services, repositories
  and filing engines where the library's steps ask for them, and hand their
  answers to the library. Those services are traits here, supplied by the
  deployment.
