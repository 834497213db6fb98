# rustboot

Building blocks for web services — middleware (CORS, rate limiting, security headers,
HTTP request logging), rate limiting algorithms, circuit breaking and retry decisions,
JWT-style tokens, role-based access control, secret storage, audit trails, markdown
statistics, and an OpenAPI document model — written in Verus with their behaviour stated
in contracts and proved.

## Layout

- `src/` — the verified library. Each module states what its functions return in
  `ensures` clauses over mathematical models (`Seq`, `Map`, `Set`, integers), and the
  laws that relate several functions are public proof functions:
  - `text`, `strmap`, `base64`: strings, an insertion-ordered string map, base64.
  - `auth`, `authz`, `secrets`, `security`, `audit`: tokens, RBAC, secrets, audit log.
  - `http_context`, `cors`, `http_ratelimit`, `http_logging`, `security_headers`,
    `pipeline`: HTTP middleware decisions and the lines they log.
  - `ratelimit`, `resilience`, `clock`: limiters, the circuit breaker, retries; times
    are nanoseconds read from a monotonic clock and handed to the verified steps.
  - `observability`, `ids`: logs, counters, spans, trace contexts, UUIDs.
  - `openapi_spec`, `openapi_builder`, `openapi_schema`, `swagger_ui`, `json`: the
    OpenAPI model and its builders.
  - `markdown`: markdown statistics, links and headers.
- `app/` — the asynchronous and I/O side: the async `Middleware` trait and pipeline
  runner, shared limiters, retries with floating-point backoff, timeouts, logging through
  `tracing`, environment secrets, JSON/YAML output of OpenAPI documents.
- `tests/` — tests of the library.
