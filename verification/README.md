# srvcs-lcm

The least-common-multiple orchestrator: `POST /` with `{"a": a, "b": b}` asks
`srvcs-gcd` for `g = gcd(a, b)`, replies `0` where `g == 0`, and otherwise asks
`srvcs-divide` for `q = a / g` and `srvcs-multiply` for `q * b`. A dependency's
`422` is forwarded with its body, an unreachable dependency (or any other
status) gives `503`, and a `200` without an integer `result` gives `500`.

Layout:

- `src/` — the verified library.
  - `service.rs`: identity (`index`), the request/response bodies, `Deps`.
  - `dependency.rs`: the three dependencies and the outcome of a call.
  - `reply.rs`: the replies and their status codes.
  - `json.rs`: reading the integer `result` of a dependency's body.
  - `evaluation.rs`: the evaluation as a state machine, and its laws.
  - `lcm.rs`: the arithmetic law — truly computing dependencies give the lcm.
  - `openapi.rs`: the OpenAPI document and the law that it lists every reply status.
  - `openapi_model.rs`: the part of `utoipa`'s model that the document uses.
- `app/` — the HTTP service around it: routes, the loop that performs the
  calls an evaluation asks for, JSON rendering.
- `tests/` — scenario tests, driving evaluations against in-test dependencies.
