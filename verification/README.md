# lingbase

The verified core of an edge LLM inference service with an
OpenAI-compatible HTTP API.

- `src/` is the library, checked by Verus: error classification (service,
  backend and RKNN3 runtime errors and their messages), backend kinds and
  selection, the store of loaded backends by model name, chat prompt / response / stream-chunk assembly, streaming
  metrics (inter-token latencies and their percentiles), greedy token
  selection, the token generation loop as a state machine, health and
  readiness reports, configuration defaults, and the plain-value types of the
  RKNN3 runtime bindings.
- `tests/` runs the library on concrete values.
- `app/` is the server around it: axum handlers, configuration loading,
  logging, the llama.cpp native calls, and everything that computes with
  floating point.
