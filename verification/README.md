# duihua

Background Responses API processing for an OpenAI-compatible LLM gateway, verified
with Verus.

The gateway answers `POST /v1/responses` with `background=true` by storing a `queued`
response in Valkey and adding its id to a Valkey stream. Background workers consume
the stream, claim each response (`in_progress`), call the model upstream, and store
the completed or failed response. Cancelled and deleted responses are never
overwritten by a worker.

- `src/` is the verified library: the stored response and its JSON, store keys, id
  handling, the objects built from client requests, the claim/complete/fail rules,
  the queue consumer's settings and decisions (the startup drain and the retry
  loop as step functions), the retry schedule, the gateway's queueing steps, stale
  reconciliation and deletion. `src/laws.rs` states the properties that hold across
  these functions.
- `app/` is the worker program around it: environment, Redis, HTTP and the loops
  that perform the steps the library decides, plus the gateway's store and queue
  helpers.
- `tests/` runs the library on concrete values.
