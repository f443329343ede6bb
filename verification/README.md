# spur-cloud-api

The decision logic of a GPU-session API in front of the Spur scheduler,
written in Verus and proved against its contracts.

- `src/` — the verified library:
  - `auth`: finding a request's access token (Bearer header or `token=` query
    parameter) and the 401 answers.
  - `session`: what the session routes accept and answer, and where a
    terminal attaches.
  - `job`: the Spur job that runs a session (script, environment, resources)
    and job cancellation.
  - `crd`: the SpurJob resource of a session on Kubernetes.
  - `sync`: the updates the background loop makes when Spur reports a job's
    state, with laws on idempotence and usage accounting.
  - `capacity`: GPU pools across the cluster, with laws on how GPUs are
    counted.
  - `terminal`: WebSocket message handling and the address of a Spur agent.
  - `user`, `ids`, `settings`, `text`: records, session ids, deployment
    settings and text helpers.
- `tests/` — tests of the library on concrete values.
- `app/` — the server around the library: HTTP, WebSocket, database,
  Kubernetes and gRPC calls.
