# AlloyPort

The controller of AlloyPort, a factory that migrates CUDA extensions to Ascend C. Workers connect
to it, take assignments under leases and report what became of them; a model authors candidates
whose evidence independent gates produce; everything that happens is told as one event stream.

`src/` is the library: every decision of the controller as executable Rust with a Verus contract.

- `events`, `reducer`, `rendering`, `jsonl`: the event protocol, the check that a stream is one
  well-formed run, and its two renderings.
- `proto`, `wire`, `status`: worker messages, their validation, their stored forms, and the status
  that each error becomes.
- `repository`, `control`: assignments, attempts, leases, connections and the outbox; admission,
  authorization, delivery, ingestion, projection and reconciliation over them.
- `interaction`, `sanitizer`: the durable event log, run grants, and what is shown of worker output.
- `identity`, `identity_admin`, `bootstrap`: enrolled certificates and new deployments.
- `contexts`, `vault`, `episodes`, `migrations`, `controller`, `candidate_config`,
  `candidate_record`, `tools`: what a Candidate Episode is given and what is kept of it.
- `attempts`: build and correctness attempts, and the receipts that bind them.
- `transport`, `provider`, `headers`, `redaction`: one bounded model request and its outcome.
- `artifact`, `server_config`, `assembly`, `command`, `runtime`: the edges of the server process.
- `text`, `ordered`, `agenda`, `digest`, `json`, `paths`, `storage`: shared ground.

Stores are state machines: `ensures` relates the state before and behind a call by a spec function
that also gives the result. The laws of the library are public proof functions over those spec
functions; most stand in the `laws` modules beside the operations.

What the library takes on trust from other crates and from the standard library is declared by
`external_body` and `assume_specification` items, each with a comment that says what is claimed.

`app/` is the server process around the library. It records the operations that reach a store in a
SQLite journal and applies them again when it starts. `tests/` runs the library.
