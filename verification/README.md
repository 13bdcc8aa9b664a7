# solai_coder

The local-provider core of the Solai coding agent, written in Verus. The
functions under `src/` carry contracts that Verus proves, except a few
trusted wrappers around outside code, whose contracts are assumed.

- `src/` — the verified library: provider address normalisation and
  detection decisions, Ollama URLs and request shaping, native chat
  conversion and stream handling, the shape of Responses requests,
  marketplace leases, the monitor line and its setup view, session-card text and geometry, CLI argument lists, and
  `laws.rs`, which states and proves properties that relate several
  operations (round trips, chunking independence, at-most-once delivery).
- `tests/` — executable tests of the library.
- `app/` — the `solai` command line and the I/O around the library: HTTP
  probes, the Node.js provider CLI, lease files, terminal rendering.

Calls into the `url` and `serde_json` crates and the standard clock are
made through those wrappers; each states its assumed contract in its doc
comment, next to the call.
