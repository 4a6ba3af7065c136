# nobase

The logic of an agent that runs on a managed server and connects out to a gateway
over one WebSocket: JSON-RPC envelopes, the handlers of its methods, the metrics
buffer, the connection's state, the configuration and the self-update, each with
a contract that Verus proves.

- `src/` is the library. A handler takes the parameters of a request and gives
  either the response or a plan of what is to be done; each step of a plan takes
  what came of it and gives the next step or the response. No function of the
  library reads files, runs commands or opens connections; the metrics buffer is
  the exception, which runs its statements on SQLite.
- `app/` is the program around it: argument handling, JSON and TOML, files,
  processes, terminals, Docker, HTTP and the WebSocket.
- `tests/` runs the library, with the crates that it calls.

Floating point numbers and JSON values are type parameters in `src/`: the library
carries them and computes nothing with them.

What the library takes on trust of other crates stands in `src/encoding.rs`
(Base64, UTF-8, SHA-256, JSON), `src/clock.rs`, `src/paths.rs`, `src/sqlite.rs`,
`src/registry.rs`, `src/text.rs` (`String::push`) and `src/connection.rs` (random
IDs).
