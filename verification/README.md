# agentic_server

The decisions of a stateful gateway in front of a Responses inference server, written
in Verus: the functions carry contracts, and Verus proves each of them but for the few
that only call outside code.

- `src/settings` resolves arguments, environment variables and the configuration file,
  and plans how the gateway starts.
- `src/telemetry` validates the standard `OTEL_*` variables.
- `src/types` holds requests, responses, pinned replay profiles and the provenance of
  reasoning items.
- `src/executor` fingerprints upstream routing, stamps provenance, holds requests to a
  pinned profile, bounds what a response may retain, sets up transports, and injects
  and audits faults.
- `src/json.rs`, `src/text.rs` and `src/parts.rs` are the plain values underneath.
- `app` is the command line around the library: process environment, HTTP, stored forms.

Each operation has a mathematical model, mostly over `Seq<char>`, and its contract says
that the two agree. Where the outcome rests on others who share a lock, or on the
machine, the contract says which step the result comes from. Proof functions named `law_*` state what holds across operations.

What is believed rather than proved is marked where it stands: SHA-256 digests
(`sha2`), reading and printing JSON (`serde_json`), building an HTTP client (`reqwest`),
and a handful of standard library functions on text, numbers and durations.
