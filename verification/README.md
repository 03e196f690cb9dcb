# rifts

The core of a Rift/1 realtime messaging server as a verified library:
frame primitives and the frame envelope, protocol constants and version
negotiation, storage key encodings, the in-memory offset and
deduplication stores and the byte form of deduplication records, a
topic's message log and its retention, per-connection backpressure, sessions and resume decisions, codec
negotiation, the fanout registry, a topic actor's publish step and
subscriber table, message types, and the computing side of the Redis
backend (key space, retention trimming, the snapshot record and its text
encodings).

The functions in `src/` carry contracts that Verus checks (the metrics
counters, atomics that the verifier cannot see into, are the exception);
the laws the library keeps (tag round trips, offset monotonicity, deduplication
windows, key ordering and topic isolation, resume decisions, fanout
bookkeeping, snapshot records read back as written, distinct wire
identifiers) are public proof functions beside the code they speak of.

- `src/` the verified library (Verus).
- `tests/` tests run against the compiled library.
- `app/` ordinary Rust around it: serde wire forms and JSON bodies of
  messages, the topic actor's channel loop and registry, the Redis fanout
  bridge, generic codec helpers, the token-bucket rate limiter, and the
  Redis connection and stores.
