# aetherdb

The core of an embedded operational database for AI workloads, written in
Verus: documents with embeddings and a knowledge graph, synchronised between
nodes with hybrid logical clocks and last-writer-wins merging, and streamed
as events.

- `src/` is the verified library: the hybrid logical clock (`clock`, `hlc`),
  last-writer-wins merging (`merge`), the in-memory edge store with its sync
  export and import (`edge`), configuration parsing (`config`), the checks of
  vector and graph search (`search`), the reading back of stored rows and the
  storage decisions (`storage`), events and their keys (`events`), the
  producer settings and the consumer's retry schedule (`messaging`), and the
  text codecs they rest on (`hex`, `decimal`, `ids`, `text`). Calls into std
  and outside crates go through `outside`, each with its stated contract.
- `tests/` runs the library on concrete values.
- `app/` holds what the library leaves to its caller: reading the process
  environment, the libSQL queries, the Redpanda client, the metrics server,
  the browser bindings, the `f32` similarity arithmetic and the JSON forms of
  the messages.

The schema migrations other than the embeddings table are SQL files that the
caller passes to `LibsqlStorage::migrate`.
