# matrix_engine

The core of a small entity-component-system game engine, written in Verus
and proved against its contracts.

- `src/` is the verified library: entities and their creators, component
  collections and maps with their joins, access states that hand out read and
  write tokens (`RwState`, `DataState`, `ComponentsState`, `ResourceState`),
  the per-window input registries and the frame bookkeeping of the event loop,
  the stage collections of systems, and the worker-count rules of the runtime.
  Laws of the library (round trips of tokens, what a frame does to held keys,
  the order of systems across frames, distinct entities) are public proof
  functions next to the code they speak of.
- `tests/` runs the library on concrete values.
- `app/` is ordinary Rust around the library: registries keyed by Rust types,
  boxed values and closures, process-wide entity counters, the worker thread
  pool, the event channel and the real-number parts of a frame's input.
