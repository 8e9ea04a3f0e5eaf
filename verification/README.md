# qdrant-embedded

An embedded front end to the Qdrant storage engine.

- `src/` — the verified library (Verus):
  - `config.rs`: `EmbeddedConfig` and its builder, with the laws of the builder.
  - `startup.rs`: `EmbeddedConfig::startup_plan`, which turns a configuration into the
    storage settings, worker-pool sizes and optimizer budget that the engine is started with.
  - `conversions.rs`: quantization presets.
  - `operations.rs`: how each client operation reaches the engine (`plan`), and the
    collection-existence check.
  - `error.rs`: the library's errors and their messages.
- `app/lib.rs` — the client itself (`QdrantEmbedded`): it builds the Tokio runtimes,
  starts the engine from the start-up plan and forwards every operation to the engine.
- `tests/` — tests of the library.

Floating-point settings (quantiles, thresholds) are carried in `src/` as their IEEE-754
bit patterns; `app/` converts with `to_bits` / `from_bits`.
