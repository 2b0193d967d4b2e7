# codex_hooks

Lifecycle hooks for an agent. The library decides which hooks a configuration yields, which of
them an event triggers, in what order they run and when a run stops, and what JSON a hook command
reads on its standard input. Its behaviour is stated in contracts and proved with Verus.

- `src/registry.rs`: the hooks of a configuration, and the hooks of an event.
- `src/dispatch.rs`: running the hooks of an event, one after the other.
- `src/command.rs`: hooks that run a command, and how a run of one goes.
- `src/wire.rs`, `src/json.rs`, `src/payload.rs`: what a hook is told, and its JSON shape.
- `src/types.rs`: settings and outcomes.
- `src/time.rs`, `src/calendar.rs`, `src/text.rs`: instants and how they read, dates, text.
- `app/`: the runtime around the library, which launches processes and calls handlers.
- `tests/`: tests of the library.

The calls into `chrono`, `serde_json`, `tokio` and the standard library that the proofs rest on
are marked in `src/` with what is trusted of each.
