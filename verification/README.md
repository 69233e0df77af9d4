# senza_wasm

A facade through which a JavaScript host drives an LLM agent loop: it starts runs with prompts,
polls their events as JSON lines, answers tool calls, approves or denies them, and keeps the
conversation as a session of its own.

- `src/` is the library, verified with Verus.
  - `agent.rs`: the agent. It queues events, guards the number of turns, keeps the history,
    routes answers and decisions to the calls that wait for them, and exports and imports
    sessions.
  - `run.rs`: one run, from a prompt to its last event.
  - `events.rs`, `messages.rs`: events and messages, and the JSON in which the host sees them.
  - `tools.rs`, `parked.rs`: callbacks, placeholders and approval gates, and the calls parked at
    them.
  - `session.rs`, `cost.rs`, `config.rs`: sessions, token sums, options and the settings of a run.
  - `laws.rs`: what holds over several calls.
  - `json.rs`, `channels.rs`: what is taken on trust of `serde_json`, of the channels of `futures`
    and of `tokio_util`'s cancellation token; `messages.rs` takes the clock of `chrono` on trust.
- `app/` exports the agent to JavaScript and drives the agent loop. It needs the crates
  `llm_harness_loop`, `llm_harness_types` and `llm_adapter`.
- `tests/` runs the library on concrete values.
