# ai-core

A small, provider-agnostic AI layer: chat requests and responses, streaming,
tool calling, an agent loop, conversation and trace memory, MCP tool loading and
an OpenAI-compatible adapter. Its logic is specified and proved with Verus.

## Layout

- `src/` — the verified library (`ai_core`). Each module states its data as a
  mathematical model (a `View`) and its operations as contracts over it:
  - `request`, `message`, `response`, `tool`, `structured` — the domain types,
    the request builder and its validation, the tool registry;
  - `stream` — folding streamed events into a response;
  - `agent` — the tool-calling loop as a state machine (`AgentRun`): each
    step takes the model's response or a tool's result and answers the next
    action;
  - `trace`, `memory`, `history` — trace events, recorders and in-memory
    stores;
  - `providers::openai` — request bodies, replies and stream chunks of the
    Chat Completions API;
  - `mcp`, `runnable` — MCP naming and load reports; keyed fan-out gathering;
  - `json`, `text` — the JSON operations taken from `serde_json`, and string
    helpers.
- `app/` — the asynchronous, networked crate around the library: the
  `ChatModel` and `Tool` traits, the agent driver, the HTTP adapter, the MCP
  client, shared stores and tracers.
- `tests/` — tests of the library on concrete values.

Floating-point sampling parameters are carried as the bit patterns of their
`f32` values, and JSON documents as JSON text.
