# llm_client

A client for OpenAI-style chat completion endpoints, verified with Verus.

- `src/types.rs` — models, roles, chat messages, errors and streamed answer steps.
- `src/provider.rs` — API keys and endpoint settings.
- `src/formatting.rs` — how a chat becomes request messages (one for one, or
  merged for o1-preview), with the proved properties of both forms.
- `src/openai.rs` — the client: model names, built request messages, endpoint choice.
- `src/streaming.rs` — the request for a chat and the answer as it streams in.
- `src/openai_api.rs` — the calls into `async_openai`, with their trusted contracts.
- `app/lib.rs` — the asynchronous network side, which runs the library's decisions.
