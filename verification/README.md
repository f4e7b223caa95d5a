# model_speed

The verified core of a desktop tool that measures how fast language-model
endpoints (OpenAI-style and Anthropic-style streaming APIs) produce tokens.

- `src/` — the library, verified with Verus:
  - `request.rs` — which API a model speaks, the request URL, headers and JSON body;
  - `stream.rs` — reading a server-sent-events response chunk by chunk into a
    token count and a time to first token, with laws on chunking;
  - `exchange.rs` — the whole exchange with one endpoint as a state machine;
  - `json.rs` — the serde_json calls, behind trusted wrappers;
  - `storage.rs` — file locations, fallbacks for missing files, history retention;
  - `run.rs`, `tray.rs` — one test run at a time, and the tray menu's texts and actions;
  - `text.rs`, `model.rs` — trimming and truncation; the stored values.
- `app/` — the Tauri desktop program around it: HTTP, files, tray, commands.
- `tests/` — tests of the library on concrete values.
