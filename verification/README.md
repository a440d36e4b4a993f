# chatterbox-desktop

A desktop client for Chatterbox: a Dioxus chat window inside a Tauri
webview, and a Tauri process that talks to a Python child over
line-delimited JSON-RPC.

- `src/` is the verified library (Verus): `.env` parsing (`envfile`), the
  interpreter search and child environment (`python`), request ids, method
  names, response routing and failure reports (`rpc`), base64 audio
  (`audio`), where the desktop process finds its files (`layout`), the chat window's state machine (`chat`), the commands it
  invokes (`invoke`) and what it renders (`view`); `text` holds the
  character-level helpers.
- `app/` is the program around it: the Dioxus components, browser calls,
  the Tauri commands, the child process and its pipes.
- `tests/` runs the library on concrete inputs.
