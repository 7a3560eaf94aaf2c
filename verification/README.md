# utter

The verified core of Utter, an offline voice-dictation desktop app.

- `src/` — the library, verified with Verus: the dictation state machine
  (`state`, `commands`, `hotkey`), the error codes sent to the webview
  (`error`), settings (`settings`), cleanup-backend selection and the HTTP
  decisions of the chat-completion backends (`cleanup`), ASR engine session
  bookkeeping (`engine`), microphone device/config choice (`mic`), text
  insertion (`insert`), and the string utilities they use (`text`).
- `app/` — the Tauri shell around it: IPC commands, the global hotkey,
  config.toml on disk, HTTP requests, the speech helper process, and audio
  capture.
- `tests/` — tests of the library on concrete values.
