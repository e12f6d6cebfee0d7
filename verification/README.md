# lingodesk

The verified core of a Windows desktop assistant that captures the selected
text with a global shortcut, translates it with Google Cloud Translation and
shows the result in a small floating window; a second shortcut translates the
text of the focused input and types the translation back.

- `src/` — the library, verified with Verus:
  - `capture/` — the clipboard capture protocol as a state machine
    (`session.rs`), the clipboard's Unicode text format (`clipboard.rs`), the
    copy shortcut (`keys.rs`), capture results and errors, and the capture on
    platforms without a clipboard protocol (`unsupported.rs`).
  - `translation/` — translation errors and results, the provider trait and the
    rules of the Google provider (API key, requests, answers).
  - `workflow.rs` — what one shortcut press does, as a state machine.
  - `floating_window.rs` — where the window is placed.
  - `injection/` — the rules for typing a reply into the target window.
  - `text.rs` — blank text and UTF-16.
- `app/` — the Tauri shell: shortcuts, window events, the Windows clipboard and
  keyboard, and the HTTP client. It performs what the library's state machines
  ask for.
- `tests/` — tests of the library.
