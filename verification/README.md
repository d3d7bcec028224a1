# stakpak_interactive

The decision logic of an interactive agent session in a terminal, verified with Verus.

- `src/` is the library. `session` holds the state of a session and the step that each
  event, and each outcome of outside work, leads to. `commands` holds the commands of the
  interface and the command palette. `conversation` answers questions about the messages:
  which tool calls lack a result, where the user's messages stand, which checkpoint was
  reached. `text`, `ids`, `json`, `headers` and `usage` are what these rest on. What holds
  of the library as a whole is stated and proved in `session/laws.rs` and
  `commands/laws.rs`.
- `app/` is ordinary Rust around it: the loop that talks to the model, the tools and the
  terminal, and the drawing.
- `tests/` run the library on concrete values.
