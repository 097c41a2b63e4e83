# drcp

A console tool that publishes a Discord Rich Presence status described in a
`config.toml` file, reloads it when the file changes, reconnects to Discord
when the link drops, and offers an interactive editor for the configuration.

- `src/` is the verified library (Verus): the configuration model and its
  default, the presence built from it, the dashboard texts, the editor's state
  machine, the main loop's state machine, and the file-notification filter,
  each with its contract and the laws that tie them together.
- `app/` is the program around it: terminal, keyboard, file watcher, TOML
  reading and writing, and the Discord IPC client.
- `tests/` runs the library on concrete values.
