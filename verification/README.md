# editorsql

The verified core of a desktop SQL Server editor with a chat assistant.

- `src/text.rs`: Unicode whitespace, trimming, decimal formatting and port
  parsing, with their laws (trimming is idempotent; a port written in decimal
  parses back to itself).
- `src/state.rs`: the connection state, the connection form and chat messages.
- `src/api.rs`: the values exchanged between the screen and the backend.
- `src/backend.rs`: how a connection is configured (through tiberius, with a
  model of what the configuration holds), which connection tests are refused,
  how the server's rows become the list of databases and the result table,
  and how the assistant turns a request into SQL.
- `src/app.rs`: the screen as a state machine: one method per user action or
  backend answer, with its effect stated over a model of the screen.
- `app/`: the Tauri backend, the browser-side command calls and the Dioxus
  screen, which perform the I/O and defer every decision to the library.
