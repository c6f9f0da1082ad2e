# scpsl_wrapper

A supervisor for a game server (SCP: Secret Laboratory's LocalAdmin) that
streams the server console to a WebSocket API and writes the API's commands
to the console.

- `src/` is the library, verified with Verus: the JSON messages sent to the
  API (`messages`), the configuration and the API URL (`config`), the console
  line filter, ANSI stripping, command framing and exit codes (`process`), the
  one-time shutdown notice (`signal`), and the reconnect policy and the per-connection state machine
  of the WebSocket client (`websocket`).
- `app/` is the program around it: command-line parsing, the child process,
  signals, the WebSocket I/O and the loops that feed events to the library.
- `tests/` runs the library on concrete values.
