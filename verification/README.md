# minmux

A small terminal multiplexer: a session server keeps sessions of windows
of panes, each pane running a program in a pseudo-terminal; clients attach
to a session over a Unix socket and drive it with the keyboard.

The library under `src/` is verified with Verus:

- `ipc` — the messages between client and server.
- `model` — the sessions as the proofs see them, the operations on them as
  spec functions, and the laws they keep (well-formedness, unique ids,
  sessions never lost, navigating and moving back undo a step, navigating to a window lands
  on its top pane).
- `session` — the server's store of sessions and output subscribers.
- `channel` — the labelled channels that carry pane output to clients.
- `server` — one client connection on the server, as a state machine from
  events to actions.
- `connection` — the line framing of messages.
- `message_text` — a client message written as its `Debug` writes it.
- `keys`, `input`, `client` — keys, what a key press does, and the
  client's state.
- `ui` — what the client draws, and where (through ratatui's layout).
- `cli` — the command line and where the server's socket lives.
- `text`, `util` — decimal numbers, and searching and summing over sequences.

`app/` is the program around it: argument parsing, the socket, the
pseudo-terminals, JSON, and the terminal user interface.
