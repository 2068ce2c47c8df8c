# server

A small RESP (Redis serialization protocol) server that answers `PONG`, and
its terminal client, as a Verus library with an ordinary Rust program around it.

- `src/` is the verified library:
  - `resp`: RESP values and the parsing of a received line;
  - `command`: the commands (`PING`) and their replies;
  - `state`: the registry of connected clients, kept in a `slab::Slab`;
  - `event_loop`: what the io_uring server does after each completion, and
    the proof that the operations it keeps waiting always belong to
    connected clients;
  - `cli`: the client's input line, log of exchanges and key handling,
    with the input line kept in a `tui_input::Input`;
  - `widgets`, `callbacks`, `text`: a command widget, a queue of callbacks,
    white space and trimming.
- `app/` runs the programs (`server`, `legacy-server`, `pong-server`, `cli`,
  `benchmark`): sockets, io_uring, the terminal and argument parsing.
- `tests/` exercises the library.
