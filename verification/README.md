# input_capture

The rules of a compositor's input-capture service, in Verus.

- `src/` is the library: the shared state and its sessions (`state`, `session`, `table`), the
  barriers and the search for the one that a movement crosses (`barrier`, `crossing`), session
  identifiers (`ident`), messages and errors (`event`, `error`), the way of a signal to the bus
  (`signal`, `channel`), and what holds of all of it (`laws`).
- `app/` is the service around it: the D-Bus interface, the channels, the sockets and the
  floating-point geometry.
- `tests/` runs the library on concrete values.

Each request to the shared state is described by a function of `StateModel`, the mathematical view
of the state, and the executable functions are proved to do what it says. The two things taken on
trust are the clock (`std::time::SystemTime::elapsed`) and the sending of a signal event
(`std::sync::mpsc::Sender::send`).
