# atomic_websocket

WebSocket clients and servers that keep their connections alive: they ping,
notice silence, reconnect with growing waits, remember where the server was, and
find it on the local network when asked to.

- `src/` is the library. It holds the message layout, the state of a client and
  of a server, the course of a connection at either end, and the rules that
  decide when to ping, dial, scan, retry, drop or give up. Its functions state
  in contracts that Verus proves what they return and change, except for the
  shared flag in `atomic`, of which nothing holds from one reading to the next.
  Network answers and the answers of middlewares come in as arguments; the time
  does too, but for a few functions that read the clock themselves and state
  what holds whatever it says.
- `app/` is the ordinary Rust around it: sockets, timers, tasks, the database on
  disk, encryption and the log. It carries out what the library decides and
  reports back what happened. Verus does not read it.
- `tests/` runs the library with the real outside crates.

What the library relies on without proof are the contracts of the small
functions that call an outside crate: `bebop` for numbers, text and byte strings
in records, `dashmap` for the tables of clients and attempts, `tokio` for
channels, `tungstenite` for messages, `nanoid` for identifiers, `chrono` for the
time, and the standard library for durations and UTF-8.
