# peernet

The core of a small peer-to-peer node, verified with Verus.

- `network::peer` keeps the known peers and the status of each; `network::table` says what the
  table of peers is as a mathematical value, and what holds of it.
- `network::controller` decides which connections are opened and admitted, and what is made of
  what they report.
- `session` is the conversation with one connected peer, as a machine that is told what happened
  and says what to do next.
- `event`, `frame` and `payload` are the messages and their bytes.
- `clock` and `json` hold what is taken from `chrono` and `serde_json`, with contracts that are
  believed and not proved. `payload` does the same for `String::from_utf8`.

`app/` is the node itself: sockets, files, channels and timers around the library.
