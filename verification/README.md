# signal_cli_api

A REST API in front of a signal-cli daemon that speaks JSON-RPC over
newline-delimited JSON.

- `src/` is the core, verified with Verus. It decides: which request line is
  written for a call, which call a message of the daemon belongs to, what an HTTP
  request is answered, and what is done next to start or stop a daemon.
- `app/` is the program around it: it owns the sockets, channels, processes and
  clocks, does what the core decides and tells it what happened.
- `tests/` runs the core on concrete values.

| Module | Contents |
| --- | --- |
| `text` | decimal numbers, trimming, lossy decoding |
| `json` | JSON documents two levels deep; reading and writing goes through serde_json |
| `jsonrpc` | pending requests, the read and write loops, calls from start to end |
| `state` | metrics and the state that all tasks share |
| `http` | statuses and replies |
| `routes` | the route tables, the calls behind them and their replies |
| `daemon` | starting and stopping a signal-cli process |
| `cli` | TLS and listen address |
| `laws` | what holds of the service whatever happens in which order |

Shared state is plain data that is changed through `&mut`; the program keeps it
behind a lock. A channel is known to the core by a number.
