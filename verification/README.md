# async-jsonrpc-client

An event-driven JSON-RPC 2.0 client over TCP.

- `src/` is the core, with its contracts and proofs: the message types
  (`json`, `rpc`, `error`, `api`), building requests, parsing messages
  with `serde_json` into them (`helpers`, `wire`) and reading answers, the state of a request in flight (`transports::shared`), and
  the matching of incoming responses and notifications to the requests and
  subscriptions that wait for them (`transports::tcp`).
- `app/` is the event loop around it: the TCP transport on tokio, the
  futures that calls return, and the conversion of the core's values into
  the form that `jsonrpc_core` and `serde_json` write.
- `tests/` exercise the core on concrete messages.
