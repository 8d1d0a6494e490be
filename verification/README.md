# socketioxide

The socket.io layer of a server: namespaces, packets, room operators and message
handlers, on top of an engine.io transport. The library is verified with Verus.

- `src/client.rs`: the namespaces, and what becomes of the events of a transport
  socket. Each function says what is to be done (connect, deliver, close, wait); the
  caller does it and hands the outcome in again.
- `src/operators.rs`, `src/adapter.rs`: how sockets are selected and how a message
  is turned into a packet for them.
- `src/handler.rs`, `src/handler/`: handlers with extracted arguments.
- `src/relay.rs`: the channel on which connections and disconnections are announced.
- `src/layer.rs`: the layer that shares one client between services.
- `src/packet.rs`, `src/ns.rs`, `src/registry.rs`, `src/config.rs`, `src/errors.rs`:
  packets, namespaces, their lookup by path, configuration and errors.
- `src/sid.rs`, `src/json.rs`, `src/time.rs`: session ids, JSON values and
  durations, which belong to `engineioxide`, `serde_json` and the standard library.
  What is believed of these stands there.
- `src/laws.rs`: what holds of the layer as a whole.
- `app/`: locks, channels and tasks around the library, and the tower layer.
