# opcua_client

The decision logic of an OPC UA client over `opc.tcp`, written and proved in Verus.

- `src/transport` carries requests to a server and responses back: `connect` establishes a
  connection in either direction, `tcp` is the transport over an established connection, and
  `pending` keeps the requests that wait for a response.
- `src/merge.rs` and `src/sequence.rs` put the chunks of a message back together.
- `src/subscription.rs` decides when to send publish requests.
- `src/channel.rs` knows what a secure channel needs to take the security off a chunk or to put it
  on.
- `src/stack.rs`, `src/send_buffer.rs`, `src/endpoint.rs` and `src/url.rs` state what the library
  relies on in `opcua_core` and `opcua_types`.

The library does no I/O. It takes events and returns what to do about them, so every decision is
a function with a contract. Proof functions whose names start with `law_` state what holds of
several of them together.

`app/` runs the library on tokio: sockets, timers, channels and locks. `tests/` runs the library
against the real stack.
