# for-mqtt-client

An MQTT 3.1.1 / 5 client whose protocol logic is verified with Verus.

## Layout

- `src/` — the verified library.
  - `buffer.rs`: the view of `bytes::Bytes` / `BytesMut` as byte sequences and
    the few calls into `bytes` that the library makes.
  - `protocol/`: fixed header framing, the variable byte integer, and every
    control packet the client sends or receives, each encoder and decoder
    stated against a byte-level specification; round-trip laws in the same
    files.
  - `tasks/`: the decisions of the client's tasks — the hub that hands out
    packet identifiers and keeps the session (`hub.rs`, with its identifier
    invariant), the network task's dispatch, the ping exchange, the
    acknowledgement waits, and the builders of subscriptions.
  - `datas/`: message bodies and trace identifiers.
  - `tls.rs`: TLS settings and PEM loading through `rustls-pemfile`.
- `tests/` — tests on concrete values.
- `app/` — the asynchronous runtime around the library (tokio tasks, sockets,
  channels, file reading); not verified.
