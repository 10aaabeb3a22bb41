# mqtt_lib

Verified building blocks of an MQTT v5.0 conformance suite and of a small
WASI broker and client, written in Verus.

## Layout

- `src/` — the verified library.
  - `packet_parser.rs`, `packet_stream.rs`, `encode.rs`: decoding and
    encoding of MQTT wire data (variable byte integers, strings, property
    tables, PUBLISH / CONNACK / SUBACK, the server DISCONNECT check,
    hand-built CONNECT packets), with
    round-trip laws.
  - `capabilities.rs`, `skip.rs`, `sut.rs`, `assertions.rs`, `declarations.rs`: the capability
    matrix of a system under test, requirement matching and skip decisions,
    descriptor addresses, and checks on decoded responses.
  - `qos.rs`, `client_session.rs`, `broker_qos.rs`, `broker_session.rs`:
    the QoS handshakes and the decisions of the client and of the broker for
    each packet, as functions from state and event to next state and reply,
    with laws such as "an inbound QoS 2 publish is delivered exactly once".
  - `framing.rs`, `pushback.rs`, `test_client.rs`, `config.rs`: packet
    framing and the pushback buffer of the byte stream, subscription queues,
    the raw client's acknowledgement handshake and packet dispatch, packet
    identifier allocation, configuration.
  - `error_classification.rs`, `quic_codes.rs`: error classification for
    reconnect policy and the MQTT-over-QUIC error codes.
- `tests/` — tests of the library.
- `app/` — what runs around it: the cooperative executor and sleep,
  loading a descriptor from TOML, a packet reader over a byte stream, and a
  subscription shared between tasks.
