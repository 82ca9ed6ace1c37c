# habitat_sup

The control gateway protocol of the Habitat Supervisor, verified with Verus.

- `src/txn.rs`: `SrvTxn`, the transaction word (response bit, completion bit, identifier).
- `src/header.rs`: `SrvHeader`, the header word (transaction bit, identifier length, body length).
- `src/message.rs`: `SrvMessage` and its model `SrvMessageView`.
- `src/wire.rs`: the frame format as specification, and the laws relating encoding and decoding.
- `src/codec.rs`: `SrvCodec`, which appends frames to and takes frames from a `bytes::BytesMut`.
- `src/buffer.rs`: the trusted contracts of the `bytes` buffer calls, of `String::from_utf8` and of
  the quoted text of a string.
- `src/text.rs`: decimal and boolean text for the log descriptions of messages.
- `src/protocols.rs`: package identifiers, service groups and process states, and their text.
- `app/`: the `tokio_io` codec traits, the framed TCP stream types and protobuf bodies.

## What is not here

The original's `protocols/types.rs` also converts the protocol types to and from types of
`habitat_core` (`hcore`) and of the Supervisor's `manager` module: `From` and `Into` for
`ApplicationEnvironment`, `PackageIdent`, `ProcessState`, `ProcessStatus`, `ServiceBind`,
`ServiceGroup` and `ServiceStatus`. Neither `habitat_core` (a crate of the project's own
workspace) nor the `manager` module is part of this library's sources, so these conversions
are not written, and `ProcessStatus`, `ServiceBind` and `ServiceStatus`, which nothing else
here uses, are left out with them. The remaining protocol types keep their display text in
`src/protocols.rs`.

The protocol messages themselves (such as `NetErr`) are generated protobuf code; `app/`
reaches them only through the `protobuf` traits.
