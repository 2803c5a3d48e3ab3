# rpc_it

The wire-level core of an RPC toolkit, verified with Verus.

- `src/` is the verified library: the 8-byte raw message header and request-id
  encodings (`raw`, `defs`), response error codes (`codec`), frame
  classification and response layout for JSON-RPC, msgpack-rpc and the
  postcard-based raw protocol (`jsonrpc`, `msgpack_rpc`, `rawrpc`), route
  tables and routers (`route`, `service`), pending requests and response
  slots (`rpc`, `req`), inbound messages (`inbound`, `conn`), the decisions of
  the background writer and of the connection driver (`rpc`, `conn`,
  `sender`), broadcast chunk sharing (`broadcast`), the in-memory pipe
  (`pipe`) and delimiter framing (`framing`).
- `app/` holds what Verus does not check: serde-based encoding and decoding,
  displayable error types, and the asynchronous loops that perform I/O.
- `tests/` runs the library on concrete values.
