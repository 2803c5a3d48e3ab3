//! Wire-level core of an RPC toolkit: the binary message header, request-id
//! encodings, the classification of frames for JSON-RPC, msgpack-rpc and the
//! postcard-based raw protocol, route tables, pending-request bookkeeping,
//! inbound messages, and the decisions of the background writer and of the
//! connection driver.

pub mod defs;
pub mod raw;
pub mod codec;
pub mod ascii;
pub mod text;
pub mod buf;
pub mod jsonrpc;
pub mod msgpack_rpc;
pub mod rawrpc;
pub mod route;
pub mod service;
pub mod rpc;
pub mod req;
pub mod inbound;
pub mod conn;
pub mod sender;
pub mod broadcast;
pub mod pipe;
pub mod framing;
pub mod transports;
pub mod ext_tokio;
pub mod ext_futures;
