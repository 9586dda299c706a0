//! A minimal unary RPC framework over a callback-driven message transport.
//!
//! The crate covers the layers that sit between a native transport provider
//! and user code: the single-fire completion bridge, the operation context a
//! provider completes exactly once, the header + body message envelope, the
//! schema-based header codec, URL-prefix routing on the server, and the
//! client-side reply processing. The asynchronous shell that drives these
//! pieces against a real provider lives outside the verified library.

pub mod client;
pub mod client_tr;
pub mod fabricrpc_header;
pub mod rpc_build;
pub mod server;
pub mod server_tr;
pub mod shared_tr;
pub mod status;
pub mod sys;
pub mod text;
pub mod varint;
