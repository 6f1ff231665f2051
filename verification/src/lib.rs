//! A JSON-RPC bridge core: length-prefixed framing, message shapes, a
//! single-slot device connection manager, and the operator dispatch logic,
//! all with verified contracts. Transport I/O lives outside this crate.

pub mod bitwig;
pub mod protocol;
pub mod server;
pub mod text;
