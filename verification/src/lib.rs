//! Verified core of the OutWikerNG local RPC stack: the message model,
//! length-prefixed framing, the server's method registry and dispatch,
//! and the client's command-line and REPL decisions.

pub mod error;
pub mod json;
pub mod transport;
pub mod protocol;
pub mod framing;
pub mod text;
pub mod handlers;
pub mod connection;
pub mod client;
