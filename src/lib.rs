//! A protocol-agnostic echo-service engine.
//!
//! The verified core holds the decisions of the engine: how a listening
//! socket is provisioned (fresh bind or a descriptor inherited through
//! socket activation), how inherited descriptors are validated, when a
//! stream connection is admitted, how a connection and a datagram loop react
//! to each I/O outcome, and how the client assembles an echoed response.
//! The I/O itself is performed by the caller, which hands the outcomes back.

pub mod error;
pub mod text;
pub mod fd_inheritance;
pub mod socket_builder;
pub mod transport;
pub mod config;
pub mod stream_server;
pub mod datagram_server;
pub mod shutdown;
pub mod client;
mod bytes_buf;
pub mod limits;
pub mod http;

pub use error::EchoError;
