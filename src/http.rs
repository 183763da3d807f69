use vstd::prelude::*;
use crate::error::{AddressFamily, EchoError, SocketKind};
use crate::socket_builder::{SocketRequirements, TargetKind};
use crate::transport::TcpSocketBuilder;

verus! {

/// Echo of the bodies of HTTP `POST` requests, over a network stream socket.
pub struct HttpProtocol;

impl HttpProtocol {
    pub fn requirements() -> (r: SocketRequirements)
        ensures
            r.kind == SocketKind::Stream,
            r.families@ == seq![AddressFamily::Inet, AddressFamily::Inet6],
            r.target == TargetKind::Network,
    {
        TcpSocketBuilder::requirements()
    }
}

/// Failures of the HTTP framing.
#[derive(Debug, Clone)]
pub enum HttpProtocolError {
    /// The underlying stream failed.
    Io(String),
    /// The request head could not be parsed.
    HttpParse(String),
    /// The request is well-formed but refused (a method other than `POST`).
    InvalidRequest(String),
    /// The stream ended before a complete request head arrived.
    IncompleteRequest,
}

/// The engine error that an HTTP failure becomes: stream failures stay I/O
/// failures, everything else is a configuration-level refusal.
pub open spec fn http_error_kind_matches(e: HttpProtocolError, r: EchoError) -> bool {
    match e {
        HttpProtocolError::Io(msg) => r == EchoError::Tcp(msg),
        HttpProtocolError::HttpParse(msg) => r == EchoError::Config(msg),
        HttpProtocolError::InvalidRequest(msg) => r == EchoError::Config(msg),
        HttpProtocolError::IncompleteRequest => r is Config,
    }
}

/// Converts an HTTP failure into an engine error.
pub fn http_error_to_echo(err: HttpProtocolError) -> (r: EchoError)
    ensures
        http_error_kind_matches(err, r),
{
    match err {
        HttpProtocolError::Io(msg) => EchoError::Tcp(msg),
        HttpProtocolError::HttpParse(msg) => EchoError::Config(msg),
        HttpProtocolError::InvalidRequest(msg) => EchoError::Config(msg),
        HttpProtocolError::IncompleteRequest => EchoError::Config(String::from_str("Incomplete HTTP request")),
    }
}

} // verus!
