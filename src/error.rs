use vstd::prelude::*;

verus! {

/// Kind of socket an inherited descriptor must be.
#[derive(Debug, Clone, Copy, PartialEq, Eq, Structural)]
pub enum SocketKind {
    /// Connection-oriented byte stream.
    Stream,
    /// Connectionless, message-preserving datagrams.
    Datagram,
}

/// Address family of a socket.
#[derive(Debug, Clone, Copy, PartialEq, Eq, Structural)]
pub enum AddressFamily {
    /// IPv4 network sockets.
    Inet,
    /// IPv6 network sockets.
    Inet6,
    /// Unix-domain (filesystem path) sockets.
    Unix,
}

/// Why an inherited descriptor was refused.
#[derive(Debug, Clone, Copy, PartialEq, Eq, Structural)]
pub enum FdCheckFailure {
    /// The operating system could not report the descriptor's socket kind.
    KindQueryFailed { fd: i32, os_error: i32 },
    /// The descriptor is not a socket of the expected kind.
    WrongKind { fd: i32, expected: SocketKind },
    /// The operating system could not report the descriptor's bound address.
    FamilyQueryFailed { fd: i32, os_error: i32 },
    /// The descriptor's address family is not the one that was checked.
    WrongFamily { fd: i32, expected: AddressFamily },
    /// The protocol accepts no address family at all.
    NoFamilies { fd: i32 },
}

/// Errors of the echo engine.
#[derive(Debug, Clone)]
pub enum EchoError {
    /// Stream-socket failure over a network (bind, connect, read, write).
    Tcp(String),
    /// Datagram-socket failure over a network.
    Udp(String),
    /// Unix-domain socket failure.
    Unix(String),
    /// Inconsistent configuration, or a response beyond the allowed size.
    Config(String),
    /// No data or no peer arrived within the deadline.
    Timeout(String),
    /// A reply that should be text is not UTF-8.
    Utf8(String),
    /// The operation is not offered by this transport.
    Unsupported(String),
    /// An inherited descriptor failed validation.
    FdInheritance(FdCheckFailure),
}

} // verus!
