use vstd::prelude::*;
use std::time::Duration;
use crate::socket_builder::{BindStrategy, BindTarget, IpAddress, SocketAddress};

verus! {

/// Relies on `Duration::from_secs`.
#[verifier::external_body]
pub(crate) fn seconds(n: u64) -> Duration {
    Duration::from_secs(n)
}

/// Connection limit of a stream server unless told otherwise.
pub const DEFAULT_MAX_CONNECTIONS: usize = 100;

/// Buffer size of a server unless told otherwise.
pub const DEFAULT_BUFFER_SIZE: usize = 1024;

/// `127.0.0.1:0`: the loopback address, on a port the system picks.
pub open spec fn loopback_any_port_spec() -> SocketAddress {
    SocketAddress { ip: IpAddress::V4([127u8, 0u8, 0u8, 1u8]), port: 0 }
}

/// `0.0.0.0:0`: no particular address.
pub open spec fn unspecified_address_spec() -> SocketAddress {
    SocketAddress { ip: IpAddress::V4([0u8, 0u8, 0u8, 0u8]), port: 0 }
}

pub fn loopback_any_port() -> (r: SocketAddress)
    ensures
        r == loopback_any_port_spec(),
{
    SocketAddress { ip: IpAddress::V4([127, 0, 0, 1]), port: 0 }
}

pub fn unspecified_address() -> (r: SocketAddress)
    ensures
        r == unspecified_address_spec(),
{
    SocketAddress { ip: IpAddress::V4([0, 0, 0, 0]), port: 0 }
}

/// Configuration of a stream server.
#[derive(Debug, Clone, Copy)]
pub struct StreamConfig {
    /// Address the server binds to.
    pub bind_addr: SocketAddress,
    /// Largest number of connections served at once.
    pub max_connections: usize,
    /// Size of each connection's read buffer.
    pub buffer_size: usize,
    /// Deadline of each read.
    pub read_timeout: Duration,
    /// Deadline of each write.
    pub write_timeout: Duration,
}

impl Default for StreamConfig {
    /// Loopback on a system-chosen port, 100 connections, 1 KiB buffers,
    /// 30 s deadlines.
    fn default() -> (r: Self)
        ensures
            r.bind_addr == loopback_any_port_spec(),
            r.max_connections == DEFAULT_MAX_CONNECTIONS,
            r.buffer_size == DEFAULT_BUFFER_SIZE,
    {
        StreamConfig {
            bind_addr: loopback_any_port(),
            max_connections: DEFAULT_MAX_CONNECTIONS,
            buffer_size: DEFAULT_BUFFER_SIZE,
            read_timeout: seconds(30),
            write_timeout: seconds(30),
        }
    }
}

/// Configuration of a datagram server.
#[derive(Debug, Clone, Copy)]
pub struct DatagramConfig {
    /// Address the server binds to.
    pub bind_addr: SocketAddress,
    /// Size of the receive buffer: the longest datagram answered in full.
    pub buffer_size: usize,
    /// Deadline of each receive.
    pub read_timeout: Duration,
    /// Deadline of each send.
    pub write_timeout: Duration,
}

impl Default for DatagramConfig {
    /// Loopback on a system-chosen port, 1 KiB buffer, 30 s deadlines.
    fn default() -> (r: Self)
        ensures
            r.bind_addr == loopback_any_port_spec(),
            r.buffer_size == DEFAULT_BUFFER_SIZE,
    {
        DatagramConfig {
            bind_addr: loopback_any_port(),
            buffer_size: DEFAULT_BUFFER_SIZE,
            read_timeout: seconds(30),
            write_timeout: seconds(30),
        }
    }
}

/// Configuration of a stream server over IP.
#[derive(Debug, Clone, Copy)]
pub struct TcpConfig {
    pub bind_addr: SocketAddress,
    pub max_connections: usize,
    pub buffer_size: usize,
    pub read_timeout: Duration,
    pub write_timeout: Duration,
}

impl TcpConfig {
    /// The same settings as a generic stream configuration.
    pub fn to_stream_config(&self) -> (r: StreamConfig)
        ensures
            r.bind_addr == self.bind_addr,
            r.max_connections == self.max_connections,
            r.buffer_size == self.buffer_size,
            r.read_timeout == self.read_timeout,
            r.write_timeout == self.write_timeout,
    {
        StreamConfig {
            bind_addr: self.bind_addr,
            max_connections: self.max_connections,
            buffer_size: self.buffer_size,
            read_timeout: self.read_timeout,
            write_timeout: self.write_timeout,
        }
    }
}

/// Configuration of a datagram server over IP.
#[derive(Debug, Clone, Copy)]
pub struct UdpConfig {
    pub bind_addr: SocketAddress,
    pub buffer_size: usize,
    pub read_timeout: Duration,
    pub write_timeout: Duration,
}

impl UdpConfig {
    /// The same settings as a generic datagram configuration.
    pub fn to_datagram_config(&self) -> (r: DatagramConfig)
        ensures
            r.bind_addr == self.bind_addr,
            r.buffer_size == self.buffer_size,
            r.read_timeout == self.read_timeout,
            r.write_timeout == self.write_timeout,
    {
        DatagramConfig {
            bind_addr: self.bind_addr,
            buffer_size: self.buffer_size,
            read_timeout: self.read_timeout,
            write_timeout: self.write_timeout,
        }
    }
}

/// Configuration of an HTTP echo server.
#[derive(Debug)]
pub struct HttpConfig {
    pub bind_addr: SocketAddress,
    pub max_connections: usize,
    pub buffer_size: usize,
    pub read_timeout: Duration,
    pub write_timeout: Duration,
    /// Value of the `Server` header, if any.
    pub server_name: Option<String>,
    /// Whether request headers are echoed too.
    pub echo_headers: bool,
    /// Content type of replies that name none.
    pub default_content_type: Option<String>,
}

impl HttpConfig {
    /// The stream settings of this configuration.
    pub fn to_stream_config(&self) -> (r: StreamConfig)
        ensures
            r.bind_addr == self.bind_addr,
            r.max_connections == self.max_connections,
            r.buffer_size == self.buffer_size,
            r.read_timeout == self.read_timeout,
            r.write_timeout == self.write_timeout,
    {
        StreamConfig {
            bind_addr: self.bind_addr,
            max_connections: self.max_connections,
            buffer_size: self.buffer_size,
            read_timeout: self.read_timeout,
            write_timeout: self.write_timeout,
        }
    }
}

/// Configuration of a Unix-domain stream server.
#[derive(Debug)]
pub struct UnixStreamConfig {
    /// How the listening socket is obtained.
    pub bind_strategy: BindStrategy,
    /// Name under which an inherited descriptor is looked up.
    pub service_name: String,
    pub max_connections: usize,
    pub buffer_size: usize,
    pub read_timeout: Duration,
    pub write_timeout: Duration,
}

/// Configuration of a Unix-domain datagram server.
#[derive(Debug)]
pub struct UnixDatagramConfig {
    /// How the socket is obtained.
    pub bind_strategy: BindStrategy,
    /// Name under which an inherited descriptor is looked up.
    pub service_name: String,
    pub buffer_size: usize,
    pub read_timeout: Duration,
    pub write_timeout: Duration,
}

impl UnixStreamConfig {
    /// Binds `/tmp/echosrv_stream.sock` under the service name `unix-stream`.
    pub fn new() -> (r: Self)
        ensures
            r.bind_strategy is Bind,
            r.bind_strategy->Bind_0 is Unix,
            r.max_connections == DEFAULT_MAX_CONNECTIONS,
            r.buffer_size == DEFAULT_BUFFER_SIZE,
    {
        UnixStreamConfig {
            bind_strategy: BindStrategy::Bind(BindTarget::Unix(String::from_str("/tmp/echosrv_stream.sock"))),
            service_name: String::from_str("unix-stream"),
            max_connections: DEFAULT_MAX_CONNECTIONS,
            buffer_size: DEFAULT_BUFFER_SIZE,
            read_timeout: seconds(30),
            write_timeout: seconds(30),
        }
    }

    /// Always binds a fresh socket at `path`.
    pub fn with_socket_path(self, path: String) -> (r: Self)
        ensures
            r.bind_strategy == BindStrategy::Bind(BindTarget::Unix(path)),
            r.service_name == self.service_name,
            r.max_connections == self.max_connections,
            r.buffer_size == self.buffer_size,
            r.read_timeout == self.read_timeout,
            r.write_timeout == self.write_timeout,
    {
        UnixStreamConfig { bind_strategy: BindStrategy::Bind(BindTarget::Unix(path)), ..self }
    }

    /// Adopts the descriptor inherited under `service_name`, or binds
    /// `fallback_path` when there is none or it is not usable.
    pub fn with_fd_inheritance(self, service_name: String, fallback_path: String) -> (r: Self)
        ensures
            r.bind_strategy == (BindStrategy::InheritOrBind {
                fd: None,
                fallback_target: BindTarget::Unix(fallback_path),
            }),
            r.service_name == service_name,
            r.max_connections == self.max_connections,
            r.buffer_size == self.buffer_size,
            r.read_timeout == self.read_timeout,
            r.write_timeout == self.write_timeout,
    {
        UnixStreamConfig {
            bind_strategy: BindStrategy::InheritOrBind { fd: None, fallback_target: BindTarget::Unix(fallback_path) },
            service_name,
            ..self
        }
    }

    /// The stream settings; the address is unused for a path-bound server.
    pub fn to_stream_config(&self) -> (r: StreamConfig)
        ensures
            r.bind_addr == unspecified_address_spec(),
            r.max_connections == self.max_connections,
            r.buffer_size == self.buffer_size,
            r.read_timeout == self.read_timeout,
            r.write_timeout == self.write_timeout,
    {
        StreamConfig {
            bind_addr: unspecified_address(),
            max_connections: self.max_connections,
            buffer_size: self.buffer_size,
            read_timeout: self.read_timeout,
            write_timeout: self.write_timeout,
        }
    }
}

impl UnixDatagramConfig {
    /// Binds `/tmp/echosrv_datagram.sock` under the service name `unix-datagram`.
    pub fn new() -> (r: Self)
        ensures
            r.bind_strategy is Bind,
            r.bind_strategy->Bind_0 is Unix,
            r.buffer_size == DEFAULT_BUFFER_SIZE,
    {
        UnixDatagramConfig {
            bind_strategy: BindStrategy::Bind(BindTarget::Unix(String::from_str("/tmp/echosrv_datagram.sock"))),
            service_name: String::from_str("unix-datagram"),
            buffer_size: DEFAULT_BUFFER_SIZE,
            read_timeout: seconds(30),
            write_timeout: seconds(30),
        }
    }

    /// Always binds a fresh socket at `path`.
    pub fn with_socket_path(self, path: String) -> (r: Self)
        ensures
            r.bind_strategy == BindStrategy::Bind(BindTarget::Unix(path)),
            r.service_name == self.service_name,
            r.buffer_size == self.buffer_size,
            r.read_timeout == self.read_timeout,
            r.write_timeout == self.write_timeout,
    {
        UnixDatagramConfig { bind_strategy: BindStrategy::Bind(BindTarget::Unix(path)), ..self }
    }

    /// Adopts the descriptor inherited under `service_name`, or binds
    /// `fallback_path` when there is none or it is not usable.
    pub fn with_fd_inheritance(self, service_name: String, fallback_path: String) -> (r: Self)
        ensures
            r.bind_strategy == (BindStrategy::InheritOrBind {
                fd: None,
                fallback_target: BindTarget::Unix(fallback_path),
            }),
            r.service_name == service_name,
            r.buffer_size == self.buffer_size,
            r.read_timeout == self.read_timeout,
            r.write_timeout == self.write_timeout,
    {
        UnixDatagramConfig {
            bind_strategy: BindStrategy::InheritOrBind { fd: None, fallback_target: BindTarget::Unix(fallback_path) },
            service_name,
            ..self
        }
    }

    /// The datagram settings; the address is unused for a path-bound server.
    pub fn to_datagram_config(&self) -> (r: DatagramConfig)
        ensures
            r.bind_addr == unspecified_address_spec(),
            r.buffer_size == self.buffer_size,
            r.read_timeout == self.read_timeout,
            r.write_timeout == self.write_timeout,
    {
        DatagramConfig {
            bind_addr: unspecified_address(),
            buffer_size: self.buffer_size,
            read_timeout: self.read_timeout,
            write_timeout: self.write_timeout,
        }
    }
}

} // verus!
