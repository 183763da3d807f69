use vstd::prelude::*;
use crate::error::{AddressFamily, SocketKind};
use crate::socket_builder::{SocketRequirements, TargetKind};

verus! {

fn network_families() -> (r: Vec<AddressFamily>)
    ensures
        r@ == seq![AddressFamily::Inet, AddressFamily::Inet6],
{
    let mut v: Vec<AddressFamily> = Vec::new();
    v.push(AddressFamily::Inet);
    v.push(AddressFamily::Inet6);
    assert(v@ =~= seq![AddressFamily::Inet, AddressFamily::Inet6]);
    v
}

fn unix_families() -> (r: Vec<AddressFamily>)
    ensures
        r@ == seq![AddressFamily::Unix],
{
    let mut v: Vec<AddressFamily> = Vec::new();
    v.push(AddressFamily::Unix);
    assert(v@ =~= seq![AddressFamily::Unix]);
    v
}

/// Builds listening stream sockets over IPv4 or IPv6.
pub struct TcpSocketBuilder;

impl TcpSocketBuilder {
    pub fn requirements() -> (r: SocketRequirements)
        ensures
            r.kind == SocketKind::Stream,
            r.families@ == seq![AddressFamily::Inet, AddressFamily::Inet6],
            r.target == TargetKind::Network,
    {
        SocketRequirements { kind: SocketKind::Stream, families: network_families(), target: TargetKind::Network }
    }
}

/// Builds datagram sockets over IPv4 or IPv6.
pub struct UdpSocketBuilder;

impl UdpSocketBuilder {
    pub fn requirements() -> (r: SocketRequirements)
        ensures
            r.kind == SocketKind::Datagram,
            r.families@ == seq![AddressFamily::Inet, AddressFamily::Inet6],
            r.target == TargetKind::Network,
    {
        SocketRequirements { kind: SocketKind::Datagram, families: network_families(), target: TargetKind::Network }
    }
}

/// Builds listening Unix-domain stream sockets.
pub struct UnixStreamSocketBuilder;

impl UnixStreamSocketBuilder {
    pub fn requirements() -> (r: SocketRequirements)
        ensures
            r.kind == SocketKind::Stream,
            r.families@ == seq![AddressFamily::Unix],
            r.target == TargetKind::Path,
    {
        SocketRequirements { kind: SocketKind::Stream, families: unix_families(), target: TargetKind::Path }
    }
}

/// Builds Unix-domain datagram sockets.
pub struct UnixDatagramSocketBuilder;

impl UnixDatagramSocketBuilder {
    pub fn requirements() -> (r: SocketRequirements)
        ensures
            r.kind == SocketKind::Datagram,
            r.families@ == seq![AddressFamily::Unix],
            r.target == TargetKind::Path,
    {
        SocketRequirements { kind: SocketKind::Datagram, families: unix_families(), target: TargetKind::Path }
    }
}

/// The stream protocol over IP.
pub struct TcpProtocol;

impl TcpProtocol {
    pub fn requirements() -> (r: SocketRequirements)
        ensures
            r.kind == SocketKind::Stream,
            r.families@ == seq![AddressFamily::Inet, AddressFamily::Inet6],
            r.target == TargetKind::Network,
    {
        TcpSocketBuilder::requirements()
    }
}

/// The datagram protocol over IP.
pub struct UdpProtocol;

impl UdpProtocol {
    pub fn requirements() -> (r: SocketRequirements)
        ensures
            r.kind == SocketKind::Datagram,
            r.families@ == seq![AddressFamily::Inet, AddressFamily::Inet6],
            r.target == TargetKind::Network,
    {
        UdpSocketBuilder::requirements()
    }
}

/// The stream protocol over Unix-domain sockets.
pub struct UnixStreamProtocol;

impl UnixStreamProtocol {
    pub fn requirements() -> (r: SocketRequirements)
        ensures
            r.kind == SocketKind::Stream,
            r.families@ == seq![AddressFamily::Unix],
            r.target == TargetKind::Path,
    {
        UnixStreamSocketBuilder::requirements()
    }
}

/// The datagram protocol over Unix-domain sockets.
pub struct UnixDatagramProtocol;

impl UnixDatagramProtocol {
    pub fn requirements() -> (r: SocketRequirements)
        ensures
            r.kind == SocketKind::Datagram,
            r.families@ == seq![AddressFamily::Unix],
            r.target == TargetKind::Path,
    {
        UnixDatagramSocketBuilder::requirements()
    }
}

} // verus!
