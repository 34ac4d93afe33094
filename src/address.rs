//! Addresses: IP addresses, socket addresses and the endpoints that a
//! public-key identifier publishes.

use vstd::prelude::*;

verus! {

/// An IP address, version 4 or version 6.
#[derive(Clone, Copy, Debug, PartialEq, Eq)]
pub enum IpAddress {
    V4([u8; 4]),
    V6([u16; 8]),
}

/// A concrete IP address and port, the unit that a connection is opened to.
#[derive(Clone, Copy, Debug, PartialEq, Eq)]
pub struct SocketAddress {
    pub ip: IpAddress,
    pub port: u16,
}

/// The host of an endpoint: an IP address used directly, or a domain that the
/// system resolver must look up.
#[derive(Clone, Debug, PartialEq, Eq)]
pub enum Host {
    Ip(IpAddress),
    Domain(String),
}

pub enum HostView {
    Ip(IpAddress),
    Domain(Seq<char>),
}

impl View for Host {
    type V = HostView;

    open spec fn view(&self) -> HostView {
        match self {
            Host::Ip(ip) => HostView::Ip(*ip),
            Host::Domain(d) => HostView::Domain(d@),
        }
    }
}

/// A network location published under a public-key identifier.
#[derive(Clone, Debug, PartialEq, Eq)]
pub struct Endpoint {
    pub host: Host,
    pub port: u16,
}

pub struct EndpointView {
    pub host: HostView,
    pub port: u16,
}

impl View for Endpoint {
    type V = EndpointView;

    open spec fn view(&self) -> EndpointView {
        EndpointView { host: self.host@, port: self.port }
    }
}

/// The view of a list of endpoints.
pub open spec fn endpoints_view(v: Seq<Endpoint>) -> Seq<EndpointView> {
    v.map_values(|e: Endpoint| e@)
}

/// The socket address of an endpoint whose host is an IP address.
pub open spec fn direct_address(e: EndpointView) -> SocketAddress {
    match e.host {
        HostView::Ip(ip) => SocketAddress { ip, port: e.port },
        HostView::Domain(_) => arbitrary(),
    }
}

impl SocketAddress {
    /// The socket address made of `ip` and `port`.
    pub fn new(ip: IpAddress, port: u16) -> (r: SocketAddress)
        ensures
            r.ip == ip,
            r.port == port,
    {
        SocketAddress { ip, port }
    }
}

impl Endpoint {
    /// An endpoint at an IP address.
    pub fn at_ip(ip: IpAddress, port: u16) -> (r: Endpoint)
        ensures
            r@ == (EndpointView { host: HostView::Ip(ip), port }),
    {
        Endpoint { host: Host::Ip(ip), port }
    }

    /// An endpoint at a domain.
    pub fn at_domain(domain: &str, port: u16) -> (r: Endpoint)
        ensures
            r@ == (EndpointView { host: HostView::Domain(domain@), port }),
    {
        Endpoint { host: Host::Domain(domain.to_owned()), port }
    }
}

} // verus!
