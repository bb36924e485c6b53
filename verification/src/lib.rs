//! SOCKS4, SOCKS4A and SOCKS5 proxy clients: the wire protocol, without the sockets.
//!
//! The library frames requests, reads replies and keeps the state of a handshake.
//! It never touches a socket: the caller moves the bytes.

use vstd::prelude::*;

pub mod error;
pub mod ext_bytes;
pub mod io_ext;
pub mod message;
pub mod text;
pub mod v4;
pub mod v5;

pub use error::{
    is_io_socks2_error, unwrap_io_to_socks2_error, Error, ErrorKind, ErrorView, IoError,
    IoErrorView,
};
pub use text::{text_to_target_addr, HostPort, IpAddress, Text};
pub use v4::{Socks4Listener, Socks4Stream};
pub use v5::bind::Socks5Listener;
pub use v5::client::Socks5Stream;
pub use v5::udp::Socks5Datagram;
use vstd::string::*;

verus! {

/// An IPv4 address with a port.
#[derive(Debug, Clone, Copy, PartialEq, Eq)]
pub struct EndpointV4 {
    pub ip: [u8; 4],
    pub port: u16,
}

/// An IPv6 address with a port.
#[derive(Debug, Clone, Copy, PartialEq, Eq)]
pub struct EndpointV6 {
    pub ip: [u8; 16],
    pub port: u16,
}

/// A numeric endpoint of either IP version.
#[derive(Debug, Clone, Copy, PartialEq, Eq)]
pub enum Endpoint {
    V4(EndpointV4),
    V6(EndpointV6),
}

/// A description of a connection target.
#[derive(Debug, Clone, PartialEq, Eq)]
pub enum TargetAddr {
    /// Connect to an IP address.
    Ip(Endpoint),
    /// Connect to a fully qualified domain name.
    ///
    /// The domain name is passed along to the proxy server, which looks it up.
    Domain(String, u16),
}

/// A `TargetAddr` in specifications: the domain as a sequence of characters.
pub enum TargetAddrView {
    Ip(Endpoint),
    Domain(Seq<char>, u16),
}

impl View for TargetAddr {
    type V = TargetAddrView;

    open spec fn view(&self) -> TargetAddrView {
        match *self {
            TargetAddr::Ip(e) => TargetAddrView::Ip(e),
            TargetAddr::Domain(name, port) => TargetAddrView::Domain(name@, port),
        }
    }
}

impl TargetAddr {
    /// The target at a numeric endpoint.
    pub fn from_ip(endpoint: Endpoint) -> (t: TargetAddr)
        ensures
            t@ == TargetAddrView::Ip(endpoint),
    {
        TargetAddr::Ip(endpoint)
    }

    /// The target at a domain name. The name is not looked at here: its length
    /// is checked when it is put on the wire.
    pub fn from_domain(name: &str, port: u16) -> (t: TargetAddr)
        ensures
            t@ == TargetAddrView::Domain(name@, port),
    {
        TargetAddr::Domain(name.to_owned(), port)
    }

    /// A copy of the target.
    pub fn duplicate(&self) -> (t: TargetAddr)
        ensures
            t@ == self@,
    {
        match self {
            TargetAddr::Ip(e) => TargetAddr::Ip(*e),
            TargetAddr::Domain(name, port) => TargetAddr::Domain(name.clone(), *port),
        }
    }
}

/// A result that holds a target, in specifications.
pub open spec fn target_result(r: Result<TargetAddr, IoError>) -> Result<
    TargetAddrView,
    IoErrorView,
> {
    match r {
        Ok(t) => Ok(t@),
        Err(e) => Err(e@),
    }
}

/// A value that names a target.
pub trait ToTargetAddr {
    /// The target that the value names, or why it names none.
    spec fn target(&self) -> Result<TargetAddrView, IoErrorView>;

    /// Converts the value to a `TargetAddr`.
    fn to_target_addr(&self) -> (r: Result<TargetAddr, IoError>)
        ensures
            target_result(r) == self.target(),
    ;
}

impl ToTargetAddr for TargetAddr {
    open spec fn target(&self) -> Result<TargetAddrView, IoErrorView> {
        Ok(self@)
    }

    fn to_target_addr(&self) -> (r: Result<TargetAddr, IoError>) {
        Ok(self.duplicate())
    }
}

impl ToTargetAddr for Endpoint {
    open spec fn target(&self) -> Result<TargetAddrView, IoErrorView> {
        Ok(TargetAddrView::Ip(*self))
    }

    fn to_target_addr(&self) -> (r: Result<TargetAddr, IoError>) {
        Ok(TargetAddr::Ip(*self))
    }
}

impl ToTargetAddr for EndpointV4 {
    open spec fn target(&self) -> Result<TargetAddrView, IoErrorView> {
        Ok(TargetAddrView::Ip(Endpoint::V4(*self)))
    }

    fn to_target_addr(&self) -> (r: Result<TargetAddr, IoError>) {
        Endpoint::V4(*self).to_target_addr()
    }
}

impl ToTargetAddr for EndpointV6 {
    open spec fn target(&self) -> Result<TargetAddrView, IoErrorView> {
        Ok(TargetAddrView::Ip(Endpoint::V6(*self)))
    }

    fn to_target_addr(&self) -> (r: Result<TargetAddr, IoError>) {
        Endpoint::V6(*self).to_target_addr()
    }
}

impl ToTargetAddr for ([u8; 4], u16) {
    open spec fn target(&self) -> Result<TargetAddrView, IoErrorView> {
        Ok(TargetAddrView::Ip(Endpoint::V4(EndpointV4 { ip: self.0, port: self.1 })))
    }

    fn to_target_addr(&self) -> (r: Result<TargetAddr, IoError>) {
        EndpointV4 { ip: self.0, port: self.1 }.to_target_addr()
    }
}

impl ToTargetAddr for ([u8; 16], u16) {
    open spec fn target(&self) -> Result<TargetAddrView, IoErrorView> {
        Ok(TargetAddrView::Ip(Endpoint::V6(EndpointV6 { ip: self.0, port: self.1 })))
    }

    fn to_target_addr(&self) -> (r: Result<TargetAddr, IoError>) {
        EndpointV6 { ip: self.0, port: self.1 }.to_target_addr()
    }
}

} // verus!
