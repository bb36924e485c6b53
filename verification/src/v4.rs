//! SOCKS4 and SOCKS4A: the request, the reply, and the handles.

use crate::error::{Error, ErrorView, IoError, IoErrorView};
use crate::ext_bytes::{
    be_u16, extend, ipv4_from_bits, lemma_u32_round_trip, u16_bytes, ByteReader, BytesExt,
};
use crate::{Endpoint, EndpointV4, EndpointV6, TargetAddr, TargetAddrView, ToTargetAddr};
use vstd::prelude::*;
use vstd::string::*;
use vstd::utf8::*;

verus! {

/// The address that marks a SOCKS4A request, whose domain follows the user id.
pub open spec fn domain_marker() -> Seq<u8> {
    seq![0u8, 0u8, 0u8, 1u8]
}

/// The SOCKS4 request for `command` (1 connect, 2 bind): version 4, the
/// command, the port, the address, the user id and a 0; for a domain the
/// marker address, and the domain and a 0 at the end. SOCKS4 has no IPv6.
pub open spec fn request_spec(command: u8, target: TargetAddrView, userid: Seq<char>) -> Result<
    Seq<u8>,
    IoErrorView,
> {
    match target {
        TargetAddrView::Ip(Endpoint::V4(a)) => Ok(
            seq![4u8, command] + u16_bytes(a.port) + a.ip@ + encode_utf8(userid) + seq![0u8],
        ),
        TargetAddrView::Ip(Endpoint::V6(a)) => Err(
            IoErrorView::Socks(ErrorView::Socks4NoIPv6 { addr: a }),
        ),
        TargetAddrView::Domain(name, port) => Ok(
            seq![4u8, command] + u16_bytes(port) + domain_marker() + encode_utf8(userid)
                + seq![0u8] + encode_utf8(name) + seq![0u8],
        ),
    }
}

/// The two bytes of a port, the high byte first.
fn port_bytes(port: u16) -> (b: [u8; 2])
    ensures
        b@ == u16_bytes(port),
{
    let b = [(port / 256) as u8, (port % 256) as u8];
    b
}

/// The SOCKS4 request packet for `command`, `target` and `userid`.
pub fn request(command: u8, target: &TargetAddr, userid: &str) -> (r: Result<Vec<u8>, IoError>)
    ensures
        crate::v5::bytes_result(r) == request_spec(command, target@, userid@),
{
    let mut packet: Vec<u8> = Vec::new();
    packet.push(4);
    packet.push(command);
    match target {
        TargetAddr::Ip(addr) => {
            let addr = match addr {
                Endpoint::V4(addr) => addr,
                Endpoint::V6(addr) => {
                    return Err(Error::Socks4NoIPv6 { addr: *addr }.into_io());
                },
            };
            extend(&mut packet, &port_bytes(addr.port));
            extend(&mut packet, &addr.ip);
            extend(&mut packet, userid.as_bytes());
            packet.push(0);
            assert(packet@ =~= seq![4u8, command] + u16_bytes(addr.port) + addr.ip@ + encode_utf8(
                userid@,
            ) + seq![0u8]);
        },
        TargetAddr::Domain(host, port) => {
            let marker = [0u8, 0u8, 0u8, 1u8];
            extend(&mut packet, &port_bytes(*port));
            extend(&mut packet, &marker);
            extend(&mut packet, userid.as_bytes());
            packet.push(0);
            extend(&mut packet, host.as_str().as_bytes());
            packet.push(0);
            assert(packet@ =~= seq![4u8, command] + u16_bytes(*port) + domain_marker()
                + encode_utf8(userid@) + seq![0u8] + encode_utf8(host@) + seq![0u8]);
        },
    }
    Ok(packet)
}

/// The error that a reply code other than 90 stands for.
pub open spec fn reply_error(code: u8) -> ErrorView {
    if code == 91 {
        ErrorView::ConnectionRefused { code: 91 }
    } else if code == 92 {
        ErrorView::RejectedRequestID { code: 92 }
    } else if code == 93 {
        ErrorView::RejectedRequestID { code: 93 }
    } else {
        ErrorView::UnknownResponseCode { code }
    }
}

/// The reading of the eight bytes of a SOCKS4 reply: a 0, the reply code,
/// which must be 90, and the port and the address that the proxy bound.
pub open spec fn parse_response(b: Seq<u8>) -> Result<EndpointV4, IoErrorView>
    recommends
        b.len() == 8,
{
    if b[0] != 0 {
        Err(IoErrorView::Socks(ErrorView::InvalidResponseVersion { version: b[0] }))
    } else if b[1] != 90 {
        Err(IoErrorView::Socks(reply_error(b[1])))
    } else {
        Ok(EndpointV4 { ip: [b[4], b[5], b[6], b[7]], port: be_u16(b[2], b[3]) as u16 })
    }
}

/// A result that holds an IPv4 endpoint, in specifications.
pub open spec fn endpoint_result(r: Result<EndpointV4, IoError>) -> Result<
    EndpointV4,
    IoErrorView,
> {
    match r {
        Ok(a) => Ok(a),
        Err(e) => Err(e@),
    }
}

/// Reads the reply of a SOCKS4 proxy and returns the endpoint that it bound.
pub fn read_response(response: &[u8; 8]) -> (r: Result<EndpointV4, IoError>)
    ensures
        endpoint_result(r) == parse_response(response@),
{
    let ghost b = response@;
    let mut reader = ByteReader::new(response.as_slice());
    let version = reader.read_be_u8()?;
    if version != 0 {
        return Err(Error::InvalidResponseVersion { version }.into_io());
    }
    match reader.read_be_u8()? {
        90 => {},
        91 => {
            return Err(Error::ConnectionRefused { code: 91 }.into_io());
        },
        92 => {
            return Err(Error::RejectedRequestID { code: 92 }.into_io());
        },
        93 => {
            return Err(Error::RejectedRequestID { code: 93 }.into_io());
        },
        code => {
            return Err(Error::UnknownResponseCode { code }.into_io());
        },
    }
    let port = reader.read_be_u16()?;
    let bits = reader.read_be_u32()?;
    let ip = ipv4_from_bits(bits);
    proof {
        lemma_u32_round_trip(b.subrange(4, 8));
        assert(ip =~= [b[4], b[5], b[6], b[7]]);
    }
    Ok(EndpointV4 { ip, port })
}

/// A connection through a SOCKS4 proxy, once the proxy granted the request:
/// the transport to the proxy, and the endpoint that the proxy reported.
#[derive(Debug)]
pub struct Socks4Stream<S> {
    socket: S,
    proxy_addr: EndpointV4,
}

/// A SOCKS4 request that waits for its reply.
///
/// It owns the transport and never uses it: the caller sends the request,
/// reads the eight bytes of the reply, and hands them to `finish`.
#[derive(Debug)]
pub struct Socks4Handshake<S> {
    socket: S,
}

/// Whether `r` is the request for `command`, `target` and `userid`, waiting
/// over `socket` for its reply; or the error that the target is or gives.
pub open spec fn starts<S>(
    r: Result<(Socks4Handshake<S>, Vec<u8>), IoError>,
    socket: S,
    command: u8,
    target: Result<TargetAddrView, IoErrorView>,
    userid: Seq<char>,
) -> bool {
    match target {
        Err(e) => r matches Err(x) && x@ == e,
        Ok(t) => match request_spec(command, t, userid) {
            Err(e) => r matches Err(x) && x@ == e,
            Ok(packet) => r matches Ok((pending, send)) && send@ == packet && pending.transport()
                == socket,
        },
    }
}

impl<S> Socks4Handshake<S> {
    /// The transport that the handshake holds.
    pub closed spec fn transport(self) -> S {
        self.socket
    }

    /// The transport, to send and to read on.
    pub fn get_mut(&mut self) -> (socket: &mut S)
        ensures
            *socket == old(self).transport(),
            final(self).transport() == *final(socket),
    {
        &mut self.socket
    }

    /// Reads the reply: the stream, if the proxy granted the request.
    pub fn finish(self, response: &[u8; 8]) -> (r: Result<Socks4Stream<S>, IoError>)
        ensures
            match parse_response(response@) {
                Ok(bound) => r matches Ok(stream) && stream.bound() == bound && stream.transport()
                    == self.transport(),
                Err(e) => r matches Err(x) && x@ == e,
            },
    {
        let proxy_addr = read_response(response)?;
        Ok(Socks4Stream { socket: self.socket, proxy_addr })
    }
}

impl<S> Socks4Stream<S> {
    /// The transport to the proxy.
    pub closed spec fn transport(self) -> S {
        self.socket
    }

    /// The endpoint that the proxy reported.
    pub closed spec fn bound(self) -> EndpointV4 {
        self.proxy_addr
    }

    /// Begins a CONNECT to `target` over `socket`, a transport that is
    /// connected to the proxy: returns the request to send. A domain is
    /// passed on to the proxy, as SOCKS4A has it.
    pub fn connect<U: ToTargetAddr>(socket: S, target: &U, userid: &str) -> (r: Result<
        (Socks4Handshake<S>, Vec<u8>),
        IoError,
    >)
        ensures
            starts(r, socket, 1, target.target(), userid@),
    {
        Self::connect_raw(1, socket, target, userid)
    }

    /// Begins the exchange for `command`: 1 connect, 2 bind.
    pub fn connect_raw<U: ToTargetAddr>(command: u8, socket: S, target: &U, userid: &str) -> (r:
        Result<(Socks4Handshake<S>, Vec<u8>), IoError>)
        ensures
            starts(r, socket, command, target.target(), userid@),
    {
        let target = target.to_target_addr()?;
        let packet = request(command, &target, userid)?;
        Ok((Socks4Handshake { socket }, packet))
    }

    /// The proxy-side address of the connection between the proxy and the
    /// target.
    pub fn proxy_addr(&self) -> (addr: EndpointV4)
        ensures
            addr == self.bound(),
    {
        self.proxy_addr
    }

    /// The transport.
    pub fn get_ref(&self) -> (socket: &S)
        ensures
            *socket == self.transport(),
    {
        &self.socket
    }

    /// The transport, to read and to write on.
    pub fn get_mut(&mut self) -> (socket: &mut S)
        ensures
            *socket == old(self).transport(),
            final(self).transport() == *final(socket),
            final(self).bound() == old(self).bound(),
    {
        &mut self.socket
    }

    /// Gives the transport back.
    pub fn into_inner(self) -> (socket: S)
        ensures
            socket == self.transport(),
    {
        self.socket
    }
}

/// A listener at a SOCKS4 proxy: the stream of a BIND exchange, until a peer
/// arrives.
#[derive(Debug)]
pub struct Socks4Listener<S>(Socks4Stream<S>);

/// The address of a listener whose proxy reported `bound`, when the proxy
/// itself is at `peer`: an address of 0.0.0.0 stands for the proxy's own.
pub open spec fn listener_addr(bound: EndpointV4, peer: Option<Endpoint>) -> Option<Endpoint> {
    if bound.ip@ == seq![0u8, 0u8, 0u8, 0u8] {
        match peer {
            Some(Endpoint::V4(p)) => Some(Endpoint::V4(EndpointV4 { ip: p.ip, port: bound.port })),
            Some(Endpoint::V6(p)) => Some(Endpoint::V6(EndpointV6 { ip: p.ip, port: bound.port })),
            None => None,
        }
    } else {
        Some(Endpoint::V4(bound))
    }
}

impl<S> Socks4Listener<S> {
    /// The stream of the BIND exchange.
    pub closed spec fn stream(self) -> Socks4Stream<S> {
        self.0
    }

    /// Begins a BIND over `socket`, a transport that is connected to the
    /// proxy: returns the request to send. The proxy lets in the connections
    /// that come from `target`.
    pub fn bind<U: ToTargetAddr>(socket: S, target: &U, userid: &str) -> (r: Result<
        (Socks4Handshake<S>, Vec<u8>),
        IoError,
    >)
        ensures
            starts(r, socket, 2, target.target(), userid@),
    {
        Socks4Stream::connect_raw(2, socket, target, userid)
    }

    /// The listener that the stream of a finished BIND exchange is.
    pub fn listening(stream: Socks4Stream<S>) -> (listener: Self)
        ensures
            listener.stream() == stream,
    {
        Socks4Listener(stream)
    }

    /// The transport, which knows the address of the proxy.
    pub fn get_ref(&self) -> (socket: &S)
        ensures
            *socket == self.stream().transport(),
    {
        self.0.get_ref()
    }

    /// Whether the proxy reported 0.0.0.0, so that `proxy_addr` needs the
    /// address of the proxy.
    pub fn needs_peer(&self) -> (b: bool)
        ensures
            b == (self.stream().bound().ip@ == seq![0u8, 0u8, 0u8, 0u8]),
    {
        let ip = &self.0.proxy_addr.ip;
        let b = ip[0] == 0 && ip[1] == 0 && ip[2] == 0 && ip[3] == 0;
        assert(b == (ip@ =~= seq![0u8, 0u8, 0u8, 0u8]));
        b
    }

    /// The address of the proxy-side listener, which the remote process is to
    /// connect to. `peer` is the address of the proxy as the transport knows
    /// it; it is used, with the port that the proxy reported, where the proxy
    /// reported 0.0.0.0, and the result is `None` only where it is then
    /// missing.
    pub fn proxy_addr(&self, peer: Option<Endpoint>) -> (addr: Option<Endpoint>)
        ensures
            addr == listener_addr(self.stream().bound(), peer),
    {
        if self.needs_peer() {
            let port = self.0.proxy_addr.port;
            match peer {
                Some(Endpoint::V4(p)) => Some(Endpoint::V4(EndpointV4 { ip: p.ip, port })),
                Some(Endpoint::V6(p)) => Some(Endpoint::V6(EndpointV6 { ip: p.ip, port })),
                None => None,
            }
        } else {
            Some(Endpoint::V4(self.0.proxy_addr()))
        }
    }

    /// Waits for the remote process: the proxy sends a second reply when it
    /// arrives. The handshake that is returned takes its eight bytes.
    pub fn accept(self) -> (pending: Socks4Handshake<S>)
        ensures
            pending.transport() == self.stream().transport(),
    {
        Socks4Handshake { socket: self.0.socket }
    }
}

} // verus!
