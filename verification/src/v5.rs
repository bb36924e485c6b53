//! SOCKS5: the address field, the reply, and the authentication methods.

use crate::error::{Error, ErrorKind, ErrorView, IoError, IoErrorView};
use crate::ext_bytes::{
    be_u16, be_u32, be_write_u16, be_write_u32, lemma_u16_round_trip, lemma_u32_round_trip, put,
    ipv4_from_bits, u16_bytes, u32_bytes, written_at, ByteReader, BytesExt,
};
use std::string::FromUtf8Error;
use vstd::slice::slice_to_vec;
use crate::{Endpoint, EndpointV4, EndpointV6, TargetAddr, TargetAddrView};
use vstd::prelude::*;
use vstd::string::*;
use vstd::utf8::*;

pub mod bind;
pub mod client;
pub mod udp;

verus! {

/// The longest address field: type, length, 255 bytes of domain, port; and one
/// byte to spare.
pub const MAX_ADDR_LEN: usize = 260;

/// A result that holds bytes, in specifications.
pub open spec fn bytes_result(r: Result<Vec<u8>, IoError>) -> Result<Seq<u8>, IoErrorView> {
    match r {
        Ok(v) => Ok(v@),
        Err(e) => Err(e@),
    }
}

/// A result in specifications: the error by its view.
pub open spec fn io_result<T>(r: Result<T, IoError>) -> Result<T, IoErrorView> {
    match r {
        Ok(v) => Ok(v),
        Err(e) => Err(e@),
    }
}

/// Whether a domain name can go on the wire: its length in bytes is from 1 to 255.
pub open spec fn domain_fits(name: Seq<char>) -> bool {
    1 <= encode_utf8(name).len() <= 255
}

/// Whether a target can go on the wire as a SOCKS5 address field.
pub open spec fn encodable(t: TargetAddrView) -> bool {
    t matches TargetAddrView::Domain(name, _) ==> domain_fits(name)
}

/// The SOCKS5 address field of a target: the type, the address, the port.
pub open spec fn encoded_addr(t: TargetAddrView) -> Seq<u8> {
    match t {
        TargetAddrView::Ip(Endpoint::V4(a)) => seq![1u8] + a.ip@ + u16_bytes(a.port),
        TargetAddrView::Ip(Endpoint::V6(a)) => seq![4u8] + a.ip@ + u16_bytes(a.port),
        TargetAddrView::Domain(name, port) => seq![3u8, encode_utf8(name).len() as u8]
            + encode_utf8(name) + u16_bytes(port),
    }
}

/// What `write_addr` leaves in a buffer that held `old`.
pub open spec fn write_addr_buffer(old: Seq<u8>, t: TargetAddrView) -> Seq<u8> {
    if encodable(t) {
        written_at(old, 0, encoded_addr(t))
    } else {
        written_at(old, 0, seq![3u8])
    }
}

/// What `write_addr` returns for a buffer of `room` bytes.
pub open spec fn write_addr_result(room: nat, t: TargetAddrView) -> Result<usize, IoErrorView> {
    match t {
        TargetAddrView::Domain(name, _) if !domain_fits(name) => if room == 0 {
            Err(IoErrorView::Transport(ErrorKind::WriteZero))
        } else {
            Err(
                IoErrorView::Socks(
                    ErrorView::InvalidDomainLength {
                        domain: name,
                        length: encode_utf8(name).len() as usize,
                    },
                ),
            )
        },
        _ => if encoded_addr(t).len() <= room {
            Ok(encoded_addr(t).len() as usize)
        } else {
            Err(IoErrorView::Transport(ErrorKind::WriteZero))
        },
    }
}

/// The four bytes of an IPv4 address as one number, the first byte highest.
fn ipv4_bits(ip: &[u8; 4]) -> (n: u32)
    ensures
        n == be_u32(ip@),
        u32_bytes(n) == ip@,
{
    proof {
        lemma_u32_round_trip(ip@);
    }
    ip[0] as u32 * 16777216 + ip[1] as u32 * 65536 + ip[2] as u32 * 256 + ip[3] as u32
}

/// One write of a run that lays `field` over a buffer that held `start`: the
/// bytes of `field` from `pos` on, as far as `data` holds them.
fn put_part(
    packet: &mut [u8],
    pos: usize,
    data: &[u8],
    Ghost(start): Ghost<Seq<u8>>,
    Ghost(field): Ghost<Seq<u8>>,
) -> (r: Result<usize, IoError>)
    requires
        pos <= start.len(),
        start.len() == old(packet)@.len(),
        pos + data@.len() <= field.len(),
        field.subrange(pos as int, pos + data@.len()) =~= data@,
        old(packet)@ == written_at(start, 0, field.subrange(0, pos as int)),
    ensures
        match r {
            Ok(next) => {
                &&& next == pos + data@.len()
                &&& next <= start.len()
                &&& final(packet)@ == written_at(start, 0, field.subrange(0, next as int))
            },
            Err(e) => {
                &&& e == IoError::Transport(ErrorKind::WriteZero)
                &&& field.len() > start.len()
                &&& final(packet)@ == written_at(start, 0, field)
            },
        },
{
    put(packet, pos, data)
}

/// Writes the SOCKS5 address field of `target` to the front of `packet` and
/// returns its length.
///
/// The field is written as a run of writes to the buffer, each of which fills
/// what room is left: a buffer that is too short holds the start of the field
/// and the call fails. A domain of a length outside 1 to 255 bytes is refused
/// after the type byte is written.
pub fn write_addr(packet: &mut [u8], target: &TargetAddr) -> (r: Result<usize, IoError>)
    ensures
        final(packet)@ == write_addr_buffer(old(packet)@, target@),
        io_result(r) == write_addr_result(old(packet)@.len(), target@),
{
    let ghost old_packet = packet@;
    let ghost field = if encodable(target@) {
        encoded_addr(target@)
    } else {
        seq![3u8]
    };
    assert(packet@ =~= written_at(old_packet, 0, field.subrange(0, 0)));
    match target {
        TargetAddr::Ip(Endpoint::V4(addr)) => {
            let kind = [1u8];
            let pos = put_part(packet, 0, &kind, Ghost(old_packet), Ghost(field))?;
            let ip = be_write_u32(ipv4_bits(&addr.ip));
            let pos = put_part(packet, pos, &ip, Ghost(old_packet), Ghost(field))?;
            let port = be_write_u16(addr.port);
            let pos = put_part(packet, pos, &port, Ghost(old_packet), Ghost(field))?;
            Ok(pos)
        },
        TargetAddr::Ip(Endpoint::V6(addr)) => {
            let kind = [4u8];
            let pos = put_part(packet, 0, &kind, Ghost(old_packet), Ghost(field))?;
            let pos = put_part(packet, pos, &addr.ip, Ghost(old_packet), Ghost(field))?;
            let port = be_write_u16(addr.port);
            let pos = put_part(packet, pos, &port, Ghost(old_packet), Ghost(field))?;
            Ok(pos)
        },
        TargetAddr::Domain(domain, port) => {
            let kind = [3u8];
            let pos = put_part(packet, 0, &kind, Ghost(old_packet), Ghost(field))?;
            let name = domain.as_str().as_bytes();
            let length = name.len();
            if length == 0 || length > 255 {
                return Err(
                    Error::InvalidDomainLength { domain: domain.clone(), length }.into_io(),
                );
            }
            let count = [length as u8];
            let pos = put_part(packet, pos, &count, Ghost(old_packet), Ghost(field))?;
            let pos = put_part(packet, pos, name, Ghost(old_packet), Ghost(field))?;
            let port = be_write_u16(*port);
            let pos = put_part(packet, pos, &port, Ghost(old_packet), Ghost(field))?;
            Ok(pos)
        },
    }
}

/// How the reading of a run of bytes ends.
pub enum Parsed<T> {
    /// The bytes end before a read is served: that read lacks `missing` bytes.
    /// The reads before it took `used` bytes.
    Short { missing: nat, used: nat },
    /// The bytes are refused, once `used` of them are read.
    Fail { error: IoErrorView, used: nat },
    /// The first `used` bytes hold `value`.
    Done { value: T, used: nat },
}

impl<T> Parsed<T> {
    /// The same end when `n` bytes were read before.
    pub open spec fn after(self, n: nat) -> Parsed<T> {
        match self {
            Parsed::Short { missing, used } => Parsed::Short { missing, used: used + n },
            Parsed::Fail { error, used } => Parsed::Fail { error, used: used + n },
            Parsed::Done { value, used } => Parsed::Done { value, used: used + n },
        }
    }
}

/// The IPv4 address in the first four bytes of `b`.
pub open spec fn ipv4_of(b: Seq<u8>) -> [u8; 4] {
    [b[0], b[1], b[2], b[3]]
}

/// The IPv6 address in the first sixteen bytes of `b`.
pub open spec fn ipv6_of(b: Seq<u8>) -> [u8; 16] {
    [
        b[0],
        b[1],
        b[2],
        b[3],
        b[4],
        b[5],
        b[6],
        b[7],
        b[8],
        b[9],
        b[10],
        b[11],
        b[12],
        b[13],
        b[14],
        b[15],
    ]
}

/// The number of bytes by which `have` falls short of `want`.
pub open spec fn lack(want: int, have: nat) -> nat {
    if want > have {
        (want - have) as nat
    } else {
        0
    }
}

/// The reading of a SOCKS5 address field from the front of `b`: the type, then
/// the address, then the port, each read when the one before it is there.
pub open spec fn parse_addr(b: Seq<u8>) -> Parsed<TargetAddrView> {
    if b.len() < 1 {
        Parsed::Short { missing: 1, used: 0 }
    } else if b[0] == 1 {
        if b.len() < 5 {
            Parsed::Short { missing: lack(5, b.len()), used: 1 }
        } else if b.len() < 7 {
            Parsed::Short { missing: lack(7, b.len()), used: 5 }
        } else {
            Parsed::Done {
                value: TargetAddrView::Ip(
                    Endpoint::V4(
                        EndpointV4 { ip: ipv4_of(b.subrange(1, 5)), port: be_u16(b[5], b[6]) as u16 },
                    ),
                ),
                used: 7,
            }
        }
    } else if b[0] == 3 {
        if b.len() < 2 {
            Parsed::Short { missing: 1, used: 1 }
        } else {
            let n = b[1] as int;
            if b.len() < 2 + n {
                Parsed::Short { missing: lack(2 + n, b.len()), used: 2 }
            } else if !valid_utf8(b.subrange(2, 2 + n)) {
                Parsed::Fail {
                    error: IoErrorView::Socks(ErrorView::MalformedDomain),
                    used: (2 + n) as nat,
                }
            } else if b.len() < 4 + n {
                Parsed::Short { missing: lack(4 + n, b.len()), used: (2 + n) as nat }
            } else {
                Parsed::Done {
                    value: TargetAddrView::Domain(
                        decode_utf8(b.subrange(2, 2 + n)),
                        be_u16(b[2 + n], b[3 + n]) as u16,
                    ),
                    used: (4 + n) as nat,
                }
            }
        }
    } else if b[0] == 4 {
        if b.len() < 17 {
            Parsed::Short { missing: lack(17, b.len()), used: 1 }
        } else if b.len() < 19 {
            Parsed::Short { missing: lack(19, b.len()), used: 17 }
        } else {
            Parsed::Done {
                value: TargetAddrView::Ip(
                    Endpoint::V6(
                        EndpointV6 {
                            ip: ipv6_of(b.subrange(1, 17)),
                            port: be_u16(b[17], b[18]) as u16,
                        },
                    ),
                ),
                used: 19,
            }
        }
    } else {
        Parsed::Fail {
            error: IoErrorView::Socks(ErrorView::SOCKS5InvalidAddressType { code: b[0] }),
            used: 1,
        }
    }
}

/// An address field that was written reads back as the target it was written
/// for, whatever follows it: an IP endpoint as itself, a domain with its name
/// and its port.
pub proof fn lemma_addr_round_trip(t: TargetAddrView, rest: Seq<u8>)
    requires
        encodable(t),
    ensures
        parse_addr(encoded_addr(t) + rest) == (Parsed::Done {
            value: t,
            used: encoded_addr(t).len(),
        }),
{
    let field = encoded_addr(t);
    let b = field + rest;
    match t {
        TargetAddrView::Ip(Endpoint::V4(a)) => {
            lemma_u16_round_trip(0, 0, a.port);
            assert(ipv4_of(b.subrange(1, 5)) =~= a.ip);
        },
        TargetAddrView::Ip(Endpoint::V6(a)) => {
            lemma_u16_round_trip(0, 0, a.port);
            assert(ipv6_of(b.subrange(1, 17)) =~= a.ip);
        },
        TargetAddrView::Domain(name, port) => {
            lemma_u16_round_trip(0, 0, port);
            let n = encode_utf8(name).len() as int;
            assert(b.subrange(2, 2 + n) =~= encode_utf8(name));
            encode_utf8_valid_utf8(name);
            encode_utf8_decode_utf8(name);
        },
    }
}

/// Whether the reader `after` stands `used` bytes behind the reader `before`.
pub open spec fn stands_at(before: ByteReader, after: ByteReader, used: nat) -> bool {
    &&& used <= before.unread().len()
    &&& after.unread() =~= before.unread().skip(used as int)
    &&& after.consumed() == before.consumed() + used
}

/// Whether a read that took the reader from `before` to `after` and returned
/// `r` ended as `p` says.
pub open spec fn reads_as(
    before: ByteReader,
    after: ByteReader,
    r: Result<TargetAddr, IoError>,
    p: Parsed<TargetAddrView>,
) -> bool {
    match p {
        Parsed::Short { missing, used } => {
            &&& r matches Err(e)
            &&& e@ == IoErrorView::Transport(ErrorKind::UnexpectedEof)
            &&& after.shortfall() == missing
            &&& missing > 0
            &&& stands_at(before, after, used)
        },
        Parsed::Fail { error, used } => {
            &&& r matches Err(e)
            &&& e@ == error
            &&& after.shortfall() == 0
            &&& stands_at(before, after, used)
        },
        Parsed::Done { value, used } => {
            &&& r matches Ok(t)
            &&& t@ == value
            &&& after.shortfall() == 0
            &&& stands_at(before, after, used)
        },
    }
}

/// `String::from_utf8`. The contract claims that it succeeds on the byte
/// sequences that are UTF-8, and that the string then holds the characters
/// that the bytes encode.
#[verifier::external_body]
fn string_from_utf8(bytes: Vec<u8>) -> (r: Result<String, FromUtf8Error>)
    ensures
        r is Ok == valid_utf8(bytes@),
        r matches Ok(s) ==> s@ == decode_utf8(bytes@),
{
    String::from_utf8(bytes)
}

/// Reads a SOCKS5 address field.
///
/// Where the bytes end too early the reader tells how many the failing read
/// lacked, so that a caller who can get more bytes knows how many to get.
pub fn read_addr(socket: &mut ByteReader) -> (r: Result<TargetAddr, IoError>)
    ensures
        reads_as(*old(socket), *final(socket), r, parse_addr(old(socket).unread())),
{
    let ghost b = socket.unread();
    match socket.read_be_u8()? {
        1 => {
            let bits = socket.read_be_u32()?;
            let ip = ipv4_from_bits(bits);
            proof {
                lemma_u32_round_trip(b.subrange(1, 5));
                assert(ip =~= ipv4_of(b.subrange(1, 5)));
            }
            let port = socket.read_be_u16()?;
            Ok(TargetAddr::Ip(Endpoint::V4(EndpointV4 { ip, port })))
        },
        3 => {
            let len = socket.read_be_u8()?;
            let name = socket.read_exact(len as usize)?;
            assert(name@ =~= b.subrange(2, 2 + len));
            let domain = match string_from_utf8(slice_to_vec(name)) {
                Ok(domain) => domain,
                Err(err) => {
                    return Err(Error::MalformedDomain { err }.into_io());
                },
            };
            let port = socket.read_be_u16()?;
            Ok(TargetAddr::Domain(domain, port))
        },
        4 => {
            let s = socket.read_exact(16)?;
            let ip = [
                s[0],
                s[1],
                s[2],
                s[3],
                s[4],
                s[5],
                s[6],
                s[7],
                s[8],
                s[9],
                s[10],
                s[11],
                s[12],
                s[13],
                s[14],
                s[15],
            ];
            let port = socket.read_be_u16()?;
            Ok(TargetAddr::Ip(Endpoint::V6(EndpointV6 { ip, port })))
        },
        code => Err(Error::SOCKS5InvalidAddressType { code }.into_io()),
    }
}

/// The error that a reply code other than 0 stands for.
pub open spec fn reply_error(code: u8) -> ErrorView {
    if code == 1 {
        ErrorView::UnknownServerFailure { code: 1 }
    } else if code == 2 {
        ErrorView::ServerRefusedByRuleSet
    } else if code == 3 {
        ErrorView::ServerNetworkUnreachable
    } else if code == 4 {
        ErrorView::ServerHostUnreachable
    } else if code == 5 {
        ErrorView::ConnectionRefused { code: 5 }
    } else if code == 6 {
        ErrorView::ServerTTLExpired
    } else if code == 7 {
        ErrorView::ServerCmdNotSupported
    } else if code == 8 {
        ErrorView::ServerAddressNotSupported
    } else {
        ErrorView::UnknownServerFailure { code }
    }
}

/// The reading of a SOCKS5 reply: the version, the reply code, the reserved
/// byte, each checked before the next is read, and then the bound address.
pub open spec fn parse_response(b: Seq<u8>) -> Parsed<TargetAddrView> {
    if b.len() < 1 {
        Parsed::Short { missing: 1, used: 0 }
    } else if b[0] != 5 {
        Parsed::Fail {
            error: IoErrorView::Socks(ErrorView::InvalidResponseVersion { version: b[0] }),
            used: 1,
        }
    } else if b.len() < 2 {
        Parsed::Short { missing: 1, used: 1 }
    } else if b[1] != 0 {
        Parsed::Fail { error: IoErrorView::Socks(reply_error(b[1])), used: 2 }
    } else if b.len() < 3 {
        Parsed::Short { missing: 1, used: 2 }
    } else if b[2] != 0 {
        Parsed::Fail {
            error: IoErrorView::Socks(ErrorView::InvalidReservedByte { byte: b[2] }),
            used: 3,
        }
    } else {
        parse_addr(b.skip(3)).after(3)
    }
}

/// A reply code that is none of 0 to 8 ends the reading with
/// `UnknownServerFailure`, which holds the code.
pub proof fn lemma_unknown_reply_code(b: Seq<u8>)
    requires
        b.len() >= 2,
        b[0] == 5,
        b[1] > 8,
    ensures
        parse_response(b) == (Parsed::<TargetAddrView>::Fail {
            error: IoErrorView::Socks(ErrorView::UnknownServerFailure { code: b[1] }),
            used: 2,
        }),
{
}

/// Tells a reply code other than 0 as the error it stands for.
fn check_reply(code: u8) -> (r: Result<(), Error>)
    ensures
        code == 0 ==> r is Ok,
        code != 0 ==> r is Err && r->Err_0@ == reply_error(code),
{
    match code {
        0 => Ok(()),
        1 => Err(Error::UnknownServerFailure { code: 1 }),
        2 => Err(Error::ServerRefusedByRuleSet {  }),
        3 => Err(Error::ServerNetworkUnreachable {  }),
        4 => Err(Error::ServerHostUnreachable {  }),
        5 => Err(Error::ConnectionRefused { code: 5 }),
        6 => Err(Error::ServerTTLExpired {  }),
        7 => Err(Error::ServerCmdNotSupported {  }),
        8 => Err(Error::ServerAddressNotSupported {  }),
        code => Err(Error::UnknownServerFailure { code }),
    }
}

/// Reads a SOCKS5 reply and returns the address that the proxy bound.
pub fn read_response(socket: &mut ByteReader) -> (r: Result<TargetAddr, IoError>)
    ensures
        reads_as(*old(socket), *final(socket), r, parse_response(old(socket).unread())),
{
    let ghost b = socket.unread();
    let version = socket.read_be_u8()?;
    if version != 5 {
        return Err(Error::InvalidResponseVersion { version }.into_io());
    }
    let code = socket.read_be_u8()?;
    match check_reply(code) {
        Ok(()) => {},
        Err(e) => {
            return Err(e.into_io());
        },
    }
    let byte = socket.read_be_u8()?;
    if byte != 0 {
        return Err(Error::InvalidReservedByte { byte }.into_io());
    }
    assert(socket.unread() =~= b.skip(3));
    read_addr(socket)
}

/// An `Authentication` in specifications.
pub enum AuthenticationView {
    Password { username: Seq<char>, password: Seq<char> },
    NoAuth,
}

impl View for Authentication<'_> {
    type V = AuthenticationView;

    open spec fn view(&self) -> AuthenticationView {
        match *self {
            Authentication::Password { username, password } => AuthenticationView::Password {
                username: username@,
                password: password@,
            },
            Authentication::NoAuth => AuthenticationView::NoAuth,
        }
    }
}

/// A target that can go on the wire has an address field of at most 259 bytes:
/// it fits a buffer of `MAX_ADDR_LEN`.
pub proof fn lemma_encoded_addr_len(t: TargetAddrView)
    requires
        encodable(t),
    ensures
        5 <= encoded_addr(t).len() <= 259,
        t is Domain ==> encoded_addr(t).len() == 4 + encode_utf8(t->Domain_0).len(),
        t matches TargetAddrView::Ip(Endpoint::V4(_)) ==> encoded_addr(t).len() == 7,
        t matches TargetAddrView::Ip(Endpoint::V6(_)) ==> encoded_addr(t).len() == 19,
{
}

/// Three bytes and then the address field of `target`, in a fresh packet; or
/// the error for a domain that cannot go on the wire.
pub(crate) fn frame(first: u8, second: u8, third: u8, target: &TargetAddr) -> (r: Result<
    Vec<u8>,
    IoError,
>)
    ensures
        match r {
            Ok(packet) => encodable(target@) && packet@ == seq![first, second, third]
                + encoded_addr(target@),
            Err(e) => !encodable(target@) && write_addr_result(MAX_ADDR_LEN as nat, target@)
                == Err::<usize, IoErrorView>(e@),
        },
{
    let mut field = [0u8; 260];
    proof {
        if encodable(target@) {
            lemma_encoded_addr_len(target@);
        }
    }
    let len = write_addr(&mut field, target)?;
    let mut packet: Vec<u8> = Vec::new();
    packet.push(first);
    packet.push(second);
    packet.push(third);
    crate::ext_bytes::extend(&mut packet, &field.as_slice()[0..len]);
    Ok(packet)
}

/// A domain of 1 to 255 bytes goes on the wire, and no other does: written to
/// a buffer of `MAX_ADDR_LEN` bytes or more, the first gives the length of its
/// field and the second `InvalidDomainLength`.
pub proof fn lemma_domain_length(name: Seq<char>, port: u16, room: nat)
    requires
        room >= MAX_ADDR_LEN,
    ensures
        domain_fits(name) ==> write_addr_result(room, TargetAddrView::Domain(name, port)) == Ok::<
            usize,
            IoErrorView,
        >((4 + encode_utf8(name).len()) as usize),
        !domain_fits(name) ==> write_addr_result(room, TargetAddrView::Domain(name, port)) == Err::<
            usize,
            IoErrorView,
        >(
            IoErrorView::Socks(
                ErrorView::InvalidDomainLength {
                    domain: name,
                    length: encode_utf8(name).len() as usize,
                },
            ),
        ),
{
    if domain_fits(name) {
        lemma_encoded_addr_len(TargetAddrView::Domain(name, port));
    }
}

/// The authentication that the client offers to the proxy.
#[derive(Debug)]
pub enum Authentication<'a> {
    /// A username and a password.
    Password { username: &'a str, password: &'a str },
    /// No authentication.
    NoAuth,
}

impl Authentication<'_> {
    /// The method number on the wire.
    pub open spec fn id_spec(self) -> u8 {
        match self {
            Authentication::Password { .. } => 2,
            Authentication::NoAuth => 0,
        }
    }

    /// The method number on the wire: 2 with a password, 0 without.
    pub fn id(&self) -> (id: u8)
        ensures
            id == self.id_spec(),
    {
        match *self {
            Authentication::Password { .. } => 2,
            Authentication::NoAuth => 0,
        }
    }

    /// Whether no authentication is offered.
    pub fn is_no_auth(&self) -> (b: bool)
        ensures
            b == (*self is NoAuth),
    {
        match *self {
            Authentication::Password { .. } => false,
            Authentication::NoAuth => true,
        }
    }
}

} // verus!
