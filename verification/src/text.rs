//! Targets written as text: `HOST:PORT`.
//!
//! Whether a text is an IP literal is for the caller to say: the library
//! splits the text, reads the port, and decides between an address and a
//! domain name.

use crate::error::{Error, ErrorView, IoError, IoErrorView};
use crate::{
    target_result, Endpoint, EndpointV4, EndpointV6, TargetAddr, TargetAddrView, ToTargetAddr,
};
use vstd::prelude::*;
use vstd::string::*;
use vstd::utf8::*;

verus! {

/// An IP address without a port.
#[derive(Debug, Clone, Copy, PartialEq, Eq)]
pub enum IpAddress {
    V4([u8; 4]),
    V6([u8; 16]),
}

/// The byte `:`.
pub const COLON: u8 = 0x3a;

/// The place of the last `:` in `b`.
pub open spec fn last_colon(b: Seq<u8>) -> Option<int>
    decreases b.len(),
{
    if b.len() == 0 {
        None
    } else if b.last() == COLON {
        Some(b.len() - 1)
    } else {
        last_colon(b.drop_last())
    }
}

/// Whether a byte is a decimal digit.
pub open spec fn is_digit(c: u8) -> bool {
    0x30 <= c <= 0x39
}

/// The number that a run of decimal digits writes.
pub open spec fn decimal(d: Seq<u8>) -> nat
    decreases d.len(),
{
    if d.len() == 0 {
        0
    } else {
        decimal(d.drop_last()) * 10 + (d.last() - 0x30) as nat
    }
}

/// The digits of a number that may have a `+` before it.
pub open spec fn unsigned(s: Seq<u8>) -> Seq<u8> {
    if s.len() > 0 && s[0] == 0x2b {
        s.skip(1)
    } else {
        s
    }
}

/// The port that a text writes: decimal digits, at least one, with or without
/// a `+` before them, that write a number of at most 65535.
pub open spec fn port_of(s: Seq<u8>) -> Option<u16> {
    let d = unsigned(s);
    if d.len() > 0 && (forall|i: int| 0 <= i < d.len() ==> is_digit(#[trigger] d[i])) && decimal(d)
        <= 0xffff {
        Some(decimal(d) as u16)
    } else {
        None
    }
}

/// The target at a host that is named as text: the address, where the caller
/// reads the text as an IP literal, and else the domain of that name.
pub open spec fn host_target(host: Seq<char>, port: u16, literal: Option<IpAddress>) -> TargetAddrView {
    match literal {
        Some(IpAddress::V4(ip)) => TargetAddrView::Ip(Endpoint::V4(EndpointV4 { ip, port })),
        Some(IpAddress::V6(ip)) => TargetAddrView::Ip(Endpoint::V6(EndpointV6 { ip, port })),
        None => TargetAddrView::Domain(host, port),
    }
}

/// The host part of a text: what stands before its last `:`.
pub open spec fn host_of(s: Seq<char>) -> Option<Seq<char>> {
    let b = encode_utf8(s);
    match last_colon(b) {
        None => None,
        Some(i) => Some(decode_utf8(b.take(i))),
    }
}

/// The target that a text names.
///
/// `endpoint` is the reading of the whole text as an IP literal with a port,
/// `literal` the reading of its host part as an IP literal; the caller
/// supplies both. A text that is an endpoint is that endpoint. Any other text
/// is split at its last `:`; what follows must be a port; what stands before
/// is an address where it is a literal, and else a domain name.
pub open spec fn text_target(
    s: Seq<char>,
    endpoint: Option<Endpoint>,
    literal: Option<IpAddress>,
) -> Result<TargetAddrView, IoErrorView> {
    let b = encode_utf8(s);
    match endpoint {
        Some(e) => Ok(TargetAddrView::Ip(e)),
        None => match last_colon(b) {
            None => Err(IoErrorView::Socks(ErrorView::InvalidSocksAddress { addr: s })),
            Some(i) => match port_of(b.skip(i + 1)) {
                None => Err(
                    IoErrorView::Socks(
                        ErrorView::InvalidPortValue { addr: s, port: decode_utf8(b.skip(i + 1)) },
                    ),
                ),
                Some(port) => Ok(host_target(decode_utf8(b.take(i)), port, literal)),
            },
        },
    }
}

/// A text of the form `HOST:PORT` whose host is an IPv4 literal names an IP
/// endpoint, never a domain.
pub proof fn lemma_ipv4_host_is_ip(
    s: Seq<char>,
    endpoint: Option<Endpoint>,
    ip: [u8; 4],
)
    requires
        last_colon(encode_utf8(s)) matches Some(i) && port_of(encode_utf8(s).skip(i + 1)) is Some,
    ensures
        text_target(s, endpoint, Some(IpAddress::V4(ip))) matches Ok(t) && t is Ip,
{
}

/// Finds the last `:`.
fn find_last_colon(b: &[u8]) -> (r: Option<usize>)
    ensures
        match last_colon(b@) {
            Some(i) => r matches Some(at) && at == i && 0 <= i < b@.len() && b@[i] == COLON,
            None => r is None,
        },
{
    let mut i = b.len();
    assert(b@.take(i as int) =~= b@);
    while i > 0
        invariant
            i <= b@.len(),
            last_colon(b@) == last_colon(b@.take(i as int)),
        decreases i,
    {
        i -= 1;
        assert(b@.take(i + 1).drop_last() =~= b@.take(i as int));
        if b[i] == COLON {
            return Some(i);
        }
    }
    None
}

/// Reads a port.
pub fn parse_port(s: &[u8]) -> (r: Option<u16>)
    ensures
        r == port_of(s@),
{
    let start: usize = if s.len() > 0 && s[0] == 0x2b {
        1
    } else {
        0
    };
    let ghost d = unsigned(s@);
    if start == s.len() {
        return None;
    }
    let mut i = start;
    let mut value: u32 = 0;
    let mut over = false;
    while i < s.len()
        invariant
            start <= i <= s@.len(),
            d == s@.skip(start as int),
            d == unsigned(s@),
            forall|k: int| 0 <= k < i - start ==> is_digit(#[trigger] d[k]),
            !over ==> value == decimal(d.take(i - start)) && value <= 0xffff,
            over ==> decimal(d.take(i - start)) > 0xffff,
        decreases s@.len() - i,
    {
        let c = s[i];
        if c < 0x30 || c > 0x39 {
            assert(!is_digit(d[i - start]));
            return None;
        }
        assert(d.take(i - start + 1).drop_last() =~= d.take(i - start));
        if !over {
            value = value * 10 + (c - 0x30) as u32;
            if value > 0xffff {
                over = true;
            }
        }
        i += 1;
    }
    assert(d.take(i - start) =~= d);
    if over {
        None
    } else {
        Some(value as u16)
    }
}

/// The target at a host that is named as text. `literal` is the reading of
/// `host` as an IP literal, if it is one.
pub fn host_to_target_addr(host: &str, port: u16, literal: Option<IpAddress>) -> (t: TargetAddr)
    ensures
        t@ == host_target(host@, port, literal),
{
    match literal {
        Some(IpAddress::V4(ip)) => TargetAddr::Ip(Endpoint::V4(EndpointV4 { ip, port })),
        Some(IpAddress::V6(ip)) => TargetAddr::Ip(Endpoint::V6(EndpointV6 { ip, port })),
        None => TargetAddr::Domain(host.to_owned(), port),
    }
}

/// The host part of a text, which the caller is to read as an IP literal
/// before it asks for the target: what stands before the last `:`.
pub fn split_host(s: &str) -> (r: Option<&str>)
    ensures
        match host_of(s@) {
            Some(host) => r matches Some(h) && h@ == host,
            None => r is None,
        },
{
    match split_last_colon(s) {
        Some((host, _)) => Some(host),
        None => None,
    }
}

/// Splits a text at its last `:` into what stands before it and what follows.
fn split_last_colon(s: &str) -> (r: Option<(&str, &str)>)
    ensures
        match last_colon(encode_utf8(s@)) {
            Some(i) => {
                &&& r matches Some((host, port))
                &&& host@ == decode_utf8(encode_utf8(s@).take(i))
                &&& port@ == decode_utf8(encode_utf8(s@).skip(i + 1))
                &&& port.spec_bytes() == encode_utf8(s@).skip(i + 1)
            },
            None => r is None,
        },
{
    let ghost b = encode_utf8(s@);
    match find_last_colon(s.as_bytes()) {
        None => None,
        Some(at) => {
            proof {
                encode_utf8_valid_utf8(s@);
                is_char_boundary_iff_not_is_continuation_byte(b, at as int);
                valid_utf8_split(b, at as int);
            }
            let (host, tail) = s.split_at(at);
            proof {
                reveal_with_fuel(is_char_boundary, 2);
            }
            let (_, port) = tail.split_at(1);
            proof {
                encode_utf8_decode_utf8(host@);
                encode_utf8_decode_utf8(port@);
                assert(b.skip(at + 1) =~= b.subrange(at as int, b.len() as int).subrange(
                    1,
                    b.len() - at,
                ));
            }
            Some((host, port))
        },
    }
}

/// The target that a text names. `endpoint` is the reading of the whole text
/// as an IP literal with a port, `literal` the reading of its host part, which
/// `split_host` gives, as an IP literal.
pub fn text_to_target_addr(s: &str, endpoint: Option<Endpoint>, literal: Option<IpAddress>) -> (r:
    Result<TargetAddr, IoError>)
    ensures
        target_result(r) == text_target(s@, endpoint, literal),
{
    if let Some(e) = endpoint {
        return Ok(TargetAddr::Ip(e));
    }
    let (host, port_str) = match split_last_colon(s) {
        Some(parts) => parts,
        None => {
            return Err(Error::InvalidSocksAddress { addr: s.to_owned() }.into_io());
        },
    };
    let port = match parse_port(port_str.as_bytes()) {
        Some(port) => port,
        None => {
            return Err(
                Error::InvalidPortValue { addr: s.to_owned(), port: port_str.to_owned() }.into_io(),
            );
        },
    };
    Ok(host_to_target_addr(host, port, literal))
}

/// A host that is named as text, with a port; and the reading of the text as
/// an IP literal, if it is one.
#[derive(Debug, Clone, Copy)]
pub struct HostPort<'a> {
    pub host: &'a str,
    pub port: u16,
    pub literal: Option<IpAddress>,
}

impl ToTargetAddr for HostPort<'_> {
    open spec fn target(&self) -> Result<TargetAddrView, IoErrorView> {
        Ok(host_target(self.host@, self.port, self.literal))
    }

    fn to_target_addr(&self) -> (r: Result<TargetAddr, IoError>) {
        Ok(host_to_target_addr(self.host, self.port, self.literal))
    }
}

/// A target that is written as text, with the readings of the text as an IP
/// literal with a port, and of its host part as an IP literal.
#[derive(Debug, Clone, Copy)]
pub struct Text<'a> {
    pub text: &'a str,
    pub endpoint: Option<Endpoint>,
    pub literal: Option<IpAddress>,
}

impl ToTargetAddr for Text<'_> {
    open spec fn target(&self) -> Result<TargetAddrView, IoErrorView> {
        text_target(self.text@, self.endpoint, self.literal)
    }

    fn to_target_addr(&self) -> (r: Result<TargetAddr, IoError>) {
        text_to_target_addr(self.text, self.endpoint, self.literal)
    }
}

} // verus!
