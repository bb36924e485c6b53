//! The text of an error and of a target, for people to read.

use crate::error::{Error, ErrorView};
use crate::{Endpoint, EndpointV4, EndpointV6, TargetAddr, TargetAddrView};
use vstd::prelude::*;
use vstd::string::*;

verus! {

/// The character that writes a digit below sixteen.
pub open spec fn digit_char(d: int) -> char {
    if d == 0 {
        '0'
    } else if d == 1 {
        '1'
    } else if d == 2 {
        '2'
    } else if d == 3 {
        '3'
    } else if d == 4 {
        '4'
    } else if d == 5 {
        '5'
    } else if d == 6 {
        '6'
    } else if d == 7 {
        '7'
    } else if d == 8 {
        '8'
    } else if d == 9 {
        '9'
    } else if d == 10 {
        'a'
    } else if d == 11 {
        'b'
    } else if d == 12 {
        'c'
    } else if d == 13 {
        'd'
    } else if d == 14 {
        'e'
    } else {
        'f'
    }
}

/// A number in decimal digits, without leading zeros.
pub open spec fn decimal_text(n: nat) -> Seq<char>
    decreases n,
{
    if n < 10 {
        seq![digit_char(n as int)]
    } else {
        decimal_text(n / 10) + seq![digit_char(n as int % 10)]
    }
}

/// A number in hexadecimal digits, in lower case and without leading zeros.
pub open spec fn hex_text(n: nat) -> Seq<char>
    decreases n,
{
    if n < 16 {
        seq![digit_char(n as int)]
    } else {
        hex_text(n / 16) + seq![digit_char(n as int % 16)]
    }
}

/// The text of one digit.
fn digit(d: usize) -> (s: &'static str)
    requires
        d < 16,
    ensures
        s@ == seq![digit_char(d as int)],
{
    proof {
        reveal_strlit("0");
        reveal_strlit("1");
        reveal_strlit("2");
        reveal_strlit("3");
        reveal_strlit("4");
        reveal_strlit("5");
        reveal_strlit("6");
        reveal_strlit("7");
        reveal_strlit("8");
        reveal_strlit("9");
        reveal_strlit("a");
        reveal_strlit("b");
        reveal_strlit("c");
        reveal_strlit("d");
        reveal_strlit("e");
        reveal_strlit("f");
    }
    let s = match d {
        0 => "0",
        1 => "1",
        2 => "2",
        3 => "3",
        4 => "4",
        5 => "5",
        6 => "6",
        7 => "7",
        8 => "8",
        9 => "9",
        10 => "a",
        11 => "b",
        12 => "c",
        13 => "d",
        14 => "e",
        _ => "f",
    };
    s
}

/// Appends a number in decimal digits.
fn push_decimal(s: &mut String, n: usize)
    ensures
        final(s)@ == old(s)@ + decimal_text(n as nat),
    decreases n,
{
    if n >= 10 {
        push_decimal(s, n / 10);
    }
    s.append(digit(n % 10));
}

/// Appends a number in hexadecimal digits.
fn push_hex(s: &mut String, n: usize)
    ensures
        final(s)@ == old(s)@ + hex_text(n as nat),
    decreases n,
{
    if n >= 16 {
        push_hex(s, n / 16);
    }
    s.append(digit(n % 16));
}

/// The group of sixteen bits at place `i` of an IPv6 address.
pub open spec fn group(ip: Seq<u8>, i: int) -> nat {
    (ip[2 * i] as nat) * 256 + ip[2 * i + 1] as nat
}

/// The first `count` groups of an IPv6 address in hexadecimal digits, with
/// `:` between them.
pub open spec fn groups_text(ip: Seq<u8>, count: nat) -> Seq<char>
    decreases count,
{
    if count == 0 {
        Seq::empty()
    } else if count == 1 {
        hex_text(group(ip, 0))
    } else {
        groups_text(ip, (count - 1) as nat) + ":"@ + hex_text(group(ip, count - 1))
    }
}

/// An IPv6 endpoint as text: the eight groups of the address in full, in
/// square brackets, and the port. Runs of zero groups are not shortened.
pub open spec fn endpoint_v6_text(addr: EndpointV6) -> Seq<char> {
    "["@ + groups_text(addr.ip@, 8) + "]:"@ + decimal_text(addr.port as nat)
}

/// Appends an IPv6 endpoint as text.
fn push_endpoint_v6(s: &mut String, addr: &EndpointV6)
    ensures
        final(s)@ == old(s)@ + endpoint_v6_text(*addr),
{
    s.append("[");
    let mut i: usize = 0;
    while i < 8
        invariant
            i <= 8,
            s@ == old(s)@ + "["@ + groups_text(addr.ip@, i as nat),
        decreases 8 - i,
    {
        if i > 0 {
            s.append(":");
        }
        let value = addr.ip[2 * i] as usize * 256 + addr.ip[2 * i + 1] as usize;
        push_hex(s, value);
        i += 1;
    }
    s.append("]:");
    push_decimal(s, addr.port as usize);
}

/// An IPv4 endpoint as text: the four bytes of the address in decimal digits
/// with `.` between them, and the port.
pub open spec fn endpoint_v4_text(addr: EndpointV4) -> Seq<char> {
    decimal_text(addr.ip@[0] as nat) + "."@ + decimal_text(addr.ip@[1] as nat) + "."@
        + decimal_text(addr.ip@[2] as nat) + "."@ + decimal_text(addr.ip@[3] as nat) + ":"@
        + decimal_text(addr.port as nat)
}

/// A target as text: an endpoint as above, a domain as its name, `:` and the
/// port.
pub open spec fn target_text(t: TargetAddrView) -> Seq<char> {
    match t {
        TargetAddrView::Ip(Endpoint::V4(a)) => endpoint_v4_text(a),
        TargetAddrView::Ip(Endpoint::V6(a)) => endpoint_v6_text(a),
        TargetAddrView::Domain(name, port) => name + ":"@ + decimal_text(port as nat),
    }
}

impl TargetAddr {
    /// The target as text.
    pub fn text(&self) -> (s: String)
        ensures
            s@ == target_text(self@),
    {
        let mut s = String::new();
        match self {
            TargetAddr::Ip(Endpoint::V4(a)) => {
                push_decimal(&mut s, a.ip[0] as usize);
                s.append(".");
                push_decimal(&mut s, a.ip[1] as usize);
                s.append(".");
                push_decimal(&mut s, a.ip[2] as usize);
                s.append(".");
                push_decimal(&mut s, a.ip[3] as usize);
                s.append(":");
                push_decimal(&mut s, a.port as usize);
            },
            TargetAddr::Ip(Endpoint::V6(a)) => {
                push_endpoint_v6(&mut s, a);
            },
            TargetAddr::Domain(name, port) => {
                s.append(name.as_str());
                s.append(":");
                push_decimal(&mut s, *port as usize);
            },
        }
        s
    }
}

/// The text of an error. Of a malformed domain it gives the start: what
/// follows says where the bytes stop being UTF-8.
pub open spec fn message_spec(e: ErrorView) -> Seq<char> {
    match e {
        ErrorView::InvalidSocksAddress { addr } => "invalid socket address '"@ + addr + "'"@,
        ErrorView::InvalidPortValue { addr, port } => "invalid port value '"@ + port + "' for '"@
            + addr + "'"@,
        ErrorView::NoResolveSocketAddrs => "could not resolve a socket address"@,
        ErrorView::InvalidResponseVersion { version } => "invalid response version '"@
            + decimal_text(version as nat) + "'"@,
        ErrorView::UnknownResponseCode { code } => "unknown response code '"@ + decimal_text(
            code as nat,
        ) + "'"@,
        ErrorView::ConnectionRefused { code } => "connection refused or the request was rejected or failed '"@
            + decimal_text(code as nat) + "'"@,
        ErrorView::RejectedRequestID { code } => "request rejected because of idnetd with code '"@
            + decimal_text(code as nat) + "'"@,
        ErrorView::Socks4NoIPv6 { addr } => "SOCKS4 does not support IPv6 '"@ + endpoint_v6_text(
            addr,
        ) + "'"@,
        ErrorView::MalformedDomain => "malformed domain "@,
        ErrorView::SOCKS5InvalidAddressType { code } => "invalid address type "@ + decimal_text(
            code as nat,
        ),
        ErrorView::UnknownServerFailure { code } => "unknown server failure "@ + decimal_text(
            code as nat,
        ),
        ErrorView::ServerRefusedByRuleSet => "connection not allowed by ruleset"@,
        ErrorView::ServerNetworkUnreachable => "network unreachable"@,
        ErrorView::ServerHostUnreachable => "host unreachable"@,
        ErrorView::ServerTTLExpired => "TTL expired"@,
        ErrorView::ServerCmdNotSupported => "command not supported"@,
        ErrorView::ServerAddressNotSupported => "address kind not supported"@,
        ErrorView::InvalidReservedByte { byte } => "invalid reserved byte '"@ + decimal_text(
            byte as nat,
        ) + "'"@,
        ErrorView::InvalidDomainLength { domain, length } => "domain '"@ + domain
            + "' with length '"@ + decimal_text(length as nat)
            + "' is not between 1-255 inclusive"@,
        ErrorView::NoAuthMethods { method } => "no acceptable authentication methods '"@
            + decimal_text(method as nat) + "'"@,
        ErrorView::UnknownAuthMethod { method } => "unknown authentication method '"@
            + decimal_text(method as nat) + "'"@,
        ErrorView::InvalidUsername { username, length } => "invalid username '"@ + username
            + "' with length '"@ + decimal_text(length as nat) + "'"@,
        ErrorView::InvalidPassword { length } => "invalid password '()' with length '"@
            + decimal_text(length as nat) + "'"@,
        ErrorView::FailedPasswordAuth => "password authentication failed"@,
        ErrorView::InvalidReservedBytes { bytes } => "invalid reserved bytes '"@ + decimal_text(
            bytes as nat,
        ) + "'"@,
        ErrorView::InvalidFragmentID { fid } => "invalid fragment ID '"@ + decimal_text(
            fid as nat,
        ) + "'"@,
        ErrorView::WinUDP4GiBLimit { size } => "tried to write '"@ + decimal_text(size as nat)
            + "' bytes to UDPSocket, but writev/readv has a 4 GiB limit on windows"@,
    }
}

/// A text, a number and a text.
fn numbered(before: &str, n: usize, after: &str) -> (s: String)
    ensures
        s@ == before@ + decimal_text(n as nat) + after@,
{
    let mut s = String::from_str(before);
    push_decimal(&mut s, n);
    s.append(after);
    s
}

/// A text, a quoted text, a number and a text.
fn named(before: &str, name: &str, between: &str, n: usize, after: &str) -> (s: String)
    ensures
        s@ == before@ + name@ + between@ + decimal_text(n as nat) + after@,
{
    let mut s = String::from_str(before);
    s.append(name);
    s.append(between);
    push_decimal(&mut s, n);
    s.append(after);
    s
}

impl Error {
    /// The text of the error. A password is never part of it.
    pub fn message(&self) -> (s: String)
        ensures
            self@ is MalformedDomain ==> message_spec(self@).is_prefix_of(s@),
            !(self@ is MalformedDomain) ==> s@ == message_spec(self@),
    {
        match self {
            Error::InvalidSocksAddress { addr } => {
                let mut s = String::from_str("invalid socket address '");
                s.append(addr.as_str());
                s.append("'");
                s
            },
            Error::InvalidPortValue { addr, port } => {
                let mut s = String::from_str("invalid port value '");
                s.append(port.as_str());
                s.append("' for '");
                s.append(addr.as_str());
                s.append("'");
                s
            },
            Error::NoResolveSocketAddrs {  } => String::from_str(
                "could not resolve a socket address",
            ),
            Error::InvalidResponseVersion { version } => numbered(
                "invalid response version '",
                *version as usize,
                "'",
            ),
            Error::UnknownResponseCode { code } => numbered(
                "unknown response code '",
                *code as usize,
                "'",
            ),
            Error::ConnectionRefused { code } => numbered(
                "connection refused or the request was rejected or failed '",
                *code as usize,
                "'",
            ),
            Error::RejectedRequestID { code } => numbered(
                "request rejected because of idnetd with code '",
                *code as usize,
                "'",
            ),
            Error::Socks4NoIPv6 { addr } => {
                let mut s = String::from_str("SOCKS4 does not support IPv6 '");
                push_endpoint_v6(&mut s, addr);
                s.append("'");
                s
            },
            Error::MalformedDomain { err } => {
                let mut s = String::from_str("malformed domain ");
                let detail = err.to_string();
                s.append(detail.as_str());
                s
            },
            Error::SOCKS5InvalidAddressType { code } => {
                let mut s = String::from_str("invalid address type ");
                push_decimal(&mut s, *code as usize);
                s
            },
            Error::UnknownServerFailure { code } => {
                let mut s = String::from_str("unknown server failure ");
                push_decimal(&mut s, *code as usize);
                s
            },
            Error::ServerRefusedByRuleSet {  } => String::from_str(
                "connection not allowed by ruleset",
            ),
            Error::ServerNetworkUnreachable {  } => String::from_str("network unreachable"),
            Error::ServerHostUnreachable {  } => String::from_str("host unreachable"),
            Error::ServerTTLExpired {  } => String::from_str("TTL expired"),
            Error::ServerCmdNotSupported {  } => String::from_str("command not supported"),
            Error::ServerAddressNotSupported {  } => String::from_str("address kind not supported"),
            Error::InvalidReservedByte { byte } => numbered(
                "invalid reserved byte '",
                *byte as usize,
                "'",
            ),
            Error::InvalidDomainLength { domain, length } => named(
                "domain '",
                domain.as_str(),
                "' with length '",
                *length,
                "' is not between 1-255 inclusive",
            ),
            Error::NoAuthMethods { method } => numbered(
                "no acceptable authentication methods '",
                *method as usize,
                "'",
            ),
            Error::UnknownAuthMethod { method } => numbered(
                "unknown authentication method '",
                *method as usize,
                "'",
            ),
            Error::InvalidUsername { username, length } => named(
                "invalid username '",
                username.as_str(),
                "' with length '",
                *length,
                "'",
            ),
            Error::InvalidPassword { length, .. } => numbered(
                "invalid password '()' with length '",
                *length,
                "'",
            ),
            Error::FailedPasswordAuth {  } => String::from_str("password authentication failed"),
            Error::InvalidReservedBytes { bytes } => numbered(
                "invalid reserved bytes '",
                *bytes as usize,
                "'",
            ),
            Error::InvalidFragmentID { fid } => numbered(
                "invalid fragment ID '",
                *fid as usize,
                "'",
            ),
            Error::WinUDP4GiBLimit { size } => numbered(
                "tried to write '",
                *size,
                "' bytes to UDPSocket, but writev/readv has a 4 GiB limit on windows",
            ),
        }
    }
}

} // verus!
