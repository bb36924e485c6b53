//! The protocol errors, and the transport-level error that carries them.

use crate::EndpointV6;
use std::string::FromUtf8Error;
use vstd::prelude::*;

verus! {

#[verifier::external_type_specification]
#[verifier::external_body]
pub struct ExFromUtf8Error(FromUtf8Error);

/// The transport-level classes of failure that the library reports.
#[derive(Debug, Clone, Copy, PartialEq, Eq, Structural)]
pub enum ErrorKind {
    InvalidInput,
    InvalidData,
    Other,
    ConnectionRefused,
    ConnectionAborted,
    Interrupted,
    Unsupported,
    PermissionDenied,
    UnexpectedEof,
    WriteZero,
}

/// Errors of the SOCKS protocol.
///
/// `==` on `Error` compares the variants only, never the fields.
#[derive(Debug)]
#[non_exhaustive]
#[allow(inconsistent_fields)]
pub enum Error {
    /// Domain name and port could not be parsed.
    InvalidSocksAddress { addr: String },
    /// Port could not be parsed or is over `u16::MAX`.
    InvalidPortValue { addr: String, port: String },
    /// Could not resolve any of the socket address.
    NoResolveSocketAddrs {},
    /// Response from server had an invalid version byte.
    InvalidResponseVersion { version: u8 },
    /// Unknown response code.
    UnknownResponseCode { code: u8 },
    /// Connection refused or the request was rejected or failed.
    ConnectionRefused { code: u8 },
    /// The request was rejected because of identd.
    RejectedRequestID { code: u8 },
    /// SOCKS4 does not support IPv6.
    Socks4NoIPv6 { addr: EndpointV6 },
    /// Domain received from server was not valid UTF-8.
    MalformedDomain { err: FromUtf8Error },
    /// Received an invalid address type from the server.
    SOCKS5InvalidAddressType { code: u8 },
    /// Unknown error from the server.
    UnknownServerFailure { code: u8 },
    /// Server ruleset does not allow connection.
    ServerRefusedByRuleSet {},
    /// Network unreachable.
    ServerNetworkUnreachable {},
    /// Host unreachable.
    ServerHostUnreachable {},
    /// Time to live expired.
    ServerTTLExpired {},
    /// Server does not support the sent command.
    ServerCmdNotSupported {},
    /// Server does not support the address kind.
    ServerAddressNotSupported {},
    /// Reserved byte from server is invalid.
    InvalidReservedByte { byte: u8 },
    /// Domains must have a length between 1 and 255 inclusive.
    InvalidDomainLength { domain: String, length: usize },
    /// No acceptable auth methods.
    NoAuthMethods { method: u8 },
    /// Unknown auth method.
    UnknownAuthMethod { method: u8 },
    /// Invalid username.
    InvalidUsername { username: String, length: usize },
    /// Invalid password. The password itself is never kept.
    InvalidPassword { password: (), length: usize },
    /// Auth with password failed.
    FailedPasswordAuth {},
    /// Reserved bytes from server are invalid.
    InvalidReservedBytes { bytes: u16 },
    /// Fragment id from the server is invalid.
    InvalidFragmentID { fid: u8 },
    /// A buffer handed to a vectored datagram call is over the 4 GiB limit.
    WinUDP4GiBLimit { size: usize },
}

impl Error {
    /// The transport-level class under which this error is reported.
    pub open spec fn kind_spec(self) -> ErrorKind {
        match self {
            Error::InvalidSocksAddress { .. } => ErrorKind::InvalidInput,
            Error::InvalidPortValue { .. } => ErrorKind::InvalidInput,
            Error::NoResolveSocketAddrs { .. } => ErrorKind::InvalidInput,
            Error::InvalidResponseVersion { .. } => ErrorKind::InvalidData,
            Error::UnknownResponseCode { .. } => ErrorKind::Other,
            Error::ConnectionRefused { .. } => ErrorKind::ConnectionRefused,
            Error::RejectedRequestID { .. } => ErrorKind::PermissionDenied,
            Error::Socks4NoIPv6 { .. } => ErrorKind::InvalidInput,
            Error::MalformedDomain { .. } => ErrorKind::InvalidData,
            Error::SOCKS5InvalidAddressType { .. } => ErrorKind::InvalidData,
            Error::UnknownServerFailure { .. } => ErrorKind::Other,
            Error::ServerRefusedByRuleSet { .. } => ErrorKind::ConnectionRefused,
            Error::ServerNetworkUnreachable { .. } => ErrorKind::ConnectionAborted,
            Error::ServerHostUnreachable { .. } => ErrorKind::ConnectionAborted,
            Error::ServerTTLExpired { .. } => ErrorKind::Interrupted,
            Error::ServerCmdNotSupported { .. } => ErrorKind::Unsupported,
            Error::ServerAddressNotSupported { .. } => ErrorKind::Unsupported,
            Error::InvalidReservedByte { .. } => ErrorKind::Other,
            Error::InvalidDomainLength { .. } => ErrorKind::InvalidInput,
            Error::NoAuthMethods { .. } => ErrorKind::Unsupported,
            Error::UnknownAuthMethod { .. } => ErrorKind::Unsupported,
            Error::InvalidUsername { .. } => ErrorKind::InvalidInput,
            Error::InvalidPassword { .. } => ErrorKind::InvalidInput,
            Error::FailedPasswordAuth { .. } => ErrorKind::PermissionDenied,
            Error::InvalidReservedBytes { .. } => ErrorKind::InvalidData,
            Error::InvalidFragmentID { .. } => ErrorKind::InvalidData,
            Error::WinUDP4GiBLimit { .. } => ErrorKind::InvalidInput,
        }
    }

    /// The transport-level class under which this error is reported.
    pub fn kind(&self) -> (k: ErrorKind)
        ensures
            k == self.kind_spec(),
    {
        match self {
            Error::InvalidSocksAddress { .. } => ErrorKind::InvalidInput,
            Error::InvalidPortValue { .. } => ErrorKind::InvalidInput,
            Error::NoResolveSocketAddrs { .. } => ErrorKind::InvalidInput,
            Error::InvalidResponseVersion { .. } => ErrorKind::InvalidData,
            Error::UnknownResponseCode { .. } => ErrorKind::Other,
            Error::ConnectionRefused { .. } => ErrorKind::ConnectionRefused,
            Error::RejectedRequestID { .. } => ErrorKind::PermissionDenied,
            Error::Socks4NoIPv6 { .. } => ErrorKind::InvalidInput,
            Error::MalformedDomain { .. } => ErrorKind::InvalidData,
            Error::SOCKS5InvalidAddressType { .. } => ErrorKind::InvalidData,
            Error::UnknownServerFailure { .. } => ErrorKind::Other,
            Error::ServerRefusedByRuleSet { .. } => ErrorKind::ConnectionRefused,
            Error::ServerNetworkUnreachable { .. } => ErrorKind::ConnectionAborted,
            Error::ServerHostUnreachable { .. } => ErrorKind::ConnectionAborted,
            Error::ServerTTLExpired { .. } => ErrorKind::Interrupted,
            Error::ServerCmdNotSupported { .. } => ErrorKind::Unsupported,
            Error::ServerAddressNotSupported { .. } => ErrorKind::Unsupported,
            Error::InvalidReservedByte { .. } => ErrorKind::Other,
            Error::InvalidDomainLength { .. } => ErrorKind::InvalidInput,
            Error::NoAuthMethods { .. } => ErrorKind::Unsupported,
            Error::UnknownAuthMethod { .. } => ErrorKind::Unsupported,
            Error::InvalidUsername { .. } => ErrorKind::InvalidInput,
            Error::InvalidPassword { .. } => ErrorKind::InvalidInput,
            Error::FailedPasswordAuth { .. } => ErrorKind::PermissionDenied,
            Error::InvalidReservedBytes { .. } => ErrorKind::InvalidData,
            Error::InvalidFragmentID { .. } => ErrorKind::InvalidData,
            Error::WinUDP4GiBLimit { .. } => ErrorKind::InvalidInput,
        }
    }

    /// Wraps the error for the transport layer, under the class that `kind` gives.
    pub fn into_io(self) -> (e: IoError)
        ensures
            e == IoError::Socks(self),
    {
        IoError::Socks(self)
    }
}

/// An `Error` in specifications: its strings as sequences of characters. Of a
/// malformed domain only the variant is kept.
#[allow(inconsistent_fields)]
pub enum ErrorView {
    InvalidSocksAddress { addr: Seq<char> },
    InvalidPortValue { addr: Seq<char>, port: Seq<char> },
    NoResolveSocketAddrs,
    InvalidResponseVersion { version: u8 },
    UnknownResponseCode { code: u8 },
    ConnectionRefused { code: u8 },
    RejectedRequestID { code: u8 },
    Socks4NoIPv6 { addr: EndpointV6 },
    MalformedDomain,
    SOCKS5InvalidAddressType { code: u8 },
    UnknownServerFailure { code: u8 },
    ServerRefusedByRuleSet,
    ServerNetworkUnreachable,
    ServerHostUnreachable,
    ServerTTLExpired,
    ServerCmdNotSupported,
    ServerAddressNotSupported,
    InvalidReservedByte { byte: u8 },
    InvalidDomainLength { domain: Seq<char>, length: usize },
    NoAuthMethods { method: u8 },
    UnknownAuthMethod { method: u8 },
    InvalidUsername { username: Seq<char>, length: usize },
    InvalidPassword { length: usize },
    FailedPasswordAuth,
    InvalidReservedBytes { bytes: u16 },
    InvalidFragmentID { fid: u8 },
    WinUDP4GiBLimit { size: usize },
}

impl View for Error {
    type V = ErrorView;

    open spec fn view(&self) -> ErrorView {
        match *self {
            Error::InvalidSocksAddress { addr } => ErrorView::InvalidSocksAddress { addr: addr@ },
            Error::InvalidPortValue { addr, port } => ErrorView::InvalidPortValue {
                addr: addr@,
                port: port@,
            },
            Error::NoResolveSocketAddrs {  } => ErrorView::NoResolveSocketAddrs,
            Error::InvalidResponseVersion { version } => ErrorView::InvalidResponseVersion {
                version,
            },
            Error::UnknownResponseCode { code } => ErrorView::UnknownResponseCode { code },
            Error::ConnectionRefused { code } => ErrorView::ConnectionRefused { code },
            Error::RejectedRequestID { code } => ErrorView::RejectedRequestID { code },
            Error::Socks4NoIPv6 { addr } => ErrorView::Socks4NoIPv6 { addr },
            Error::MalformedDomain { .. } => ErrorView::MalformedDomain,
            Error::SOCKS5InvalidAddressType { code } => ErrorView::SOCKS5InvalidAddressType {
                code,
            },
            Error::UnknownServerFailure { code } => ErrorView::UnknownServerFailure { code },
            Error::ServerRefusedByRuleSet {  } => ErrorView::ServerRefusedByRuleSet,
            Error::ServerNetworkUnreachable {  } => ErrorView::ServerNetworkUnreachable,
            Error::ServerHostUnreachable {  } => ErrorView::ServerHostUnreachable,
            Error::ServerTTLExpired {  } => ErrorView::ServerTTLExpired,
            Error::ServerCmdNotSupported {  } => ErrorView::ServerCmdNotSupported,
            Error::ServerAddressNotSupported {  } => ErrorView::ServerAddressNotSupported,
            Error::InvalidReservedByte { byte } => ErrorView::InvalidReservedByte { byte },
            Error::InvalidDomainLength { domain, length } => ErrorView::InvalidDomainLength {
                domain: domain@,
                length,
            },
            Error::NoAuthMethods { method } => ErrorView::NoAuthMethods { method },
            Error::UnknownAuthMethod { method } => ErrorView::UnknownAuthMethod { method },
            Error::InvalidUsername { username, length } => ErrorView::InvalidUsername {
                username: username@,
                length,
            },
            Error::InvalidPassword { length, .. } => ErrorView::InvalidPassword { length },
            Error::FailedPasswordAuth {  } => ErrorView::FailedPasswordAuth,
            Error::InvalidReservedBytes { bytes } => ErrorView::InvalidReservedBytes { bytes },
            Error::InvalidFragmentID { fid } => ErrorView::InvalidFragmentID { fid },
            Error::WinUDP4GiBLimit { size } => ErrorView::WinUDP4GiBLimit { size },
        }
    }
}

impl ErrorView {
    /// The place of the variant in the declaration, counted from 0.
    pub open spec fn tag(self) -> int {
        match self {
            ErrorView::InvalidSocksAddress { .. } => 0,
            ErrorView::InvalidPortValue { .. } => 1,
            ErrorView::NoResolveSocketAddrs => 2,
            ErrorView::InvalidResponseVersion { .. } => 3,
            ErrorView::UnknownResponseCode { .. } => 4,
            ErrorView::ConnectionRefused { .. } => 5,
            ErrorView::RejectedRequestID { .. } => 6,
            ErrorView::Socks4NoIPv6 { .. } => 7,
            ErrorView::MalformedDomain => 8,
            ErrorView::SOCKS5InvalidAddressType { .. } => 9,
            ErrorView::UnknownServerFailure { .. } => 10,
            ErrorView::ServerRefusedByRuleSet => 11,
            ErrorView::ServerNetworkUnreachable => 12,
            ErrorView::ServerHostUnreachable => 13,
            ErrorView::ServerTTLExpired => 14,
            ErrorView::ServerCmdNotSupported => 15,
            ErrorView::ServerAddressNotSupported => 16,
            ErrorView::InvalidReservedByte { .. } => 17,
            ErrorView::InvalidDomainLength { .. } => 18,
            ErrorView::NoAuthMethods { .. } => 19,
            ErrorView::UnknownAuthMethod { .. } => 20,
            ErrorView::InvalidUsername { .. } => 21,
            ErrorView::InvalidPassword { .. } => 22,
            ErrorView::FailedPasswordAuth => 23,
            ErrorView::InvalidReservedBytes { .. } => 24,
            ErrorView::InvalidFragmentID { .. } => 25,
            ErrorView::WinUDP4GiBLimit { .. } => 26,
        }
    }
}

impl Error {
    fn tag(&self) -> (t: u8)
        ensures
            t == self@.tag(),
    {
        match self {
            Error::InvalidSocksAddress { .. } => 0,
            Error::InvalidPortValue { .. } => 1,
            Error::NoResolveSocketAddrs { .. } => 2,
            Error::InvalidResponseVersion { .. } => 3,
            Error::UnknownResponseCode { .. } => 4,
            Error::ConnectionRefused { .. } => 5,
            Error::RejectedRequestID { .. } => 6,
            Error::Socks4NoIPv6 { .. } => 7,
            Error::MalformedDomain { .. } => 8,
            Error::SOCKS5InvalidAddressType { .. } => 9,
            Error::UnknownServerFailure { .. } => 10,
            Error::ServerRefusedByRuleSet { .. } => 11,
            Error::ServerNetworkUnreachable { .. } => 12,
            Error::ServerHostUnreachable { .. } => 13,
            Error::ServerTTLExpired { .. } => 14,
            Error::ServerCmdNotSupported { .. } => 15,
            Error::ServerAddressNotSupported { .. } => 16,
            Error::InvalidReservedByte { .. } => 17,
            Error::InvalidDomainLength { .. } => 18,
            Error::NoAuthMethods { .. } => 19,
            Error::UnknownAuthMethod { .. } => 20,
            Error::InvalidUsername { .. } => 21,
            Error::InvalidPassword { .. } => 22,
            Error::FailedPasswordAuth { .. } => 23,
            Error::InvalidReservedBytes { .. } => 24,
            Error::InvalidFragmentID { .. } => 25,
            Error::WinUDP4GiBLimit { .. } => 26,
        }
    }
}

impl PartialEq for Error {
    /// Two errors are equal when they are the same variant, whatever they hold.
    fn eq(&self, other: &Self) -> (b: bool) {
        self.tag() == other.tag()
    }
}

impl vstd::std_specs::cmp::PartialEqSpecImpl for Error {
    open spec fn obeys_eq_spec() -> bool {
        true
    }

    open spec fn eq_spec(&self, other: &Self) -> bool {
        self@.tag() == other@.tag()
    }
}

/// An `IoError` in specifications.
pub enum IoErrorView {
    Socks(ErrorView),
    Transport(ErrorKind),
}

impl View for IoError {
    type V = IoErrorView;

    open spec fn view(&self) -> IoErrorView {
        match *self {
            IoError::Socks(e) => IoErrorView::Socks(e@),
            IoError::Transport(k) => IoErrorView::Transport(k),
        }
    }
}

/// A failure as the transport layer reports it: a class, and the protocol error
/// inside it where the protocol caused the failure.
#[derive(Debug)]
pub enum IoError {
    /// A protocol error. Its class is the one that `Error::kind` gives.
    Socks(Error),
    /// A failure of the byte source or sink itself.
    Transport(ErrorKind),
}

impl From<Error> for IoError {
    /// Wraps a protocol error for the transport layer.
    fn from(value: Error) -> (e: IoError) {
        IoError::Socks(value)
    }
}

impl vstd::std_specs::convert::FromSpecImpl<Error> for IoError {
    open spec fn obeys_from_spec() -> bool {
        true
    }

    open spec fn from_spec(value: Error) -> IoError {
        IoError::Socks(value)
    }
}

impl IoError {
    /// The class of the failure.
    pub open spec fn kind_spec(self) -> ErrorKind {
        match self {
            IoError::Socks(e) => e.kind_spec(),
            IoError::Transport(k) => k,
        }
    }

    /// The class of the failure.
    pub fn kind(&self) -> (k: ErrorKind)
        ensures
            k == self.kind_spec(),
    {
        match self {
            IoError::Socks(e) => e.kind(),
            IoError::Transport(k) => *k,
        }
    }
}

/// The protocol error inside a transport-level error, if it holds one.
pub fn unwrap_io_to_socks2_error(e: &IoError) -> (r: Option<&Error>)
    ensures
        r == match *e {
            IoError::Socks(inner) => Some(&inner),
            IoError::Transport(_) => None,
        },
{
    match e {
        IoError::Socks(inner) => Some(inner),
        IoError::Transport(_) => None,
    }
}

/// Whether a transport-level error holds a protocol error.
pub fn is_io_socks2_error(e: &IoError) -> (b: bool)
    ensures
        b == (*e is Socks),
{
    unwrap_io_to_socks2_error(e).is_some()
}

} // verus!
