//! The SOCKS5 handshake of a client: what it sends, and what it makes of the
//! answers.

use crate::error::{Error, ErrorView, IoError, IoErrorView};
use crate::ext_bytes::{extend, ByteReader};
use crate::v5::{
    bytes_result, encodable, encoded_addr, frame, io_result, lack, parse_response,
    read_response, Authentication, AuthenticationView, Parsed,
};
use crate::{TargetAddr, TargetAddrView, ToTargetAddr};
use vstd::prelude::*;
use vstd::slice::slice_to_vec;
use vstd::string::*;
use vstd::utf8::*;

verus! {

/// The list of methods that the client offers: no authentication alone, or
/// the password method and then no authentication.
pub open spec fn method_request_spec(auth: AuthenticationView) -> Seq<u8> {
    if auth is NoAuth {
        seq![5u8, 1u8, 0u8]
    } else {
        seq![5u8, 2u8, 2u8, 0u8]
    }
}

/// The first packet of the handshake: the version and the methods offered.
pub fn method_request(auth: &Authentication) -> (packet: Vec<u8>)
    ensures
        packet@ == method_request_spec(auth@),
{
    let mut packet: Vec<u8> = Vec::new();
    packet.push(5);
    packet.push(if auth.is_no_auth() { 1 } else { 2 });
    packet.push(auth.id());
    if !auth.is_no_auth() {
        packet.push(0);
    }
    packet
}

/// What the proxy's choice of a method means: an error, or whether the
/// password is to be sent. The proxy may choose no authentication although a
/// password was offered; the password is then not sent.
pub open spec fn method_response_spec(auth: AuthenticationView, version: u8, method: u8) -> Result<
    bool,
    IoErrorView,
> {
    if version != 5 {
        Err(IoErrorView::Socks(ErrorView::InvalidResponseVersion { version }))
    } else if method == 0xff {
        Err(IoErrorView::Socks(ErrorView::NoAuthMethods { method }))
    } else if method != 0 && !(auth is Password && method == 2) {
        Err(IoErrorView::Socks(ErrorView::UnknownAuthMethod { method }))
    } else {
        Ok(auth is Password && method == 2)
    }
}

/// Reads the proxy's choice of a method. `Ok(true)` asks for the password
/// exchange, `Ok(false)` for the request at once.
pub fn method_response(auth: &Authentication, version: u8, method: u8) -> (r: Result<
    bool,
    IoError,
>)
    ensures
        io_result(r) == method_response_spec(auth@, version, method),
{
    if version != 5 {
        return Err(Error::InvalidResponseVersion { version }.into_io());
    }
    if method == 0xff {
        return Err(Error::NoAuthMethods { method }.into_io());
    }
    if method != auth.id() && method != 0 {
        return Err(Error::UnknownAuthMethod { method }.into_io());
    }
    match *auth {
        Authentication::Password { .. } => Ok(method == auth.id()),
        Authentication::NoAuth => Ok(false),
    }
}

/// Whether a username or a password can be sent: its length in bytes is from 1
/// to 255.
pub open spec fn credential_fits(s: Seq<char>) -> bool {
    1 <= encode_utf8(s).len() <= 255
}

/// The packet of the password exchange: version 1, then the username and the
/// password, each behind its length.
pub open spec fn password_packet(username: Seq<char>, password: Seq<char>) -> Seq<u8> {
    seq![1u8, encode_utf8(username).len() as u8] + encode_utf8(username) + seq![
        encode_utf8(password).len() as u8,
    ] + encode_utf8(password)
}

/// What the password exchange sends, or why it sends nothing. The username is
/// looked at first. The error for a password holds its length only.
pub open spec fn password_request_spec(username: Seq<char>, password: Seq<char>) -> Result<
    Seq<u8>,
    IoErrorView,
> {
    if !credential_fits(username) {
        Err(
            IoErrorView::Socks(
                ErrorView::InvalidUsername {
                    username,
                    length: encode_utf8(username).len() as usize,
                },
            ),
        )
    } else if !credential_fits(password) {
        Err(
            IoErrorView::Socks(
                ErrorView::InvalidPassword { length: encode_utf8(password).len() as usize },
            ),
        )
    } else {
        Ok(password_packet(username, password))
    }
}

/// The layout of the password packet: three bytes more than the username and
/// the password together, each length in the byte before its field.
pub proof fn lemma_password_packet_layout(username: Seq<char>, password: Seq<char>)
    requires
        credential_fits(username),
        credential_fits(password),
    ensures
        ({
            let packet = password_packet(username, password);
            let u = encode_utf8(username);
            let p = encode_utf8(password);
            let ulen = u.len() as int;
            let plen = p.len() as int;
            &&& password_request_spec(username, password) == Ok::<Seq<u8>, IoErrorView>(packet)
            &&& packet.len() == 3 + ulen + plen
            &&& packet[0] == 1
            &&& packet[1] == ulen
            &&& packet.subrange(2, 2 + ulen) == u
            &&& packet[2 + ulen] == plen
            &&& packet.subrange(3 + ulen, 3 + ulen + plen) == p
        }),
{
    let packet = password_packet(username, password);
    let u = encode_utf8(username);
    let p = encode_utf8(password);
    let ulen = u.len() as int;
    let plen = p.len() as int;
}

/// The packet of the password exchange, once the lengths of the username and
/// the password are checked.
pub fn password_request(username: &str, password: &str) -> (r: Result<Vec<u8>, IoError>)
    ensures
        bytes_result(r) == password_request_spec(username@, password@),
{
    let name = username.as_bytes();
    if name.len() == 0 || name.len() > 255 {
        return Err(
            Error::InvalidUsername { username: username.to_owned(), length: name.len() }.into_io(),
        );
    }
    let word = password.as_bytes();
    if word.len() == 0 || word.len() > 255 {
        return Err(Error::InvalidPassword { password: (), length: word.len() }.into_io());
    }
    let mut packet: Vec<u8> = Vec::new();
    packet.push(1);
    packet.push(name.len() as u8);
    extend(&mut packet, name);
    packet.push(word.len() as u8);
    extend(&mut packet, word);
    assert(packet@ =~= password_packet(username@, password@));
    Ok(packet)
}

/// What the proxy's answer to the password means.
pub open spec fn password_response_spec(version: u8, status: u8) -> Result<(), IoErrorView> {
    if version != 1 {
        Err(IoErrorView::Socks(ErrorView::InvalidResponseVersion { version }))
    } else if status != 0 {
        Err(IoErrorView::Socks(ErrorView::FailedPasswordAuth))
    } else {
        Ok(())
    }
}

/// Reads the proxy's answer to the password.
pub fn password_response(version: u8, status: u8) -> (r: Result<(), IoError>)
    ensures
        io_result(r) == password_response_spec(version, status),
{
    if version != 1 {
        return Err(Error::InvalidResponseVersion { version }.into_io());
    }
    if status != 0 {
        return Err(Error::FailedPasswordAuth {  }.into_io());
    }
    Ok(())
}

/// The request: version 5, the command, a reserved 0, and the target's address
/// field; or the error for a domain that cannot go on the wire.
pub open spec fn request_spec(command: u8, target: TargetAddrView) -> Result<
    Seq<u8>,
    IoErrorView,
> {
    match target {
        TargetAddrView::Domain(name, _) if !encodable(target) => Err(
            IoErrorView::Socks(
                ErrorView::InvalidDomainLength {
                    domain: name,
                    length: encode_utf8(name).len() as usize,
                },
            ),
        ),
        _ => Ok(seq![5u8, command, 0u8] + encoded_addr(target)),
    }
}

/// The request packet for `command` (1 connect, 2 bind, 3 UDP associate) and
/// `target`.
pub fn request(command: u8, target: &TargetAddr) -> (r: Result<Vec<u8>, IoError>)
    ensures
        bytes_result(r) == request_spec(command, target@),
{
    frame(5, command, 0, target)
}

/// A connection through a SOCKS5 proxy, once the handshake is done: the
/// transport to the proxy, and the address that the proxy reported.
#[derive(Debug)]
pub struct Socks5Stream<S> {
    socket: S,
    proxy_addr: TargetAddr,
}

/// Where a handshake stands: which answer of the proxy it waits for.
#[derive(Debug, Clone, Copy, PartialEq, Eq)]
pub enum Phase {
    /// The methods were offered.
    Method,
    /// The password was sent.
    Password,
    /// The request was sent.
    Reply,
}

/// A SOCKS5 handshake in progress.
///
/// It owns the transport and never uses it: the caller sends what a `Step`
/// holds, reads as many bytes as it asks for, and hands them to `advance`.
#[derive(Debug)]
pub struct Handshake<'a, S> {
    socket: S,
    command: u8,
    target: TargetAddr,
    auth: Authentication<'a>,
    phase: Phase,
    inbox: Vec<u8>,
}

/// A `Handshake` in specifications, without its transport.
pub struct HandshakeView {
    pub command: u8,
    pub target: TargetAddrView,
    pub auth: AuthenticationView,
    pub phase: Phase,
    /// The bytes of the awaited answer that are there already.
    pub inbox: Seq<u8>,
}

/// What the caller of a handshake does next.
#[derive(Debug)]
pub enum Step<'a, S> {
    /// Send `send`, then read exactly `receive` bytes and hand them to
    /// `advance` of `next`. Either may be empty.
    Exchange { next: Handshake<'a, S>, send: Vec<u8>, receive: usize },
    /// The proxy granted the request. `rest` holds the bytes that were handed
    /// in behind the reply; there are none where only the bytes asked for were
    /// handed in.
    Done { stream: Socks5Stream<S>, rest: Vec<u8> },
}

/// A `Step` in specifications, without its transport.
pub enum Progress {
    Exchange { next: HandshakeView, send: Seq<u8>, receive: nat },
    Done { proxy_addr: TargetAddrView, rest: Seq<u8> },
}

impl<S> View for Handshake<'_, S> {
    type V = HandshakeView;

    closed spec fn view(&self) -> HandshakeView {
        HandshakeView {
            command: self.command,
            target: self.target@,
            auth: self.auth@,
            phase: self.phase,
            inbox: self.inbox@,
        }
    }
}

impl<S> Step<'_, S> {
    /// The step without its transport.
    pub open spec fn progress(self) -> Progress {
        match self {
            Step::Exchange { next, send, receive } => Progress::Exchange {
                next: next@,
                send: send@,
                receive: receive as nat,
            },
            Step::Done { stream, rest } => Progress::Done {
                proxy_addr: stream.bound(),
                rest: rest@,
            },
        }
    }

    /// The transport that the step holds.
    pub open spec fn transport(self) -> S {
        match self {
            Step::Exchange { next, .. } => next.transport(),
            Step::Done { stream, .. } => stream.transport(),
        }
    }
}

/// How many bytes the reading of a reply lacks when it has `inbox`.
pub open spec fn reply_wants(inbox: Seq<u8>) -> nat {
    match parse_response(inbox) {
        Parsed::Short { missing, .. } => missing,
        _ => 0,
    }
}

/// The step that sends the request, with `inbox` already there of the reply.
pub open spec fn request_step(h: HandshakeView, inbox: Seq<u8>) -> Result<Progress, IoErrorView> {
    match request_spec(h.command, h.target) {
        Err(e) => Err(e),
        Ok(packet) => Ok(
            Progress::Exchange {
                next: HandshakeView { phase: Phase::Reply, inbox, ..h },
                send: packet,
                receive: reply_wants(inbox),
            },
        ),
    }
}

/// The step that waits for more of an answer of `want` bytes.
pub open spec fn wait_step(h: HandshakeView, inbox: Seq<u8>, want: int) -> Progress {
    Progress::Exchange {
        next: HandshakeView { inbox, ..h },
        send: Seq::empty(),
        receive: lack(want, inbox.len()),
    }
}

/// The step of a handshake on the bytes `received`.
///
/// The bytes join those that are there of the awaited answer. An answer that
/// is not whole asks for the rest. The choice of a method is followed by the
/// password, where the proxy chose it and one was offered, and else by the
/// request; the answer to the password by the request; the reply ends the
/// handshake. Every check that fails ends it with its error.
pub open spec fn advance_spec(h: HandshakeView, received: Seq<u8>) -> Result<
    Progress,
    IoErrorView,
> {
    let inbox = h.inbox + received;
    match h.phase {
        Phase::Method => if inbox.len() < 2 {
            Ok(wait_step(h, inbox, 2))
        } else {
            match method_response_spec(h.auth, inbox[0], inbox[1]) {
                Err(e) => Err(e),
                Ok(false) => request_step(h, inbox.skip(2)),
                Ok(true) => match password_request_spec(
                    h.auth->username,
                    h.auth->password,
                ) {
                    Err(e) => Err(e),
                    Ok(packet) => Ok(
                        Progress::Exchange {
                            next: HandshakeView {
                                phase: Phase::Password,
                                inbox: inbox.skip(2),
                                ..h
                            },
                            send: packet,
                            receive: lack(2, inbox.skip(2).len()),
                        },
                    ),
                },
            }
        },
        Phase::Password => if inbox.len() < 2 {
            Ok(wait_step(h, inbox, 2))
        } else {
            match password_response_spec(inbox[0], inbox[1]) {
                Err(e) => Err(e),
                Ok(_) => request_step(h, inbox.skip(2)),
            }
        },
        Phase::Reply => match parse_response(inbox) {
            Parsed::Short { missing, .. } => Ok(
                Progress::Exchange {
                    next: HandshakeView { inbox, ..h },
                    send: Seq::empty(),
                    receive: missing,
                },
            ),
            Parsed::Fail { error, .. } => Err(error),
            Parsed::Done { value, used } => Ok(
                Progress::Done { proxy_addr: value, rest: inbox.skip(used as int) },
            ),
        },
    }
}

/// The first step of a handshake: the methods are sent, and two bytes awaited.
pub open spec fn start_spec(
    command: u8,
    target: TargetAddrView,
    auth: AuthenticationView,
) -> Progress {
    Progress::Exchange {
        next: HandshakeView { command, target, auth, phase: Phase::Method, inbox: Seq::empty() },
        send: method_request_spec(auth),
        receive: 2,
    }
}

/// How many bytes an answer of two bytes lacks when `have` are there.
fn lack_of_two(have: usize) -> (n: usize)
    ensures
        n == lack(2, have as nat),
{
    if have < 2 {
        2 - have
    } else {
        0
    }
}

/// How many bytes the reading of a reply lacks when it has `inbox`.
fn reply_lack(inbox: &[u8]) -> (n: usize)
    ensures
        n == reply_wants(inbox@),
{
    let mut reader = ByteReader::new(inbox);
    let _ = read_response(&mut reader);
    reader.missing()
}

impl<'a, S> Handshake<'a, S> {
    /// The transport that the handshake holds.
    pub closed spec fn transport(self) -> S {
        self.socket
    }

    /// The transport, to send and to read on.
    pub fn get_mut(&mut self) -> (socket: &mut S)
        ensures
            *socket == old(self).transport(),
            final(self).transport() == *final(socket),
            final(self)@ == old(self)@,
    {
        &mut self.socket
    }

    /// The step that sends the request.
    fn send_request(
        socket: S,
        command: u8,
        target: TargetAddr,
        auth: Authentication<'a>,
        inbox: Vec<u8>,
    ) -> (r: Result<Step<'a, S>, IoError>)
        ensures
            match request_step(
                HandshakeView {
                    command,
                    target: target@,
                    auth: auth@,
                    phase: Phase::Reply,
                    inbox: inbox@,
                },
                inbox@,
            ) {
                Ok(p) => r matches Ok(step) && step.progress() == p && step.transport() == socket,
                Err(e) => r matches Err(x) && x@ == e,
            },
    {
        let send = request(command, &target)?;
        let receive = reply_lack(inbox.as_slice());
        Ok(
            Step::Exchange {
                next: Handshake { socket, command, target, auth, phase: Phase::Reply, inbox },
                send,
                receive,
            },
        )
    }

    /// Takes the bytes that were read and says what to do next.
    pub fn advance(self, received: &[u8]) -> (r: Result<Step<'a, S>, IoError>)
        ensures
            match advance_spec(self@, received@) {
                Ok(p) => r matches Ok(step) && step.progress() == p && step.transport()
                    == self.transport(),
                Err(e) => r matches Err(x) && x@ == e,
            },
    {
        let Handshake { socket, command, target, auth, phase, mut inbox } = self;
        extend(&mut inbox, received);
        match phase {
            Phase::Method => {
                if inbox.len() < 2 {
                    let receive = lack_of_two(inbox.len());
                    return Ok(
                        Step::Exchange {
                            next: Handshake { socket, command, target, auth, phase, inbox },
                            send: Vec::new(),
                            receive,
                        },
                    );
                }
                let with_password = method_response(&auth, inbox[0], inbox[1])?;
                let rest = slice_to_vec(&inbox.as_slice()[2..inbox.len()]);
                let packet = match auth {
                    Authentication::Password { username, password } if with_password => Some(
                        password_request(username, password)?,
                    ),
                    _ => None,
                };
                match packet {
                    Some(send) => {
                        let receive = lack_of_two(rest.len());
                        Ok(
                            Step::Exchange {
                                next: Handshake {
                                    socket,
                                    command,
                                    target,
                                    auth,
                                    phase: Phase::Password,
                                    inbox: rest,
                                },
                                send,
                                receive,
                            },
                        )
                    },
                    None => Self::send_request(socket, command, target, auth, rest),
                }
            },
            Phase::Password => {
                if inbox.len() < 2 {
                    let receive = lack_of_two(inbox.len());
                    return Ok(
                        Step::Exchange {
                            next: Handshake { socket, command, target, auth, phase, inbox },
                            send: Vec::new(),
                            receive,
                        },
                    );
                }
                password_response(inbox[0], inbox[1])?;
                let rest = slice_to_vec(&inbox.as_slice()[2..inbox.len()]);
                Self::send_request(socket, command, target, auth, rest)
            },
            Phase::Reply => {
                let mut reader = ByteReader::new(inbox.as_slice());
                let reply = read_response(&mut reader);
                let receive = reader.missing();
                match reply {
                    Ok(proxy_addr) => {
                        let rest = slice_to_vec(reader.rest());
                        Ok(Step::Done { stream: Socks5Stream { socket, proxy_addr }, rest })
                    },
                    Err(e) => {
                        if receive > 0 {
                            Ok(
                                Step::Exchange {
                                    next: Handshake { socket, command, target, auth, phase, inbox },
                                    send: Vec::new(),
                                    receive,
                                },
                            )
                        } else {
                            Err(e)
                        }
                    },
                }
            },
        }
    }
}

impl<S> Socks5Stream<S> {
    /// The transport to the proxy.
    pub closed spec fn transport(self) -> S {
        self.socket
    }

    /// The address that the proxy reported.
    pub closed spec fn bound(self) -> TargetAddrView {
        self.proxy_addr@
    }

    /// Begins a CONNECT to `target` over `socket`, a transport that is
    /// connected to the proxy, without authentication.
    pub fn connect<U: ToTargetAddr>(socket: S, target: &U) -> (r: Result<
        Step<'static, S>,
        IoError,
    >)
        ensures
            starts(r, socket, 1, target.target(), AuthenticationView::NoAuth),
    {
        Self::connect_raw(1, socket, target, Authentication::NoAuth)
    }

    /// Begins a CONNECT to `target` over `socket` and offers the username and
    /// the password to the proxy.
    pub fn connect_with_password<'a, U: ToTargetAddr>(
        socket: S,
        target: &U,
        username: &'a str,
        password: &'a str,
    ) -> (r: Result<Step<'a, S>, IoError>)
        ensures
            starts(
                r,
                socket,
                1,
                target.target(),
                AuthenticationView::Password { username: username@, password: password@ },
            ),
    {
        let auth = Authentication::Password { username, password };
        Self::connect_raw(1, socket, target, auth)
    }

    /// Begins the handshake for `command`: 1 connect, 2 bind, 3 UDP associate.
    ///
    /// A target that cannot be named ends it before anything is sent.
    pub fn connect_raw<'a, U: ToTargetAddr>(
        command: u8,
        socket: S,
        target: &U,
        auth: Authentication<'a>,
    ) -> (r: Result<Step<'a, S>, IoError>)
        ensures
            starts(r, socket, command, target.target(), auth@),
    {
        let target = target.to_target_addr()?;
        Ok(Self::start(command, socket, target, auth))
    }

    /// The first step of the handshake for `command` and `target`.
    pub(crate) fn start<'a>(
        command: u8,
        socket: S,
        target: TargetAddr,
        auth: Authentication<'a>,
    ) -> (step: Step<'a, S>)
        ensures
            step.progress() == start_spec(command, target@, auth@),
            step.transport() == socket,
    {
        let send = method_request(&auth);
        Step::Exchange {
            next: Handshake {
                socket,
                command,
                target,
                auth,
                phase: Phase::Method,
                inbox: Vec::new(),
            },
            send,
            receive: 2,
        }
    }

    /// The step that waits for one more reply of the proxy on this stream.
    pub(crate) fn await_reply(self) -> (step: Step<'static, S>)
        ensures
            step.transport() == self.transport(),
            step.progress() == (Progress::Exchange {
                next: HandshakeView {
                    command: 2,
                    target: self.bound(),
                    auth: AuthenticationView::NoAuth,
                    phase: Phase::Reply,
                    inbox: Seq::empty(),
                },
                send: Seq::empty(),
                receive: 1,
            }),
    {
        let Socks5Stream { socket, proxy_addr } = self;
        Step::Exchange {
            next: Handshake {
                socket,
                command: 2,
                target: proxy_addr,
                auth: Authentication::NoAuth,
                phase: Phase::Reply,
                inbox: Vec::new(),
            },
            send: Vec::new(),
            receive: 1,
        }
    }

    /// The proxy-side address of the connection between the proxy and the
    /// target.
    pub fn proxy_addr(&self) -> (addr: &TargetAddr)
        ensures
            addr@ == self.bound(),
    {
        &self.proxy_addr
    }

    /// The transport.
    pub fn get_ref(&self) -> (socket: &S)
        ensures
            *socket == self.transport(),
    {
        &self.socket
    }

    /// The transport, to read and to write on.
    pub fn get_mut(&mut self) -> (socket: &mut S)
        ensures
            *socket == old(self).transport(),
            final(self).transport() == *final(socket),
            final(self).bound() == old(self).bound(),
    {
        &mut self.socket
    }

    /// Gives the transport back.
    pub fn into_inner(self) -> (socket: S)
        ensures
            socket == self.transport(),
    {
        self.socket
    }
}

/// Whether `r` is the first step of the handshake for `command`, `target` and
/// `auth` over `socket`, or the error that `target` is.
pub open spec fn starts<S>(
    r: Result<Step<'_, S>, IoError>,
    socket: S,
    command: u8,
    target: Result<TargetAddrView, IoErrorView>,
    auth: AuthenticationView,
) -> bool {
    match target {
        Ok(t) => r matches Ok(step) && step.progress() == start_spec(command, t, auth)
            && step.transport() == socket,
        Err(e) => r matches Err(x) && x@ == e,
    }
}

} // verus!
