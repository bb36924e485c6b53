//! SOCKS5 UDP ASSOCIATE: the header that every datagram on the relay carries.

use crate::error::{Error, ErrorKind, ErrorView, IoError, IoErrorView};
use crate::ext_bytes::{be_u16, ByteReader, BytesExt};
use crate::v5::client::{starts, Socks5Stream, Step};
use crate::v5::{
    bytes_result, encodable, encoded_addr, frame, parse_addr, read_addr, reads_as,
    Authentication, AuthenticationView, Parsed,
};
use crate::{Endpoint, EndpointV4, TargetAddr, TargetAddrView, ToTargetAddr};
use vstd::prelude::*;
use vstd::utf8::*;

verus! {

/// The size of the buffer that takes the header of a datagram: three bytes and
/// the longest address field, rounded up.
pub const MAX_HEADER_LEN: usize = 263;

/// A UDP association at a SOCKS5 proxy: the datagram socket, which is
/// connected to the relay, and the stream that keeps the association alive.
#[derive(Debug)]
pub struct Socks5Datagram<U, S> {
    socket: U,
    stream: Socks5Stream<S>,
}

/// The header of a datagram to `target`: two reserved bytes, fragment 0, and
/// the address field.
pub open spec fn datagram_header(target: TargetAddrView) -> Seq<u8> {
    seq![0u8, 0u8, 0u8] + encoded_addr(target)
}

/// What `send_to` returns for a destination: its header, the error that the
/// destination is, or the error for a domain that cannot go on the wire.
pub open spec fn send_to_spec(target: Result<TargetAddrView, IoErrorView>) -> Result<
    Seq<u8>,
    IoErrorView,
> {
    match target {
        Err(e) => Err(e),
        Ok(TargetAddrView::Domain(name, port)) if !encodable(TargetAddrView::Domain(name, port)) => Err(
            IoErrorView::Socks(
                ErrorView::InvalidDomainLength {
                    domain: name,
                    length: encode_utf8(name).len() as usize,
                },
            ),
        ),
        Ok(t) => Ok(datagram_header(t)),
    }
}

/// The reading of the header of a datagram: the reserved bytes and the
/// fragment number, which must be 0, and then the address field.
pub open spec fn parse_datagram(h: Seq<u8>) -> Parsed<TargetAddrView> {
    if h.len() < 2 {
        Parsed::Short { missing: (2 - h.len()) as nat, used: 0 }
    } else if be_u16(h[0], h[1]) != 0 {
        Parsed::Fail {
            error: IoErrorView::Socks(
                ErrorView::InvalidReservedBytes { bytes: be_u16(h[0], h[1]) as u16 },
            ),
            used: 2,
        }
    } else if h.len() < 3 {
        Parsed::Short { missing: 1, used: 2 }
    } else if h[2] != 0 {
        Parsed::Fail {
            error: IoErrorView::Socks(ErrorView::InvalidFragmentID { fid: h[2] }),
            used: 3,
        }
    } else {
        parse_addr(h.skip(3)).after(3)
    }
}

/// The part of the header buffer that a datagram of `len` bytes in all has
/// filled.
pub open spec fn filled(header: Seq<u8>, len: nat) -> Seq<u8> {
    if len < header.len() {
        header.take(len as int)
    } else {
        header
    }
}

/// Whether the payload of a datagram of `len` bytes in all, whose first bytes
/// are in `header`, fits a buffer of `room` bytes. A datagram whose header is
/// refused has no payload to fit.
pub open spec fn payload_fits(header: Seq<u8>, room: nat, len: nat) -> bool {
    parse_datagram(filled(header, len)) matches Parsed::Done { used, .. } ==> len - used <= room
}

/// What was received: the length of the payload, where it came from, and what
/// the caller's buffer holds.
pub struct Received {
    pub len: nat,
    pub source: TargetAddrView,
    pub buf: Seq<u8>,
}

/// What `recv_from` makes of a datagram of `len` bytes in all that was
/// received into `header` and, behind it, into `buf`.
///
/// The payload is what follows the address field: the rest of what the header
/// buffer took, and then what the caller's buffer took. It is moved to the
/// front of the caller's buffer.
pub open spec fn recv_spec(header: Seq<u8>, buf: Seq<u8>, len: nat) -> Result<
    Received,
    IoErrorView,
> {
    let h = filled(header, len);
    match parse_datagram(h) {
        Parsed::Short { .. } => Err(IoErrorView::Transport(ErrorKind::UnexpectedEof)),
        Parsed::Fail { error, .. } => Err(error),
        Parsed::Done { value, used } => {
            let payload = h.skip(used as int) + buf.take(len - h.len());
            Ok(
                Received {
                    len: payload.len(),
                    source: value,
                    buf: payload + buf.skip(payload.len() as int),
                },
            )
        },
    }
}

/// What a receive into two buffers leaves in them: the datagram fills the
/// first, and what is left of it goes to the front of the second.
pub open spec fn scattered(datagram: Seq<u8>, header: Seq<u8>, buf: Seq<u8>) -> (Seq<u8>, Seq<u8>) {
    if datagram.len() <= header.len() {
        (datagram + header.skip(datagram.len() as int), buf)
    } else {
        (
            datagram.take(header.len() as int),
            datagram.skip(header.len() as int) + buf.skip(datagram.len() - header.len()),
        )
    }
}

/// A datagram that holds the header of `target` and a payload, received into a
/// header buffer of `MAX_HEADER_LEN` bytes or more and a buffer that is long
/// enough for the payload, is read as that payload from that target.
pub proof fn lemma_datagram_round_trip(
    target: TargetAddrView,
    payload: Seq<u8>,
    header: Seq<u8>,
    buf: Seq<u8>,
)
    requires
        encodable(target),
        header.len() >= MAX_HEADER_LEN,
        payload.len() <= buf.len(),
    ensures
        ({
            let datagram = datagram_header(target) + payload;
            let (h, b) = scattered(datagram, header, buf);
            &&& payload_fits(h, b.len(), datagram.len())
            &&& recv_spec(h, b, datagram.len()) matches Ok(received)
            &&& received.len == payload.len()
            &&& received.source == target
            &&& received.buf.take(payload.len() as int) == payload
        }),
{
    crate::v5::lemma_encoded_addr_len(target);
    let head = datagram_header(target);
    let datagram = head + payload;
    let (h, b) = scattered(datagram, header, buf);
    let f = filled(h, datagram.len());
    let field = encoded_addr(target);
    let after = f.skip(head.len() as int);
    assert(f.skip(3) =~= field + after);
    crate::v5::lemma_addr_round_trip(target, after);
}

/// Reads the header of a datagram.
pub fn read_header(socket: &mut ByteReader) -> (r: Result<TargetAddr, IoError>)
    ensures
        reads_as(*old(socket), *final(socket), r, parse_datagram(old(socket).unread())),
{
    let ghost h = socket.unread();
    let bytes = socket.read_be_u16()?;
    if bytes != 0 {
        return Err(Error::InvalidReservedBytes { bytes }.into_io());
    }
    let fid = socket.read_be_u8()?;
    if fid != 0 {
        return Err(Error::InvalidFragmentID { fid }.into_io());
    }
    assert(socket.unread() =~= h.skip(3));
    read_addr(socket)
}

/// Moves the payload of a datagram to the front of `buf`.
///
/// The datagram of `len` bytes in all was received into `header` and, behind
/// it, into `buf`; its own header ends at `used`. What `buf` took is moved up
/// to make room, from its end so that nothing is overwritten before it is
/// moved, and the rest of what `header` took is put in front of it.
fn move_payload(header: &[u8], used: usize, buf: &mut [u8], len: usize) -> (n: usize)
    requires
        used <= filled(header@, len as nat).len(),
        len - used <= old(buf)@.len(),
    ensures
        n == len - used,
        final(buf)@ == filled(header@, len as nat).skip(used as int) + old(buf)@.take(
            len - filled(header@, len as nat).len(),
        ) + old(buf)@.skip(n as int),
{
    let filled_len = if len < header.len() {
        len
    } else {
        header.len()
    };
    let overflow = len - filled_len;
    let rest = filled_len - used;
    let ghost start = buf@;
    let room = buf.len();
    let mut i = overflow;
    while i > 0
        invariant
            i <= overflow,
            rest + overflow <= buf@.len() <= usize::MAX,
            buf@.len() == start.len(),
            forall|k: int|
                0 <= k < buf@.len() ==> buf@[k] == if i + rest <= k < overflow + rest {
                    start[k - rest]
                } else {
                    start[k]
                },
        decreases i,
    {
        i -= 1;
        buf[i + rest] = buf[i];
    }
    let mut j: usize = 0;
    while j < rest
        invariant
            j <= rest,
            rest == filled_len - used,
            filled_len <= header@.len(),
            rest + overflow <= buf@.len(),
            buf@.len() == start.len(),
            forall|k: int|
                0 <= k < buf@.len() ==> buf@[k] == if k < j {
                    header@[used + k]
                } else if rest <= k < overflow + rest {
                    start[k - rest]
                } else {
                    start[k]
                },
        decreases rest - j,
    {
        buf[j] = header[used + j];
        j += 1;
    }
    assert(buf@ =~= filled(header@, len as nat).skip(used as int) + start.take(
        len - filled(header@, len as nat).len(),
    ) + start.skip(rest + overflow));
    rest + overflow
}

/// Whether `r` and the caller's buffer after the call are what `expected` says
/// of a buffer that held `before`.
pub open spec fn received_as(
    r: Result<(usize, TargetAddr), IoError>,
    before: Seq<u8>,
    after: Seq<u8>,
    expected: Result<Received, IoErrorView>,
) -> bool {
    match expected {
        Ok(received) => {
            &&& r matches Ok((n, source))
            &&& n == received.len
            &&& source@ == received.source
            &&& after == received.buf
        },
        Err(e) => {
            &&& r matches Err(x)
            &&& x@ == e
            &&& after == before
        },
    }
}

impl<U, S> Socks5Datagram<U, S> {
    /// The datagram socket.
    pub closed spec fn transport(self) -> U {
        self.socket
    }

    /// The stream that keeps the association alive.
    pub closed spec fn anchor(self) -> Socks5Stream<S> {
        self.stream
    }

    /// Begins a UDP ASSOCIATE over `socket`, a transport that is connected to
    /// the proxy, without authentication.
    pub fn bind(socket: S) -> (step: Step<'static, S>)
        ensures
            starts(
                Ok(step),
                socket,
                3,
                Ok(unspecified_target()),
                AuthenticationView::NoAuth,
            ),
    {
        Self::bind_internal(socket, Authentication::NoAuth)
    }

    /// Begins a UDP ASSOCIATE over `socket` and offers the username and the
    /// password to the proxy.
    pub fn bind_with_password<'a>(socket: S, username: &'a str, password: &'a str) -> (step: Step<
        'a,
        S,
    >)
        ensures
            starts(
                Ok(step),
                socket,
                3,
                Ok(unspecified_target()),
                AuthenticationView::Password { username: username@, password: password@ },
            ),
    {
        let auth = Authentication::Password { username, password };
        Self::bind_internal(socket, auth)
    }

    /// Begins the handshake. The request names 0.0.0.0:0: the client does not
    /// know under which address the proxy sees it.
    fn bind_internal<'a>(socket: S, auth: Authentication<'a>) -> (step: Step<'a, S>)
        ensures
            starts(Ok(step), socket, 3, Ok(unspecified_target()), auth@),
    {
        let dst = TargetAddr::Ip(Endpoint::V4(EndpointV4 { ip: [0, 0, 0, 0], port: 0 }));
        assert(dst@ == unspecified_target()) by {
            assert([0u8, 0u8, 0u8, 0u8] =~= [0u8, 0u8, 0u8, 0u8]);
        }
        Socks5Stream::start(3, socket, dst, auth)
    }

    /// The association over `socket`, a datagram socket that is connected to
    /// the address that `stream` reports, and `stream`, on which the ASSOCIATE
    /// handshake ended.
    pub fn associated(socket: U, stream: Socks5Stream<S>) -> (relay: Self)
        ensures
            relay.transport() == socket,
            relay.anchor() == stream,
    {
        Socks5Datagram { socket, stream }
    }

    /// The header for a datagram to `addr`. The datagram that goes to the
    /// relay is the header and then the payload.
    pub fn send_to<A: ToTargetAddr>(&self, addr: &A) -> (r: Result<Vec<u8>, IoError>)
        ensures
            bytes_result(r) == send_to_spec(addr.target()),
    {
        let addr = addr.to_target_addr()?;
        frame(0, 0, 0, &addr)
    }

    /// Reads a datagram of `len` bytes in all that was received into `header`
    /// and, behind it, into `buf`: returns the length of the payload and where
    /// it came from, and leaves the payload at the front of `buf`.
    pub fn recv_from(&self, header: &[u8], buf: &mut [u8], len: usize) -> (r: Result<
        (usize, TargetAddr),
        IoError,
    >)
        requires
            payload_fits(header@, old(buf)@.len(), len as nat),
        ensures
            received_as(
                r,
                old(buf)@,
                final(buf)@,
                recv_spec(header@, old(buf)@, len as nat),
            ),
    {
        let filled_len = if len < header.len() {
            len
        } else {
            header.len()
        };
        let mut reader = ByteReader::new(&header[0..filled_len]);
        assert(reader.unread() =~= filled(header@, len as nat));
        let source = read_header(&mut reader)?;
        let used = reader.position();
        let n = move_payload(header, used, buf, len);
        Ok((n, source))
    }

    /// The length of the payload of a datagram of `len` bytes in all whose
    /// first bytes were received into `header`, or the error that its header
    /// is. `recv_from` wants a buffer of at least that length.
    pub fn payload_len(header: &[u8], len: usize) -> (r: Result<usize, IoError>)
        ensures
            match parse_datagram(filled(header@, len as nat)) {
                Parsed::Short { .. } => r matches Err(e) && e@ == IoErrorView::Transport(
                    ErrorKind::UnexpectedEof,
                ),
                Parsed::Fail { error, .. } => r matches Err(e) && e@ == error,
                Parsed::Done { used, .. } => r matches Ok(n) && n == len - used,
            },
            r matches Ok(n) ==> forall|room: nat|
                payload_fits(header@, room, len as nat) <==> n <= room,
    {
        let filled_len = if len < header.len() {
            len
        } else {
            header.len()
        };
        let mut reader = ByteReader::new(&header[0..filled_len]);
        assert(reader.unread() =~= filled(header@, len as nat));
        let _ = read_header(&mut reader)?;
        Ok(len - reader.position())
    }

    /// The address of the proxy-side UDP socket through which all datagrams go.
    pub fn proxy_addr(&self) -> (addr: &TargetAddr)
        ensures
            addr@ == self.anchor().bound(),
    {
        self.stream.proxy_addr()
    }

    /// The datagram socket.
    pub fn get_ref(&self) -> (socket: &U)
        ensures
            *socket == self.transport(),
    {
        &self.socket
    }

    /// The datagram socket, to send and to receive on.
    pub fn get_mut(&mut self) -> (socket: &mut U)
        ensures
            *socket == old(self).transport(),
            final(self).transport() == *final(socket),
            final(self).anchor() == old(self).anchor(),
    {
        &mut self.socket
    }
}

/// The target that an ASSOCIATE request names: 0.0.0.0:0.
pub open spec fn unspecified_target() -> TargetAddrView {
    TargetAddrView::Ip(Endpoint::V4(EndpointV4 { ip: [0u8, 0u8, 0u8, 0u8], port: 0 }))
}

} // verus!
