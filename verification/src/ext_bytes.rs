//! Big-endian integers in byte buffers: a reader that walks a slice, and the
//! writes that fill one.

use crate::error::{ErrorKind, IoError};
use byteorder::{BigEndian, ByteOrder};
use vstd::prelude::*;

verus! {

/// The 16-bit number whose big-endian form is `hi`, `lo`.
pub open spec fn be_u16(hi: u8, lo: u8) -> int {
    hi as int * 256 + lo as int
}

/// The 32-bit number whose big-endian form is `b`.
pub open spec fn be_u32(b: Seq<u8>) -> int
    recommends
        b.len() == 4,
{
    b[0] as int * 16777216 + b[1] as int * 65536 + b[2] as int * 256 + b[3] as int
}

/// The big-endian form of a 16-bit number.
pub open spec fn u16_bytes(n: u16) -> Seq<u8> {
    seq![(n as int / 256) as u8, (n as int % 256) as u8]
}

/// The big-endian form of a 32-bit number.
pub open spec fn u32_bytes(n: u32) -> Seq<u8> {
    seq![
        (n as int / 16777216) as u8,
        (n as int / 65536 % 256) as u8,
        (n as int / 256 % 256) as u8,
        (n as int % 256) as u8,
    ]
}

/// Four bytes, read as a big-endian number and written back, are the same bytes.
pub proof fn lemma_u32_round_trip(b: Seq<u8>)
    requires
        b.len() == 4,
    ensures
        0 <= be_u32(b) <= u32::MAX,
        u32_bytes(be_u32(b) as u32) == b,
{
    let (b0, b1, b2, b3) = (b[0] as int, b[1] as int, b[2] as int, b[3] as int);
    let n = be_u32(b);
    assert(n % 256 == b3 && n / 256 == b0 * 65536 + b1 * 256 + b2);
    assert(n / 256 % 256 == b2);
    assert(n / 16777216 == b0);
}

/// Two bytes, read as a big-endian number and written back, are the same bytes;
/// and a 16-bit number, written and read back, is the same number.
pub proof fn lemma_u16_round_trip(hi: u8, lo: u8, n: u16)
    ensures
        0 <= be_u16(hi, lo) <= u16::MAX,
        u16_bytes(be_u16(hi, lo) as u16) == seq![hi, lo],
        be_u16(u16_bytes(n)[0], u16_bytes(n)[1]) == n,
        u16_bytes(n).len() == 2,
{
}

/// `byteorder::BigEndian::read_u16` on a buffer of two bytes. The contract
/// claims that the first byte is the high one.
#[verifier::external_body]
pub(crate) fn be_read_u16(buf: &[u8; 2]) -> (n: u16)
    ensures
        n == be_u16(buf@[0], buf@[1]),
{
    BigEndian::read_u16(buf)
}

/// `byteorder::BigEndian::read_u32` on a buffer of four bytes. The contract
/// claims that the bytes are taken from the highest to the lowest.
#[verifier::external_body]
pub(crate) fn be_read_u32(buf: &[u8; 4]) -> (n: u32)
    ensures
        n == be_u32(buf@),
{
    BigEndian::read_u32(buf)
}

/// `byteorder::BigEndian::write_u16` into a fresh buffer of two bytes. The
/// contract claims that the high byte comes first.
#[verifier::external_body]
pub(crate) fn be_write_u16(n: u16) -> (buf: [u8; 2])
    ensures
        buf@ == u16_bytes(n),
{
    let mut buf = [0u8; 2];
    BigEndian::write_u16(&mut buf, n);
    buf
}

/// `byteorder::BigEndian::write_u32` into a fresh buffer of four bytes. The
/// contract claims that the bytes come from the highest to the lowest.
#[verifier::external_body]
pub(crate) fn be_write_u32(n: u32) -> (buf: [u8; 4])
    ensures
        buf@ == u32_bytes(n),
{
    let mut buf = [0u8; 4];
    BigEndian::write_u32(&mut buf, n);
    buf
}

/// The four bytes of a number, the highest first, as an IPv4 address.
pub(crate) fn ipv4_from_bits(n: u32) -> (ip: [u8; 4])
    ensures
        ip@ == u32_bytes(n),
{
    let ip = [
        (n / 16777216) as u8,
        (n / 65536 % 256) as u8,
        (n / 256 % 256) as u8,
        (n % 256) as u8,
    ];
    ip
}

/// What a buffer holds after `data` was written at `pos` as far as it fits:
/// nothing before `pos` or behind the written bytes changes.
pub open spec fn written_at(old: Seq<u8>, pos: int, data: Seq<u8>) -> Seq<u8>
    recommends
        0 <= pos <= old.len(),
{
    if pos + data.len() <= old.len() {
        old.subrange(0, pos) + data + old.subrange(pos + data.len(), old.len() as int)
    } else {
        old.subrange(0, pos) + data.subrange(0, old.len() - pos)
    }
}

/// Writes `data` into `packet` from `pos` on, as a write of all of it to the rest
/// of the buffer would: the bytes that fit are written, and if some do not fit
/// the write fails.
pub(crate) fn put(packet: &mut [u8], pos: usize, data: &[u8]) -> (r: Result<usize, IoError>)
    requires
        pos <= old(packet)@.len(),
    ensures
        final(packet)@ == written_at(old(packet)@, pos as int, data@),
        match r {
            Ok(next) => next == pos + data@.len() && next <= old(packet)@.len(),
            Err(e) => e == IoError::Transport(ErrorKind::WriteZero) && pos + data@.len() > old(
                packet,
            )@.len(),
        },
{
    let room = packet.len() - pos;
    let count = if data.len() <= room {
        data.len()
    } else {
        room
    };
    let mut i: usize = 0;
    while i < count
        invariant
            i <= count,
            count <= data@.len(),
            pos + count <= packet@.len() <= usize::MAX,
            packet@.len() == old(packet)@.len(),
            packet@ == old(packet)@.subrange(0, pos as int) + data@.subrange(0, i as int) + old(
                packet,
            )@.subrange(pos + i, old(packet)@.len() as int),
        decreases count - i,
    {
        packet[pos + i] = data[i];
        i += 1;
    }
    if count < data.len() {
        Err(IoError::Transport(ErrorKind::WriteZero))
    } else {
        Ok(pos + count)
    }
}

/// Appends `data` to `v`.
pub fn extend(v: &mut Vec<u8>, data: &[u8])
    ensures
        final(v)@ == old(v)@ + data@,
{
    let mut i: usize = 0;
    while i < data.len()
        invariant
            i <= data@.len(),
            v@ == old(v)@ + data@.take(i as int),
        decreases data@.len() - i,
    {
        v.push(data[i]);
        i += 1;
    }
}

/// Whether a read of `n` bytes went as it must: it succeeds when `n` bytes are
/// left, and then those bytes are gone from what is unread.
pub open spec fn took(before: Seq<u8>, after: Seq<u8>, n: nat, ok: bool) -> bool {
    &&& ok == (before.len() >= n)
    &&& ok ==> after == before.skip(n as int)
}

/// Reads of big-endian integers from a source of bytes.
pub trait BytesExt {
    /// The bytes that are not read yet.
    spec fn unread(&self) -> Seq<u8>;

    /// Reads one byte.
    fn read_be_u8(&mut self) -> (r: Result<u8, IoError>)
        ensures
            took(old(self).unread(), final(self).unread(), 1, r is Ok),
            r matches Ok(v) ==> v == old(self).unread()[0],
            r matches Err(e) ==> e == IoError::Transport(ErrorKind::UnexpectedEof),
    ;

    /// Reads two bytes as a number, the high byte first.
    fn read_be_u16(&mut self) -> (r: Result<u16, IoError>)
        ensures
            took(old(self).unread(), final(self).unread(), 2, r is Ok),
            r matches Ok(v) ==> v == be_u16(old(self).unread()[0], old(self).unread()[1]),
            r matches Err(e) ==> e == IoError::Transport(ErrorKind::UnexpectedEof),
    ;

    /// Reads four bytes as a number, the highest byte first.
    fn read_be_u32(&mut self) -> (r: Result<u32, IoError>)
        ensures
            took(old(self).unread(), final(self).unread(), 4, r is Ok),
            r matches Ok(v) ==> v == be_u32(old(self).unread().take(4)),
            r matches Err(e) ==> e == IoError::Transport(ErrorKind::UnexpectedEof),
    ;
}

/// A reader that walks a slice of bytes from its start.
///
/// A read that wants more bytes than are left fails and takes nothing; the
/// reader then tells how many bytes were missing.
pub struct ByteReader<'a> {
    buf: &'a [u8],
    pos: usize,
    short: usize,
}

impl<'a> ByteReader<'a> {
    #[verifier::type_invariant]
    spec fn in_bounds(self) -> bool {
        self.pos <= self.buf@.len()
    }

    /// How many bytes were read.
    pub closed spec fn consumed(self) -> nat {
        self.pos as nat
    }

    /// How many bytes the last read missed; 0 after a read that succeeded.
    pub closed spec fn shortfall(self) -> nat {
        self.short as nat
    }

    /// How a read of `n` bytes moves the reader: over the bytes when it succeeds,
    /// not at all when it fails.
    pub open spec fn moved(self, after: Self, n: nat, ok: bool) -> bool {
        if ok {
            &&& after.consumed() == self.consumed() + n
            &&& after.shortfall() == 0
        } else {
            &&& after.unread() == self.unread()
            &&& after.consumed() == self.consumed()
            &&& after.shortfall() == n - self.unread().len()
        }
    }

    /// A reader at the start of `buf`.
    pub fn new(buf: &'a [u8]) -> (r: Self)
        ensures
            r.unread() == buf@,
            r.consumed() == 0,
            r.shortfall() == 0,
    {
        let r = ByteReader { buf, pos: 0, short: 0 };
        r
    }

    /// How many bytes were read.
    pub fn position(&self) -> (n: usize)
        ensures
            n == self.consumed(),
    {
        self.pos
    }

    /// How many bytes the last read missed; 0 after a read that succeeded.
    pub fn missing(&self) -> (n: usize)
        ensures
            n == self.shortfall(),
    {
        self.short
    }

    /// The bytes that are not read yet.
    pub fn rest(&self) -> (s: &'a [u8])
        ensures
            s@ == self.unread(),
    {
        proof {
            use_type_invariant(self);
        }
        let buf = self.buf;
        &buf[self.pos..buf.len()]
    }

    /// Reads `n` bytes.
    pub fn read_exact(&mut self, n: usize) -> (r: Result<&'a [u8], IoError>)
        ensures
            took(old(self).unread(), final(self).unread(), n as nat, r is Ok),
            old(self).moved(*final(self), n as nat, r is Ok),
            r matches Ok(s) ==> s@ == old(self).unread().take(n as int),
            r matches Err(e) ==> e == IoError::Transport(ErrorKind::UnexpectedEof),
    {
        proof {
            use_type_invariant(&*self);
        }
        let buf = self.buf;
        let left = buf.len() - self.pos;
        if n > left {
            self.short = n - left;
            Err(IoError::Transport(ErrorKind::UnexpectedEof))
        } else {
            let s = &buf[self.pos..self.pos + n];
            assert(s@ =~= old(self).unread().take(n as int));
            self.pos = self.pos + n;
            self.short = 0;
            assert(self.unread() =~= old(self).unread().skip(n as int));
            Ok(s)
        }
    }
}

impl<'a> BytesExt for ByteReader<'a> {
    closed spec fn unread(&self) -> Seq<u8> {
        self.buf@.subrange(self.pos as int, self.buf@.len() as int)
    }

    fn read_be_u8(&mut self) -> (r: Result<u8, IoError>)
        ensures
            old(self).moved(*final(self), 1, r is Ok),
    {
        let s = self.read_exact(1)?;
        Ok(s[0])
    }

    fn read_be_u16(&mut self) -> (r: Result<u16, IoError>)
        ensures
            old(self).moved(*final(self), 2, r is Ok),
    {
        let s = self.read_exact(2)?;
        Ok(be_read_u16(&[s[0], s[1]]))
    }

    fn read_be_u32(&mut self) -> (r: Result<u32, IoError>)
        ensures
            old(self).moved(*final(self), 4, r is Ok),
    {
        let s = self.read_exact(4)?;
        let quad = [s[0], s[1], s[2], s[3]];
        Ok(be_read_u32(&quad))
    }
}

} // verus!
