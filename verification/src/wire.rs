//! Byte buffers and big-endian integers.
//!
//! All multi-byte integers on the wire are big-endian. The buffer type is
//! `bytes::BytesMut`; its operations are not verified here, so each one that
//! the codec uses is declared below with the contract that the codec relies on.
//!
//! A `BytesMut` grows as bytes are appended to it. Growth fails only where memory
//! runs out or the buffer would pass the largest allocation there can be, which
//! depends on what has been allocated and not on the bytes that the buffer
//! holds. As for `Vec::push`, that failure is not modelled.

use bytes::{Buf, BufMut, BytesMut};
use vstd::prelude::*;
use vstd::slice::slice_to_vec;

verus! {

/// `bytes::BytesMut`, carried through verified code as an opaque value.
#[verifier::external_type_specification]
#[verifier::external_body]
pub struct ExBytesMut(bytes::BytesMut);

/// The bytes that a `BytesMut` currently holds, first to last.
pub uninterp spec fn contents(buf: BytesMut) -> Seq<u8>;

/// The two big-endian octets of a 16-bit value.
pub open spec fn u16_be_bytes(v: u16) -> Seq<u8> {
    seq![(v / 256) as u8, (v % 256) as u8]
}

/// The four big-endian octets of a 32-bit value.
pub open spec fn u32_be_bytes(v: u32) -> Seq<u8> {
    seq![
        (v / 0x100_0000) as u8,
        (v / 0x1_0000 % 256) as u8,
        (v / 0x100 % 256) as u8,
        (v % 256) as u8,
    ]
}

/// The unsigned 16-bit value whose big-endian octets are `b0 b1`.
pub open spec fn u16_from_be(b0: u8, b1: u8) -> u16 {
    (b0 as int * 256 + b1 as int) as u16
}

/// The two's-complement 16-bit value whose big-endian octets are `b0 b1`.
pub open spec fn i16_from_be(b0: u8, b1: u8) -> i16 {
    if b0 >= 128 {
        (b0 as int * 256 + b1 as int - 0x1_0000) as i16
    } else {
        (b0 as int * 256 + b1 as int) as i16
    }
}

/// The unsigned 32-bit value whose big-endian octets are `b0 b1 b2 b3`.
pub open spec fn u32_from_be(b0: u8, b1: u8, b2: u8, b3: u8) -> u32 {
    (b0 as int * 0x100_0000 + b1 as int * 0x1_0000 + b2 as int * 0x100 + b3 as int) as u32
}

/// The 16-bit value at offset `at` of `s`.
pub open spec fn u16_at(s: Seq<u8>, at: int) -> u16 {
    u16_from_be(s[at], s[at + 1])
}

/// The 32-bit value at offset `at` of `s`.
pub open spec fn u32_at(s: Seq<u8>, at: int) -> u32 {
    u32_from_be(s[at], s[at + 1], s[at + 2], s[at + 3])
}

/// Reading back the octets of a 16-bit value gives the value.
pub proof fn lemma_u16_round_trip(v: u16)
    ensures
        u16_be_bytes(v).len() == 2,
        u16_from_be(u16_be_bytes(v)[0], u16_be_bytes(v)[1]) == v,
{
}

/// Reading back the octets of a 32-bit value gives the value.
pub proof fn lemma_u32_round_trip(v: u32)
    ensures
        u32_be_bytes(v).len() == 4,
        u32_from_be(
            u32_be_bytes(v)[0],
            u32_be_bytes(v)[1],
            u32_be_bytes(v)[2],
            u32_be_bytes(v)[3],
        ) == v,
{
}

/// `BytesMut::new`: a buffer that holds no bytes.
#[verifier::external_body]
pub(crate) fn buffer_new() -> (buf: BytesMut)
    ensures
        contents(buf) == Seq::<u8>::empty(),
{
    BytesMut::new()
}

/// `BytesMut::from(&[u8])`: a buffer that holds a copy of `src`.
#[verifier::external_body]
pub(crate) fn buffer_from_slice(src: &[u8]) -> (buf: BytesMut)
    ensures
        contents(buf) == src@,
{
    BytesMut::from(src)
}

/// `BytesMut::len`: the number of bytes held.
#[verifier::external_body]
pub(crate) fn buffer_len(buf: &BytesMut) -> (n: usize)
    ensures
        n == contents(*buf).len(),
{
    buf.len()
}

/// `Deref for BytesMut`: the held bytes as a slice.
#[verifier::external_body]
pub(crate) fn buffer_as_slice(buf: &BytesMut) -> (s: &[u8])
    ensures
        s@ == contents(*buf),
{
    &buf[..]
}

/// `BufMut::put_u8` on a `BytesMut`: appends one byte. The buffer grows as needed.
#[verifier::external_body]
pub(crate) fn put_u8(buf: &mut BytesMut, v: u8)
    ensures
        contents(*final(buf)) == contents(*old(buf)).push(v),
{
    buf.put_u8(v)
}

/// `BufMut::put_u16` on a `BytesMut`: appends the two big-endian octets of `v`.
/// The buffer grows as needed.
#[verifier::external_body]
pub(crate) fn put_u16(buf: &mut BytesMut, v: u16)
    ensures
        contents(*final(buf)) == contents(*old(buf)) + u16_be_bytes(v),
{
    buf.put_u16(v)
}

/// `BufMut::put_u32` on a `BytesMut`: appends the four big-endian octets of `v`.
/// The buffer grows as needed.
#[verifier::external_body]
pub(crate) fn put_u32(buf: &mut BytesMut, v: u32)
    ensures
        contents(*final(buf)) == contents(*old(buf)) + u32_be_bytes(v),
{
    buf.put_u32(v)
}

/// `BytesMut::extend_from_slice`: appends a copy of `src`. The buffer grows as
/// needed.
#[verifier::external_body]
pub(crate) fn put_slice(buf: &mut BytesMut, src: &[u8])
    ensures
        contents(*final(buf)) == contents(*old(buf)) + src@,
{
    buf.extend_from_slice(src)
}

/// `DerefMut for BytesMut`, indexed: overwrites the byte at `at` and leaves the
/// others as they were. The index has to be within the buffer.
#[verifier::external_body]
pub(crate) fn set_byte(buf: &mut BytesMut, at: usize, v: u8)
    requires
        at < contents(*old(buf)).len(),
    ensures
        contents(*final(buf)) == contents(*old(buf)).update(at as int, v),
{
    buf[at] = v;
}

/// `Buf::get_u8` on a `BytesMut`: removes the first byte and returns it. It
/// panics on an empty buffer, which the precondition rules out.
#[verifier::external_body]
pub(crate) fn get_u8(buf: &mut BytesMut) -> (v: u8)
    requires
        contents(*old(buf)).len() >= 1,
    ensures
        v == contents(*old(buf))[0],
        contents(*final(buf)) == contents(*old(buf)).skip(1),
{
    buf.get_u8()
}

/// `Buf::get_u16` on a `BytesMut`: removes the first two bytes and returns the
/// unsigned big-endian value that they spell. It panics on a buffer of fewer
/// than two bytes, which the precondition rules out.
#[verifier::external_body]
pub(crate) fn get_u16(buf: &mut BytesMut) -> (v: u16)
    requires
        contents(*old(buf)).len() >= 2,
    ensures
        v == u16_at(contents(*old(buf)), 0),
        contents(*final(buf)) == contents(*old(buf)).skip(2),
{
    buf.get_u16()
}

/// `Buf::get_i16` on a `BytesMut`: removes the first two bytes and returns the
/// signed big-endian value that they spell. It panics on a buffer of fewer than
/// two bytes, which the precondition rules out.
#[verifier::external_body]
pub(crate) fn get_i16(buf: &mut BytesMut) -> (v: i16)
    requires
        contents(*old(buf)).len() >= 2,
    ensures
        v == i16_from_be(contents(*old(buf))[0], contents(*old(buf))[1]),
        contents(*final(buf)) == contents(*old(buf)).skip(2),
{
    buf.get_i16()
}

/// `Buf::get_u32` on a `BytesMut`: removes the first four bytes and returns the
/// unsigned big-endian value that they spell. It panics on a buffer of fewer
/// than four bytes, which the precondition rules out.
#[verifier::external_body]
pub(crate) fn get_u32(buf: &mut BytesMut) -> (v: u32)
    requires
        contents(*old(buf)).len() >= 4,
    ensures
        v == u32_at(contents(*old(buf)), 0),
        contents(*final(buf)) == contents(*old(buf)).skip(4),
{
    buf.get_u32()
}

/// `BytesMut::split_to`: removes the first `at` bytes and returns them as a
/// buffer of their own. It panics where `at` is more than the buffer holds,
/// which the precondition rules out.
#[verifier::external_body]
pub(crate) fn split_to(buf: &mut BytesMut, at: usize) -> (head: BytesMut)
    requires
        at <= contents(*old(buf)).len(),
    ensures
        contents(head) == contents(*old(buf)).take(at as int),
        contents(*final(buf)) == contents(*old(buf)).skip(at as int),
{
    buf.split_to(at)
}

/// The unsigned 16-bit value whose big-endian octets are `b0 b1`.
pub fn u16_of_be(b0: u8, b1: u8) -> (v: u16)
    ensures
        v == u16_from_be(b0, b1),
{
    let hi: u16 = b0 as u16;
    let lo: u16 = b1 as u16;
    assert((hi << 8) | lo == hi * 256 + lo) by (bit_vector)
        requires
            hi < 256,
            lo < 256,
    ;
    (hi << 8) | lo
}

/// A buffer that is read front to back, together with the bytes it was made
/// from and the number of them that have been read.
pub(crate) struct Cursor {
    buf: BytesMut,
    src: Ghost<Seq<u8>>,
    pos: Ghost<int>,
}

impl Cursor {
    /// The buffer holds what is left of the source after the bytes read so far.
    pub(crate) closed spec fn wf(&self) -> bool {
        &&& 0 <= self.pos@ <= self.src@.len()
        &&& contents(self.buf) == self.src@.skip(self.pos@)
    }

    /// The bytes that the cursor was made from.
    pub(crate) closed spec fn source(&self) -> Seq<u8> {
        self.src@
    }

    /// The number of bytes read so far.
    pub(crate) closed spec fn position(&self) -> int {
        self.pos@
    }

    /// A cursor at the start of a copy of `src`.
    pub(crate) fn new(src: &[u8]) -> (c: Cursor)
        ensures
            c.wf(),
            c.source() == src@,
            c.position() == 0,
    {
        let buf = buffer_from_slice(src);
        assert(src@.skip(0) =~= src@);
        Cursor { buf, src: Ghost(src@), pos: Ghost(0) }
    }

    /// The number of bytes not yet read.
    pub(crate) fn remaining(&self) -> (n: usize)
        requires
            self.wf(),
        ensures
            n == self.source().len() - self.position(),
    {
        buffer_len(&self.buf)
    }

    /// Reads one byte.
    pub(crate) fn u8(&mut self) -> (v: u8)
        requires
            old(self).wf(),
            old(self).position() + 1 <= old(self).source().len(),
        ensures
            final(self).wf(),
            final(self).source() == old(self).source(),
            final(self).position() == old(self).position() + 1,
            v == old(self).source()[old(self).position()],
    {
        let v = get_u8(&mut self.buf);
        proof {
            assert(self.src@.skip(self.pos@).skip(1) =~= self.src@.skip(self.pos@ + 1));
            self.pos@ = self.pos@ + 1;
        }
        v
    }

    /// Reads an unsigned 16-bit value.
    pub(crate) fn u16(&mut self) -> (v: u16)
        requires
            old(self).wf(),
            old(self).position() + 2 <= old(self).source().len(),
        ensures
            final(self).wf(),
            final(self).source() == old(self).source(),
            final(self).position() == old(self).position() + 2,
            v == u16_at(old(self).source(), old(self).position()),
    {
        let v = get_u16(&mut self.buf);
        proof {
            assert(self.src@.skip(self.pos@).skip(2) =~= self.src@.skip(self.pos@ + 2));
            self.pos@ = self.pos@ + 2;
        }
        v
    }

    /// Reads a signed 16-bit value.
    pub(crate) fn i16(&mut self) -> (v: i16)
        requires
            old(self).wf(),
            old(self).position() + 2 <= old(self).source().len(),
        ensures
            final(self).wf(),
            final(self).source() == old(self).source(),
            final(self).position() == old(self).position() + 2,
            v == i16_from_be(
                old(self).source()[old(self).position()],
                old(self).source()[old(self).position() + 1],
            ),
    {
        let v = get_i16(&mut self.buf);
        proof {
            assert(self.src@.skip(self.pos@).skip(2) =~= self.src@.skip(self.pos@ + 2));
            self.pos@ = self.pos@ + 2;
        }
        v
    }

    /// Reads an unsigned 32-bit value.
    pub(crate) fn u32(&mut self) -> (v: u32)
        requires
            old(self).wf(),
            old(self).position() + 4 <= old(self).source().len(),
        ensures
            final(self).wf(),
            final(self).source() == old(self).source(),
            final(self).position() == old(self).position() + 4,
            v == u32_at(old(self).source(), old(self).position()),
    {
        let v = get_u32(&mut self.buf);
        proof {
            assert(self.src@.skip(self.pos@).skip(4) =~= self.src@.skip(self.pos@ + 4));
            self.pos@ = self.pos@ + 4;
        }
        v
    }

    /// Reads `n` bytes.
    pub(crate) fn bytes(&mut self, n: usize) -> (v: Vec<u8>)
        requires
            old(self).wf(),
            old(self).position() + n <= old(self).source().len(),
        ensures
            final(self).wf(),
            final(self).source() == old(self).source(),
            final(self).position() == old(self).position() + n,
            v@ == old(self).source().subrange(old(self).position(), old(self).position() + n),
    {
        let head = split_to(&mut self.buf, n);
        let v = slice_to_vec(buffer_as_slice(&head));
        proof {
            assert(self.src@.skip(self.pos@).skip(n as int) =~= self.src@.skip(self.pos@ + n));
            self.pos@ = self.pos@ + n;
        }
        v
    }

    /// The bytes not yet read.
    pub(crate) fn rest(&self) -> (s: &[u8])
        requires
            self.wf(),
        ensures
            s@ == self.source().skip(self.position()),
    {
        buffer_as_slice(&self.buf)
    }
}

/// The unsigned 32-bit value whose big-endian octets are `b0 b1 b2 b3`.
pub fn u32_of_be(b0: u8, b1: u8, b2: u8, b3: u8) -> (v: u32)
    ensures
        v == u32_from_be(b0, b1, b2, b3),
{
    let w0: u32 = b0 as u32;
    let w1: u32 = b1 as u32;
    let w2: u32 = b2 as u32;
    let w3: u32 = b3 as u32;
    assert((w0 << 24) | (w1 << 16) | (w2 << 8) | w3 == w0 * 0x100_0000 + w1 * 0x1_0000 + w2 * 0x100
        + w3) by (bit_vector)
        requires
            w0 < 256,
            w1 < 256,
            w2 < 256,
            w3 < 256,
    ;
    (w0 << 24) | (w1 << 16) | (w2 << 8) | w3
}

} // verus!
