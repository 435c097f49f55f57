//! Byte encodings of 16- and 32-bit integers, and the calls into `byteorder`
//! that read and write them inside a byte vector.

use byteorder::{BigEndian, ByteOrder, LittleEndian, NativeEndian};
use vstd::prelude::*;

verus! {

/// The big-endian encoding of a 16-bit value: most significant byte first.
pub open spec fn be_bytes_u16(v: u16) -> Seq<u8> {
    seq![(v / 0x100) as u8, (v % 0x100) as u8]
}

/// The big-endian encoding of a 32-bit value: most significant byte first.
pub open spec fn be_bytes_u32(v: u32) -> Seq<u8> {
    seq![
        (v / 0x100_0000) as u8,
        ((v / 0x1_0000) % 0x100) as u8,
        ((v / 0x100) % 0x100) as u8,
        (v % 0x100) as u8,
    ]
}

/// The 16-bit value whose big-endian encoding is the first two bytes of `b`.
pub open spec fn be_u16(b: Seq<u8>) -> u16
    recommends
        b.len() >= 2,
{
    (b[0] as int * 0x100 + b[1] as int) as u16
}

/// The 32-bit value whose big-endian encoding is the first four bytes of `b`.
pub open spec fn be_u32(b: Seq<u8>) -> u32
    recommends
        b.len() >= 4,
{
    (b[0] as int * 0x100_0000 + b[1] as int * 0x1_0000 + b[2] as int * 0x100 + b[3] as int) as u32
}

/// The little-endian encoding of a 16-bit value: least significant byte first.
pub open spec fn le_bytes_u16(v: u16) -> Seq<u8> {
    seq![(v % 0x100) as u8, (v / 0x100) as u8]
}

/// The little-endian encoding of a 32-bit value: least significant byte first.
pub open spec fn le_bytes_u32(v: u32) -> Seq<u8> {
    seq![
        (v % 0x100) as u8,
        ((v / 0x100) % 0x100) as u8,
        ((v / 0x1_0000) % 0x100) as u8,
        (v / 0x100_0000) as u8,
    ]
}

/// The 16-bit value whose little-endian encoding is the first two bytes of `b`.
pub open spec fn le_u16(b: Seq<u8>) -> u16
    recommends
        b.len() >= 2,
{
    (b[1] as int * 0x100 + b[0] as int) as u16
}

/// The 32-bit value whose little-endian encoding is the first four bytes of `b`.
pub open spec fn le_u32(b: Seq<u8>) -> u32
    recommends
        b.len() >= 4,
{
    (b[3] as int * 0x100_0000 + b[2] as int * 0x1_0000 + b[1] as int * 0x100 + b[0] as int) as u32
}

/// The encoding of a 16-bit value in the chosen byte order.
pub open spec fn enc_u16(little: bool, v: u16) -> Seq<u8> {
    if little {
        le_bytes_u16(v)
    } else {
        be_bytes_u16(v)
    }
}

/// The encoding of a 32-bit value in the chosen byte order.
pub open spec fn enc_u32(little: bool, v: u32) -> Seq<u8> {
    if little {
        le_bytes_u32(v)
    } else {
        be_bytes_u32(v)
    }
}

/// The 16-bit value that the first two bytes of `b` encode in the chosen byte order.
pub open spec fn dec_u16(little: bool, b: Seq<u8>) -> u16 {
    if little {
        le_u16(b)
    } else {
        be_u16(b)
    }
}

/// The 32-bit value that the first four bytes of `b` encode in the chosen byte order.
pub open spec fn dec_u32(little: bool, b: Seq<u8>) -> u32 {
    if little {
        le_u32(b)
    } else {
        be_u32(b)
    }
}

/// `s` with the bytes from `pos` on replaced by `b`; the length stays.
pub open spec fn splice(s: Seq<u8>, pos: int, b: Seq<u8>) -> Seq<u8>
    recommends
        0 <= pos,
        pos + b.len() <= s.len(),
{
    s.subrange(0, pos) + b + s.subrange(pos + b.len(), s.len() as int)
}

/// Decoding an encoded 16-bit value gives the value back, in either byte order.
pub proof fn lemma_dec_enc_u16(little: bool, v: u16)
    ensures
        enc_u16(little, v).len() == 2,
        dec_u16(little, enc_u16(little, v)) == v,
{
}

/// Decoding an encoded 32-bit value gives the value back, in either byte order.
pub proof fn lemma_dec_enc_u32(little: bool, v: u32)
    ensures
        enc_u32(little, v).len() == 4,
        dec_u32(little, enc_u32(little, v)) == v,
{
}

/// Encoding the value that two bytes decode to gives the two bytes back.
pub proof fn lemma_enc_dec_u16(little: bool, b: Seq<u8>)
    requires
        b.len() == 2,
    ensures
        enc_u16(little, dec_u16(little, b)) == b,
{
    assert(enc_u16(little, dec_u16(little, b)) =~= b);
}

/// Four bytes, each weighted by its place, make a 32-bit value from which
/// each byte can be had again.
pub proof fn lemma_digits(b0: int, b1: int, b2: int, b3: int)
    requires
        0 <= b0 < 0x100,
        0 <= b1 < 0x100,
        0 <= b2 < 0x100,
        0 <= b3 < 0x100,
    ensures
        0 <= b0 * 0x100_0000 + b1 * 0x1_0000 + b2 * 0x100 + b3 <= u32::MAX,
        (b0 * 0x100_0000 + b1 * 0x1_0000 + b2 * 0x100 + b3) / 0x100_0000 == b0,
        ((b0 * 0x100_0000 + b1 * 0x1_0000 + b2 * 0x100 + b3) / 0x1_0000) % 0x100 == b1,
        ((b0 * 0x100_0000 + b1 * 0x1_0000 + b2 * 0x100 + b3) / 0x100) % 0x100 == b2,
        (b0 * 0x100_0000 + b1 * 0x1_0000 + b2 * 0x100 + b3) % 0x100 == b3,
{
}

/// Encoding the value that four bytes decode to gives the four bytes back.
pub proof fn lemma_enc_dec_u32(little: bool, b: Seq<u8>)
    requires
        b.len() == 4,
    ensures
        enc_u32(little, dec_u32(little, b)) == b,
{
    if little {
        lemma_digits(b[3] as int, b[2] as int, b[1] as int, b[0] as int);
    } else {
        lemma_digits(b[0] as int, b[1] as int, b[2] as int, b[3] as int);
    }
    assert(enc_u32(little, dec_u32(little, b)) =~= b);
}

/// `byteorder::BigEndian::read_u16` on the bytes from `pos` on: the value of
/// the two bytes there, most significant first.
#[verifier::external_body]
pub(crate) fn be_read_u16(buf: &Vec<u8>, pos: usize) -> (r: u16)
    requires
        pos + 2 <= buf@.len(),
    ensures
        r == be_u16(buf@.subrange(pos as int, pos + 2)),
{
    BigEndian::read_u16(&buf[pos..])
}

/// `byteorder::BigEndian::read_u32` on the bytes from `pos` on: the value of
/// the four bytes there, most significant first.
#[verifier::external_body]
pub(crate) fn be_read_u32(buf: &Vec<u8>, pos: usize) -> (r: u32)
    requires
        pos + 4 <= buf@.len(),
    ensures
        r == be_u32(buf@.subrange(pos as int, pos + 4)),
{
    BigEndian::read_u32(&buf[pos..])
}

/// `byteorder::BigEndian::write_u16` on the bytes from `pos` on: the two
/// bytes there become the big-endian encoding of `n`, the others stay.
#[verifier::external_body]
pub(crate) fn be_write_u16(buf: &mut Vec<u8>, pos: usize, n: u16)
    requires
        pos + 2 <= old(buf)@.len(),
    ensures
        final(buf)@ == splice(old(buf)@, pos as int, be_bytes_u16(n)),
{
    BigEndian::write_u16(&mut buf[pos..], n)
}

/// `byteorder::BigEndian::write_u32` on the bytes from `pos` on: the four
/// bytes there become the big-endian encoding of `n`, the others stay.
#[verifier::external_body]
pub(crate) fn be_write_u32(buf: &mut Vec<u8>, pos: usize, n: u32)
    requires
        pos + 4 <= old(buf)@.len(),
    ensures
        final(buf)@ == splice(old(buf)@, pos as int, be_bytes_u32(n)),
{
    BigEndian::write_u32(&mut buf[pos..], n)
}

/// `byteorder::LittleEndian::read_u16` on the bytes from `pos` on: the value
/// of the two bytes there, least significant first.
#[verifier::external_body]
pub(crate) fn le_read_u16(buf: &Vec<u8>, pos: usize) -> (r: u16)
    requires
        pos + 2 <= buf@.len(),
    ensures
        r == le_u16(buf@.subrange(pos as int, pos + 2)),
{
    LittleEndian::read_u16(&buf[pos..])
}

/// `byteorder::LittleEndian::read_u32` on the bytes from `pos` on: the value
/// of the four bytes there, least significant first.
#[verifier::external_body]
pub(crate) fn le_read_u32(buf: &Vec<u8>, pos: usize) -> (r: u32)
    requires
        pos + 4 <= buf@.len(),
    ensures
        r == le_u32(buf@.subrange(pos as int, pos + 4)),
{
    LittleEndian::read_u32(&buf[pos..])
}

/// `byteorder::LittleEndian::write_u16` on the bytes from `pos` on: the two
/// bytes there become the little-endian encoding of `n`, the others stay.
#[verifier::external_body]
pub(crate) fn le_write_u16(buf: &mut Vec<u8>, pos: usize, n: u16)
    requires
        pos + 2 <= old(buf)@.len(),
    ensures
        final(buf)@ == splice(old(buf)@, pos as int, le_bytes_u16(n)),
{
    LittleEndian::write_u16(&mut buf[pos..], n)
}

/// `byteorder::LittleEndian::write_u32` on the bytes from `pos` on: the four
/// bytes there become the little-endian encoding of `n`, the others stay.
#[verifier::external_body]
pub(crate) fn le_write_u32(buf: &mut Vec<u8>, pos: usize, n: u32)
    requires
        pos + 4 <= old(buf)@.len(),
    ensures
        final(buf)@ == splice(old(buf)@, pos as int, le_bytes_u32(n)),
{
    LittleEndian::write_u32(&mut buf[pos..], n)
}

/// `byteorder::NativeEndian::write_u32` on the bytes from `pos` on. Which
/// byte order the machine has is not known here: the four bytes become the
/// little-endian or the big-endian encoding of `n`, and the others stay.
#[verifier::external_body]
pub(crate) fn native_write_u32(buf: &mut Vec<u8>, pos: usize, n: u32)
    requires
        pos + 4 <= old(buf)@.len(),
    ensures
        final(buf)@ == splice(old(buf)@, pos as int, le_bytes_u32(n)) || final(buf)@ == splice(
            old(buf)@,
            pos as int,
            be_bytes_u32(n),
        ),
{
    NativeEndian::write_u32(&mut buf[pos..], n)
}

} // verus!
