//! Big-endian and little-endian integer serialisation onto byte buffers.
use vstd::prelude::*;

verus! {

/// Big-endian bytes of a `u16`.
pub open spec fn be16(v: u16) -> Seq<u8> {
    seq![(v / 256) as u8, (v % 256) as u8]
}

/// Big-endian bytes of a `u32`.
pub open spec fn be32(v: u32) -> Seq<u8> {
    seq![
        (v / 0x100_0000) as u8,
        ((v / 0x1_0000) % 256) as u8,
        ((v / 256) % 256) as u8,
        (v % 256) as u8,
    ]
}

/// Big-endian bytes of a `u64`.
pub open spec fn be64(v: u64) -> Seq<u8> {
    be32((v / 0x1_0000_0000) as u32) + be32((v % 0x1_0000_0000) as u32)
}

/// Little-endian bytes of a `u16`.
pub open spec fn le16(v: u16) -> Seq<u8> {
    seq![(v % 256) as u8, (v / 256) as u8]
}

/// Little-endian bytes of a `u32`.
pub open spec fn le32(v: u32) -> Seq<u8> {
    seq![
        (v % 256) as u8,
        ((v / 256) % 256) as u8,
        ((v / 0x1_0000) % 256) as u8,
        (v / 0x100_0000) as u8,
    ]
}

/// Two's complement bit pattern of an `i16`.
pub open spec fn bits16(v: i16) -> u16 {
    if v >= 0 { v as u16 } else { (v + 0x1_0000) as u16 }
}

/// Two's complement bit pattern of an `i32`.
pub open spec fn bits32(v: i32) -> u32 {
    if v >= 0 { v as u32 } else { (v + 0x1_0000_0000) as u32 }
}

/// Two's complement bit pattern of an `i64`.
pub open spec fn bits64(v: i64) -> u64 {
    if v >= 0 { v as u64 } else { (v + 0x1_0000_0000_0000_0000) as u64 }
}

/// Two's complement bit pattern of an `i8`.
pub open spec fn bits8(v: i8) -> u8 {
    if v >= 0 { v as u8 } else { (v + 256) as u8 }
}

pub fn push_u16_be(out: &mut Vec<u8>, v: u16)
    ensures
        final(out)@ == old(out)@ + be16(v),
{
    out.push((v / 256) as u8);
    out.push((v % 256) as u8);
    assert(final(out)@ =~= old(out)@ + be16(v));
}

pub fn push_u32_be(out: &mut Vec<u8>, v: u32)
    ensures
        final(out)@ == old(out)@ + be32(v),
{
    out.push((v / 0x100_0000) as u8);
    out.push(((v / 0x1_0000) % 256) as u8);
    out.push(((v / 256) % 256) as u8);
    out.push((v % 256) as u8);
    assert(final(out)@ =~= old(out)@ + be32(v));
}

pub fn push_u64_be(out: &mut Vec<u8>, v: u64)
    ensures
        final(out)@ == old(out)@ + be64(v),
{
    push_u32_be(out, (v / 0x1_0000_0000) as u32);
    push_u32_be(out, (v % 0x1_0000_0000) as u32);
    assert(final(out)@ =~= old(out)@ + be64(v));
}

pub fn push_u16_le(out: &mut Vec<u8>, v: u16)
    ensures
        final(out)@ == old(out)@ + le16(v),
{
    out.push((v % 256) as u8);
    out.push((v / 256) as u8);
    assert(final(out)@ =~= old(out)@ + le16(v));
}

pub fn push_u32_le(out: &mut Vec<u8>, v: u32)
    ensures
        final(out)@ == old(out)@ + le32(v),
{
    out.push((v % 256) as u8);
    out.push(((v / 256) % 256) as u8);
    out.push(((v / 0x1_0000) % 256) as u8);
    out.push((v / 0x100_0000) as u8);
    assert(final(out)@ =~= old(out)@ + le32(v));
}

/// Bit pattern of an `i8`, computed without a cast.
pub fn i8_bits(v: i8) -> (r: u8)
    ensures
        r == bits8(v),
{
    if v >= 0 { v as u8 } else { (v as i16 + 256) as u8 }
}

pub fn i16_bits(v: i16) -> (r: u16)
    ensures
        r == bits16(v),
{
    if v >= 0 { v as u16 } else { (v as i32 + 0x1_0000) as u16 }
}

pub fn i32_bits(v: i32) -> (r: u32)
    ensures
        r == bits32(v),
{
    if v >= 0 { v as u32 } else { (v as i64 + 0x1_0000_0000) as u32 }
}

pub fn i64_bits(v: i64) -> (r: u64)
    ensures
        r == bits64(v),
{
    if v >= 0 { v as u64 } else { (v as i128 + 0x1_0000_0000_0000_0000) as u64 }
}

/// Append every byte of `bytes` to `out`.
pub fn push_bytes(out: &mut Vec<u8>, bytes: &[u8])
    ensures
        final(out)@ == old(out)@ + bytes@,
{
    let mut i: usize = 0;
    while i < bytes.len()
        invariant
            i <= bytes@.len(),
            out@ == old(out)@ + bytes@.subrange(0, i as int),
        decreases bytes@.len() - i,
    {
        out.push(bytes[i]);
        i = i + 1;
        assert(out@ =~= old(out)@ + bytes@.subrange(0, i as int));
    }
    assert(bytes@.subrange(0, i as int) =~= bytes@);
}

} // verus!
