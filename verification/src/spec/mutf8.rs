//! Modified UTF-8 encoding used by `CONSTANT_Utf8_info`.
//!
//! Java's flavor of UTF-8 differs from standard UTF-8 in two ways:
//!
//! * `U+0000` is written as the two byte sequence `0xC0 0x80` so that the byte
//!   `0x00` never appears in a `CONSTANT_Utf8` payload,
//! * codepoints above `U+FFFF` are encoded as a UTF-16 surrogate pair, each
//!   half as its own three byte group (six bytes total).
use vstd::prelude::*;
use crate::spec::error::{Error, Result};

verus! {

/// The three byte group that carries a 16-bit code unit.
pub open spec fn three_bytes(c: int) -> Seq<u8> {
    seq![(0xE0 + c / 4096) as u8, (0x80 + (c / 64) % 64) as u8, (0x80 + c % 64) as u8]
}

/// Modified UTF-8 bytes of one scalar value.
pub open spec fn encode_char(ch: char) -> Seq<u8> {
    let c = ch as int;
    if c == 0 {
        seq![0xC0u8, 0x80u8]
    } else if c < 0x80 {
        seq![c as u8]
    } else if c < 0x800 {
        seq![(0xC0 + c / 64) as u8, (0x80 + c % 64) as u8]
    } else if c < 0x1_0000 {
        three_bytes(c)
    } else {
        three_bytes(0xD800 + (c - 0x1_0000) / 1024) + three_bytes(0xDC00 + (c - 0x1_0000) % 1024)
    }
}

/// Modified UTF-8 bytes of a character sequence: the characters' encodings, in order.
pub open spec fn encode_chars(s: Seq<char>) -> Seq<u8>
    decreases s.len(),
{
    if s.len() == 0 {
        Seq::empty()
    } else {
        encode_chars(s.drop_last()) + encode_char(s.last())
    }
}

/// Whether `c` is a Unicode scalar value, i.e. what `char::from_u32` accepts.
pub open spec fn is_scalar(c: int) -> bool {
    0 <= c <= 0x10FFFF && !(0xD800 <= c < 0xE000)
}

/// Outcome of decoding one two or three byte group at `i`: the code unit and
/// the group's length, or the error offset and reason.
pub open spec fn group_two(b: Seq<u8>, i: int) -> core::result::Result<(int, int), (int, Seq<char>)> {
    if i + 2 > b.len() {
        Err((i, "truncated 2-byte group"@))
    } else if b[i + 1] / 64 != 2 {
        Err((i + 1, "bad continuation byte"@))
    } else {
        Ok(((b[i] % 32) * 64 + b[i + 1] % 64, 2))
    }
}

pub open spec fn group_three(b: Seq<u8>, i: int) -> core::result::Result<(int, int), (int, Seq<char>)> {
    if i + 3 > b.len() {
        Err((i, "truncated 3-byte group"@))
    } else if b[i] / 16 != 14 || b[i + 1] / 64 != 2 || b[i + 2] / 64 != 2 {
        Err((i, "bad 3-byte group"@))
    } else {
        Ok(((b[i] % 16) * 4096 + (b[i + 1] % 64) * 64 + b[i + 2] % 64, 3))
    }
}

#[verifier::opaque]
/// One decoding step at `i` (with `i < b.len()`): the character and the
/// number of bytes it took, or the error offset and reason.
pub open spec fn decode_step(b: Seq<u8>, i: int) -> core::result::Result<(char, int), (int, Seq<char>)> {
    let b0 = b[i];
    if b0 == 0 {
        Err((i, "bare NUL byte"@))
    } else if b0 < 0x80 {
        Ok((b0 as char, 1))
    } else if b0 / 32 == 6 {
        match group_two(b, i) {
            Err(e) => Err(e),
            Ok((cp, len)) => if is_scalar(cp) {
                Ok((cp as char, len))
            } else {
                Err((i, "codepoint out of range"@))
            },
        }
    } else if b0 / 16 == 14 {
        match group_three(b, i) {
            Err(e) => Err(e),
            Ok((cp, len)) => if 0xD800 <= cp < 0xDC00 {
                match group_three(b, i + len) {
                    Err(e) => Err(e),
                    Ok((low, len2)) => if !(0xDC00 <= low < 0xE000) {
                        Err((i + len, "expected low surrogate"@))
                    } else {
                        let full = 0x1_0000 + (cp - 0xD800) * 1024 + (low - 0xDC00);
                        if is_scalar(full) {
                            Ok((full as char, len + len2))
                        } else {
                            Err((i, "surrogate decode out of range"@))
                        }
                    },
                }
            } else if is_scalar(cp) {
                Ok((cp as char, len))
            } else {
                Err((i, "codepoint out of range"@))
            },
        }
    } else {
        Err((i, "invalid leading byte"@))
    }
}

/// Decoding of `b` from position `i` to its end: the characters, or the
/// first error's offset and reason.
pub open spec fn decode_from(b: Seq<u8>, i: int) -> core::result::Result<Seq<char>, (int, Seq<char>)>
    decreases b.len() - i,
{
    if i < 0 || i >= b.len() {
        Ok(Seq::empty())
    } else {
        proof {
            reveal(decode_step);
        }
        match decode_step(b, i) {
            Err(e) => Err(e),
            Ok((c, n)) => match decode_from(b, i + n) {
                Err(e) => Err(e),
                Ok(rest) => Ok(seq![c] + rest),
            },
        }
    }
}

/// Whether `r` is the result that `decode` gives for `bytes`.
pub open spec fn decode_result(bytes: Seq<u8>, r: Result<String>) -> bool {
    match decode_from(bytes, 0) {
        Ok(chars) => r matches Ok(s) && s@ == chars,
        Err((offset, reason)) => r matches Err(Error::InvalidUtf8 { offset: o, reason: why })
            && o == offset && why@ == reason,
    }
}

/// Modified UTF-8 encoding of `s`.
pub fn encode(s: &str) -> (out: Vec<u8>)
    ensures
        out@ == encode_chars(s@),
{
    let mut out = Vec::new();
    encode_into(s, &mut out);
    out
}

/// Append the modified UTF-8 encoding of `s` to `out`.
pub fn encode_into(s: &str, out: &mut Vec<u8>)
    ensures
        final(out)@ == old(out)@ + encode_chars(s@),
{
    let ghost start = out@;
    proof { broadcast use vstd::string::axiom_spec_iter; }
    for ch in it: s.chars()
        invariant
            out@ == start + encode_chars(it.seq().take(it.index() as int)),
            it.seq() == s@,
    {
        emit_char(ch, out);
        proof {
            let prev = it.seq().take(it.index() as int);
            let next = it.seq().take(it.index() + 1);
            assert(next.drop_last() =~= prev);
        }
    }
    assert(s@.take(s@.len() as int) =~= s@);
}

fn emit_char(ch: char, out: &mut Vec<u8>)
    ensures
        final(out)@ == old(out)@ + encode_char(ch),
{
    let c = ch as u32;
    if c == 0 {
        out.push(0xC0);
        out.push(0x80);
    } else if c < 0x80 {
        out.push(c as u8);
    } else if c < 0x800 {
        out.push((0xC0 + c / 64) as u8);
        out.push((0x80 + c % 64) as u8);
    } else if c < 0x1_0000 {
        emit_three(c, out);
    } else {
        let c = c - 0x1_0000;
        emit_three(0xD800 + c / 1024, out);
        emit_three(0xDC00 + c % 1024, out);
    }
    assert(final(out)@ =~= old(out)@ + encode_char(ch));
}

fn emit_three(c: u32, out: &mut Vec<u8>)
    requires
        c < 0x1_0000,
    ensures
        final(out)@ == old(out)@ + three_bytes(c as int),
{
    out.push((0xE0 + c / 4096) as u8);
    out.push((0x80 + (c / 64) % 64) as u8);
    out.push((0x80 + c % 64) as u8);
    assert(final(out)@ =~= old(out)@ + three_bytes(c as int));
}

} // verus!

verus! {

/// Whether the helper result `r` is the group outcome `g`.
pub open spec fn group_result(r: Result<(u32, usize)>, g: core::result::Result<(int, int), (int, Seq<char>)>) -> bool {
    match g {
        Ok((cp, len)) => r matches Ok((c, l)) && c == cp && l == len,
        Err((offset, reason)) => r matches Err(Error::InvalidUtf8 { offset: o, reason: why })
            && o == offset && why@ == reason,
    }
}

/// Decode a modified UTF-8 byte sequence.
pub fn decode(bytes: &[u8]) -> (r: Result<String>)
    ensures
        decode_result(bytes@, r),
{
    let ghost b = bytes@;
    let mut out = String::new();
    let mut i: usize = 0;
    while i < bytes.len()
        invariant
            i <= b.len(),
            b == bytes@,
            decode_from(b, 0) == match decode_from(b, i as int) {
                Ok(rest) => Ok(out@ + rest),
                Err(e) => Err(e),
            },
        decreases b.len() - i,
    {
        proof {
            reveal(decode_step);
        }
        let b0 = bytes[i];
        if b0 == 0 {
            return Err(Error::InvalidUtf8 { offset: i, reason: "bare NUL byte" });
        }
        let ghost prev = out@;
        let ghost old_i = i as int;
        if b0 < 0x80 {
            crate::spec::text::push_char(&mut out, b0 as char);
            i += 1;
        } else if b0 / 32 == 6 {
            let (cp, len) = match decode_two(bytes, i) {
                Ok(v) => v,
                Err(e) => return Err(e),
            };
            match crate::spec::text::char_from_u32(cp) {
                Some(ch) => crate::spec::text::push_char(&mut out, ch),
                None => return Err(Error::InvalidUtf8 { offset: i, reason: "codepoint out of range" }),
            }
            i += len;
        } else if b0 / 16 == 14 {
            let (cp, len) = match decode_three(bytes, i) {
                Ok(v) => v,
                Err(e) => return Err(e),
            };
            if 0xD800 <= cp && cp < 0xDC00 {
                let (low, len2) = match decode_three(bytes, i + len) {
                    Ok(v) => v,
                    Err(e) => return Err(e),
                };
                if !(0xDC00 <= low && low < 0xE000) {
                    return Err(Error::InvalidUtf8 { offset: i + len, reason: "expected low surrogate" });
                }
                let full = 0x1_0000 + (cp - 0xD800) * 1024 + (low - 0xDC00);
                match crate::spec::text::char_from_u32(full) {
                    Some(ch) => crate::spec::text::push_char(&mut out, ch),
                    None => return Err(Error::InvalidUtf8 { offset: i, reason: "surrogate decode out of range" }),
                }
                i += len + len2;
            } else {
                match crate::spec::text::char_from_u32(cp) {
                    Some(ch) => crate::spec::text::push_char(&mut out, ch),
                    None => return Err(Error::InvalidUtf8 { offset: i, reason: "codepoint out of range" }),
                }
                i += len;
            }
        } else {
            return Err(Error::InvalidUtf8 { offset: i, reason: "invalid leading byte" });
        }
        proof {
            reveal(decode_step);
            assert(out@ =~= prev + seq![out@.last()]);
            assert(decode_step(b, old_i) == Ok::<(char, int), (int, Seq<char>)>((out@.last(), i - old_i)));
            assert(decode_from(b, old_i) == match decode_from(b, i as int) {
                Ok(r) => Ok(seq![out@.last()] + r),
                Err(e) => Err(e),
            });
            let ghost rest = decode_from(b, i as int);
            if let Ok(r) = rest {
                assert(prev + (seq![out@.last()] + r) =~= out@ + r);
            }
        }
    }
    Ok(out)
}

fn decode_two(bytes: &[u8], i: usize) -> (r: Result<(u32, usize)>)
    requires
        i < bytes@.len(),
    ensures
        group_result(r, group_two(bytes@, i as int)),
{
    if bytes.len() - i < 2 {
        return Err(Error::InvalidUtf8 { offset: i, reason: "truncated 2-byte group" });
    }
    let b0 = bytes[i];
    let b1 = bytes[i + 1];
    if b1 / 64 != 2 {
        return Err(Error::InvalidUtf8 { offset: i + 1, reason: "bad continuation byte" });
    }
    Ok(((b0 % 32) as u32 * 64 + (b1 % 64) as u32, 2))
}

fn decode_three(bytes: &[u8], i: usize) -> (r: Result<(u32, usize)>)
    requires
        i <= bytes@.len(),
    ensures
        group_result(r, group_three(bytes@, i as int)),
        r matches Ok((c, l)) ==> c < 0x1_0000 && l == 3 && i + 3 <= bytes@.len(),
{
    if bytes.len() - i < 3 {
        return Err(Error::InvalidUtf8 { offset: i, reason: "truncated 3-byte group" });
    }
    let b0 = bytes[i];
    let b1 = bytes[i + 1];
    let b2 = bytes[i + 2];
    if b0 / 16 != 14 || b1 / 64 != 2 || b2 / 64 != 2 {
        return Err(Error::InvalidUtf8 { offset: i, reason: "bad 3-byte group" });
    }
    Ok(((b0 % 16) as u32 * 4096 + (b1 % 64) as u32 * 64 + (b2 % 64) as u32, 3))
}

} // verus!

verus! {

proof fn lemma_encode_chars_concat(a: Seq<char>, b: Seq<char>)
    ensures
        encode_chars(a + b) == encode_chars(a) + encode_chars(b),
    decreases b.len(),
{
    if b.len() == 0 {
        assert(a + b =~= a);
        assert(encode_chars(a) + encode_chars(b) =~= encode_chars(a));
    } else {
        lemma_encode_chars_concat(a, b.drop_last());
        assert((a + b).drop_last() =~= a + b.drop_last());
        assert(encode_chars(a) + encode_chars(b) =~= encode_chars(a) + encode_chars(b.drop_last())
            + encode_char(b.last()));
    }
}

proof fn lemma_decode_one(p: Seq<u8>, c: char, r: Seq<u8>)
    ensures
        decode_step(p + encode_char(c) + r, p.len() as int) == Ok::<(char, int), (int, Seq<char>)>(
            (c, encode_char(c).len() as int),
        ),
{
    reveal(decode_step);
    broadcast use vstd::utf8::char_is_scalar;
    let b = p + encode_char(c) + r;
    let i = p.len() as int;
    let e = encode_char(c);
    let v = c as int;
    assert(is_scalar(v));
    assert forall|k: int| 0 <= k < e.len() implies b[i + k] == e[k] by {
        assert(b[i + k] == (p + e)[i + k]);
    }
    if v == 0 {
        assert(b[i] == 0xC0u8 && b[i + 1] == 0x80u8);
        assert(((0 as int) as char) == c);
    } else if v < 0x80 {
        assert(b[i] == v as u8);
        assert(((v as u8) as char) == c);
    } else if v < 0x800 {
        let b0 = b[i];
        let b1 = b[i + 1];
        assert(b0 == (0xC0 + v / 64) as u8);
        assert(b1 == (0x80 + v % 64) as u8);
        assert(b0 % 32 == v / 64);
        assert(b1 % 64 == v % 64);
        assert((v / 64) * 64 + v % 64 == v);
        assert((v as char) == c);
    } else if v < 0x1_0000 {
        assert(b[i] == (0xE0 + v / 4096) as u8);
        assert(b[i + 1] == (0x80 + (v / 64) % 64) as u8);
        assert(b[i + 2] == (0x80 + v % 64) as u8);
        assert((v / 4096) * 4096 + ((v / 64) % 64) * 64 + v % 64 == v);
        assert((v as char) == c);
    } else {
        let w = v - 0x1_0000;
        let hi = 0xD800 + w / 1024;
        let lo = 0xDC00 + w % 1024;
        assert(e == three_bytes(hi) + three_bytes(lo));
        assert(b[i] == (0xE0 + hi / 4096) as u8);
        assert(b[i + 1] == (0x80 + (hi / 64) % 64) as u8);
        assert(b[i + 2] == (0x80 + hi % 64) as u8);
        assert(b[i + 3] == (0xE0 + lo / 4096) as u8);
        assert(b[i + 4] == (0x80 + (lo / 64) % 64) as u8);
        assert(b[i + 5] == (0x80 + lo % 64) as u8);
        assert((hi / 4096) * 4096 + ((hi / 64) % 64) * 64 + hi % 64 == hi);
        assert((lo / 4096) * 4096 + ((lo / 64) % 64) * 64 + lo % 64 == lo);
        assert((w / 1024) * 1024 + w % 1024 == w);
        assert((v as char) == c);
    }
}

proof fn lemma_decode_after(p: Seq<u8>, s: Seq<char>)
    ensures
        decode_from(p + encode_chars(s), p.len() as int) == Ok::<Seq<char>, (int, Seq<char>)>(s),
    decreases s.len(),
{
    if s.len() == 0 {
        assert(p + encode_chars(s) =~= p);
        assert(s =~= Seq::<char>::empty());
    } else {
        let c = s[0];
        let t = s.drop_first();
        assert(s =~= seq![c] + t);
        lemma_encode_chars_concat(seq![c], t);
        assert(seq![c].drop_last() =~= Seq::<char>::empty());
        assert(encode_chars(Seq::<char>::empty()) == Seq::<u8>::empty());
        assert(encode_chars(seq![c]) =~= encode_char(c));
        let e = encode_char(c);
        let et = encode_chars(t);
        assert(e.len() > 0);
        let b = p + encode_chars(s);
        assert(b =~= p + e + et);
        assert(b =~= (p + e) + et);
        lemma_decode_one(p, c, et);
        lemma_decode_after(p + e, t);
        assert(decode_step(b, p.len() as int) == Ok::<(char, int), (int, Seq<char>)>((c, e.len() as int)));
        assert(decode_from(b, (p + e).len() as int) == Ok::<Seq<char>, (int, Seq<char>)>(t));
        assert((p + e).len() == p.len() + e.len());
        assert(seq![c] + t =~= s);
    }
}

/// Decoding what `encode` produced gives back the encoded characters.
pub proof fn lemma_decode_encode(s: Seq<char>)
    ensures
        decode_from(encode_chars(s), 0) == Ok::<Seq<char>, (int, Seq<char>)>(s),
{
    lemma_decode_after(Seq::empty(), s);
    assert(Seq::<u8>::empty() + encode_chars(s) =~= encode_chars(s));
}

/// The encoding of one character holds no zero byte.
proof fn lemma_char_has_no_nul(ch: char)
    ensures
        forall|k: int| 0 <= k < encode_char(ch).len() ==> #[trigger] encode_char(ch)[k] != 0u8,
{
    let c = ch as int;
    assert(0 <= c <= 0x10FFFF);
    if c >= 0x800 && c < 0x1_0000 {
        assert(three_bytes(c)[0] != 0u8);
    } else if c >= 0x1_0000 {
        let hi = three_bytes(0xD800 + (c - 0x1_0000) / 1024);
        let lo = three_bytes(0xDC00 + (c - 0x1_0000) % 1024);
        assert(forall|k: int| 0 <= k < 3 ==> #[trigger] hi[k] != 0u8);
        assert(forall|k: int| 0 <= k < 3 ==> #[trigger] lo[k] != 0u8);
        assert forall|k: int| 0 <= k < 6 implies #[trigger] (hi + lo)[k] != 0u8 by {
            if k >= 3 {
                assert((hi + lo)[k] == lo[k - 3]);
            }
        }
    }
}

/// The encoding never holds the byte `0x00`: `U+0000` becomes `0xC0 0x80`.
pub proof fn lemma_encode_has_no_nul(s: Seq<char>)
    ensures
        !encode_chars(s).contains(0u8),
    decreases s.len(),
{
    if s.len() > 0 {
        lemma_encode_has_no_nul(s.drop_last());
        lemma_char_has_no_nul(s.last());
        let a = encode_chars(s.drop_last());
        let b = encode_char(s.last());
        assert forall|k: int| 0 <= k < (a + b).len() implies #[trigger] (a + b)[k] != 0u8 by {
            if k < a.len() {
                assert((a + b)[k] == a[k]);
                assert(a.contains(a[k]));
            } else {
                assert((a + b)[k] == b[k - a.len()]);
            }
        }
    }
}

} // verus!
