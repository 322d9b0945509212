//! Standard library text primitives that the encoders build on.
use vstd::prelude::*;

verus! {

/// `String::push`: appends one character to the string.
#[verifier::external_body]
pub(crate) fn push_char(s: &mut String, c: char)
    ensures
        final(s)@ == old(s)@.push(c),
{
    s.push(c);
}

/// `char::from_u32`: the character whose scalar value is `c`, or `None`
/// when `c` is above `0x10FFFF` or a surrogate code point.
#[verifier::external_body]
pub(crate) fn char_from_u32(c: u32) -> (r: Option<char>)
    ensures
        r is Some <==> (c <= 0x10FFFF && !(0xD800 <= c < 0xE000)),
        r matches Some(ch) ==> ch as u32 == c && ch == (c as int) as char,
{
    char::from_u32(c)
}

} // verus!

verus! {

/// Whether two byte slices hold the same bytes.
pub fn bytes_eq(a: &[u8], b: &[u8]) -> (r: bool)
    ensures
        r == (a@ == b@),
{
    if a.len() != b.len() {
        return false;
    }
    let mut i: usize = 0;
    while i < a.len()
        invariant
            i <= a@.len(),
            a@.len() == b@.len(),
            forall|k: int| 0 <= k < i ==> a@[k] == b@[k],
        decreases a@.len() - i,
    {
        if a[i] != b[i] {
            return false;
        }
        i += 1;
    }
    assert(a@ =~= b@);
    true
}

/// Whether two string slices hold the same characters.
pub fn str_eq(a: &str, b: &str) -> (r: bool)
    ensures
        r == (a@ == b@),
{
    let r = bytes_eq(a.as_bytes(), b.as_bytes());
    proof {
        vstd::utf8::encode_utf8_decode_utf8(a@);
        vstd::utf8::encode_utf8_decode_utf8(b@);
    }
    r
}

} // verus!

verus! {

/// The decimal digit character for `d`.
pub open spec fn digit_char(d: nat) -> char {
    ((d + 48) as u32) as char
}

/// Decimal representation of `n`, without leading zeros.
pub open spec fn decimal_chars(n: nat) -> Seq<char>
    decreases n,
{
    if n < 10 {
        seq![digit_char(n)]
    } else {
        decimal_chars(n / 10) + seq![digit_char(n % 10)]
    }
}

/// Decimal representation of an integer, with a leading `-` when negative.
pub open spec fn signed_decimal_chars(n: int) -> Seq<char> {
    if n < 0 { seq!['-'] + decimal_chars((-n) as nat) } else { decimal_chars(n as nat) }
}

fn digit(d: u64) -> (c: char)
    requires
        d < 10,
    ensures
        c == digit_char(d as nat),
{
    let c = match d {
        0 => '0',
        1 => '1',
        2 => '2',
        3 => '3',
        4 => '4',
        5 => '5',
        6 => '6',
        7 => '7',
        8 => '8',
        _ => '9',
    };
    assert(c == digit_char(d as nat)) by {
        assert((('0' as u32) as char) == '0');
    }
    c
}

/// Append the decimal representation of `n` to `s`.
pub fn push_decimal(s: &mut String, n: u64)
    ensures
        final(s)@ == old(s)@ + decimal_chars(n as nat),
    decreases n,
{
    if n >= 10 {
        push_decimal(s, n / 10);
    }
    push_char(s, digit(n % 10));
    assert(final(s)@ =~= old(s)@ + decimal_chars(n as nat));
}

/// Append the decimal representation of a signed integer to `s`.
pub fn push_signed_decimal(s: &mut String, n: i64)
    ensures
        final(s)@ == old(s)@ + signed_decimal_chars(n as int),
{
    if n < 0 {
        push_char(s, '-');
        let m: u64 = if n == i64::MIN { 0x8000_0000_0000_0000u64 } else { (-n) as u64 };
        push_decimal(s, m);
    } else {
        push_decimal(s, n as u64);
    }
    assert(final(s)@ =~= old(s)@ + signed_decimal_chars(n as int));
}

/// Append the characters of `t` to `s`.
pub fn push_str(s: &mut String, t: &str)
    ensures
        final(s)@ == old(s)@ + t@,
{
    s.append(t);
}

} // verus!

verus! {

/// What `format!("{:?}", s)` gives for a string slice: the quoted, escaped text.
pub uninterp spec fn debug_str(s: Seq<char>) -> Seq<char>;

/// What `format!("{:?}", c)` gives for a character: the quoted, escaped character.
pub uninterp spec fn debug_char(c: char) -> Seq<char>;

/// `<str as Debug>::fmt`: the string in double quotes with escapes.
#[verifier::external_body]
pub(crate) fn debug_quoted_str(s: &str) -> (r: String)
    ensures
        r@ == debug_str(s@),
{
    format!("{s:?}")
}

/// `<char as Debug>::fmt`: the character in single quotes with escapes.
#[verifier::external_body]
pub(crate) fn debug_quoted_char(c: char) -> (r: String)
    ensures
        r@ == debug_char(c),
{
    format!("{c:?}")
}

/// The characters of `s`, in order.
pub fn chars_of(s: &str) -> (v: Vec<char>)
    ensures
        v@ == s@,
{
    let mut v: Vec<char> = Vec::new();
    proof { broadcast use vstd::string::axiom_spec_iter; }
    for ch in it: s.chars()
        invariant
            v@ == it.seq().take(it.index() as int),
            it.seq() == s@,
    {
        v.push(ch);
        assert(v@ =~= it.seq().take(it.index() + 1));
    }
    assert(s@.take(s@.len() as int) =~= s@);
    v
}

/// A string holding `cs[from..to]`.
pub fn string_of(cs: &Vec<char>, from: usize, to: usize) -> (s: String)
    requires
        from <= to <= cs@.len(),
    ensures
        s@ == cs@.subrange(from as int, to as int),
{
    let mut s = String::new();
    let mut i = from;
    while i < to
        invariant
            from <= i <= to,
            to <= cs@.len(),
            s@ == cs@.subrange(from as int, i as int),
        decreases to - i,
    {
        push_char(&mut s, cs[i]);
        i += 1;
        assert(s@ =~= cs@.subrange(from as int, i as int));
    }
    s
}

} // verus!
