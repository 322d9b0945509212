//! `META-INF/MANIFEST.MF` builder.
//!
//! Manifests look like RFC 822 headers: CRLF-terminated `Name: Value`
//! lines, where a line longer than 72 bytes is folded onto continuation
//! lines that start with a single space. The main section starts with
//! `Manifest-Version: 1.0` and ends with a blank line.
use vstd::prelude::*;
use crate::spec::text::{chars_of, push_char, push_str};
use crate::spec::wire::push_bytes;
use vstd::utf8::{
    encode_scalar, encode_utf8, has_width_1_encoding, has_width_2_encoding, has_width_3_encoding, last_continuation_byte,
    leading_byte_width_1, leading_byte_width_2, leading_byte_width_3, leading_byte_width_4,
    second_last_continuation_byte, third_last_continuation_byte,
};

verus! {

pub const MAX_LINE_BYTES: usize = 72;

/// A minimal JAR manifest: main attributes only, no per-entry sections.
#[derive(Debug)]
pub struct Manifest {
    entries: Vec<(String, String)>,
}

/// `c` with an ASCII upper-case letter taken to lower case.
pub open spec fn ascii_lower(c: char) -> char {
    if 'A' <= c <= 'Z' { ((c as u32) + 32) as char } else { c }
}

/// Whether `a` and `b` are equal once ASCII letters are taken to lower
/// case (other characters compare as they are).
pub open spec fn eq_ignore_case(a: Seq<char>, b: Seq<char>) -> bool {
    a.len() == b.len() && forall|i: int| 0 <= i < a.len() ==> ascii_lower(#[trigger] a[i]) == ascii_lower(b[i])
}

/// Index of the first attribute at or after `i` named `name` (ignoring ASCII case).
pub open spec fn find_attr(es: Seq<(Seq<char>, Seq<char>)>, name: Seq<char>, i: int) -> Option<int>
    decreases es.len() - i,
{
    if i < 0 || i >= es.len() {
        None
    } else if eq_ignore_case(es[i].0, name) {
        Some(i)
    } else {
        find_attr(es, name, i + 1)
    }
}

/// The attributes after setting `name` to `value`: the first attribute of
/// that name (ignoring ASCII case) keeps its name and takes the value;
/// with none, the pair is appended.
pub open spec fn set_spec(es: Seq<(Seq<char>, Seq<char>)>, name: Seq<char>, value: Seq<char>) -> Seq<(Seq<char>, Seq<char>)> {
    match find_attr(es, name, 0) {
        Some(i) => es.update(i, (es[i].0, value)),
        None => es.push((name, value)),
    }
}

/// A class name in Java source form: slashes become dots.
pub open spec fn dotted(s: Seq<char>) -> Seq<char> {
    s.map_values(|c: char| if c == '/' { '.' } else { c })
}

/// Items joined by single spaces; no space is put in while the text so
/// far is empty.
pub open spec fn space_joined(items: Seq<Seq<char>>) -> Seq<char>
    decreases items.len(),
{
    if items.len() == 0 {
        Seq::empty()
    } else if space_joined(items.drop_last()).len() == 0 {
        items.last()
    } else {
        space_joined(items.drop_last()) + seq![' '] + items.last()
    }
}

pub open spec fn crlf() -> Seq<u8> {
    seq![13u8, 10u8]
}

/// The bytes of `line` from `i` on, folded: the first piece holds up to 72
/// bytes, each later piece a space and up to 71 bytes; every piece ends
/// with CRLF. An empty line gives nothing.
pub open spec fn fold_from(line: Seq<u8>, i: int, first: bool) -> Seq<u8>
    decreases line.len() - i,
{
    if i < 0 || i >= line.len() {
        Seq::empty()
    } else {
        let budget: int = if first { 72 } else { 71 };
        let end = if i + budget < line.len() { i + budget } else { line.len() as int };
        let lead: Seq<u8> = if first { Seq::empty() } else { seq![32u8] };
        lead + line.subrange(i, end) + crlf() + fold_from(line, end, false)
    }
}

/// The line of one attribute, before folding.
pub open spec fn attr_line(e: (Seq<char>, Seq<char>)) -> Seq<u8> {
    encode_utf8(e.0 + ": "@ + e.1)
}

/// Every attribute line folded, in order.
pub open spec fn attr_lines(es: Seq<(Seq<char>, Seq<char>)>) -> Seq<u8>
    decreases es.len(),
{
    if es.len() == 0 {
        Seq::empty()
    } else {
        attr_lines(es.drop_last()) + fold_from(attr_line(es.last()), 0, true)
    }
}

/// The serialised manifest: the attribute lines, then a blank line.
pub open spec fn manifest_bytes(es: Seq<(Seq<char>, Seq<char>)>) -> Seq<u8> {
    attr_lines(es) + crlf()
}

impl View for Manifest {
    type V = Seq<(Seq<char>, Seq<char>)>;

    closed spec fn view(&self) -> Seq<(Seq<char>, Seq<char>)> {
        self.entries@.map_values(|e: (String, String)| (e.0@, e.1@))
    }
}

/// Whether `a` and `b` are equal once ASCII letters are taken to lower case.
fn eq_ignore_ascii_case(a: &str, b: &str) -> (r: bool)
    ensures
        r == eq_ignore_case(a@, b@),
{
    let x = chars_of(a);
    let y = chars_of(b);
    if x.len() != y.len() {
        return false;
    }
    let mut i: usize = 0;
    while i < x.len()
        invariant
            x@ == a@,
            y@ == b@,
            x@.len() == y@.len(),
            i <= x@.len(),
            forall|k: int| 0 <= k < i ==> ascii_lower(#[trigger] x@[k]) == ascii_lower(y@[k]),
        decreases x@.len() - i,
    {
        if to_lower(x[i]) != to_lower(y[i]) {
            return false;
        }
        i += 1;
    }
    true
}

fn to_lower(c: char) -> (l: char)
    ensures
        l == ascii_lower(c),
{
    if 'A' <= c && c <= 'Z' {
        let v = (c as u32) + 32;
        let l = char_of_ascii(v);
        l
    } else {
        c
    }
}

/// The ASCII character with code `v`.
fn char_of_ascii(v: u32) -> (c: char)
    requires
        v < 128,
    ensures
        c == v as char,
{
    let b = v as u8;
    b as char
}

/// Append `line` folded at 72 bytes.
fn write_folded(out: &mut Vec<u8>, line: &[u8])
    ensures
        final(out)@ == old(out)@ + fold_from(line@, 0, true),
{
    let mut i: usize = 0;
    let mut first = true;
    while i < line.len()
        invariant
            i <= line@.len(),
            first ==> i == 0,
            i == 0 ==> first,
            old(out)@ + fold_from(line@, 0, true) == out@ + fold_from(line@, i as int, first),
        decreases line@.len() - i,
    {
        let budget: usize = if first { MAX_LINE_BYTES } else { MAX_LINE_BYTES - 1 };
        let end = if line.len() - i > budget { i + budget } else { line.len() };
        let ghost before = out@;
        if !first {
            out.push(32u8);
        }
        push_bytes(out, &line[i..end]);
        out.push(13u8);
        out.push(10u8);
        proof {
            let lead: Seq<u8> = if first { Seq::empty() } else { seq![32u8] };
            assert(line@.subrange(i as int, end as int) == line@.subrange(i as int, end as int));
            assert(out@ =~= before + (lead + line@.subrange(i as int, end as int) + crlf()));
            assert(fold_from(line@, i as int, first) == lead + line@.subrange(i as int, end as int) + crlf() + fold_from(line@, end as int, false));
        }
        i = end;
        first = false;
    }
}

impl Manifest {
    /// A manifest seeded with `Manifest-Version: 1.0`, which the JAR
    /// specification requires as the first main attribute.
    pub fn new() -> (m: Self)
        ensures
            m@ == seq![("Manifest-Version"@, "1.0"@)],
    {
        let mut entries: Vec<(String, String)> = Vec::new();
        entries.push(("Manifest-Version".to_owned(), "1.0".to_owned()));
        let m = Manifest { entries };
        assert(m@ =~= seq![("Manifest-Version"@, "1.0"@)]);
        m
    }

    /// Set `name` to `value`: an attribute of that name (ignoring ASCII
    /// case) keeps its position and takes the value; otherwise the pair is
    /// appended.
    pub fn set_attribute(&mut self, name: &str, value: &str)
        ensures
            final(self)@ == set_spec(old(self)@, name@, value@),
    {
        let mut i: usize = 0;
        while i < self.entries.len()
            invariant
                i <= self.entries@.len(),
                self@ == old(self)@,
                find_attr(self@, name@, 0) == find_attr(self@, name@, i as int),
            decreases self.entries@.len() - i,
        {
            if eq_ignore_ascii_case(self.entries[i].0.as_str(), name) {
                let n = self.entries[i].0.clone();
                let ghost before = self@;
                self.entries.set(i, (n, value.to_owned()));
                assert(self@ =~= before.update(i as int, (before[i as int].0, value@)));
                return;
            }
            i += 1;
        }
        let ghost before = self@;
        self.entries.push((name.to_owned(), value.to_owned()));
        assert(self@ =~= before.push((name@, value@)));
    }

    /// Set `Main-Class`; slashes in the name become dots, as manifest
    /// values use the Java source form while class files use the internal one.
    pub fn set_main_class(&mut self, internal_or_source_name: &str)
        ensures
            final(self)@ == set_spec(old(self)@, "Main-Class"@, dotted(internal_or_source_name@)),
    {
        let cs = chars_of(internal_or_source_name);
        let mut value = String::new();
        let mut i: usize = 0;
        while i < cs.len()
            invariant
                i <= cs@.len(),
                value@ == dotted(cs@.subrange(0, i as int)),
            decreases cs@.len() - i,
        {
            let c = if cs[i] == '/' { '.' } else { cs[i] };
            let ghost before = value@;
            push_char(&mut value, c);
            assert(value@ =~= dotted(cs@.subrange(0, i + 1)));
            i += 1;
        }
        assert(cs@.subrange(0, i as int) =~= cs@);
        self.set_attribute("Main-Class", value.as_str());
    }

    /// Set or append a main attribute, as `set_attribute` does.
    pub fn attribute(self, name: &str, value: &str) -> (m: Self)
        ensures
            m@ == set_spec(self@, name@, value@),
    {
        let mut m = self;
        m.set_attribute(name, value);
        m
    }

    /// Set `Main-Class`, as `set_main_class` does.
    pub fn main_class(self, internal_or_source_name: &str) -> (m: Self)
        ensures
            m@ == set_spec(self@, "Main-Class"@, dotted(internal_or_source_name@)),
    {
        let mut m = self;
        m.set_main_class(internal_or_source_name);
        m
    }

    /// Set `Class-Path` to the entries separated by single spaces.
    pub fn class_path<const N: usize>(self, entries: [&str; N]) -> (m: Self)
        ensures
            m@ == set_spec(self@, "Class-Path"@, space_joined(entries@.map_values(|e: &str| e@))),
    {
        let mut value = String::new();
        let mut i: usize = 0;
        while i < N
            invariant
                i <= N,
                N == entries@.len(),
                value@ == space_joined(entries@.subrange(0, i as int).map_values(|e: &str| e@)),
            decreases N - i,
        {
            let ghost prev = entries@.subrange(0, i as int).map_values(|e: &str| e@);
            let ghost next = entries@.subrange(0, i + 1).map_values(|e: &str| e@);
            assert(next.drop_last() =~= prev);
            let had_text = !value.as_str().is_empty();
            if had_text {
                push_char(&mut value, ' ');
            }
            push_str(&mut value, entries[i]);
            proof {
                if !had_text {
                    assert(value@ =~= next.last());
                } else {
                    assert(value@ =~= space_joined(prev) + seq![' '] + next.last());
                }
            }
            i += 1;
        }
        assert(entries@.subrange(0, N as int) =~= entries@);
        self.attribute("Class-Path", value.as_str())
    }

    /// Serialise to the bytes of the `META-INF/MANIFEST.MF` entry.
    pub fn to_bytes(&self) -> (v: Vec<u8>)
        ensures
            v@ == manifest_bytes(self@),
    {
        let mut out: Vec<u8> = Vec::new();
        let mut i: usize = 0;
        while i < self.entries.len()
            invariant
                i <= self.entries@.len(),
                out@ == attr_lines(self@.subrange(0, i as int)),
            decreases self.entries@.len() - i,
        {
            let mut line = String::new();
            push_str(&mut line, self.entries[i].0.as_str());
            push_str(&mut line, ": ");
            push_str(&mut line, self.entries[i].1.as_str());
            proof {
                assert(self@.subrange(0, i + 1).drop_last() =~= self@.subrange(0, i as int));
                assert(self@.subrange(0, i + 1).last() == self@[i as int]);
            }
            write_folded(&mut out, line.as_str().as_bytes());
            i += 1;
        }
        assert(self@.subrange(0, i as int) =~= self@);
        out.push(13u8);
        out.push(10u8);
        assert(out@ =~= manifest_bytes(self@));
        out
    }
}

impl Clone for Manifest {
    /// A manifest with the same attributes in the same order.
    fn clone(&self) -> (m: Self)
        ensures
            m@ == self@,
    {
        let mut entries: Vec<(String, String)> = Vec::new();
        let mut i: usize = 0;
        while i < self.entries.len()
            invariant
                i <= self.entries@.len(),
                entries@.len() == i,
                forall|k: int| 0 <= k < i ==> (#[trigger] entries@[k]).0@ == self.entries@[k].0@ && entries@[k].1@ == self.entries@[k].1@,
            decreases self.entries@.len() - i,
        {
            entries.push((self.entries[i].0.clone(), self.entries[i].1.clone()));
            i += 1;
        }
        let m = Manifest { entries };
        assert(m@ =~= self@);
        m
    }
}

impl Default for Manifest {
    /// The manifest of `new`.
    fn default() -> (m: Self)
        ensures
            m@ == seq![("Manifest-Version"@, "1.0"@)],
    {
        Self::new()
    }
}

/// Whether every run of bytes of `b` without a line feed is at most 73
/// bytes long: 72 bytes of a line and its carriage return.
pub open spec fn lines_within_72(b: Seq<u8>) -> bool {
    forall|i: int, j: int| 0 <= i <= j <= b.len() && #[trigger] lf_free(b, i, j) ==> j - i <= 73
}

/// Whether `b` holds no line feed from `i` up to `j`.
pub open spec fn lf_free(b: Seq<u8>, i: int, j: int) -> bool {
    forall|k: int| i <= k < j ==> #[trigger] b[k] != 10u8
}

/// Whether `b` is empty or ends with CRLF.
pub open spec fn ends_with_crlf(b: Seq<u8>) -> bool {
    b.len() == 0 || (b.len() >= 2 && b[b.len() - 2] == 13u8 && b[b.len() - 1] == 10u8)
}

proof fn lemma_lines_concat(a: Seq<u8>, b: Seq<u8>)
    requires
        lines_within_72(a),
        lines_within_72(b),
        ends_with_crlf(a),
    ensures
        lines_within_72(a + b),
{
    let c = a + b;
    assert forall|i: int, j: int| 0 <= i <= j <= c.len() && #[trigger] lf_free(c, i, j) implies j - i <= 73 by {
        if j <= a.len() {
            assert forall|k: int| i <= k < j implies #[trigger] a[k] != 10u8 by {
                assert(c[k] == a[k]);
            }
            assert(lf_free(a, i, j));
        } else if i >= a.len() {
            assert forall|k: int| i - a.len() <= k < j - a.len() implies #[trigger] b[k] != 10u8 by {
                assert(c[k + a.len()] == b[k]);
            }
            assert(lf_free(b, i - a.len(), j - a.len()));
        } else {
            assert(c[a.len() - 1] == 10u8);
        }
    }
}

proof fn lemma_lines_block(content: Seq<u8>)
    requires
        content.len() <= 72,
    ensures
        lines_within_72(content + crlf()),
        ends_with_crlf(content + crlf()),
{
    let c = content + crlf();
    assert forall|i: int, j: int| 0 <= i <= j <= c.len() && #[trigger] lf_free(c, i, j) implies j - i <= 73 by {
        if j == c.len() && i < j {
            assert(c[c.len() - 1] == 10u8);
        }
    }
}

proof fn lemma_fold_lines(line: Seq<u8>, i: int, first: bool)
    ensures
        lines_within_72(fold_from(line, i, first)),
        ends_with_crlf(fold_from(line, i, first)),
    decreases line.len() - i,
{
    if 0 <= i < line.len() {
        let budget: int = if first { 72 } else { 71 };
        let end = if i + budget < line.len() { i + budget } else { line.len() as int };
        let lead: Seq<u8> = if first { Seq::empty() } else { seq![32u8] };
        let block = lead + line.subrange(i, end) + crlf();
        lemma_lines_block(lead + line.subrange(i, end));
        lemma_fold_lines(line, end, false);
        lemma_lines_concat(block, fold_from(line, end, false));
        let rest = fold_from(line, end, false);
        assert(fold_from(line, i, first) == block + rest);
        if rest.len() > 0 {
            assert((block + rest)[(block + rest).len() - 1] == rest[rest.len() - 1]);
            assert((block + rest)[(block + rest).len() - 2] == rest[rest.len() - 2]);
        }
    } else {
        assert(lines_within_72(Seq::<u8>::empty()));
    }
}

proof fn lemma_attr_lines(es: Seq<(Seq<char>, Seq<char>)>)
    ensures
        lines_within_72(attr_lines(es)),
        ends_with_crlf(attr_lines(es)),
    decreases es.len(),
{
    if es.len() > 0 {
        lemma_attr_lines(es.drop_last());
        let a = attr_lines(es.drop_last());
        let f = fold_from(attr_line(es.last()), 0, true);
        lemma_fold_lines(attr_line(es.last()), 0, true);
        lemma_lines_concat(a, f);
        if f.len() == 0 {
            assert(a + f =~= a);
        } else {
            assert((a + f)[(a + f).len() - 1] == f[f.len() - 1]);
            assert((a + f)[(a + f).len() - 2] == f[f.len() - 2]);
        }
    } else {
        assert(lines_within_72(Seq::<u8>::empty()));
    }
}

/// Every line of a serialised manifest holds at most 72 bytes before its
/// CRLF: longer attribute lines are folded onto continuation lines.
pub proof fn lemma_manifest_lines_within_72(es: Seq<(Seq<char>, Seq<char>)>)
    ensures
        lines_within_72(manifest_bytes(es)),
{
    lemma_attr_lines(es);
    lemma_lines_block(Seq::empty());
    assert(Seq::<u8>::empty() + crlf() =~= crlf());
    lemma_lines_concat(attr_lines(es), crlf());
}

/// A manifest with an attribute ends with a blank line: its last
/// attribute line's CRLF, then the terminating CRLF.
pub proof fn lemma_manifest_ends_with_blank_line(es: Seq<(Seq<char>, Seq<char>)>)
    requires
        es.len() > 0,
    ensures
        ({
            let b = manifest_bytes(es);
            b.len() >= 4 && b.subrange(b.len() - 4, b.len() as int) == seq![13u8, 10u8, 13u8, 10u8]
        }),
{
    lemma_attr_lines(es);
    let a = attr_lines(es);
    let line = attr_line(es.last());
    let text = es.last().0 + ": "@ + es.last().1;
    assert(text.len() >= 2) by {
        reveal_strlit(": ");
    }
    vstd::utf8::encode_utf8_decode_utf8(text);
    assert(line.len() > 0) by {
        if line.len() == 0 {
            assert(line =~= Seq::<u8>::empty());
        }
    }
    assert(a.len() > 0);
    let b = manifest_bytes(es);
    assert(b.subrange(b.len() - 4, b.len() as int) =~= seq![13u8, 10u8, 13u8, 10u8]);
}

/// Setting an attribute keeps every attribute's name and position; so the
/// `Manifest-Version` that a new manifest starts with stays first.
pub proof fn lemma_set_keeps_names(es: Seq<(Seq<char>, Seq<char>)>, name: Seq<char>, value: Seq<char>)
    ensures
        set_spec(es, name, value).len() >= es.len(),
        forall|i: int| 0 <= i < es.len() ==> (#[trigger] set_spec(es, name, value)[i]).0 == es[i].0,
{
    lemma_find_attr_bounds(es, name, 0);
}

proof fn lemma_find_attr_bounds(es: Seq<(Seq<char>, Seq<char>)>, name: Seq<char>, i: int)
    requires
        0 <= i,
    ensures
        find_attr(es, name, i) matches Some(k) ==> i <= k < es.len() && eq_ignore_case(es[k].0, name)
            && forall|m: int| i <= m < k ==> !eq_ignore_case(#[trigger] es[m].0, name),
        find_attr(es, name, i) is None ==> forall|m: int| i <= m < es.len() ==> !eq_ignore_case(#[trigger] es[m].0, name),
    decreases es.len() - i,
{
    if i < es.len() {
        lemma_find_attr_bounds(es, name, i + 1);
    }
}

/// The first attribute named `name` (ignoring ASCII case) is found by
/// `find_attr` in any sequence that has the same names.
proof fn lemma_find_attr_names(a: Seq<(Seq<char>, Seq<char>)>, b: Seq<(Seq<char>, Seq<char>)>, name: Seq<char>, i: int)
    requires
        0 <= i,
        a.len() == b.len(),
        forall|k: int| 0 <= k < a.len() ==> (#[trigger] a[k]).0 == b[k].0,
    ensures
        find_attr(a, name, i) == find_attr(b, name, i),
    decreases a.len() - i,
{
    if i < a.len() {
        lemma_find_attr_names(a, b, name, i + 1);
    }
}

/// Setting the same attribute twice leaves what setting it once to the
/// second value does: no duplicate accumulates, the later value wins.
pub proof fn lemma_set_twice(es: Seq<(Seq<char>, Seq<char>)>, name: Seq<char>, v1: Seq<char>, v2: Seq<char>)
    ensures
        set_spec(set_spec(es, name, v1), name, v2) == set_spec(es, name, v2),
{
    lemma_find_attr_bounds(es, name, 0);
    let once = set_spec(es, name, v1);
    match find_attr(es, name, 0) {
        Some(k) => {
            lemma_find_attr_names(es, once, name, 0);
            assert(once.update(k, (once[k].0, v2)) =~= es.update(k, (es[k].0, v2)));
        },
        None => {
            let pushed = es.push((name, v1));
            assert(eq_ignore_case(name, name));
            lemma_find_attr_bounds(pushed, name, 0);
            assert forall|m: int| 0 <= m < es.len() implies !eq_ignore_case(#[trigger] pushed[m].0, name) by {
                assert(pushed[m] == es[m]);
            }
            assert(find_attr(pushed, name, 0) == Some(es.len() as int)) by {
                lemma_find_attr_bounds(pushed, name, 0);
                if let Some(k) = find_attr(pushed, name, 0) {
                    if k < es.len() {
                        assert(!eq_ignore_case(pushed[k].0, name));
                    }
                } else {
                    assert(!eq_ignore_case(pushed[es.len() as int].0, name));
                }
            }
            assert(pushed.update(es.len() as int, (name, v2)) =~= es.push((name, v2)));
        },
    }
}

/// `b` with every CRLF that a space follows taken out, the space with it:
/// the continuation lines joined back onto the lines they continue.
pub open spec fn unfold_lines(b: Seq<u8>) -> Seq<u8>
    decreases b.len(),
{
    if b.len() == 0 {
        Seq::empty()
    } else if b.len() >= 3 && b[0] == 13u8 && b[1] == 10u8 && b[2] == 32u8 {
        unfold_lines(b.subrange(3, b.len() as int))
    } else {
        seq![b[0]] + unfold_lines(b.subrange(1, b.len() as int))
    }
}

/// Each attribute's `name: value` line with its CRLF, unfolded, in order.
pub open spec fn plain_lines(es: Seq<(Seq<char>, Seq<char>)>) -> Seq<u8>
    decreases es.len(),
{
    if es.len() == 0 {
        Seq::empty()
    } else {
        plain_lines(es.drop_last()) + attr_line(es.last()) + crlf()
    }
}

/// An attribute whose line folds back unambiguously: no carriage return in
/// its name or value, and a name that does not start with a space.
pub open spec fn entry_unfoldable(e: (Seq<char>, Seq<char>)) -> bool {
    &&& !e.0.contains('\r')
    &&& !e.1.contains('\r')
    &&& !(e.0.len() > 0 && e.0[0] == ' ')
}

proof fn lemma_unfold_plain(p: Seq<u8>, q: Seq<u8>)
    requires
        !p.contains(13u8),
    ensures
        unfold_lines(p + q) == p + unfold_lines(q),
    decreases p.len(),
{
    if p.len() > 0 {
        let t = p.subrange(1, p.len() as int);
        assert(!t.contains(13u8)) by {
            if t.contains(13u8) {
                let k = choose|k: int| 0 <= k < t.len() && t[k] == 13u8;
                assert(p[k + 1] == 13u8);
            }
        }
        assert(p[0] != 13u8) by {
            assert(p.contains(p[0]));
        }
        lemma_unfold_plain(t, q);
        assert((p + q).subrange(1, (p + q).len() as int) =~= t + q);
        assert(p =~= seq![p[0]] + t);
    }
}

/// Unfolding the folded pieces of `line` from `i` on (without the leading
/// space of a continuation) gives the rest of the line and its CRLF.
proof fn lemma_unfold_fold(line: Seq<u8>, i: int, first: bool, r: Seq<u8>)
    requires
        !line.contains(13u8),
        0 <= i < line.len(),
        r.len() == 0 || r[0] != 32u8,
    ensures
        ({
            let f = fold_from(line, i, first);
            let body = if first { f } else { f.subrange(1, f.len() as int) };
            unfold_lines(body + r) == line.subrange(i, line.len() as int) + crlf() + unfold_lines(r)
        }),
    decreases line.len() - i,
{
    let budget: int = if first { 72 } else { 71 };
    let end = if i + budget < line.len() { i + budget } else { line.len() as int };
    let piece = line.subrange(i, end);
    let lead: Seq<u8> = if first { Seq::empty() } else { seq![32u8] };
    let rest = fold_from(line, end, false);
    let f = fold_from(line, i, first);
    assert(f == lead + piece + crlf() + rest);
    let body = if first { f } else { f.subrange(1, f.len() as int) };
    assert(body =~= piece + crlf() + rest);
    assert(!piece.contains(13u8)) by {
        if piece.contains(13u8) {
            let k = choose|k: int| 0 <= k < piece.len() && piece[k] == 13u8;
            assert(line[i + k] == 13u8);
            assert(line.contains(line[i + k]));
        }
    }
    if end < line.len() {
        lemma_unfold_fold(line, end, false, r);
        let rest_body = rest.subrange(1, rest.len() as int);
        assert(rest[0] == 32u8);
        assert(rest =~= seq![32u8] + rest_body);
        let tail = crlf() + rest + r;
        assert(body + r =~= piece + tail);
        lemma_unfold_plain(piece, tail);
        assert(tail.subrange(3, tail.len() as int) =~= rest_body + r);
        assert(line.subrange(i, line.len() as int) =~= piece + line.subrange(end, line.len() as int));
    } else {
        assert(rest == Seq::<u8>::empty());
        let tail = crlf() + r;
        assert(body + r =~= piece + tail);
        lemma_unfold_plain(piece, tail);
        lemma_unfold_crlf(r);
        assert(line.subrange(i, line.len() as int) =~= piece);
    }
}

/// A CRLF that no space follows stays.
proof fn lemma_unfold_crlf(r: Seq<u8>)
    requires
        r.len() == 0 || r[0] != 32u8,
    ensures
        unfold_lines(crlf() + r) == crlf() + unfold_lines(r),
{
    let tail = crlf() + r;
    let t1 = seq![10u8] + r;
    assert(tail[0] == 13u8);
    assert(tail.len() >= 3 ==> tail[2] == r[0]);
    assert(tail.subrange(1, tail.len() as int) =~= t1);
    assert(unfold_lines(tail) == seq![13u8] + unfold_lines(t1));
    assert(t1[0] == 10u8);
    assert(t1.subrange(1, t1.len() as int) =~= r);
    assert(unfold_lines(t1) == seq![10u8] + unfold_lines(r));
    assert(seq![13u8] + (seq![10u8] + unfold_lines(r)) =~= crlf() + unfold_lines(r));
}

/// The UTF-8 bytes of one scalar: never a carriage return or a space
/// unless the scalar is one.
proof fn lemma_scalar_bytes(c: u32)
    ensures
        encode_scalar(c).len() > 0,
        forall|k: int| 0 <= k < encode_scalar(c).len() && #[trigger] encode_scalar(c)[k] == 13u8 ==> c == 13,
        encode_scalar(c)[0] == 32u8 ==> c == 32,
{
    if has_width_1_encoding(c) {
        assert(c <= 0x7F ==> (((c & 0x7F) as u8 == 13u8 ==> c == 13) && ((c & 0x7F) as u8 == 32u8 ==> c == 32)))
            by (bit_vector);
        assert(encode_scalar(c)[0] == leading_byte_width_1(c));
    } else {
        assert(leading_byte_width_2(c) >= 0x80u8) by (bit_vector);
        assert(leading_byte_width_3(c) >= 0x80u8) by (bit_vector);
        assert(leading_byte_width_4(c) >= 0x80u8) by (bit_vector);
        assert(last_continuation_byte(c) >= 0x80u8) by (bit_vector);
        assert(second_last_continuation_byte(c) >= 0x80u8) by (bit_vector);
        assert(third_last_continuation_byte(c) >= 0x80u8) by (bit_vector);
        if has_width_2_encoding(c) {
        } else if has_width_3_encoding(c) {
        } else {
        }
    }
}

proof fn lemma_char_code(c: char)
    ensures
        c != '\r' ==> (c as u32) != 13u32,
        c != ' ' ==> (c as u32) != 32u32,
{
}

/// The UTF-8 bytes of `s` hold a carriage return only where `s` does.
proof fn lemma_utf8_no_cr(s: Seq<char>)
    requires
        !s.contains('\r'),
    ensures
        !encode_utf8(s).contains(13u8),
    decreases s.len(),
{
    if s.len() > 0 {
        let t = s.drop_first();
        assert(!t.contains('\r')) by {
            if t.contains('\r') {
                let k = choose|k: int| 0 <= k < t.len() && t[k] == '\r';
                assert(s[k + 1] == '\r');
                assert(s.contains(s[k + 1]));
            }
        }
        lemma_utf8_no_cr(t);
        lemma_scalar_bytes(s[0] as u32);
        assert(s.contains(s[0]));
        assert(s[0] != '\r');
        assert(('\r' as u32) == 13u32);
        let a = encode_scalar(s[0] as u32);
        let b = encode_utf8(t);
        assert(encode_utf8(s) == a + b);
        let c: char = s[0];
        assert(c != '\r');
        lemma_char_code(c);
        assert forall|k: int| 0 <= k < (a + b).len() implies (a + b)[k] != 13u8 by {
            if k < a.len() {
                assert((a + b)[k] == a[k]);
                if a[k] == 13u8 {
                    assert(encode_scalar(s[0] as u32)[k] == 13u8);
                }
            } else {
                assert((a + b)[k] == b[k - a.len()]);
                if b[k - a.len()] == 13u8 {
                    assert(b.contains(b[k - a.len()]));
                }
            }
        }
    } else {
        assert(encode_utf8(s) =~= Seq::<u8>::empty());
    }
}

/// The line of an unfoldable attribute has no carriage return and does
/// not start with a space.
proof fn lemma_line_bytes(e: (Seq<char>, Seq<char>))
    requires
        entry_unfoldable(e),
    ensures
        !attr_line(e).contains(13u8),
        attr_line(e).len() > 0,
        attr_line(e)[0] != 32u8,
{
    let s = e.0 + ": "@ + e.1;
    reveal_strlit(": ");
    assert(!s.contains('\r')) by {
        if s.contains('\r') {
            let k = choose|k: int| 0 <= k < s.len() && s[k] == '\r';
            if k < e.0.len() {
                assert(e.0[k] == '\r');
                assert(e.0.contains(e.0[k]));
            } else if k >= e.0.len() + 2 {
                assert(e.1[k - e.0.len() - 2] == '\r');
                assert(e.1.contains(e.1[k - e.0.len() - 2]));
            }
        }
    }
    lemma_utf8_no_cr(s);
    assert(s.len() > 0);
    lemma_scalar_bytes(s[0] as u32);
    assert(encode_utf8(s) == encode_scalar(s[0] as u32) + encode_utf8(s.drop_first()));
    assert(s[0] != ' ') by {
        if e.0.len() == 0 {
            assert(s[0] == ':');
        }
    }
    let c: char = s[0];
    assert(c != ' ');
    lemma_char_code(c);
    assert(attr_line(e) == encode_utf8(s));
    assert(encode_utf8(s)[0] == encode_scalar(s[0] as u32)[0]);
}

proof fn lemma_unfold_attr_lines(es: Seq<(Seq<char>, Seq<char>)>, r: Seq<u8>)
    requires
        forall|k: int| 0 <= k < es.len() ==> entry_unfoldable(#[trigger] es[k]),
        r.len() == 0 || r[0] != 32u8,
    ensures
        unfold_lines(attr_lines(es) + r) == plain_lines(es) + unfold_lines(r),
    decreases es.len(),
{
    if es.len() == 0 {
        assert(attr_lines(es) + r =~= r);
        assert(plain_lines(es) + unfold_lines(r) =~= unfold_lines(r));
    } else {
        let last = es.last();
        assert(entry_unfoldable(es[es.len() - 1]));
        lemma_line_bytes(last);
        let line = attr_line(last);
        let f = fold_from(line, 0, true);
        let r2 = f + r;
        assert(f[0] == line[0]) by {
            assert(f == Seq::<u8>::empty() + line.subrange(0, if 72 < line.len() { 72int } else { line.len() as int }) + crlf()
                + fold_from(line, if 72 < line.len() { 72int } else { line.len() as int }, false));
        }
        assert(r2[0] != 32u8);
        lemma_unfold_attr_lines(es.drop_last(), r2);
        lemma_unfold_fold(line, 0, true, r);
        assert(attr_lines(es) + r =~= attr_lines(es.drop_last()) + r2);
        assert(line.subrange(0, line.len() as int) =~= line);
        assert(plain_lines(es) + unfold_lines(r) =~= plain_lines(es.drop_last()) + (line + crlf() + unfold_lines(r)));
    }
}

/// Taking out every CRLF and space that folding put in gives back each
/// attribute's `name: value` line with its CRLF, in order, then the blank
/// line; so folding loses nothing.
pub proof fn lemma_manifest_unfolds(es: Seq<(Seq<char>, Seq<char>)>)
    requires
        forall|k: int| 0 <= k < es.len() ==> entry_unfoldable(#[trigger] es[k]),
    ensures
        unfold_lines(manifest_bytes(es)) == plain_lines(es) + crlf(),
{
    lemma_unfold_attr_lines(es, crlf());
    lemma_unfold_crlf(Seq::empty());
    assert(crlf() + Seq::<u8>::empty() =~= crlf());
    assert(unfold_lines(Seq::<u8>::empty()) =~= Seq::<u8>::empty());
}

} // verus!
