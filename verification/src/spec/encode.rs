//! Binary encoder that serializes a [`ClassFile`] to its on-disk form.
//!
//! All attribute bodies are written in strict specification order.
//! Predefined attribute names are looked up in the class's constant pool, so
//! the caller is responsible for having interned them before encoding (use
//! [`ConstantPool::intern_utf8`] for that).
use vstd::prelude::*;
use crate::spec::attribute::{
    attribute_name, element_tag, name_index_spec, verification_tag, Annotation, Attribute,
    BootstrapMethod, CodeAttribute, ElementValue, ExceptionHandler, InnerClass, LineNumberEntry,
    LocalVariableEntry, LocalVariableTypeEntry, MethodParameter, ModuleAttribute, ModuleExports,
    ModuleOpens, ModuleProvides, ModuleRequires, RecordComponent, StackMapFrame, TypeAnnotation,
    VerificationType,
};
use crate::spec::classfile::{ClassFile, MAGIC};
use crate::spec::constant::{
    constant_tag, reference_kind_byte, tag_byte, Constant, ConstantPool, ConstantView, PoolView,
};
use crate::spec::error::{Error, Result};
use crate::spec::field::Field;
use crate::spec::method::Method;
use crate::spec::mutf8::encode_chars;
use crate::spec::text::{decimal_chars, push_decimal, push_str};
use crate::spec::wire::{be16, be32, be64, bits32, bits64, i32_bits, i64_bits, push_bytes, push_u16_be, push_u32_be, push_u64_be};

verus! {

/// Why encoding stopped.
pub enum EncodeError {
    /// A counted container was too large; `what` names it.
    TooMany(Seq<char>, int),
    /// A predefined attribute's name is not in the pool.
    Missing(Seq<char>),
    /// A code array does not fit a `u4`.
    CodeTooLarge(int),
    /// Any other violation, with its message.
    Message(Seq<char>),
    /// A branch targets a label that was never placed.
    Unresolved(int),
    /// A branch offset does not fit the given number of bits.
    OutOfRange(int, int),
}

/// Bytes an encoder writes, or why it stops.
pub type Enc = core::result::Result<Seq<u8>, EncodeError>;

/// `a` followed by `b`.
pub open spec fn then(a: Enc, b: Enc) -> Enc {
    match a {
        Err(e) => Err(e),
        Ok(x) => match b {
            Err(e) => Err(e),
            Ok(y) => Ok(x + y),
        },
    }
}

/// Whether `e` is the error that `x` describes.
pub open spec fn error_is(e: Error, x: EncodeError) -> bool {
    match x {
        EncodeError::TooMany(what, n) => e matches Error::TooManyEntries { what: w, count } && w@ == what && count == n,
        EncodeError::Missing(name) => e matches Error::MissingUtf8(s) && s@ == name,
        EncodeError::CodeTooLarge(n) => e matches Error::CodeTooLarge(m) && m == n,
        EncodeError::Message(m) => e matches Error::Encoding(s) && s@ == m,
        EncodeError::Unresolved(id) => e matches Error::UnresolvedLabel(l) && l == id,
        EncodeError::OutOfRange(offset, width) => e matches Error::BranchOutOfRange { offset: o, width_bits: w }
            && o == offset && w == width,
    }
}

/// Whether `new` extends `old`.
pub open spec fn extends(old: Seq<u8>, new: Seq<u8>) -> bool {
    old.len() <= new.len() && new.subrange(0, old.len() as int) == old
}

/// Whether a call that appended to a buffer holding `old`, leaving `new`,
/// with result `r`, did what `e` describes: on success it appended exactly
/// the bytes of `e`; on failure it returned `e`'s error and only appended.
pub open spec fn emitted(old: Seq<u8>, new: Seq<u8>, r: Result<()>, e: Enc) -> bool {
    match e {
        Ok(b) => r is Ok && new == old + b,
        Err(x) => (r matches Err(err) && error_is(err, x)) && extends(old, new),
    }
}

/// A count written as `u2`, or `TooMany` when it does not fit.
pub open spec fn len16(what: Seq<char>, n: int) -> Enc {
    if n > 65535 { Err(EncodeError::TooMany(what, n)) } else { Ok(be16(n as u16)) }
}

/// A count written as `u1`, or `TooMany` when it does not fit.
pub open spec fn len8(what: Seq<char>, n: int) -> Enc {
    if n > 255 { Err(EncodeError::TooMany(what, n)) } else { Ok(seq![n as u8]) }
}

/// Each element encoded by `f`, in order; the first failure stops.
pub open spec fn enc_all<T>(s: Seq<T>, f: spec_fn(T) -> Enc) -> Enc
    decreases s.len(),
{
    if s.len() == 0 { Ok(Seq::empty()) } else { then(enc_all(s.drop_last(), f), f(s.last())) }
}

/// A `u2` count followed by each element.
pub open spec fn counted<T>(what: Seq<char>, s: Seq<T>, f: spec_fn(T) -> Enc) -> Enc {
    then(len16(what, s.len() as int), enc_all(s, f))
}

pub open spec fn u16_enc(v: u16) -> Enc {
    Ok(be16(v))
}

pub proof fn lemma_extends_trans(a: Seq<u8>, b: Seq<u8>, c: Seq<u8>)
    requires
        extends(a, b),
        extends(b, c),
    ensures
        extends(a, c),
{
    assert(c.subrange(0, a.len() as int) =~= b.subrange(0, a.len() as int));
}

pub proof fn lemma_extends_append(a: Seq<u8>, b: Seq<u8>)
    ensures
        extends(a, a + b),
{
    assert((a + b).subrange(0, a.len() as int) =~= a);
}

pub proof fn lemma_enc_all_step<T>(s: Seq<T>, f: spec_fn(T) -> Enc, i: int)
    requires
        0 <= i < s.len(),
    ensures
        enc_all(s.take(i + 1), f) == then(enc_all(s.take(i), f), f(s[i])),
{
    assert(s.take(i + 1).drop_last() =~= s.take(i));
}

pub proof fn lemma_enc_all_err<T>(s: Seq<T>, f: spec_fn(T) -> Enc, i: int)
    requires
        0 <= i <= s.len(),
        enc_all(s.take(i), f) is Err,
    ensures
        enc_all(s, f) == enc_all(s.take(i), f),
    decreases s.len() - i,
{
    if i < s.len() {
        lemma_enc_all_step(s, f, i);
        lemma_enc_all_err(s, f, i + 1);
    } else {
        assert(s.take(i) =~= s);
    }
}

pub proof fn lemma_enc_all_done<T>(s: Seq<T>, f: spec_fn(T) -> Enc)
    ensures
        enc_all(s.take(s.len() as int), f) == enc_all(s, f),
{
    assert(s.take(s.len() as int) =~= s);
}

/// Append `v` as `u2`, failing when `n` does not fit.
fn write_u16_len(out: &mut Vec<u8>, n: usize, what: &'static str) -> (r: Result<()>)
    ensures
        emitted(old(out)@, final(out)@, r, len16(what@, n as int)),
{
    if n > 65535 {
        proof { lemma_extends_append(old(out)@, Seq::empty()); assert(old(out)@ + Seq::<u8>::empty() =~= old(out)@); }
        return Err(Error::TooManyEntries { what, count: n });
    }
    push_u16_be(out, n as u16);
    Ok(())
}

fn write_u8_len(out: &mut Vec<u8>, n: usize, what: &'static str) -> (r: Result<()>)
    ensures
        emitted(old(out)@, final(out)@, r, len8(what@, n as int)),
{
    if n > 255 {
        proof { lemma_extends_append(old(out)@, Seq::empty()); assert(old(out)@ + Seq::<u8>::empty() =~= old(out)@); }
        return Err(Error::TooManyEntries { what, count: n });
    }
    out.push(n as u8);
    assert(out@ =~= old(out)@ + seq![n as u8]);
    Ok(())
}

/// `u2` values, in order.
pub open spec fn u16s_bytes(s: Seq<u16>) -> Seq<u8>
    decreases s.len(),
{
    if s.len() == 0 { Seq::empty() } else { u16s_bytes(s.drop_last()) + be16(s.last()) }
}

/// A `u2` count followed by `u2` values.
pub open spec fn counted_u16s(what: Seq<char>, s: Seq<u16>) -> Enc {
    then(len16(what, s.len() as int), Ok(u16s_bytes(s)))
}

fn write_u16s(out: &mut Vec<u8>, s: &Vec<u16>)
    ensures
        final(out)@ == old(out)@ + u16s_bytes(s@),
{
    let mut i: usize = 0;
    while i < s.len()
        invariant
            i <= s@.len(),
            out@ == old(out)@ + u16s_bytes(s@.take(i as int)),
        decreases s@.len() - i,
    {
        push_u16_be(out, s[i]);
        proof { assert(s@.take(i + 1).drop_last() =~= s@.take(i as int)); }
        i += 1;
        assert(out@ =~= old(out)@ + u16s_bytes(s@.take(i as int)));
    }
    assert(s@.take(i as int) =~= s@);
}

fn write_counted_u16s(out: &mut Vec<u8>, s: &Vec<u16>, what: &'static str) -> (r: Result<()>)
    ensures
        emitted(old(out)@, final(out)@, r, counted_u16s(what@, s@)),
{
    write_u16_len(out, s.len(), what)?;
    write_u16s(out, s);
    assert(out@ =~= old(out)@ + (be16(s@.len() as u16) + u16s_bytes(s@)));
    Ok(())
}

} // verus!

verus! {

/// Whether `n` holds what `m` held plus `b`, given `m` held `o` plus `a`.
pub proof fn lemma_seq_emitted(o: Seq<u8>, m: Seq<u8>, n: Seq<u8>, r1: Result<()>, r2: Result<()>, a: Enc, b: Enc)
    requires
        emitted(o, m, r1, a),
        r1 is Ok,
        emitted(m, n, r2, b),
    ensures
        emitted(o, n, r2, then(a, b)),
{
    let x = a->Ok_0;
    match b {
        Ok(y) => {
            assert(n =~= o + (x + y));
        },
        Err(_) => {
            lemma_extends_append(o, x);
            lemma_extends_trans(o, m, n);
        },
    }
}

/// A failed first step fails the sequence with the same error.
pub proof fn lemma_seq_failed(o: Seq<u8>, m: Seq<u8>, r1: Result<()>, a: Enc, b: Enc)
    requires
        emitted(o, m, r1, a),
        r1 is Err,
    ensures
        emitted(o, m, r1, then(a, b)),
{
}

/// Bytes of a verification type.
pub open spec fn verification_bytes(v: VerificationType) -> Seq<u8> {
    seq![verification_tag(v)] + match v {
        VerificationType::Object { cpool_index } => be16(cpool_index),
        VerificationType::Uninitialized { offset } => be16(offset),
        _ => Seq::empty(),
    }
}

pub open spec fn verifications_bytes(s: Seq<VerificationType>) -> Seq<u8>
    decreases s.len(),
{
    if s.len() == 0 { Seq::empty() } else { verifications_bytes(s.drop_last()) + verification_bytes(s.last()) }
}

/// Bytes of a stack map frame, or why it cannot be written.
pub open spec fn frame_enc(f: StackMapFrame) -> Enc {
    match f {
        StackMapFrame::Same { offset_delta } => if offset_delta > 63 {
            Err(EncodeError::Message("same_frame offset_delta "@ + decimal_chars(offset_delta as nat) + " > 63"@))
        } else {
            Ok(seq![offset_delta])
        },
        StackMapFrame::SameLocals1StackItem { offset_delta, stack } => if offset_delta > 63 {
            Err(EncodeError::Message("same_locals_1 offset_delta "@ + decimal_chars(offset_delta as nat) + " > 63"@))
        } else {
            Ok(seq![(64 + offset_delta) as u8] + verification_bytes(stack))
        },
        StackMapFrame::SameLocals1StackItemExtended { offset_delta, stack } =>
            Ok(seq![247u8] + be16(offset_delta) + verification_bytes(stack)),
        StackMapFrame::Chop { chopped, offset_delta } => if !(1 <= chopped <= 3) {
            Err(EncodeError::Message("chop_frame k="@ + decimal_chars(chopped as nat) + " must be 1..=3"@))
        } else {
            Ok(seq![(251 - chopped) as u8] + be16(offset_delta))
        },
        StackMapFrame::SameExtended { offset_delta } => Ok(seq![251u8] + be16(offset_delta)),
        StackMapFrame::Append { offset_delta, locals } => if !(1 <= locals@.len() <= 3) {
            Err(EncodeError::Message("append_frame locals "@ + decimal_chars(locals@.len()) + " must be 1..=3"@))
        } else {
            Ok(seq![(251 + locals@.len()) as u8] + be16(offset_delta) + verifications_bytes(locals@))
        },
        StackMapFrame::Full { offset_delta, locals, stack } => then(
            then(
                then(Ok(seq![255u8] + be16(offset_delta)), len16("full_frame locals"@, locals@.len() as int)),
                then(Ok(verifications_bytes(locals@)), len16("full_frame stack"@, stack@.len() as int)),
            ),
            Ok(verifications_bytes(stack@)),
        ),
    }
}

fn encode_verification_type(v: VerificationType, out: &mut Vec<u8>)
    ensures
        final(out)@ == old(out)@ + verification_bytes(v),
{
    out.push(v.tag());
    match v {
        VerificationType::Object { cpool_index } => push_u16_be(out, cpool_index),
        VerificationType::Uninitialized { offset } => push_u16_be(out, offset),
        _ => {},
    }
    assert(out@ =~= old(out)@ + verification_bytes(v));
}

fn encode_verification_types(s: &Vec<VerificationType>, out: &mut Vec<u8>)
    ensures
        final(out)@ == old(out)@ + verifications_bytes(s@),
{
    let mut i: usize = 0;
    while i < s.len()
        invariant
            i <= s@.len(),
            out@ == old(out)@ + verifications_bytes(s@.take(i as int)),
        decreases s@.len() - i,
    {
        encode_verification_type(s[i], out);
        proof { assert(s@.take(i + 1).drop_last() =~= s@.take(i as int)); }
        i += 1;
        assert(out@ =~= old(out)@ + verifications_bytes(s@.take(i as int)));
    }
    assert(s@.take(i as int) =~= s@);
}

fn message_with_number(prefix: &str, n: u64, suffix: &str) -> (e: Error)
    ensures
        e matches Error::Encoding(m) && m@ == prefix@ + decimal_chars(n as nat) + suffix@,
{
    let mut m = String::new();
    push_str(&mut m, prefix);
    push_decimal(&mut m, n);
    push_str(&mut m, suffix);
    Error::Encoding(m)
}

fn no_bytes(out: &Vec<u8>)
    ensures
        extends(out@, out@),
{
    assert(out@.subrange(0, out@.len() as int) =~= out@);
}

fn encode_stack_map_frame(frame: &StackMapFrame, out: &mut Vec<u8>) -> (r: Result<()>)
    ensures
        emitted(old(out)@, final(out)@, r, frame_enc(*frame)),
{
    match frame {
        StackMapFrame::Same { offset_delta } => {
            if *offset_delta > 63 {
                no_bytes(out);
                return Err(message_with_number("same_frame offset_delta ", *offset_delta as u64, " > 63"));
            }
            out.push(*offset_delta);
        },
        StackMapFrame::SameLocals1StackItem { offset_delta, stack } => {
            if *offset_delta > 63 {
                no_bytes(out);
                return Err(message_with_number("same_locals_1 offset_delta ", *offset_delta as u64, " > 63"));
            }
            out.push(64 + *offset_delta);
            encode_verification_type(*stack, out);
        },
        StackMapFrame::SameLocals1StackItemExtended { offset_delta, stack } => {
            out.push(247);
            push_u16_be(out, *offset_delta);
            encode_verification_type(*stack, out);
        },
        StackMapFrame::Chop { chopped, offset_delta } => {
            if !(1 <= *chopped && *chopped <= 3) {
                no_bytes(out);
                return Err(message_with_number("chop_frame k=", *chopped as u64, " must be 1..=3"));
            }
            out.push(251 - *chopped);
            push_u16_be(out, *offset_delta);
        },
        StackMapFrame::SameExtended { offset_delta } => {
            out.push(251);
            push_u16_be(out, *offset_delta);
        },
        StackMapFrame::Append { offset_delta, locals } => {
            if !(1 <= locals.len() && locals.len() <= 3) {
                no_bytes(out);
                return Err(message_with_number("append_frame locals ", locals.len() as u64, " must be 1..=3"));
            }
            out.push(251 + locals.len() as u8);
            push_u16_be(out, *offset_delta);
            encode_verification_types(locals, out);
        },
        StackMapFrame::Full { offset_delta, locals, stack } => {
            out.push(255);
            push_u16_be(out, *offset_delta);
            let ghost head = seq![255u8] + be16(*offset_delta);
            assert(out@ =~= old(out)@ + head);
            let ghost m1 = out@;
            let r = write_u16_len(out, locals.len(), "full_frame locals");
            if r.is_err() {
                proof {
                    lemma_extends_append(old(out)@, head);
                    lemma_extends_trans(old(out)@, m1, out@);
                }
                return r;
            }
            encode_verification_types(locals, out);
            let ghost m2 = out@;
            let r = write_u16_len(out, stack.len(), "full_frame stack");
            if r.is_err() {
                proof {
                    lemma_extends_append(old(out)@, m2.subrange(old(out)@.len() as int, m2.len() as int));
                    assert(old(out)@ + m2.subrange(old(out)@.len() as int, m2.len() as int) =~= m2);
                    lemma_extends_trans(old(out)@, m2, out@);
                }
                return r;
            }
            encode_verification_types(stack, out);
            assert(out@ =~= old(out)@ + (head + be16(locals@.len() as u16) + (verifications_bytes(locals@)
                + be16(stack@.len() as u16)) + verifications_bytes(stack@)));
        },
    }
    assert(frame_enc(*frame) is Ok);
    assert(out@ =~= old(out)@ + frame_enc(*frame)->Ok_0);
    Ok(())
}

} // verus!

verus! {

/// Bytes of an element value, or why it cannot be written.
pub open spec fn element_value_enc(e: ElementValue) -> Enc
    decreases e,
{
    let tag = seq![element_tag(e)];
    match e {
        ElementValue::Byte(i) | ElementValue::Char(i) | ElementValue::Double(i) | ElementValue::Float(i)
        | ElementValue::Int(i) | ElementValue::Long(i) | ElementValue::Short(i) | ElementValue::Boolean(i)
        | ElementValue::String(i) | ElementValue::Class(i) => Ok(tag + be16(i)),
        ElementValue::Enum { type_name_index, const_name_index } =>
            Ok(tag + be16(type_name_index) + be16(const_name_index)),
        ElementValue::Annotation(inner) => then(
            Ok(tag + be16(inner.type_index)),
            then(
                len16("element_value_pairs"@, inner.element_value_pairs@.len() as int),
                element_pairs_enc(inner.element_value_pairs@),
            ),
        ),
        ElementValue::Array(items) => then(
            Ok(tag),
            then(len16("element_value array"@, items@.len() as int), element_values_enc(items@)),
        ),
    }
}

pub open spec fn element_values_enc(s: Seq<ElementValue>) -> Enc
    decreases s,
{
    if s.len() == 0 {
        Ok(Seq::empty())
    } else {
        then(element_values_enc(s.drop_last()), element_value_enc(s.last()))
    }
}

pub open spec fn element_pairs_enc(s: Seq<(u16, ElementValue)>) -> Enc
    decreases s,
{
    if s.len() == 0 {
        Ok(Seq::empty())
    } else {
        then(element_pairs_enc(s.drop_last()), then(Ok(be16(s.last().0)), element_value_enc(s.last().1)))
    }
}

/// Bytes of an annotation: type index, pair count, pairs.
pub open spec fn annotation_enc(a: Annotation) -> Enc {
    then(
        Ok(be16(a.type_index)),
        then(len16("element_value_pairs"@, a.element_value_pairs@.len() as int), element_pairs_enc(a.element_value_pairs@)),
    )
}

fn encode_element_pairs(pairs: &Vec<(u16, ElementValue)>, out: &mut Vec<u8>) -> (r: Result<()>)
    ensures
        emitted(old(out)@, final(out)@, r, element_pairs_enc(pairs@)),
    decreases pairs@, 0nat,
{
    let mut i: usize = 0;
    let ghost mut written: Seq<u8> = Seq::empty();
    assert(pairs@.take(0) =~= Seq::<(u16, ElementValue)>::empty());
    while i < pairs.len()
        invariant
            i <= pairs@.len(),
            element_pairs_enc(pairs@.take(i as int)) == Ok::<Seq<u8>, EncodeError>(written),
            out@ == old(out)@ + written,
        decreases pairs@.len() - i,
    {
        let ghost before = out@;
        proof {
            assert(pairs@.take(i + 1).drop_last() =~= pairs@.take(i as int));
            assert(pairs@.take(i + 1).last() == pairs@[i as int]);
        }
        push_u16_be(out, pairs[i].0);
        let r = encode_element_value(&pairs[i].1, out);
        if r.is_err() {
            proof {
                lemma_extends_append(old(out)@, written);
                lemma_extends_append(before, be16(pairs@[i as int].0));
                lemma_extends_trans(before, before + be16(pairs@[i as int].0), out@);
                lemma_extends_trans(old(out)@, before, out@);
                lemma_pairs_err(pairs@, i as int + 1);
            }
            return r;
        }
        proof {
            let x = element_value_enc(pairs@[i as int].1)->Ok_0;
            assert(out@ =~= old(out)@ + (written + (be16(pairs@[i as int].0) + x)));
            written = written + (be16(pairs@[i as int].0) + x);
        }
        i += 1;
    }
    assert(pairs@.take(i as int) =~= pairs@);
    Ok(())
}

proof fn lemma_pairs_err(s: Seq<(u16, ElementValue)>, i: int)
    requires
        0 <= i <= s.len(),
        element_pairs_enc(s.take(i)) is Err,
    ensures
        element_pairs_enc(s) == element_pairs_enc(s.take(i)),
    decreases s.len() - i,
{
    if i < s.len() {
        assert(s.take(i + 1).drop_last() =~= s.take(i));
        lemma_pairs_err(s, i + 1);
    } else {
        assert(s.take(i) =~= s);
    }
}

proof fn lemma_values_err(s: Seq<ElementValue>, i: int)
    requires
        0 <= i <= s.len(),
        element_values_enc(s.take(i)) is Err,
    ensures
        element_values_enc(s) == element_values_enc(s.take(i)),
    decreases s.len() - i,
{
    if i < s.len() {
        assert(s.take(i + 1).drop_last() =~= s.take(i));
        lemma_values_err(s, i + 1);
    } else {
        assert(s.take(i) =~= s);
    }
}

fn encode_element_values(items: &Vec<ElementValue>, out: &mut Vec<u8>) -> (r: Result<()>)
    ensures
        emitted(old(out)@, final(out)@, r, element_values_enc(items@)),
    decreases items@, 0nat,
{
    let mut i: usize = 0;
    let ghost mut written: Seq<u8> = Seq::empty();
    assert(items@.take(0) =~= Seq::<ElementValue>::empty());
    while i < items.len()
        invariant
            i <= items@.len(),
            element_values_enc(items@.take(i as int)) == Ok::<Seq<u8>, EncodeError>(written),
            out@ == old(out)@ + written,
        decreases items@.len() - i,
    {
        let ghost before = out@;
        proof {
            assert(items@.take(i + 1).drop_last() =~= items@.take(i as int));
            assert(items@.take(i + 1).last() == items@[i as int]);
        }
        let r = encode_element_value(&items[i], out);
        if r.is_err() {
            proof {
                lemma_extends_append(old(out)@, written);
                lemma_extends_trans(old(out)@, before, out@);
                lemma_values_err(items@, i as int + 1);
            }
            return r;
        }
        proof {
            let x = element_value_enc(items@[i as int])->Ok_0;
            assert(out@ =~= old(out)@ + (written + x));
            written = written + x;
        }
        i += 1;
    }
    assert(items@.take(i as int) =~= items@);
    Ok(())
}

fn encode_annotation_fields(type_index: u16, pairs: &Vec<(u16, ElementValue)>, out: &mut Vec<u8>) -> (r: Result<()>)
    ensures
        emitted(
            old(out)@,
            final(out)@,
            r,
            then(Ok(be16(type_index)), then(len16("element_value_pairs"@, pairs@.len() as int), element_pairs_enc(pairs@))),
        ),
    decreases pairs@, 1nat,
{
    push_u16_be(out, type_index);
    let ghost m1 = out@;
    let r = write_u16_len(out, pairs.len(), "element_value_pairs");
    if r.is_err() {
        proof {
            lemma_extends_append(old(out)@, be16(type_index));
            lemma_extends_trans(old(out)@, m1, out@);
        }
        return r;
    }
    let ghost m2 = out@;
    let r = encode_element_pairs(pairs, out);
    proof {
        lemma_seq_emitted(m1, m2, out@, Ok(()), r, len16("element_value_pairs"@, pairs@.len() as int), element_pairs_enc(pairs@));
        lemma_seq_emitted(old(out)@, m1, out@, Ok(()), r, Ok(be16(type_index)),
            then(len16("element_value_pairs"@, pairs@.len() as int), element_pairs_enc(pairs@)));
    }
    r
}

fn encode_annotation(a: &Annotation, out: &mut Vec<u8>) -> (r: Result<()>)
    ensures
        emitted(old(out)@, final(out)@, r, annotation_enc(*a)),
{
    encode_annotation_fields(a.type_index, &a.element_value_pairs, out)
}

fn encode_element_value(ev: &ElementValue, out: &mut Vec<u8>) -> (r: Result<()>)
    ensures
        emitted(old(out)@, final(out)@, r, element_value_enc(*ev)),
    decreases *ev, 2nat,
{
    out.push(ev.tag());
    let ghost m1 = out@;
    let ghost tag = seq![element_tag(*ev)];
    assert(m1 =~= old(out)@ + tag);
    match ev {
        ElementValue::Byte(i) | ElementValue::Char(i) | ElementValue::Double(i) | ElementValue::Float(i)
        | ElementValue::Int(i) | ElementValue::Long(i) | ElementValue::Short(i) | ElementValue::Boolean(i)
        | ElementValue::String(i) | ElementValue::Class(i) => {
            push_u16_be(out, *i);
            assert(out@ =~= old(out)@ + (tag + be16(*i)));
            Ok(())
        },
        ElementValue::Enum { type_name_index, const_name_index } => {
            push_u16_be(out, *type_name_index);
            push_u16_be(out, *const_name_index);
            assert(out@ =~= old(out)@ + (tag + be16(*type_name_index) + be16(*const_name_index)));
            Ok(())
        },
        ElementValue::Annotation(inner) => {
            let r = encode_annotation_fields(inner.type_index, &inner.element_value_pairs, out);
            proof {
                let rest = then(
                    len16("element_value_pairs"@, inner.element_value_pairs@.len() as int),
                    element_pairs_enc(inner.element_value_pairs@),
                );
                if r.is_ok() {
                    let x = then(Ok(be16(inner.type_index)), rest)->Ok_0;
                    let y = rest->Ok_0;
                    assert(x == be16(inner.type_index) + y);
                    assert(out@ =~= old(out)@ + ((tag + be16(inner.type_index)) + y));
                } else {
                    lemma_extends_append(old(out)@, tag);
                    lemma_extends_trans(old(out)@, m1, out@);
                }
            }
            r
        },
        ElementValue::Array(items) => {
            let r = write_u16_len(out, items.len(), "element_value array");
            if r.is_err() {
                proof {
                    lemma_extends_append(old(out)@, tag);
                    lemma_extends_trans(old(out)@, m1, out@);
                }
                return r;
            }
            let ghost m2 = out@;
            let r = encode_element_values(items, out);
            proof {
                lemma_seq_emitted(m1, m2, out@, Ok(()), r, len16("element_value array"@, items@.len() as int),
                    element_values_enc(items@));
                lemma_seq_emitted(old(out)@, m1, out@, Ok(()), r, Ok(tag),
                    then(len16("element_value array"@, items@.len() as int), element_values_enc(items@)));
            }
            r
        },
    }
}

} // verus!

verus! {

/// Records that the encoder writes one after another: each has a byte
/// encoding (which may depend on the constant pool) or a reason it cannot
/// be written.
pub trait Encodable: Sized {
    spec fn enc(&self, pool: PoolView) -> Enc;

    fn encode(&self, out: &mut Vec<u8>, pool: &ConstantPool) -> (r: Result<()>)
        ensures
            emitted(old(out)@, final(out)@, r, self.enc(pool@));
}

/// The encoding of every record of `s`, in order.
pub open spec fn items_enc<T: Encodable>(s: Seq<T>, pool: PoolView) -> Enc {
    enc_all(s, |x: T| x.enc(pool))
}

/// A `u2` count followed by every record of `s`.
pub open spec fn counted_items<T: Encodable>(what: Seq<char>, s: Seq<T>, pool: PoolView) -> Enc {
    then(len16(what, s.len() as int), items_enc(s, pool))
}

fn encode_all<T: Encodable>(s: &Vec<T>, out: &mut Vec<u8>, pool: &ConstantPool) -> (r: Result<()>)
    ensures
        emitted(old(out)@, final(out)@, r, items_enc(s@, pool@)),
{
    let ghost f = |x: T| x.enc(pool@);
    let mut i: usize = 0;
    let ghost mut written: Seq<u8> = Seq::empty();
    assert(s@.take(0) =~= Seq::<T>::empty());
    while i < s.len()
        invariant
            i <= s@.len(),
            f == (|x: T| x.enc(pool@)),
            enc_all(s@.take(i as int), f) == Ok::<Seq<u8>, EncodeError>(written),
            out@ == old(out)@ + written,
        decreases s@.len() - i,
    {
        let ghost before = out@;
        proof {
            lemma_enc_all_step(s@, f, i as int);
        }
        let r = s[i].encode(out, pool);
        if r.is_err() {
            proof {
                lemma_extends_append(old(out)@, written);
                lemma_extends_trans(old(out)@, before, out@);
                lemma_enc_all_err(s@, f, i as int + 1);
            }
            return r;
        }
        proof {
            let x = s@[i as int].enc(pool@)->Ok_0;
            assert(out@ =~= old(out)@ + (written + x));
            written = written + x;
        }
        i += 1;
    }
    proof { lemma_enc_all_done(s@, f); }
    Ok(())
}

fn encode_counted<T: Encodable>(s: &Vec<T>, what: &'static str, out: &mut Vec<u8>, pool: &ConstantPool) -> (r: Result<()>)
    ensures
        emitted(old(out)@, final(out)@, r, counted_items(what@, s@, pool@)),
{
    let r = write_u16_len(out, s.len(), what);
    if r.is_err() {
        return r;
    }
    let ghost m = out@;
    let r = encode_all(s, out, pool);
    proof {
        lemma_seq_emitted(old(out)@, m, out@, Ok(()), r, len16(what@, s@.len() as int), items_enc(s@, pool@));
    }
    r
}

impl Encodable for ExceptionHandler {
    open spec fn enc(&self, pool: PoolView) -> Enc {
        Ok(be16(self.start_pc) + be16(self.end_pc) + be16(self.handler_pc) + be16(self.catch_type))
    }

    fn encode(&self, out: &mut Vec<u8>, pool: &ConstantPool) -> (r: Result<()>) {
        push_u16_be(out, self.start_pc);
        push_u16_be(out, self.end_pc);
        push_u16_be(out, self.handler_pc);
        push_u16_be(out, self.catch_type);
        assert(out@ =~= old(out)@ + self.enc(pool@)->Ok_0);
        Ok(())
    }
}

impl Encodable for InnerClass {
    open spec fn enc(&self, pool: PoolView) -> Enc {
        Ok(be16(self.inner_class_info_index) + be16(self.outer_class_info_index) + be16(self.inner_name_index)
            + be16(self.inner_class_access_flags@))
    }

    fn encode(&self, out: &mut Vec<u8>, pool: &ConstantPool) -> (r: Result<()>) {
        push_u16_be(out, self.inner_class_info_index);
        push_u16_be(out, self.outer_class_info_index);
        push_u16_be(out, self.inner_name_index);
        push_u16_be(out, self.inner_class_access_flags.bits());
        assert(out@ =~= old(out)@ + self.enc(pool@)->Ok_0);
        Ok(())
    }
}

impl Encodable for LineNumberEntry {
    open spec fn enc(&self, pool: PoolView) -> Enc {
        Ok(be16(self.start_pc) + be16(self.line_number))
    }

    fn encode(&self, out: &mut Vec<u8>, pool: &ConstantPool) -> (r: Result<()>) {
        push_u16_be(out, self.start_pc);
        push_u16_be(out, self.line_number);
        assert(out@ =~= old(out)@ + self.enc(pool@)->Ok_0);
        Ok(())
    }
}

impl Encodable for LocalVariableEntry {
    open spec fn enc(&self, pool: PoolView) -> Enc {
        Ok(be16(self.start_pc) + be16(self.length) + be16(self.name_index) + be16(self.descriptor_index)
            + be16(self.index))
    }

    fn encode(&self, out: &mut Vec<u8>, pool: &ConstantPool) -> (r: Result<()>) {
        push_u16_be(out, self.start_pc);
        push_u16_be(out, self.length);
        push_u16_be(out, self.name_index);
        push_u16_be(out, self.descriptor_index);
        push_u16_be(out, self.index);
        assert(out@ =~= old(out)@ + self.enc(pool@)->Ok_0);
        Ok(())
    }
}

impl Encodable for LocalVariableTypeEntry {
    open spec fn enc(&self, pool: PoolView) -> Enc {
        Ok(be16(self.start_pc) + be16(self.length) + be16(self.name_index) + be16(self.signature_index)
            + be16(self.index))
    }

    fn encode(&self, out: &mut Vec<u8>, pool: &ConstantPool) -> (r: Result<()>) {
        push_u16_be(out, self.start_pc);
        push_u16_be(out, self.length);
        push_u16_be(out, self.name_index);
        push_u16_be(out, self.signature_index);
        push_u16_be(out, self.index);
        assert(out@ =~= old(out)@ + self.enc(pool@)->Ok_0);
        Ok(())
    }
}

impl Encodable for MethodParameter {
    open spec fn enc(&self, pool: PoolView) -> Enc {
        Ok(be16(self.name_index) + be16(self.access_flags@))
    }

    fn encode(&self, out: &mut Vec<u8>, pool: &ConstantPool) -> (r: Result<()>) {
        push_u16_be(out, self.name_index);
        push_u16_be(out, self.access_flags.bits());
        assert(out@ =~= old(out)@ + self.enc(pool@)->Ok_0);
        Ok(())
    }
}

impl Encodable for ModuleRequires {
    open spec fn enc(&self, pool: PoolView) -> Enc {
        Ok(be16(self.requires_index) + be16(self.requires_flags@) + be16(self.requires_version_index))
    }

    fn encode(&self, out: &mut Vec<u8>, pool: &ConstantPool) -> (r: Result<()>) {
        push_u16_be(out, self.requires_index);
        push_u16_be(out, self.requires_flags.bits());
        push_u16_be(out, self.requires_version_index);
        assert(out@ =~= old(out)@ + self.enc(pool@)->Ok_0);
        Ok(())
    }
}

/// Two `u2` fields followed by a counted `u2` list.
pub open spec fn two_then_list(a: u16, b: u16, what: Seq<char>, s: Seq<u16>) -> Enc {
    then(Ok(be16(a) + be16(b)), counted_u16s(what, s))
}

fn encode_two_then_list(a: u16, b: u16, what: &'static str, s: &Vec<u16>, out: &mut Vec<u8>) -> (r: Result<()>)
    ensures
        emitted(old(out)@, final(out)@, r, two_then_list(a, b, what@, s@)),
{
    push_u16_be(out, a);
    push_u16_be(out, b);
    let ghost m = out@;
    assert(m =~= old(out)@ + (be16(a) + be16(b)));
    let r = write_counted_u16s(out, s, what);
    proof {
        lemma_seq_emitted(old(out)@, m, out@, Ok(()), r, Ok(be16(a) + be16(b)), counted_u16s(what@, s@));
    }
    r
}

impl Encodable for ModuleExports {
    open spec fn enc(&self, pool: PoolView) -> Enc {
        two_then_list(self.exports_index, self.exports_flags@, "exports_to"@, self.exports_to_index@)
    }

    fn encode(&self, out: &mut Vec<u8>, pool: &ConstantPool) -> (r: Result<()>) {
        encode_two_then_list(self.exports_index, self.exports_flags.bits(), "exports_to", &self.exports_to_index, out)
    }
}

impl Encodable for ModuleOpens {
    open spec fn enc(&self, pool: PoolView) -> Enc {
        two_then_list(self.opens_index, self.opens_flags@, "opens_to"@, self.opens_to_index@)
    }

    fn encode(&self, out: &mut Vec<u8>, pool: &ConstantPool) -> (r: Result<()>) {
        encode_two_then_list(self.opens_index, self.opens_flags.bits(), "opens_to", &self.opens_to_index, out)
    }
}

impl Encodable for ModuleProvides {
    open spec fn enc(&self, pool: PoolView) -> Enc {
        then(Ok(be16(self.provides_index)), counted_u16s("provides_with"@, self.provides_with_index@))
    }

    fn encode(&self, out: &mut Vec<u8>, pool: &ConstantPool) -> (r: Result<()>) {
        push_u16_be(out, self.provides_index);
        let ghost m = out@;
        let r = write_counted_u16s(out, &self.provides_with_index, "provides_with");
        proof {
            lemma_seq_emitted(old(out)@, m, out@, Ok(()), r, Ok(be16(self.provides_index)),
                counted_u16s("provides_with"@, self.provides_with_index@));
        }
        r
    }
}

impl Encodable for BootstrapMethod {
    open spec fn enc(&self, pool: PoolView) -> Enc {
        then(Ok(be16(self.bootstrap_method_ref)), counted_u16s("bootstrap_arguments"@, self.bootstrap_arguments@))
    }

    fn encode(&self, out: &mut Vec<u8>, pool: &ConstantPool) -> (r: Result<()>) {
        push_u16_be(out, self.bootstrap_method_ref);
        let ghost m = out@;
        let r = write_counted_u16s(out, &self.bootstrap_arguments, "bootstrap_arguments");
        proof {
            lemma_seq_emitted(old(out)@, m, out@, Ok(()), r, Ok(be16(self.bootstrap_method_ref)),
                counted_u16s("bootstrap_arguments"@, self.bootstrap_arguments@));
        }
        r
    }
}

impl Encodable for Annotation {
    open spec fn enc(&self, pool: PoolView) -> Enc {
        annotation_enc(*self)
    }

    fn encode(&self, out: &mut Vec<u8>, pool: &ConstantPool) -> (r: Result<()>) {
        encode_annotation(self, out)
    }
}

impl Encodable for StackMapFrame {
    open spec fn enc(&self, pool: PoolView) -> Enc {
        frame_enc(*self)
    }

    fn encode(&self, out: &mut Vec<u8>, pool: &ConstantPool) -> (r: Result<()>) {
        encode_stack_map_frame(self, out)
    }
}

/// `(kind, index)` pairs of a type path.
pub open spec fn path_bytes(s: Seq<(u8, u8)>) -> Seq<u8>
    decreases s.len(),
{
    if s.len() == 0 { Seq::empty() } else { path_bytes(s.drop_last()) + seq![s.last().0, s.last().1] }
}

fn write_path(out: &mut Vec<u8>, s: &Vec<(u8, u8)>)
    ensures
        final(out)@ == old(out)@ + path_bytes(s@),
{
    let mut i: usize = 0;
    while i < s.len()
        invariant
            i <= s@.len(),
            out@ == old(out)@ + path_bytes(s@.take(i as int)),
        decreases s@.len() - i,
    {
        out.push(s[i].0);
        out.push(s[i].1);
        proof { assert(s@.take(i + 1).drop_last() =~= s@.take(i as int)); }
        i += 1;
        assert(out@ =~= old(out)@ + path_bytes(s@.take(i as int)));
    }
    assert(s@.take(i as int) =~= s@);
}

impl Encodable for TypeAnnotation {
    open spec fn enc(&self, pool: PoolView) -> Enc {
        then(
            then(Ok(seq![self.target_type] + self.target_info@), len8("type_path"@, self.target_path@.len() as int)),
            then(
                Ok(path_bytes(self.target_path@)),
                then(
                    Ok(be16(self.type_index)),
                    then(
                        len16("element_value_pairs"@, self.element_value_pairs@.len() as int),
                        element_pairs_enc(self.element_value_pairs@),
                    ),
                ),
            ),
        )
    }

    fn encode(&self, out: &mut Vec<u8>, pool: &ConstantPool) -> (r: Result<()>) {
        out.push(self.target_type);
        push_bytes(out, self.target_info.as_slice());
        let ghost m1 = out@;
        assert(m1 =~= old(out)@ + (seq![self.target_type] + self.target_info@));
        let r = write_u8_len(out, self.target_path.len(), "type_path");
        if r.is_err() {
            proof {
                lemma_extends_append(old(out)@, seq![self.target_type] + self.target_info@);
                lemma_extends_trans(old(out)@, m1, out@);
            }
            return r;
        }
        let ghost m2 = out@;
        write_path(out, &self.target_path);
        let ghost m3 = out@;
        let r = encode_annotation_fields(self.type_index, &self.element_value_pairs, out);
        proof {
            let tail = then(
                Ok(be16(self.type_index)),
                then(
                    len16("element_value_pairs"@, self.element_value_pairs@.len() as int),
                    element_pairs_enc(self.element_value_pairs@),
                ),
            );
            lemma_seq_emitted(m2, m3, out@, Ok(()), r, Ok(path_bytes(self.target_path@)), tail);
            let head = then(Ok(seq![self.target_type] + self.target_info@), len8("type_path"@, self.target_path@.len() as int));
            lemma_seq_emitted(m1, m2, out@, Ok(()), r, len8("type_path"@, self.target_path@.len() as int),
                then(Ok(path_bytes(self.target_path@)), tail));
            lemma_seq_emitted(old(out)@, m1, out@, Ok(()), r, Ok(seq![self.target_type] + self.target_info@),
                then(len8("type_path"@, self.target_path@.len() as int), then(Ok(path_bytes(self.target_path@)), tail)));
            lemma_then_assoc(Ok(seq![self.target_type] + self.target_info@), len8("type_path"@, self.target_path@.len() as int),
                then(Ok(path_bytes(self.target_path@)), tail));
        }
        r
    }
}

pub proof fn lemma_then_assoc(a: Enc, b: Enc, c: Enc)
    ensures
        then(then(a, b), c) == then(a, then(b, c)),
{
    if let (Ok(x), Ok(y), Ok(z)) = (a, b, c) {
        assert((x + y) + z =~= x + (y + z));
    }
}

/// A list of annotations for each parameter: a `u1` count, then per
/// parameter a counted annotation list.
impl Encodable for Vec<Annotation> {
    open spec fn enc(&self, pool: PoolView) -> Enc {
        counted_items("annotations"@, self@, pool)
    }

    fn encode(&self, out: &mut Vec<u8>, pool: &ConstantPool) -> (r: Result<()>) {
        encode_counted(self, "annotations", out, pool)
    }
}

} // verus!

verus! {

/// Bytes of a `Module` attribute body.
pub open spec fn module_enc(m: ModuleAttribute, pool: PoolView) -> Enc {
    then(
        Ok(be16(m.module_name_index) + be16(m.module_flags@) + be16(m.module_version_index)),
        then(
            counted_items("module.requires"@, m.requires@, pool),
            then(
                counted_items("module.exports"@, m.exports@, pool),
                then(
                    counted_items("module.opens"@, m.opens@, pool),
                    then(counted_u16s("module.uses"@, m.uses@), counted_items("module.provides"@, m.provides@, pool)),
                ),
            ),
        ),
    )
}

fn encode_module(m: &ModuleAttribute, out: &mut Vec<u8>, pool: &ConstantPool) -> (r: Result<()>)
    ensures
        emitted(old(out)@, final(out)@, r, module_enc(*m, pool@)),
{
    push_u16_be(out, m.module_name_index);
    push_u16_be(out, m.module_flags.bits());
    push_u16_be(out, m.module_version_index);
    let ghost o = old(out)@;
    let ghost head = be16(m.module_name_index) + be16(m.module_flags@) + be16(m.module_version_index);
    let ghost m0 = out@;
    assert(m0 =~= o + head);
    let ghost e5 = counted_items("module.provides"@, m.provides@, pool@);
    let ghost e4 = then(counted_u16s("module.uses"@, m.uses@), e5);
    let ghost e3 = then(counted_items("module.opens"@, m.opens@, pool@), e4);
    let ghost e2 = then(counted_items("module.exports"@, m.exports@, pool@), e3);
    let ghost e1 = then(counted_items("module.requires"@, m.requires@, pool@), e2);
    let r = encode_counted(&m.requires, "module.requires", out, pool);
    if r.is_err() {
        proof {
            lemma_seq_failed(m0, out@, r, counted_items("module.requires"@, m.requires@, pool@), e2);
            lemma_seq_emitted(o, m0, out@, Ok(()), r, Ok(head), e1);
        }
        return r;
    }
    let ghost m1 = out@;
    let r = encode_counted(&m.exports, "module.exports", out, pool);
    if r.is_err() {
        proof {
            lemma_seq_failed(m1, out@, r, counted_items("module.exports"@, m.exports@, pool@), e3);
            lemma_seq_emitted(m0, m1, out@, Ok(()), r, counted_items("module.requires"@, m.requires@, pool@), e2);
            lemma_seq_emitted(o, m0, out@, Ok(()), r, Ok(head), e1);
        }
        return r;
    }
    let ghost m2 = out@;
    let r = encode_counted(&m.opens, "module.opens", out, pool);
    if r.is_err() {
        proof {
            lemma_seq_failed(m2, out@, r, counted_items("module.opens"@, m.opens@, pool@), e4);
            lemma_seq_emitted(m1, m2, out@, Ok(()), r, counted_items("module.exports"@, m.exports@, pool@), e3);
            lemma_seq_emitted(m0, m1, out@, Ok(()), r, counted_items("module.requires"@, m.requires@, pool@), e2);
            lemma_seq_emitted(o, m0, out@, Ok(()), r, Ok(head), e1);
        }
        return r;
    }
    let ghost m3 = out@;
    let r = write_counted_u16s(out, &m.uses, "module.uses");
    if r.is_err() {
        proof {
            lemma_seq_failed(m3, out@, r, counted_u16s("module.uses"@, m.uses@), e5);
            lemma_seq_emitted(m2, m3, out@, Ok(()), r, counted_items("module.opens"@, m.opens@, pool@), e4);
            lemma_seq_emitted(m1, m2, out@, Ok(()), r, counted_items("module.exports"@, m.exports@, pool@), e3);
            lemma_seq_emitted(m0, m1, out@, Ok(()), r, counted_items("module.requires"@, m.requires@, pool@), e2);
            lemma_seq_emitted(o, m0, out@, Ok(()), r, Ok(head), e1);
        }
        return r;
    }
    let ghost m4 = out@;
    let r = encode_counted(&m.provides, "module.provides", out, pool);
    proof {
        lemma_seq_emitted(m3, m4, out@, Ok(()), r, counted_u16s("module.uses"@, m.uses@), e5);
        lemma_seq_emitted(m2, m3, out@, Ok(()), r, counted_items("module.opens"@, m.opens@, pool@), e4);
        lemma_seq_emitted(m1, m2, out@, Ok(()), r, counted_items("module.exports"@, m.exports@, pool@), e3);
        lemma_seq_emitted(m0, m1, out@, Ok(()), r, counted_items("module.requires"@, m.requires@, pool@), e2);
        lemma_seq_emitted(o, m0, out@, Ok(()), r, Ok(head), e1);
    }
    r
}

/// Body of every attribute kind except `Code` and `Record`, which nest
/// attributes and are described by [`attribute_enc`].
pub open spec fn simple_body(a: Attribute, pool: PoolView) -> Enc {
    match a {
        Attribute::Raw { info, .. } => Ok(info@),
        Attribute::ConstantValue { constantvalue_index } => Ok(be16(constantvalue_index)),
        Attribute::StackMapTable(frames) => counted_items("StackMapTable frames"@, frames@, pool),
        Attribute::Exceptions { exception_index_table } => counted_u16s("Exceptions"@, exception_index_table@),
        Attribute::InnerClasses(items) => counted_items("InnerClasses"@, items@, pool),
        Attribute::EnclosingMethod { class_index, method_index } => Ok(be16(class_index) + be16(method_index)),
        Attribute::Synthetic | Attribute::Deprecated => Ok(Seq::empty()),
        Attribute::Signature { signature_index } => Ok(be16(signature_index)),
        Attribute::SourceFile { sourcefile_index } => Ok(be16(sourcefile_index)),
        Attribute::SourceDebugExtension(bytes) => Ok(bytes@),
        Attribute::LineNumberTable(items) => counted_items("LineNumberTable"@, items@, pool),
        Attribute::LocalVariableTable(items) => counted_items("LocalVariableTable"@, items@, pool),
        Attribute::LocalVariableTypeTable(items) => counted_items("LocalVariableTypeTable"@, items@, pool),
        Attribute::RuntimeVisibleAnnotations(anns) | Attribute::RuntimeInvisibleAnnotations(anns) =>
            counted_items("annotations"@, anns@, pool),
        Attribute::RuntimeVisibleParameterAnnotations(params)
        | Attribute::RuntimeInvisibleParameterAnnotations(params) =>
            then(len8("parameter annotations"@, params@.len() as int), items_enc(params@, pool)),
        Attribute::RuntimeVisibleTypeAnnotations(anns) | Attribute::RuntimeInvisibleTypeAnnotations(anns) =>
            counted_items("type annotations"@, anns@, pool),
        Attribute::AnnotationDefault(ev) => element_value_enc(ev),
        Attribute::BootstrapMethods(methods) => counted_items("BootstrapMethods"@, methods@, pool),
        Attribute::MethodParameters(params) =>
            then(len8("MethodParameters"@, params@.len() as int), items_enc(params@, pool)),
        Attribute::Module(m) => module_enc(*m, pool),
        Attribute::ModulePackages { package_indices } => counted_u16s("ModulePackages"@, package_indices@),
        Attribute::ModuleMainClass { main_class_index } => Ok(be16(main_class_index)),
        Attribute::NestHost { host_class_index } => Ok(be16(host_class_index)),
        Attribute::NestMembers { classes } => counted_u16s("NestMembers"@, classes@),
        Attribute::PermittedSubclasses { classes } => counted_u16s("PermittedSubclasses"@, classes@),
        Attribute::Code(_) | Attribute::Record(_) => Ok(Seq::empty()),
    }
}

fn encode_simple_body(attr: &Attribute, out: &mut Vec<u8>, pool: &ConstantPool) -> (r: Result<()>)
    requires
        !(attr is Code || attr is Record),
    ensures
        emitted(old(out)@, final(out)@, r, simple_body(*attr, pool@)),
{
    match attr {
        Attribute::Raw { info, .. } => {
            push_bytes(out, info.as_slice());
            Ok(())
        },
        Attribute::ConstantValue { constantvalue_index } => {
            push_u16_be(out, *constantvalue_index);
            Ok(())
        },
        Attribute::StackMapTable(frames) => encode_counted(frames, "StackMapTable frames", out, pool),
        Attribute::Exceptions { exception_index_table } => write_counted_u16s(out, exception_index_table, "Exceptions"),
        Attribute::InnerClasses(items) => encode_counted(items, "InnerClasses", out, pool),
        Attribute::EnclosingMethod { class_index, method_index } => {
            push_u16_be(out, *class_index);
            push_u16_be(out, *method_index);
            assert(out@ =~= old(out)@ + (be16(*class_index) + be16(*method_index)));
            Ok(())
        },
        Attribute::Synthetic | Attribute::Deprecated => {
            assert(out@ =~= old(out)@ + Seq::<u8>::empty());
            Ok(())
        },
        Attribute::Signature { signature_index } => {
            push_u16_be(out, *signature_index);
            Ok(())
        },
        Attribute::SourceFile { sourcefile_index } => {
            push_u16_be(out, *sourcefile_index);
            Ok(())
        },
        Attribute::SourceDebugExtension(bytes) => {
            push_bytes(out, bytes.as_slice());
            Ok(())
        },
        Attribute::LineNumberTable(items) => encode_counted(items, "LineNumberTable", out, pool),
        Attribute::LocalVariableTable(items) => encode_counted(items, "LocalVariableTable", out, pool),
        Attribute::LocalVariableTypeTable(items) => encode_counted(items, "LocalVariableTypeTable", out, pool),
        Attribute::RuntimeVisibleAnnotations(anns) | Attribute::RuntimeInvisibleAnnotations(anns) =>
            encode_counted(anns, "annotations", out, pool),
        Attribute::RuntimeVisibleParameterAnnotations(params)
        | Attribute::RuntimeInvisibleParameterAnnotations(params) => {
            let r = write_u8_len(out, params.len(), "parameter annotations");
            if r.is_err() {
                return r;
            }
            let ghost m = out@;
            let r = encode_all(params, out, pool);
            proof {
                lemma_seq_emitted(old(out)@, m, out@, Ok(()), r, len8("parameter annotations"@, params@.len() as int),
                    items_enc(params@, pool@));
            }
            r
        },
        Attribute::RuntimeVisibleTypeAnnotations(anns) | Attribute::RuntimeInvisibleTypeAnnotations(anns) =>
            encode_counted(anns, "type annotations", out, pool),
        Attribute::AnnotationDefault(ev) => encode_element_value(ev, out),
        Attribute::BootstrapMethods(methods) => encode_counted(methods, "BootstrapMethods", out, pool),
        Attribute::MethodParameters(params) => {
            let r = write_u8_len(out, params.len(), "MethodParameters");
            if r.is_err() {
                return r;
            }
            let ghost m = out@;
            let r = encode_all(params, out, pool);
            proof {
                lemma_seq_emitted(old(out)@, m, out@, Ok(()), r, len8("MethodParameters"@, params@.len() as int),
                    items_enc(params@, pool@));
            }
            r
        },
        Attribute::Module(m) => encode_module(m, out, pool),
        Attribute::ModulePackages { package_indices } => write_counted_u16s(out, package_indices, "ModulePackages"),
        Attribute::ModuleMainClass { main_class_index } => {
            push_u16_be(out, *main_class_index);
            Ok(())
        },
        Attribute::NestHost { host_class_index } => {
            push_u16_be(out, *host_class_index);
            Ok(())
        },
        Attribute::NestMembers { classes } => write_counted_u16s(out, classes, "NestMembers"),
        Attribute::PermittedSubclasses { classes } => write_counted_u16s(out, classes, "PermittedSubclasses"),
        Attribute::Code(_) | Attribute::Record(_) => Ok(()),
    }
}

} // verus!

verus! {

/// Length prefix of a code array, or `CodeTooLarge` past `u4`.
pub open spec fn code_len_enc(n: int) -> Enc {
    if n > u32::MAX { Err(EncodeError::CodeTooLarge(n)) } else { Ok(be32(n as u32)) }
}

/// Message of the error for an attribute body past `u4`.
pub open spec fn body_too_large_message(n: nat) -> Seq<char> {
    "attribute body "@ + decimal_chars(n) + " bytes > u4"@
}

/// Bytes of an attribute: resolved name index, `u4` body length, body.
pub open spec fn attribute_enc(a: Attribute, pool: PoolView) -> Enc
    decreases a,
{
    let body = match a {
        Attribute::Code(code) => then(
            Ok(be16(code.max_stack) + be16(code.max_locals)),
            then(
                code_len_enc(code.code@.len() as int),
                then(
                    Ok(code.code@),
                    then(
                        counted_items("exception_table"@, code.exception_table@, pool),
                        then(len16("attributes"@, code.attributes@.len() as int), attribute_list_enc(code.attributes@, pool)),
                    ),
                ),
            ),
        ),
        Attribute::Record(components) => then(
            len16("Record"@, components@.len() as int),
            record_components_enc(components@, pool),
        ),
        _ => simple_body(a, pool),
    };
    match name_index_spec(a, pool) {
        Err(name) => Err(EncodeError::Missing(name)),
        Ok(idx) => match body {
            Err(e) => Err(e),
            Ok(b) => if b.len() > u32::MAX {
                Err(EncodeError::Message(body_too_large_message(b.len())))
            } else {
                Ok(be16(idx) + be32(b.len() as u32) + b)
            },
        },
    }
}

/// Attributes one after another, without their count.
pub open spec fn attribute_list_enc(s: Seq<Attribute>, pool: PoolView) -> Enc
    decreases s,
{
    if s.len() == 0 {
        Ok(Seq::empty())
    } else {
        then(attribute_list_enc(s.drop_last(), pool), attribute_enc(s.last(), pool))
    }
}

/// Record components one after another.
pub open spec fn record_components_enc(s: Seq<RecordComponent>, pool: PoolView) -> Enc
    decreases s,
{
    if s.len() == 0 {
        Ok(Seq::empty())
    } else {
        let c = s.last();
        then(
            record_components_enc(s.drop_last(), pool),
            then(
                Ok(be16(c.name_index) + be16(c.descriptor_index)),
                then(len16("attributes"@, c.attributes@.len() as int), attribute_list_enc(c.attributes@, pool)),
            ),
        )
    }
}

/// A `u2` count followed by the attributes.
pub open spec fn attributes_enc(s: Seq<Attribute>, pool: PoolView) -> Enc {
    then(len16("attributes"@, s.len() as int), attribute_list_enc(s, pool))
}

proof fn lemma_attribute_list_err(s: Seq<Attribute>, pool: PoolView, i: int)
    requires
        0 <= i <= s.len(),
        attribute_list_enc(s.take(i), pool) is Err,
    ensures
        attribute_list_enc(s, pool) == attribute_list_enc(s.take(i), pool),
    decreases s.len() - i,
{
    if i < s.len() {
        assert(s.take(i + 1).drop_last() =~= s.take(i));
        lemma_attribute_list_err(s, pool, i + 1);
    } else {
        assert(s.take(i) =~= s);
    }
}

proof fn lemma_records_err(s: Seq<RecordComponent>, pool: PoolView, i: int)
    requires
        0 <= i <= s.len(),
        record_components_enc(s.take(i), pool) is Err,
    ensures
        record_components_enc(s, pool) == record_components_enc(s.take(i), pool),
    decreases s.len() - i,
{
    if i < s.len() {
        assert(s.take(i + 1).drop_last() =~= s.take(i));
        lemma_records_err(s, pool, i + 1);
    } else {
        assert(s.take(i) =~= s);
    }
}

fn encode_attribute_list(s: &Vec<Attribute>, out: &mut Vec<u8>, pool: &ConstantPool) -> (r: Result<()>)
    ensures
        emitted(old(out)@, final(out)@, r, attribute_list_enc(s@, pool@)),
    decreases s@, 0nat,
{
    let mut i: usize = 0;
    let ghost mut written: Seq<u8> = Seq::empty();
    assert(s@.take(0) =~= Seq::<Attribute>::empty());
    while i < s.len()
        invariant
            i <= s@.len(),
            attribute_list_enc(s@.take(i as int), pool@) == Ok::<Seq<u8>, EncodeError>(written),
            out@ == old(out)@ + written,
        decreases s@.len() - i,
    {
        let ghost before = out@;
        proof {
            assert(s@.take(i + 1).drop_last() =~= s@.take(i as int));
            assert(s@.take(i + 1).last() == s@[i as int]);
        }
        let r = encode_attribute(&s[i], out, pool);
        if r.is_err() {
            proof {
                lemma_extends_append(old(out)@, written);
                lemma_extends_trans(old(out)@, before, out@);
                lemma_attribute_list_err(s@, pool@, i as int + 1);
            }
            return r;
        }
        proof {
            let x = attribute_enc(s@[i as int], pool@)->Ok_0;
            assert(out@ =~= old(out)@ + (written + x));
            written = written + x;
        }
        i += 1;
    }
    assert(s@.take(i as int) =~= s@);
    Ok(())
}

fn encode_counted_attributes(s: &Vec<Attribute>, out: &mut Vec<u8>, pool: &ConstantPool) -> (r: Result<()>)
    ensures
        emitted(old(out)@, final(out)@, r, attributes_enc(s@, pool@)),
    decreases s@, 1nat,
{
    let r = write_u16_len(out, s.len(), "attributes");
    if r.is_err() {
        return r;
    }
    let ghost m = out@;
    let r = encode_attribute_list(s, out, pool);
    proof {
        lemma_seq_emitted(old(out)@, m, out@, Ok(()), r, len16("attributes"@, s@.len() as int), attribute_list_enc(s@, pool@));
    }
    r
}

fn encode_records(s: &Vec<RecordComponent>, out: &mut Vec<u8>, pool: &ConstantPool) -> (r: Result<()>)
    ensures
        emitted(old(out)@, final(out)@, r, record_components_enc(s@, pool@)),
    decreases s@, 0nat,
{
    let mut i: usize = 0;
    let ghost mut written: Seq<u8> = Seq::empty();
    assert(s@.take(0) =~= Seq::<RecordComponent>::empty());
    while i < s.len()
        invariant
            i <= s@.len(),
            record_components_enc(s@.take(i as int), pool@) == Ok::<Seq<u8>, EncodeError>(written),
            out@ == old(out)@ + written,
        decreases s@.len() - i,
    {
        let ghost before = out@;
        proof {
            assert(s@.take(i + 1).drop_last() =~= s@.take(i as int));
            assert(s@.take(i + 1).last() == s@[i as int]);
        }
        let c = &s[i];
        push_u16_be(out, c.name_index);
        push_u16_be(out, c.descriptor_index);
        let ghost mid = out@;
        let ghost head = be16(c.name_index) + be16(c.descriptor_index);
        assert(mid =~= before + head);
        let r = encode_counted_attributes(&c.attributes, out, pool);
        proof {
            lemma_seq_emitted(before, mid, out@, Ok(()), r, Ok(head), attributes_enc(c.attributes@, pool@));
        }
        if r.is_err() {
            proof {
                lemma_extends_append(old(out)@, written);
                lemma_extends_trans(old(out)@, before, out@);
                lemma_records_err(s@, pool@, i as int + 1);
            }
            return r;
        }
        proof {
            let x = then(Ok(head), attributes_enc(c.attributes@, pool@))->Ok_0;
            assert(out@ =~= old(out)@ + (written + x));
            written = written + x;
        }
        i += 1;
    }
    assert(s@.take(i as int) =~= s@);
    Ok(())
}

/// The body of a `Code` attribute as [`attribute_enc`] describes it.
pub open spec fn code_body_enc(code: CodeAttribute, pool: PoolView) -> Enc {
    then(
        Ok(be16(code.max_stack) + be16(code.max_locals)),
        then(
            code_len_enc(code.code@.len() as int),
            then(
                Ok(code.code@),
                then(counted_items("exception_table"@, code.exception_table@, pool), attributes_enc(code.attributes@, pool)),
            ),
        ),
    )
}

fn encode_code(code: &CodeAttribute, out: &mut Vec<u8>, pool: &ConstantPool) -> (r: Result<()>)
    ensures
        emitted(old(out)@, final(out)@, r, code_body_enc(*code, pool@)),
    decreases *code, 2nat,
{
    let ghost o = old(out)@;
    push_u16_be(out, code.max_stack);
    push_u16_be(out, code.max_locals);
    let ghost head = be16(code.max_stack) + be16(code.max_locals);
    let ghost m0 = out@;
    assert(m0 =~= o + head);
    let ghost e4 = then(counted_items("exception_table"@, code.exception_table@, pool@), attributes_enc(code.attributes@, pool@));
    let ghost e3 = then(Ok(code.code@), e4);
    let ghost e2 = then(code_len_enc(code.code@.len() as int), e3);
    if code.code.len() > 0xFFFF_FFFF {
        no_bytes(out);
        proof {
            lemma_extends_append(o, head);
            lemma_seq_emitted(o, m0, out@, Ok(()), Err(Error::CodeTooLarge(code.code@.len() as usize)),
                Ok(head), e2);
        }
        return Err(Error::CodeTooLarge(code.code.len()));
    }
    push_u32_be(out, code.code.len() as u32);
    let ghost m1 = out@;
    push_bytes(out, code.code.as_slice());
    let ghost m2 = out@;
    let r = encode_counted(&code.exception_table, "exception_table", out, pool);
    if r.is_err() {
        proof {
            lemma_seq_failed(m2, out@, r, counted_items("exception_table"@, code.exception_table@, pool@),
                attributes_enc(code.attributes@, pool@));
            lemma_seq_emitted(m1, m2, out@, Ok(()), r, Ok(code.code@), e4);
            lemma_seq_emitted(m0, m1, out@, Ok(()), r, code_len_enc(code.code@.len() as int), e3);
            lemma_seq_emitted(o, m0, out@, Ok(()), r, Ok(head), e2);
        }
        return r;
    }
    let ghost m3 = out@;
    let r = encode_counted_attributes(&code.attributes, out, pool);
    proof {
        lemma_seq_emitted(m2, m3, out@, Ok(()), r, counted_items("exception_table"@, code.exception_table@, pool@),
            attributes_enc(code.attributes@, pool@));
        lemma_seq_emitted(m1, m2, out@, Ok(()), r, Ok(code.code@), e4);
        lemma_seq_emitted(m0, m1, out@, Ok(()), r, code_len_enc(code.code@.len() as int), e3);
        lemma_seq_emitted(o, m0, out@, Ok(()), r, Ok(head), e2);
    }
    r
}

/// The body of any attribute, as [`attribute_enc`] describes it.
pub open spec fn attribute_body_enc(a: Attribute, pool: PoolView) -> Enc {
    match a {
        Attribute::Code(code) => code_body_enc(code, pool),
        Attribute::Record(components) => then(len16("Record"@, components@.len() as int), record_components_enc(components@, pool)),
        _ => simple_body(a, pool),
    }
}

fn encode_attribute_body(attr: &Attribute, out: &mut Vec<u8>, pool: &ConstantPool) -> (r: Result<()>)
    ensures
        emitted(old(out)@, final(out)@, r, attribute_body_enc(*attr, pool@)),
    decreases *attr, 3nat,
{
    match attr {
        Attribute::Code(code) => encode_code(code, out, pool),
        Attribute::Record(components) => {
            let r = write_u16_len(out, components.len(), "Record");
            if r.is_err() {
                return r;
            }
            let ghost m = out@;
            let r = encode_records(components, out, pool);
            proof {
                lemma_seq_emitted(old(out)@, m, out@, Ok(()), r, len16("Record"@, components@.len() as int),
                    record_components_enc(components@, pool@));
            }
            r
        },
        _ => encode_simple_body(attr, out, pool),
    }
}

fn encode_attribute(attr: &Attribute, out: &mut Vec<u8>, pool: &ConstantPool) -> (r: Result<()>)
    ensures
        emitted(old(out)@, final(out)@, r, attribute_enc(*attr, pool@)),
    decreases *attr, 4nat,
{
    let idx = match attr.resolve_name_index(pool) {
        Ok(i) => i,
        Err(e) => {
            no_bytes(out);
            return Err(e);
        },
    };
    push_u16_be(out, idx);
    let mut body: Vec<u8> = Vec::new();
    let r = encode_attribute_body(attr, &mut body, pool);
    proof {
        assert(attribute_body_enc(*attr, pool@) == match *attr {
            Attribute::Code(code) => code_body_enc(code, pool@),
            Attribute::Record(components) => then(len16("Record"@, components@.len() as int), record_components_enc(components@, pool@)),
            _ => simple_body(*attr, pool@),
        });
    }
    if r.is_err() {
        proof { lemma_extends_append(old(out)@, be16(idx)); }
        return r;
    }
    proof { assert(body@ =~= Seq::<u8>::empty() + body@); }
    if body.len() > 0xFFFF_FFFF {
        proof { lemma_extends_append(old(out)@, be16(idx)); }
        let mut m = String::new();
        push_str(&mut m, "attribute body ");
        push_decimal(&mut m, body.len() as u64);
        push_str(&mut m, " bytes > u4");
        return Err(Error::Encoding(m));
    }
    push_u32_be(out, body.len() as u32);
    push_bytes(out, body.as_slice());
    assert(out@ =~= old(out)@ + (be16(idx) + be32(body@.len() as u32) + body@));
    Ok(())
}

} // verus!

verus! {

/// Bytes of one constant pool entry: tag, then payload.
pub open spec fn constant_bytes(c: ConstantView) -> Seq<u8> {
    seq![tag_byte(constant_tag(c))] + match c {
        ConstantView::Utf8(s) => be16(encode_chars(s).len() as u16) + encode_chars(s),
        ConstantView::Integer(v) => be32(bits32(v)),
        ConstantView::Float(b) => be32(b),
        ConstantView::Long(v) => be64(bits64(v)),
        ConstantView::Double(b) => be64(b),
        ConstantView::Class { name_index } => be16(name_index),
        ConstantView::Module { name_index } => be16(name_index),
        ConstantView::Package { name_index } => be16(name_index),
        ConstantView::String { string_index } => be16(string_index),
        ConstantView::Fieldref { class_index, name_and_type_index }
        | ConstantView::Methodref { class_index, name_and_type_index }
        | ConstantView::InterfaceMethodref { class_index, name_and_type_index } =>
            be16(class_index) + be16(name_and_type_index),
        ConstantView::NameAndType { name_index, descriptor_index } => be16(name_index) + be16(descriptor_index),
        ConstantView::MethodHandle { reference_kind, reference_index } =>
            seq![reference_kind_byte(reference_kind)] + be16(reference_index),
        ConstantView::MethodType { descriptor_index } => be16(descriptor_index),
        ConstantView::Dynamic { bootstrap_method_attr_index, name_and_type_index }
        | ConstantView::InvokeDynamic { bootstrap_method_attr_index, name_and_type_index } =>
            be16(bootstrap_method_attr_index) + be16(name_and_type_index),
    }
}

/// One pool entry, or `TooMany` for a `CONSTANT_Utf8` whose modified UTF-8
/// bytes do not fit the entry's `u2` length.
pub open spec fn constant_enc(c: ConstantView) -> Enc {
    match c {
        ConstantView::Utf8(s) => if encode_chars(s).len() > 65535 {
            Err(EncodeError::TooMany("CONSTANT_Utf8 bytes"@, encode_chars(s).len() as int))
        } else {
            Ok(constant_bytes(c))
        },
        _ => Ok(constant_bytes(c)),
    }
}

/// Every occupied slot of the pool, in slot order; the first entry that
/// cannot be written stops it.
pub open spec fn pool_enc(v: PoolView) -> Enc
    decreases v.len(),
{
    if v.len() == 0 {
        Ok(Seq::empty())
    } else {
        then(
            pool_enc(v.drop_last()),
            match v.last() {
                Some(c) => constant_enc(c),
                None => Ok(Seq::empty()),
            },
        )
    }
}

fn encode_constant(c: &Constant, out: &mut Vec<u8>) -> (r: Result<()>)
    ensures
        emitted(old(out)@, final(out)@, r, constant_enc(c@)),
{
    if let Constant::Utf8(s) = c {
        let bytes = crate::spec::mutf8::encode(s.as_str());
        if bytes.len() > 65535 {
            proof { lemma_extends_append(old(out)@, Seq::empty()); assert(old(out)@ + Seq::<u8>::empty() =~= old(out)@); }
            return Err(Error::TooManyEntries { what: "CONSTANT_Utf8 bytes", count: bytes.len() });
        }
        out.push(c.tag().to_u8());
        push_u16_be(out, bytes.len() as u16);
        push_bytes(out, bytes.as_slice());
        assert(out@ =~= old(out)@ + constant_bytes(c@));
        return Ok(());
    }
    out.push(c.tag().to_u8());
    match c {
        Constant::Utf8(_) => {},
        Constant::Integer(v) => push_u32_be(out, i32_bits(*v)),
        Constant::Float(bits) => push_u32_be(out, *bits),
        Constant::Long(v) => push_u64_be(out, i64_bits(*v)),
        Constant::Double(bits) => push_u64_be(out, *bits),
        Constant::Class { name_index } | Constant::Module { name_index } | Constant::Package { name_index } =>
            push_u16_be(out, *name_index),
        Constant::String { string_index } => push_u16_be(out, *string_index),
        Constant::Fieldref { class_index, name_and_type_index }
        | Constant::Methodref { class_index, name_and_type_index }
        | Constant::InterfaceMethodref { class_index, name_and_type_index } => {
            push_u16_be(out, *class_index);
            push_u16_be(out, *name_and_type_index);
        },
        Constant::NameAndType { name_index, descriptor_index } => {
            push_u16_be(out, *name_index);
            push_u16_be(out, *descriptor_index);
        },
        Constant::MethodHandle { reference_kind, reference_index } => {
            out.push(reference_kind.to_u8());
            push_u16_be(out, *reference_index);
        },
        Constant::MethodType { descriptor_index } => push_u16_be(out, *descriptor_index),
        Constant::Dynamic { bootstrap_method_attr_index, name_and_type_index }
        | Constant::InvokeDynamic { bootstrap_method_attr_index, name_and_type_index } => {
            push_u16_be(out, *bootstrap_method_attr_index);
            push_u16_be(out, *name_and_type_index);
        },
    }
    assert(out@ =~= old(out)@ + constant_bytes(c@));
    Ok(())
}

fn encode_pool_entries(pool: &ConstantPool, out: &mut Vec<u8>) -> (r: Result<()>)
    ensures
        emitted(old(out)@, final(out)@, r, pool_enc(pool@)),
{
    let n = pool.slot_count();
    let ghost o = old(out)@;
    let mut i: usize = 0;
    assert(pool@.take(0) =~= Seq::<Option<ConstantView>>::empty());
    assert(o + Seq::<u8>::empty() =~= o);
    while i < n
        invariant
            i <= n,
            n == pool@.len(),
            n <= 65535,
            o == old(out)@,
            emitted(o, out@, Ok(()), pool_enc(pool@.take(i as int))),
        decreases n - i,
    {
        proof {
            assert(pool@.take(i + 1).drop_last() =~= pool@.take(i as int));
            assert(pool@.take(i + 1).last() == pool@[i as int]);
        }
        let ghost m = out@;
        let ghost step = match pool@[i as int] {
            Some(c) => constant_enc(c),
            None => Ok(Seq::<u8>::empty()),
        };
        let r = match pool.get(i as u16) {
            Some(c) => encode_constant(c, out),
            None => {
                assert(out@ =~= m + Seq::<u8>::empty());
                Ok(())
            },
        };
        proof {
            lemma_seq_emitted(o, m, out@, Ok(()), r, pool_enc(pool@.take(i as int)), step);
        }
        if r.is_err() {
            proof { lemma_pool_enc_err(pool@, i as int + 1); }
            return r;
        }
        i += 1;
    }
    assert(pool@.take(i as int) =~= pool@);
    Ok(())
}

/// A pool encoding that failed on a prefix fails the same way on the whole.
proof fn lemma_pool_enc_err(v: PoolView, k: int)
    requires
        0 <= k <= v.len(),
        pool_enc(v.take(k)) is Err,
    ensures
        pool_enc(v) == pool_enc(v.take(k)),
    decreases v.len() - k,
{
    if k < v.len() {
        assert(v.take(k + 1).drop_last() =~= v.take(k));
        lemma_pool_enc_err(v, k + 1);
    } else {
        assert(v.take(k) =~= v);
    }
}

impl Encodable for Field {
    open spec fn enc(&self, pool: PoolView) -> Enc {
        then(
            Ok(be16(self.access_flags@) + be16(self.name_index) + be16(self.descriptor_index)),
            attributes_enc(self.attributes@, pool),
        )
    }

    fn encode(&self, out: &mut Vec<u8>, pool: &ConstantPool) -> (r: Result<()>) {
        push_u16_be(out, self.access_flags.bits());
        push_u16_be(out, self.name_index);
        push_u16_be(out, self.descriptor_index);
        let ghost head = be16(self.access_flags@) + be16(self.name_index) + be16(self.descriptor_index);
        let ghost m = out@;
        assert(m =~= old(out)@ + head);
        let r = encode_counted_attributes(&self.attributes, out, pool);
        proof {
            lemma_seq_emitted(old(out)@, m, out@, Ok(()), r, Ok(head), attributes_enc(self.attributes@, pool@));
        }
        r
    }
}

impl Encodable for Method {
    open spec fn enc(&self, pool: PoolView) -> Enc {
        then(
            Ok(be16(self.access_flags@) + be16(self.name_index) + be16(self.descriptor_index)),
            attributes_enc(self.attributes@, pool),
        )
    }

    fn encode(&self, out: &mut Vec<u8>, pool: &ConstantPool) -> (r: Result<()>) {
        push_u16_be(out, self.access_flags.bits());
        push_u16_be(out, self.name_index);
        push_u16_be(out, self.descriptor_index);
        let ghost head = be16(self.access_flags@) + be16(self.name_index) + be16(self.descriptor_index);
        let ghost m = out@;
        assert(m =~= old(out)@ + head);
        let r = encode_counted_attributes(&self.attributes, out, pool);
        proof {
            lemma_seq_emitted(old(out)@, m, out@, Ok(()), r, Ok(head), attributes_enc(self.attributes@, pool@));
        }
        r
    }
}

/// Start of a class file: magic, version and `constant_pool_count`.
pub open spec fn class_prefix_bytes(cf: ClassFile) -> Seq<u8> {
    be32(MAGIC) + be16(cf.version.minor) + be16(cf.version.major) + be16(cf.constant_pool@.len() as u16)
}

/// The fields after the pool: access flags, this and super class.
pub open spec fn class_ids_bytes(cf: ClassFile) -> Seq<u8> {
    be16(cf.access_flags@) + be16(cf.this_class) + be16(cf.super_class)
}

/// Bytes of a whole class file, or why it cannot be written.
pub open spec fn class_file_enc(cf: ClassFile) -> Enc {
    let pool = cf.constant_pool@;
    then(
        Ok(class_prefix_bytes(cf)),
        then(
            pool_enc(pool),
            then(
                Ok(class_ids_bytes(cf)),
                then(
                    counted_u16s("interfaces"@, cf.interfaces@),
                    then(
                        counted_items("fields"@, cf.fields@, pool),
                        then(counted_items("methods"@, cf.methods@, pool), attributes_enc(cf.attributes@, pool)),
                    ),
                ),
            ),
        ),
    )
}

/// Encode a class file into the provided buffer.
pub fn encode_into(cf: &ClassFile, out: &mut Vec<u8>) -> (r: Result<()>)
    ensures
        emitted(old(out)@, final(out)@, r, class_file_enc(*cf)),
{
    let ghost o = old(out)@;
    let ghost pool = cf.constant_pool@;
    push_u32_be(out, MAGIC);
    push_u16_be(out, cf.version.minor);
    push_u16_be(out, cf.version.major);
    push_u16_be(out, cf.constant_pool.count());
    let ghost p0 = out@;
    assert(p0 =~= o + class_prefix_bytes(*cf));
    let ghost e0 = then(
        Ok(class_ids_bytes(*cf)),
        then(
            counted_u16s("interfaces"@, cf.interfaces@),
            then(
                counted_items("fields"@, cf.fields@, pool),
                then(counted_items("methods"@, cf.methods@, pool), attributes_enc(cf.attributes@, pool)),
            ),
        ),
    );
    let r = encode_pool_entries(&cf.constant_pool, out);
    if r.is_err() {
        proof {
            lemma_seq_failed(p0, out@, r, pool_enc(pool), e0);
            lemma_seq_emitted(o, p0, out@, Ok(()), r, Ok(class_prefix_bytes(*cf)), then(pool_enc(pool), e0));
        }
        return r;
    }
    let ghost p1 = out@;
    let ghost head = class_prefix_bytes(*cf) + pool_enc(pool)->Ok_0 + class_ids_bytes(*cf);
    push_u16_be(out, cf.access_flags.bits());
    push_u16_be(out, cf.this_class);
    push_u16_be(out, cf.super_class);
    let ghost m0 = out@;
    assert(m0 =~= o + head);
    let ghost e4 = then(counted_items("methods"@, cf.methods@, pool), attributes_enc(cf.attributes@, pool));
    let ghost e3 = then(counted_items("fields"@, cf.fields@, pool), e4);
    let ghost e2 = then(counted_u16s("interfaces"@, cf.interfaces@), e3);
    proof {
        let pb = pool_enc(pool)->Ok_0;
        assert(p1 =~= p0 + pb);
        if let Ok(y) = e2 {
            assert(class_prefix_bytes(*cf) + (pb + (class_ids_bytes(*cf) + y)) =~= head + y);
        }
        assert(class_file_enc(*cf) == then(Ok(head), e2));
    }
    let r = write_counted_u16s(out, &cf.interfaces, "interfaces");
    if r.is_err() {
        proof {
            lemma_seq_failed(m0, out@, r, counted_u16s("interfaces"@, cf.interfaces@), e3);
            lemma_seq_emitted(o, m0, out@, Ok(()), r, Ok(head), e2);
        }
        return r;
    }
    let ghost m1 = out@;
    let r = encode_counted(&cf.fields, "fields", out, &cf.constant_pool);
    if r.is_err() {
        proof {
            lemma_seq_failed(m1, out@, r, counted_items("fields"@, cf.fields@, pool), e4);
            lemma_seq_emitted(m0, m1, out@, Ok(()), r, counted_u16s("interfaces"@, cf.interfaces@), e3);
            lemma_seq_emitted(o, m0, out@, Ok(()), r, Ok(head), e2);
        }
        return r;
    }
    let ghost m2 = out@;
    let r = encode_counted(&cf.methods, "methods", out, &cf.constant_pool);
    if r.is_err() {
        proof {
            lemma_seq_failed(m2, out@, r, counted_items("methods"@, cf.methods@, pool), attributes_enc(cf.attributes@, pool));
            lemma_seq_emitted(m1, m2, out@, Ok(()), r, counted_items("fields"@, cf.fields@, pool), e4);
            lemma_seq_emitted(m0, m1, out@, Ok(()), r, counted_u16s("interfaces"@, cf.interfaces@), e3);
            lemma_seq_emitted(o, m0, out@, Ok(()), r, Ok(head), e2);
        }
        return r;
    }
    let ghost m3 = out@;
    let r = encode_counted_attributes(&cf.attributes, out, &cf.constant_pool);
    proof {
        lemma_seq_emitted(m2, m3, out@, Ok(()), r, counted_items("methods"@, cf.methods@, pool), attributes_enc(cf.attributes@, pool));
        lemma_seq_emitted(m1, m2, out@, Ok(()), r, counted_items("fields"@, cf.fields@, pool), e4);
        lemma_seq_emitted(m0, m1, out@, Ok(()), r, counted_u16s("interfaces"@, cf.interfaces@), e3);
        lemma_seq_emitted(o, m0, out@, Ok(()), r, Ok(head), e2);
    }
    r
}

/// Encode a class file to bytes.
pub fn encode(cf: &ClassFile) -> (r: Result<Vec<u8>>)
    ensures
        match class_file_enc(*cf) {
            Ok(b) => r matches Ok(v) && v@ == b,
            Err(x) => r matches Err(e) && error_is(e, x),
        },
{
    let mut buf: Vec<u8> = Vec::with_capacity(256);
    let r = encode_into(cf, &mut buf);
    match r {
        Ok(()) => {
            assert(buf@ =~= Seq::<u8>::empty() + buf@);
            Ok(buf)
        },
        Err(e) => Err(e),
    }
}

} // verus!

verus! {

/// A chop frame that drops `k` locals (1 to 3) is written as frame type
/// `251 - k`, which a reader turns back into `k`, then `offset_delta` as a
/// big-endian `u2`.
pub proof fn lemma_chop_frame_bytes(k: u8, offset_delta: u16)
    requires
        1 <= k <= 3,
    ensures
        frame_enc(StackMapFrame::Chop { chopped: k, offset_delta }) matches Ok(b) && b.len() == 3
            && 248 <= b[0] <= 250 && 251 - b[0] == k && b[1] * 256 + b[2] == offset_delta,
{
}

/// An append frame that adds `n` locals (1 to 3) is written as frame type
/// `251 + n`, then `offset_delta` as a big-endian `u2`, then the locals.
pub proof fn lemma_append_frame_bytes(offset_delta: u16, locals: Vec<VerificationType>)
    requires
        1 <= locals@.len() <= 3,
    ensures
        frame_enc(StackMapFrame::Append { offset_delta, locals }) matches Ok(b) && 252 <= b[0] <= 254
            && b[0] - 251 == locals@.len() && b[1] * 256 + b[2] == offset_delta,
{
}

} // verus!
