//! Runtime-visible and -invisible annotation builders.
//!
//! `Annotation` carries string descriptors; the indexed form of the class
//! file model is produced when the class is built and the pool is at hand.
//! Annotations are then split into `RuntimeVisibleAnnotations` and
//! `RuntimeInvisibleAnnotations` by each instance's visibility flag.
use vstd::prelude::*;
use crate::assembler::util::{attr_step, push_attr};
use crate::spec::attribute::{attribute_name, Annotation as SpecAnnotation, Attribute, ElementValue as SpecElementValue};
use crate::spec::constant::{intern_spec, lemma_intern_idempotent, pool_wf, Constant, ConstantPool, ConstantView, PoolStep, PoolView};
use crate::spec::error::{Error, Result};

verus! {

/// One annotation instance, attachable to a class, field, or method.
#[derive(Debug, PartialEq)]
pub struct Annotation {
    pub(crate) type_descriptor: String,
    pub(crate) visible: bool,
    pub(crate) elements: Vec<(String, ElementValue)>,
}

/// Annotation element value. Numeric and string payloads are given as
/// values and interned when the class is built; a `Float` or `Double`
/// carries the IEEE 754 bits of the value. Nested annotations and arrays
/// are modelled directly.
#[derive(Debug, PartialEq)]
pub enum ElementValue {
    Byte(i8),
    Char(u16),
    Short(i16),
    Int(i32),
    Long(i64),
    Float(u32),
    Double(u64),
    Boolean(bool),
    String(String),
    /// Field descriptor of the class literal (e.g. `Ljava/lang/String;`,
    /// `[I`, `V`), stored as a `CONSTANT_Utf8`.
    Class(String),
    /// An enum constant: the field descriptor of the enum class and the
    /// constant's name.
    Enum { type_descriptor: String, constant_name: String },
    Annotation(Box<Annotation>),
    Array(Vec<ElementValue>),
}

/// The pool after a run of interning steps, or the pool and the entry count
/// at which it overflowed.
pub type PoolRun = core::result::Result<PoolView, (PoolView, int)>;

pub open spec fn run_of(s: PoolStep) -> PoolRun {
    match s {
        Ok((p, _)) => Ok(p),
        Err(e) => Err(e),
    }
}

/// Whether `r` is the overflow error for a pool of `n` entries.
pub open spec fn overflowed<T>(r: Result<T>, n: int) -> bool {
    r matches Err(Error::TooManyEntries { what, count }) && what@ == "constant pool"@ && count == n
}

/// The constant that a scalar element value interns.
pub open spec fn scalar_constant(e: ElementValue) -> ConstantView {
    match e {
        ElementValue::Byte(v) => ConstantView::Integer(v as i32),
        ElementValue::Char(v) => ConstantView::Integer(v as i32),
        ElementValue::Short(v) => ConstantView::Integer(v as i32),
        ElementValue::Int(v) => ConstantView::Integer(v),
        ElementValue::Long(v) => ConstantView::Long(v),
        ElementValue::Float(b) => ConstantView::Float(b),
        ElementValue::Double(b) => ConstantView::Double(b),
        ElementValue::Boolean(b) => ConstantView::Integer(if b { 1 } else { 0 }),
        ElementValue::String(s) => ConstantView::Utf8(s@),
        ElementValue::Class(d) => ConstantView::Utf8(d@),
        _ => ConstantView::Integer(0),
    }
}

/// The resolved form of a scalar element value whose constant sits at `i`.
pub open spec fn scalar_resolved(e: ElementValue, i: u16) -> SpecElementValue {
    match e {
        ElementValue::Byte(_) => SpecElementValue::Byte(i),
        ElementValue::Char(_) => SpecElementValue::Char(i),
        ElementValue::Short(_) => SpecElementValue::Short(i),
        ElementValue::Int(_) => SpecElementValue::Int(i),
        ElementValue::Long(_) => SpecElementValue::Long(i),
        ElementValue::Float(_) => SpecElementValue::Float(i),
        ElementValue::Double(_) => SpecElementValue::Double(i),
        ElementValue::Boolean(_) => SpecElementValue::Boolean(i),
        ElementValue::String(_) => SpecElementValue::String(i),
        _ => SpecElementValue::Class(i),
    }
}

pub open spec fn is_scalar(e: ElementValue) -> bool {
    !(e is Enum || e is Annotation || e is Array)
}

/// Pool after resolving `e` from `p`: scalars intern their constant, an
/// enum its type descriptor then its constant name, a nested annotation
/// its type descriptor then each pair in order, an array each item in order.
pub closed spec fn elem_run(e: ElementValue, p: PoolView) -> PoolRun
    decreases e,
{
    match e {
        ElementValue::Enum { type_descriptor, constant_name } => match intern_spec(p, ConstantView::Utf8(type_descriptor@)) {
            Err(x) => Err(x),
            Ok((p1, _)) => run_of(intern_spec(p1, ConstantView::Utf8(constant_name@))),
        },
        ElementValue::Annotation(inner) => match intern_spec(p, ConstantView::Utf8(inner.type_descriptor@)) {
            Err(x) => Err(x),
            Ok((p1, _)) => pairs_run(inner.elements@, p1),
        },
        ElementValue::Array(items) => items_run(items@, p),
        _ => run_of(intern_spec(p, scalar_constant(e))),
    }
}

pub closed spec fn items_run(s: Seq<ElementValue>, p: PoolView) -> PoolRun
    decreases s,
{
    if s.len() == 0 {
        Ok(p)
    } else {
        match items_run(s.drop_last(), p) {
            Err(x) => Err(x),
            Ok(p1) => elem_run(s.last(), p1),
        }
    }
}

pub closed spec fn pairs_run(s: Seq<(String, ElementValue)>, p: PoolView) -> PoolRun
    decreases s,
{
    if s.len() == 0 {
        Ok(p)
    } else {
        match pairs_run(s.drop_last(), p) {
            Err(x) => Err(x),
            Ok(p1) => match intern_spec(p1, ConstantView::Utf8(s.last().0@)) {
                Err(x) => Err(x),
                Ok((p2, _)) => elem_run(s.last().1, p2),
            },
        }
    }
}

/// Whether `out` is the resolution of `e` against `p`: every index is the
/// one that interning gives at that point of the run.
pub closed spec fn elem_ok(e: ElementValue, p: PoolView, out: SpecElementValue) -> bool
    decreases e,
{
    match e {
        ElementValue::Enum { type_descriptor, constant_name } => match intern_spec(p, ConstantView::Utf8(type_descriptor@)) {
            Err(_) => false,
            Ok((p1, i)) => match intern_spec(p1, ConstantView::Utf8(constant_name@)) {
                Err(_) => false,
                Ok((_, j)) => out == (SpecElementValue::Enum { type_name_index: i as u16, const_name_index: j as u16 }),
            },
        },
        ElementValue::Annotation(inner) => match intern_spec(p, ConstantView::Utf8(inner.type_descriptor@)) {
            Err(_) => false,
            Ok((p1, i)) => out matches SpecElementValue::Annotation(o)
                && o.type_index == i as u16 && pairs_ok(inner.elements@, p1, o.element_value_pairs@),
        },
        ElementValue::Array(items) => out matches SpecElementValue::Array(outs) && items_ok(items@, p, outs@),
        _ => match intern_spec(p, scalar_constant(e)) {
            Err(_) => false,
            Ok((_, i)) => out == scalar_resolved(e, i as u16),
        },
    }
}

pub closed spec fn items_ok(s: Seq<ElementValue>, p: PoolView, o: Seq<SpecElementValue>) -> bool
    decreases s,
{
    &&& s.len() == o.len()
    &&& s.len() > 0 ==> {
        &&& items_ok(s.drop_last(), p, o.drop_last())
        &&& items_run(s.drop_last(), p) matches Ok(p1) && elem_ok(s.last(), p1, o.last())
    }
}

pub closed spec fn pairs_ok(s: Seq<(String, ElementValue)>, p: PoolView, o: Seq<(u16, SpecElementValue)>) -> bool
    decreases s,
{
    &&& s.len() == o.len()
    &&& s.len() > 0 ==> {
        &&& pairs_ok(s.drop_last(), p, o.drop_last())
        &&& pairs_run(s.drop_last(), p) matches Ok(p1)
            && intern_spec(p1, ConstantView::Utf8(s.last().0@)) matches Ok((p2, i))
            && o.last().0 == i as u16 && elem_ok(s.last().1, p2, o.last().1)
    }
}

/// Pool after resolving an annotation: its type descriptor, then its pairs.
pub closed spec fn ann_run(a: Annotation, p: PoolView) -> PoolRun {
    match intern_spec(p, ConstantView::Utf8(a.type_descriptor@)) {
        Err(x) => Err(x),
        Ok((p1, _)) => pairs_run(a.elements@, p1),
    }
}

/// Whether `out` is the resolution of `a` against `p`.
pub closed spec fn ann_ok(a: Annotation, p: PoolView, out: SpecAnnotation) -> bool {
    match intern_spec(p, ConstantView::Utf8(a.type_descriptor@)) {
        Err(_) => false,
        Ok((p1, i)) => out.type_index == i as u16 && pairs_ok(a.elements@, p1, out.element_value_pairs@),
    }
}

/// The resolution outcome of a run: on success `ok` holds of the output and
/// the pool is the run's; on overflow the error names the entry count.
pub open spec fn resolved<T>(run: PoolRun, pool_after: PoolView, r: Result<T>, ok: spec_fn(T) -> bool) -> bool {
    match run {
        Ok(p) => pool_after == p && (r matches Ok(out) && ok(out)),
        Err((p, n)) => pool_after == p && overflowed(r, n),
    }
}

impl Annotation {
    pub closed spec fn type_descriptor(&self) -> Seq<char> {
        self.type_descriptor@
    }

    pub closed spec fn is_visible(&self) -> bool {
        self.visible
    }

    pub closed spec fn elements(&self) -> Seq<(String, ElementValue)> {
        self.elements@
    }

    /// A `@Retention(RUNTIME)` style annotation: kept in the
    /// `RuntimeVisibleAnnotations` attribute and reflected by the JVM.
    pub fn visible(type_descriptor: &str) -> (a: Self)
        ensures
            a.type_descriptor() == type_descriptor@,
            a.is_visible(),
            a.elements().len() == 0,
    {
        Annotation { type_descriptor: type_descriptor.to_owned(), visible: true, elements: Vec::new() }
    }

    /// A `@Retention(CLASS)` style annotation: kept in
    /// `RuntimeInvisibleAnnotations`, readable by tools that parse class
    /// files but invisible to reflection.
    pub fn invisible(type_descriptor: &str) -> (a: Self)
        ensures
            a.type_descriptor() == type_descriptor@,
            !a.is_visible(),
            a.elements().len() == 0,
    {
        Annotation { type_descriptor: type_descriptor.to_owned(), visible: false, elements: Vec::new() }
    }

    /// Append a `name = value` pair to the annotation body.
    pub fn element(self, name: &str, value: ElementValue) -> (a: Self)
        ensures
            a.type_descriptor() == self.type_descriptor(),
            a.is_visible() == self.is_visible(),
            a.elements().len() == self.elements().len() + 1,
            a.elements().drop_last() == self.elements(),
            a.elements().last().0@ == name@,
            a.elements().last().1 == value,
    {
        let mut a = self;
        a.elements.push((name.to_owned(), value));
        a
    }

    pub(crate) fn resolve(&self, pool: &mut ConstantPool) -> (r: Result<SpecAnnotation>)
        ensures
            resolved(ann_run(*self, old(pool)@), final(pool)@, r, |out: SpecAnnotation| ann_ok(*self, old(pool)@, out)),
    {
        resolve_fields(&self.type_descriptor, &self.elements, pool)
    }
}

impl ElementValue {
    /// A nested annotation as an element value.
    pub fn from_annotation(inner: Annotation) -> (e: Self)
        ensures
            e == ElementValue::Annotation(Box::new(inner)),
    {
        ElementValue::Annotation(Box::new(inner))
    }

    pub(crate) fn resolve(&self, pool: &mut ConstantPool) -> (r: Result<SpecElementValue>)
        ensures
            resolved(elem_run(*self, old(pool)@), final(pool)@, r, |out: SpecElementValue| elem_ok(*self, old(pool)@, out)),
        decreases *self, 2nat,
    {
        match self {
            ElementValue::Enum { type_descriptor, constant_name } => {
                let t = pool.intern_utf8(type_descriptor)?;
                let c = pool.intern_utf8(constant_name)?;
                Ok(SpecElementValue::Enum { type_name_index: t, const_name_index: c })
            },
            ElementValue::Annotation(inner) => {
                let a = resolve_fields(&inner.type_descriptor, &inner.elements, pool)?;
                Ok(SpecElementValue::Annotation(Box::new(a)))
            },
            ElementValue::Array(items) => {
                let v = resolve_items(items, pool)?;
                Ok(SpecElementValue::Array(v))
            },
            _ => {
                let i = pool.intern(scalar_constant_of(self))?;
                Ok(scalar_of(self, i))
            },
        }
    }
}

impl From<Annotation> for ElementValue {
    fn from(a: Annotation) -> (e: Self) {
        Self::from_annotation(a)
    }
}

impl vstd::std_specs::convert::FromSpecImpl<Annotation> for ElementValue {
    open spec fn obeys_from_spec() -> bool {
        true
    }

    open spec fn from_spec(a: Annotation) -> Self {
        ElementValue::Annotation(Box::new(a))
    }
}

fn scalar_constant_of(e: &ElementValue) -> (c: Constant)
    requires
        is_scalar(*e),
    ensures
        c@ == scalar_constant(*e),
{
    match e {
        ElementValue::Byte(v) => Constant::Integer(*v as i32),
        ElementValue::Char(v) => Constant::Integer(*v as i32),
        ElementValue::Short(v) => Constant::Integer(*v as i32),
        ElementValue::Int(v) => Constant::Integer(*v),
        ElementValue::Long(v) => Constant::Long(*v),
        ElementValue::Float(b) => Constant::Float(*b),
        ElementValue::Double(b) => Constant::Double(*b),
        ElementValue::Boolean(b) => Constant::Integer(if *b { 1 } else { 0 }),
        ElementValue::String(s) => Constant::Utf8(s.clone()),
        ElementValue::Class(d) => Constant::Utf8(d.clone()),
        _ => Constant::Integer(0),
    }
}

fn scalar_of(e: &ElementValue, i: u16) -> (out: SpecElementValue)
    ensures
        out == scalar_resolved(*e, i),
{
    match e {
        ElementValue::Byte(_) => SpecElementValue::Byte(i),
        ElementValue::Char(_) => SpecElementValue::Char(i),
        ElementValue::Short(_) => SpecElementValue::Short(i),
        ElementValue::Int(_) => SpecElementValue::Int(i),
        ElementValue::Long(_) => SpecElementValue::Long(i),
        ElementValue::Float(_) => SpecElementValue::Float(i),
        ElementValue::Double(_) => SpecElementValue::Double(i),
        ElementValue::Boolean(_) => SpecElementValue::Boolean(i),
        ElementValue::String(_) => SpecElementValue::String(i),
        _ => SpecElementValue::Class(i),
    }
}

proof fn lemma_items_err(s: Seq<ElementValue>, p: PoolView, k: int)
    requires
        0 <= k <= s.len(),
        items_run(s.take(k), p) is Err,
    ensures
        items_run(s, p) == items_run(s.take(k), p),
    decreases s.len() - k,
{
    if k < s.len() {
        assert(s.take(k + 1).drop_last() =~= s.take(k));
        lemma_items_err(s, p, k + 1);
    } else {
        assert(s.take(k) =~= s);
    }
}

proof fn lemma_pairs_err(s: Seq<(String, ElementValue)>, p: PoolView, k: int)
    requires
        0 <= k <= s.len(),
        pairs_run(s.take(k), p) is Err,
    ensures
        pairs_run(s, p) == pairs_run(s.take(k), p),
    decreases s.len() - k,
{
    if k < s.len() {
        assert(s.take(k + 1).drop_last() =~= s.take(k));
        lemma_pairs_err(s, p, k + 1);
    } else {
        assert(s.take(k) =~= s);
    }
}

fn resolve_items(items: &Vec<ElementValue>, pool: &mut ConstantPool) -> (r: Result<Vec<SpecElementValue>>)
    ensures
        resolved(items_run(items@, old(pool)@), final(pool)@, r, |out: Vec<SpecElementValue>| items_ok(items@, old(pool)@, out@)),
    decreases items@, 0nat,
{
    let mut out: Vec<SpecElementValue> = Vec::new();
    let mut i: usize = 0;
    assert(items@.take(0) =~= Seq::<ElementValue>::empty());
    while i < items.len()
        invariant
            i <= items@.len(),
            items_run(items@.take(i as int), old(pool)@) == Ok::<PoolView, (PoolView, int)>(pool@),
            items_ok(items@.take(i as int), old(pool)@, out@),
        decreases items@.len() - i,
    {
        proof {
            assert(items@.take(i + 1).drop_last() =~= items@.take(i as int));
            assert(items@.take(i + 1).last() == items@[i as int]);
        }
        let x = match items[i].resolve(pool) {
            Ok(x) => x,
            Err(e) => {
                proof { lemma_items_err(items@, old(pool)@, i + 1); }
                return Err(e);
            },
        };
        proof { assert(out@.push(x).drop_last() =~= out@); }
        out.push(x);
        i += 1;
    }
    assert(items@.take(i as int) =~= items@);
    Ok(out)
}

/// Resolve an annotation given by its type descriptor and pairs.
fn resolve_fields(desc: &String, pairs: &Vec<(String, ElementValue)>, pool: &mut ConstantPool) -> (r: Result<SpecAnnotation>)
    ensures
        resolved(
            match intern_spec(old(pool)@, ConstantView::Utf8(desc@)) {
                Err(x) => Err(x),
                Ok((p1, _)) => pairs_run(pairs@, p1),
            },
            final(pool)@,
            r,
            |out: SpecAnnotation| intern_spec(old(pool)@, ConstantView::Utf8(desc@)) matches Ok((p1, i))
                && out.type_index == i as u16 && pairs_ok(pairs@, p1, out.element_value_pairs@),
        ),
    decreases pairs@, 1nat,
{
    let type_index = pool.intern_utf8(desc)?;
    let ghost p1 = pool@;
    let mut out: Vec<(u16, SpecElementValue)> = Vec::new();
    let mut i: usize = 0;
    assert(pairs@.take(0) =~= Seq::<(String, ElementValue)>::empty());
    while i < pairs.len()
        invariant
            i <= pairs@.len(),
            intern_spec(old(pool)@, ConstantView::Utf8(desc@)) matches Ok((q, t)) && q == p1 && t as u16 == type_index,
            pairs_run(pairs@.take(i as int), p1) == Ok::<PoolView, (PoolView, int)>(pool@),
            pairs_ok(pairs@.take(i as int), p1, out@),
        decreases pairs@.len() - i,
    {
        proof {
            assert(pairs@.take(i + 1).drop_last() =~= pairs@.take(i as int));
            assert(pairs@.take(i + 1).last() == pairs@[i as int]);
        }
        let name_index = match pool.intern_utf8(&pairs[i].0) {
            Ok(n) => n,
            Err(e) => {
                proof { lemma_pairs_err(pairs@, p1, i + 1); }
                return Err(e);
            },
        };
        let x = match pairs[i].1.resolve(pool) {
            Ok(x) => x,
            Err(e) => {
                proof { lemma_pairs_err(pairs@, p1, i + 1); }
                return Err(e);
            },
        };
        proof { assert(out@.push((name_index, x)).drop_last() =~= out@); }
        out.push((name_index, x));
        i += 1;
    }
    assert(pairs@.take(i as int) =~= pairs@);
    Ok(SpecAnnotation { type_index, element_value_pairs: out })
}

/// The annotations of `s` whose visibility is `visible`, in order.
pub closed spec fn part(s: Seq<Annotation>, visible: bool) -> Seq<Annotation>
    decreases s.len(),
{
    if s.len() == 0 {
        s
    } else {
        let q = part(s.drop_last(), visible);
        if s.last().visible == visible { q.push(s.last()) } else { q }
    }
}

/// Pool after resolving each annotation of `s` in order.
pub closed spec fn anns_run(s: Seq<Annotation>, p: PoolView) -> PoolRun
    decreases s.len(),
{
    if s.len() == 0 {
        Ok(p)
    } else {
        match anns_run(s.drop_last(), p) {
            Err(x) => Err(x),
            Ok(p1) => ann_run(s.last(), p1),
        }
    }
}

/// Whether `o` resolves `s`, one annotation after the other, from `p`.
pub closed spec fn anns_ok(s: Seq<Annotation>, p: PoolView, o: Seq<SpecAnnotation>) -> bool
    decreases s.len(),
{
    &&& s.len() == o.len()
    &&& s.len() > 0 ==> {
        &&& anns_ok(s.drop_last(), p, o.drop_last())
        &&& anns_run(s.drop_last(), p) matches Ok(p1) && ann_ok(s.last(), p1, o.last())
    }
}

pub open spec fn group_name(visible: bool) -> Seq<char> {
    if visible { "RuntimeVisibleAnnotations"@ } else { "RuntimeInvisibleAnnotations"@ }
}

/// Pool after one visibility group: its annotations, then the attribute
/// name; an empty group does nothing.
pub open spec fn group_run(s: Seq<Annotation>, p: PoolView, visible: bool) -> PoolRun {
    if s.len() == 0 {
        Ok(p)
    } else {
        match anns_run(s, p) {
            Err(x) => Err(x),
            Ok(p1) => run_of(intern_spec(p1, ConstantView::Utf8(group_name(visible)))),
        }
    }
}

/// Whether `a` is the attribute of a group resolved from `p`.
pub open spec fn group_attr_ok(s: Seq<Annotation>, p: PoolView, visible: bool, a: Attribute) -> bool {
    if visible {
        a matches Attribute::RuntimeVisibleAnnotations(v) && anns_ok(s, p, v@)
    } else {
        a matches Attribute::RuntimeInvisibleAnnotations(v) && anns_ok(s, p, v@)
    }
}

/// One group pushed: nothing for an empty group, else on success one
/// attribute appended; on overflow the attributes are left as they were.
pub open spec fn group_pushed(
    s: Seq<Annotation>,
    p: PoolView,
    visible: bool,
    attrs: Seq<Attribute>,
    p_after: PoolView,
    attrs_after: Seq<Attribute>,
    r: Result<()>,
) -> bool {
    match group_run(s, p, visible) {
        Err((q, n)) => p_after == q && attrs_after == attrs && overflowed(r, n),
        Ok(q) => r is Ok && p_after == q && if s.len() == 0 {
            attrs_after == attrs
        } else {
            &&& attrs_after.len() == attrs.len() + 1
            &&& attrs_after.drop_last() == attrs
            &&& group_attr_ok(s, p, visible, attrs_after.last())
        },
    }
}

/// Both groups pushed: the visible annotations first, then the invisible.
pub open spec fn annotations_pushed(
    anns: Seq<Annotation>,
    p: PoolView,
    attrs: Seq<Attribute>,
    p_after: PoolView,
    attrs_after: Seq<Attribute>,
    r: Result<()>,
) -> bool {
    let vis = part(anns, true);
    let inv = part(anns, false);
    match group_run(vis, p, true) {
        Err((q, n)) => p_after == q && attrs_after == attrs && overflowed(r, n),
        Ok(p1) => {
            let k = if vis.len() == 0 { attrs.len() } else { attrs.len() + 1 };
            &&& attrs.len() <= k <= attrs_after.len()
            &&& group_pushed(vis, p, true, attrs, p1, attrs_after.take(k as int), Ok(()))
            &&& group_pushed(inv, p1, false, attrs_after.take(k as int), p_after, attrs_after, r)
        },
    }
}

/// Pool after both visibility groups.
pub open spec fn anns_pool(anns: Seq<Annotation>, p: PoolView) -> PoolRun {
    match group_run(part(anns, true), p, true) {
        Err(x) => Err(x),
        Ok(p1) => group_run(part(anns, false), p1, false),
    }
}

/// How many annotation attributes `anns` give: one per non-empty group.
pub open spec fn ann_attr_count(anns: Seq<Annotation>) -> nat {
    (if part(anns, true).len() > 0 { 1nat } else { 0nat }) + (if part(anns, false).len() > 0 { 1nat } else { 0nat })
}

proof fn lemma_group_err(s: Seq<Annotation>, visible: bool, p: PoolView, k: int)
    requires
        0 <= k <= s.len(),
        anns_run(part(s.take(k), visible), p) is Err,
    ensures
        anns_run(part(s, visible), p) == anns_run(part(s.take(k), visible), p),
    decreases s.len() - k,
{
    if k < s.len() {
        assert(s.take(k + 1).drop_last() =~= s.take(k));
        let q = part(s.take(k), visible);
        if s[k].visible == visible {
            assert(q.push(s[k]).drop_last() =~= q);
        }
        lemma_group_err(s, visible, p, k + 1);
    } else {
        assert(s.take(k) =~= s);
    }
}

/// Resolve the annotations of one visibility and push their attribute.
fn push_annotation_group(pool: &mut ConstantPool, attrs: &mut Vec<Attribute>, anns: &Vec<Annotation>, visible: bool) -> (r: Result<()>)
    ensures
        group_pushed(part(anns@, visible), old(pool)@, visible, old(attrs)@, final(pool)@, final(attrs)@, r),
{
    let mut resolved: Vec<SpecAnnotation> = Vec::new();
    let mut i: usize = 0;
    assert(anns@.take(0) =~= Seq::<Annotation>::empty());
    while i < anns.len()
        invariant
            i <= anns@.len(),
            attrs@ == old(attrs)@,
            anns_run(part(anns@.take(i as int), visible), old(pool)@) == Ok::<PoolView, (PoolView, int)>(pool@),
            anns_ok(part(anns@.take(i as int), visible), old(pool)@, resolved@),
        decreases anns@.len() - i,
    {
        proof {
            assert(anns@.take(i + 1).drop_last() =~= anns@.take(i as int));
            assert(anns@.take(i + 1).last() == anns@[i as int]);
        }
        if anns[i].visible == visible {
            let ghost q = part(anns@.take(i as int), visible);
            proof { assert(q.push(anns@[i as int]).drop_last() =~= q); }
            let x = match anns[i].resolve(pool) {
                Ok(x) => x,
                Err(e) => {
                    proof { lemma_group_err(anns@, visible, old(pool)@, i + 1); }
                    return Err(e);
                },
            };
            proof { assert(resolved@.push(x).drop_last() =~= resolved@); }
            resolved.push(x);
        }
        i += 1;
    }
    assert(anns@.take(i as int) =~= anns@);
    if resolved.len() == 0 {
        return Ok(());
    }
    let attr = if visible {
        Attribute::RuntimeVisibleAnnotations(resolved)
    } else {
        Attribute::RuntimeInvisibleAnnotations(resolved)
    };
    let ghost a0 = attrs@;
    let r = push_attr(pool, attrs, attr);
    proof {
        assert(a0.push(attr).drop_last() =~= a0);
        assert(attribute_name(attr) == Some(group_name(visible)));
    }
    r
}

/// Resolve `annotations` against `pool`, split by visibility, and push the
/// `RuntimeVisibleAnnotations` and `RuntimeInvisibleAnnotations`
/// attributes, each only where it has annotations.
pub(crate) fn push_annotation_attrs(pool: &mut ConstantPool, attrs: &mut Vec<Attribute>, annotations: &Vec<Annotation>) -> (r: Result<()>)
    ensures
        annotations_pushed(annotations@, old(pool)@, old(attrs)@, final(pool)@, final(attrs)@, r),
        match anns_pool(annotations@, old(pool)@) {
            Err((p, n)) => final(pool)@ == p && overflowed(r, n),
            Ok(p) => r is Ok && final(pool)@ == p && final(attrs)@.len() == old(attrs)@.len() + ann_attr_count(annotations@),
        },
{
    let ghost p0 = pool@;
    let ghost a0 = attrs@;
    push_annotation_group(pool, attrs, annotations, true)?;
    let ghost a1 = attrs@;
    let r = push_annotation_group(pool, attrs, annotations, false);
    proof {
        if attrs@ == a1 {
            assert(attrs@.take(a1.len() as int) =~= a1);
        } else {
            assert(attrs@.take(a1.len() as int) =~= attrs@.drop_last());
        }
        if a1 != a0 {
            assert(a1.take(a0.len() as int + 1) =~= a1);
        } else {
            assert(a1.take(a0.len() as int) =~= a1);
        }
    }
    r
}

/// Whether `b` is a copy of the element value `a`: the same variant with
/// the same payload, nested annotations and arrays copied in turn.
pub open spec fn copied_value(a: ElementValue, b: ElementValue) -> bool
    decreases a, 2nat,
{
    match a {
        ElementValue::Annotation(x) => b matches ElementValue::Annotation(y) && x.type_descriptor()
            == y.type_descriptor() && x.is_visible() == y.is_visible() && copied_pairs(x.elements(), y.elements()),
        ElementValue::Array(x) => b matches ElementValue::Array(y) && copied_values(x@, y@),
        _ => a == b,
    }
}

/// Whether `t` holds a copy of each value of `s`, in order.
pub open spec fn copied_values(s: Seq<ElementValue>, t: Seq<ElementValue>) -> bool
    decreases s, 0nat,
{
    &&& s.len() == t.len()
    &&& forall|k: int| 0 <= k < s.len() ==> copied_value(#[trigger] s[k], t[k])
}

/// Whether `t` holds each element name of `s` with a copy of its value, in order.
pub open spec fn copied_pairs(s: Seq<(String, ElementValue)>, t: Seq<(String, ElementValue)>) -> bool
    decreases s, 1nat,
{
    &&& s.len() == t.len()
    &&& forall|k: int| 0 <= k < s.len() ==> (#[trigger] s[k]).0 == t[k].0 && copied_value(s[k].1, t[k].1)
}

/// Whether `b` is a copy of the annotation `a`.
pub open spec fn copied_annotation(a: Annotation, b: Annotation) -> bool {
    &&& a.type_descriptor() == b.type_descriptor()
    &&& a.is_visible() == b.is_visible()
    &&& copied_pairs(a.elements(), b.elements())
}

fn clone_element(e: &ElementValue) -> (r: ElementValue)
    ensures
        copied_value(*e, r),
    decreases *e, 2nat,
{
    match e {
        ElementValue::Byte(v) => ElementValue::Byte(*v),
        ElementValue::Char(v) => ElementValue::Char(*v),
        ElementValue::Short(v) => ElementValue::Short(*v),
        ElementValue::Int(v) => ElementValue::Int(*v),
        ElementValue::Long(v) => ElementValue::Long(*v),
        ElementValue::Float(v) => ElementValue::Float(*v),
        ElementValue::Double(v) => ElementValue::Double(*v),
        ElementValue::Boolean(v) => ElementValue::Boolean(*v),
        ElementValue::String(s) => ElementValue::String(s.clone()),
        ElementValue::Class(s) => ElementValue::Class(s.clone()),
        ElementValue::Enum { type_descriptor, constant_name } => ElementValue::Enum {
            type_descriptor: type_descriptor.clone(),
            constant_name: constant_name.clone(),
        },
        ElementValue::Annotation(inner) => ElementValue::Annotation(Box::new(Annotation {
            type_descriptor: inner.type_descriptor.clone(),
            visible: inner.visible,
            elements: clone_pairs(&inner.elements),
        })),
        ElementValue::Array(items) => ElementValue::Array(clone_items(items)),
    }
}

fn clone_items(items: &Vec<ElementValue>) -> (r: Vec<ElementValue>)
    ensures
        copied_values(items@, r@),
    decreases items@, 0nat,
{
    let mut out: Vec<ElementValue> = Vec::new();
    let mut i: usize = 0;
    while i < items.len()
        invariant
            i <= items@.len(),
            out@.len() == i,
            forall|k: int| 0 <= k < i ==> copied_value(items@[k], #[trigger] out@[k]),
        decreases items@.len() - i,
    {
        out.push(clone_element(&items[i]));
        i += 1;
    }
    out
}

fn clone_pairs(pairs: &Vec<(String, ElementValue)>) -> (r: Vec<(String, ElementValue)>)
    ensures
        copied_pairs(pairs@, r@),
    decreases pairs@, 1nat,
{
    let mut out: Vec<(String, ElementValue)> = Vec::new();
    let mut i: usize = 0;
    while i < pairs.len()
        invariant
            i <= pairs@.len(),
            out@.len() == i,
            forall|k: int| 0 <= k < i ==> (#[trigger] out@[k]).0 == pairs@[k].0 && copied_value(pairs@[k].1, out@[k].1),
        decreases pairs@.len() - i,
    {
        out.push((pairs[i].0.clone(), clone_element(&pairs[i].1)));
        i += 1;
    }
    out
}

impl Clone for ElementValue {
    fn clone(&self) -> (r: Self)
        ensures
            copied_value(*self, r),
    {
        clone_element(self)
    }
}

impl Clone for Annotation {
    fn clone(&self) -> (r: Self)
        ensures
            copied_annotation(*self, r),
    {
        Annotation {
            type_descriptor: self.type_descriptor.clone(),
            visible: self.visible,
            elements: clone_pairs(&self.elements),
        }
    }
}

} // verus!

verus! {

/// A boolean element value resolves to a `Z` value whose index names a
/// `CONSTANT_Integer` of 1 for `true` and 0 for `false`, in the pool that
/// resolving leaves; so the annotation reads back the value it was given.
pub proof fn lemma_boolean_element(b: bool, p: PoolView, out: SpecElementValue)
    requires
        pool_wf(p),
        elem_ok(ElementValue::Boolean(b), p, out),
    ensures
        elem_run(ElementValue::Boolean(b), p) matches Ok(p2) && out matches SpecElementValue::Boolean(i)
            && 1 <= i < p2.len() && (p2[i as int] matches Some(ConstantView::Integer(x)) && (x == 1) == b && (x == 0) == !b),
{
    let e = ElementValue::Boolean(b);
    let c = ConstantView::Integer(if b { 1 } else { 0 });
    lemma_intern_idempotent(p, c);
    let (p2, i) = intern_spec(p, c)->Ok_0;
    assert(p2.len() <= 65535);
    assert(out == SpecElementValue::Boolean(i as u16));
}

/// An `int` element value resolves to an `I` value whose index names a
/// `CONSTANT_Integer` holding that value.
pub proof fn lemma_int_element(v: i32, p: PoolView, out: SpecElementValue)
    requires
        pool_wf(p),
        elem_ok(ElementValue::Int(v), p, out),
    ensures
        elem_run(ElementValue::Int(v), p) matches Ok(p2) && out matches SpecElementValue::Int(i)
            && 1 <= i < p2.len() && p2[i as int] == Some(ConstantView::Integer(v)),
{
    let c = ConstantView::Integer(v);
    lemma_intern_idempotent(p, c);
    let (p2, i) = intern_spec(p, c)->Ok_0;
    assert(p2.len() <= 65535);
    assert(out == SpecElementValue::Int(i as u16));
}

} // verus!
