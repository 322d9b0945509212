//! Builder for a single `field_info`.
use vstd::prelude::*;
use crate::assembler::access::AccessFlags;
use crate::assembler::annotation::{anns_pool, ann_attr_count, annotations_pushed, overflowed, push_annotation_attrs, Annotation};
use crate::assembler::util::{extras_run, flag_stage, push_attr, push_attrs, signature_stage, then_attr, AttrRun};
use crate::spec::access::FieldAccess;
use crate::spec::attribute::Attribute;
use crate::spec::constant::{step_result, intern_spec, intern_string_spec, Constant, ConstantPool, ConstantView, PoolStep, PoolView};
use crate::spec::error::{Error, Result};
use crate::spec::field::Field;

verus! {

/// Value of a `ConstantValue` attribute. A `Float` or `Double` carries the
/// IEEE 754 bits of the value.
#[derive(Debug, Clone, PartialEq)]
pub enum FieldConstant {
    Int(i32),
    Long(i64),
    Float(u32),
    Double(u64),
    String(String),
}

/// Interning the constant of a `ConstantValue` attribute.
pub open spec fn field_constant_step(c: FieldConstant, p: PoolView) -> PoolStep {
    match c {
        FieldConstant::Int(v) => intern_spec(p, ConstantView::Integer(v)),
        FieldConstant::Long(v) => intern_spec(p, ConstantView::Long(v)),
        FieldConstant::Float(b) => intern_spec(p, ConstantView::Float(b)),
        FieldConstant::Double(b) => intern_spec(p, ConstantView::Double(b)),
        FieldConstant::String(s) => intern_string_spec(p, s@),
    }
}

#[derive(Debug)]
pub struct FieldBuilder {
    pub(crate) name: String,
    pub(crate) descriptor: String,
    pub(crate) access_flags: AccessFlags,
    pub(crate) constant_value: Option<FieldConstant>,
    pub(crate) signature: Option<String>,
    pub(crate) synthetic: bool,
    pub(crate) deprecated: bool,
    pub(crate) annotations: Vec<Annotation>,
    pub(crate) extra_attributes: Vec<Attribute>,
}

impl Default for FieldBuilder {
    /// A builder with an empty name and descriptor, as `new` leaves the rest.
    fn default() -> (f: Self)
        ensures
            f.name().len() == 0,
            f.descriptor().len() == 0,
            f.flags()@ == 0,
            f.constant() is None,
            f.signature_text() is None,
            !f.is_synthetic(),
            !f.is_deprecated(),
            f.annotation_list().len() == 0,
            f.extra().len() == 0,
    {
        FieldBuilder {
            name: String::new(),
            descriptor: String::new(),
            access_flags: AccessFlags::empty(),
            constant_value: None,
            signature: None,
            synthetic: false,
            deprecated: false,
            annotations: Vec::new(),
            extra_attributes: Vec::new(),
        }
    }
}

impl FieldBuilder {
    pub closed spec fn name(&self) -> Seq<char> {
        self.name@
    }

    pub closed spec fn descriptor(&self) -> Seq<char> {
        self.descriptor@
    }

    pub closed spec fn flags(&self) -> AccessFlags {
        self.access_flags
    }

    pub closed spec fn constant(&self) -> Option<FieldConstant> {
        self.constant_value
    }

    pub closed spec fn signature_text(&self) -> Option<String> {
        self.signature
    }

    pub closed spec fn is_synthetic(&self) -> bool {
        self.synthetic
    }

    pub closed spec fn is_deprecated(&self) -> bool {
        self.deprecated
    }

    pub closed spec fn annotation_list(&self) -> Seq<Annotation> {
        self.annotations@
    }

    pub closed spec fn extra(&self) -> Seq<Attribute> {
        self.extra_attributes@
    }

    /// `self` with the access flags replaced.
    pub closed spec fn with_flags(self, v: AccessFlags) -> Self {
        FieldBuilder { access_flags: v, ..self }
    }

    /// `self` with the constant value replaced.
    pub closed spec fn with_constant(self, v: Option<FieldConstant>) -> Self {
        FieldBuilder { constant_value: v, ..self }
    }

    /// `self` with the signature replaced.
    pub closed spec fn with_signature(self, v: Option<String>) -> Self {
        FieldBuilder { signature: v, ..self }
    }

    /// `self` with the synthetic flag replaced.
    pub closed spec fn with_synthetic(self, v: bool) -> Self {
        FieldBuilder { synthetic: v, ..self }
    }

    /// `self` with the deprecated flag replaced.
    pub closed spec fn with_deprecated(self, v: bool) -> Self {
        FieldBuilder { deprecated: v, ..self }
    }

    /// `a` and `b` agree but for their annotation lists.
    pub closed spec fn same_except_annotations(a: Self, b: Self) -> bool {
        b == (FieldBuilder { annotations: b.annotations, ..a })
    }

    /// `a` and `b` agree but for their extra attributes.
    pub closed spec fn same_except_extra(a: Self, b: Self) -> bool {
        b == (FieldBuilder { extra_attributes: b.extra_attributes, ..a })
    }

    /// Indices of the name and descriptor, then the fixed attributes in
    /// order: `ConstantValue`, `Signature`, `Synthetic`, `Deprecated`,
    /// each where it was asked for.
    pub open spec fn head_run(&self, p: PoolView) -> core::result::Result<(PoolView, Seq<Attribute>, u16, u16), (PoolView, int)> {
        match intern_spec(p, ConstantView::Utf8(self.name())) {
            Err(x) => Err(x),
            Ok((p1, ni)) => match intern_spec(p1, ConstantView::Utf8(self.descriptor())) {
                Err(x) => Err(x),
                Ok((p2, di)) => {
                    let start: AttrRun = Ok((p2, Seq::empty()));
                    let with_value = match self.constant() {
                        Some(c) => then_attr(
                            start,
                            |q: PoolView| field_constant_step(c, q),
                            |i: u16| Attribute::ConstantValue { constantvalue_index: i },
                        ),
                        None => start,
                    };
                    let run = flag_stage(
                        flag_stage(signature_stage(with_value, self.signature_text()), self.is_synthetic(), Attribute::Synthetic),
                        self.is_deprecated(),
                        Attribute::Deprecated,
                    );
                    match run {
                        Err(x) => Err(x),
                        Ok((q, attrs)) => Ok((q, attrs, ni as u16, di as u16)),
                    }
                },
            },
        }
    }

    /// What `into_field` gives and leaves in the pool: the head, then the
    /// annotation attributes, then the extra attributes as given.
    pub open spec fn field_result(&self, p: PoolView, pool_after: PoolView, r: Result<Field>) -> bool {
        match self.head_run(p) {
            Err((q, n)) => pool_after == q && overflowed(r, n),
            Ok((p6, head, ni, di)) => match anns_pool(self.annotation_list(), p6) {
                Err((q, n)) => pool_after == q && overflowed(r, n),
                Ok(p7) => match extras_run(self.extra(), p7) {
                    Err((q, n)) => pool_after == q && overflowed(r, n),
                    Ok(p8) => pool_after == p8 && (r matches Ok(f) && {
                        let k = head.len() + ann_attr_count(self.annotation_list());
                        &&& f.access_flags == FieldAccess::from_bits_truncate_spec(self.flags()@)
                        &&& f.name_index == ni
                        &&& f.descriptor_index == di
                        &&& k <= f.attributes@.len()
                        &&& f.attributes@.take(head.len() as int) == head
                        &&& annotations_pushed(self.annotation_list(), p6, head, p7, f.attributes@.take(k as int), Ok(()))
                        &&& f.attributes@.skip(k as int) == self.extra()
                    }),
                },
            },
        }
    }

    /// The pool that `into_field` leaves, or where it overflowed.
    pub open spec fn field_pool(&self, p: PoolView) -> core::result::Result<PoolView, (PoolView, int)> {
        match self.head_run(p) {
            Err(x) => Err(x),
            Ok((p6, _, _, _)) => match anns_pool(self.annotation_list(), p6) {
                Err(x) => Err(x),
                Ok(p7) => extras_run(self.extra(), p7),
            },
        }
    }

    pub fn new(name: &str, descriptor: &str) -> (f: Self)
        ensures
            f.name() == name@,
            f.descriptor() == descriptor@,
            f.flags()@ == 0,
            f.constant() is None,
            f.signature_text() is None,
            !f.is_synthetic(),
            !f.is_deprecated(),
            f.annotation_list().len() == 0,
            f.extra().len() == 0,
    {
        FieldBuilder {
            name: name.to_owned(),
            descriptor: descriptor.to_owned(),
            access_flags: AccessFlags::empty(),
            constant_value: None,
            signature: None,
            synthetic: false,
            deprecated: false,
            annotations: Vec::new(),
            extra_attributes: Vec::new(),
        }
    }

    pub fn access_flags(self, flags: AccessFlags) -> (f: Self)
        ensures
            f == self.with_flags(flags),
    {
        FieldBuilder { access_flags: flags, ..self }
    }

    pub fn constant_value(self, value: FieldConstant) -> (f: Self)
        ensures
            f == self.with_constant(Some(value)),
    {
        FieldBuilder { constant_value: Some(value), ..self }
    }

    pub fn signature(self, s: &str) -> (f: Self)
        ensures
            f.signature_text() matches Some(t) && t@ == s@,
            f == self.with_signature(f.signature_text()),
    {
        FieldBuilder { signature: Some(s.to_owned()), ..self }
    }

    pub fn synthetic(self) -> (f: Self)
        ensures
            f == self.with_synthetic(true),
    {
        FieldBuilder { synthetic: true, ..self }
    }

    pub fn deprecated(self) -> (f: Self)
        ensures
            f == self.with_deprecated(true),
    {
        FieldBuilder { deprecated: true, ..self }
    }

    /// Attach an annotation; it lands in the visible or invisible
    /// annotations attribute of the field by its visibility.
    pub fn annotation(self, a: Annotation) -> (f: Self)
        ensures
            f.annotation_list() == self.annotation_list().push(a),
            Self::same_except_annotations(self, f),
    {
        let mut f = self;
        f.annotations.push(a);
        f
    }

    /// Attach a raw attribute to the emitted `field_info`.
    pub fn attribute(self, attr: Attribute) -> (f: Self)
        ensures
            f.extra() == self.extra().push(attr),
            Self::same_except_extra(self, f),
    {
        let mut f = self;
        f.extra_attributes.push(attr);
        f
    }
}

fn intern_field_constant(c: &FieldConstant, pool: &mut ConstantPool) -> (r: Result<u16>)
    ensures
        step_result(final(pool)@, r, field_constant_step(*c, old(pool)@)),
{
    match c {
        FieldConstant::Int(v) => pool.intern(Constant::Integer(*v)),
        FieldConstant::Long(v) => pool.intern(Constant::Long(*v)),
        FieldConstant::Float(b) => pool.intern(Constant::Float(*b)),
        FieldConstant::Double(b) => pool.intern(Constant::Double(*b)),
        FieldConstant::String(s) => pool.intern_string(s),
    }
}

impl FieldBuilder {
    pub(crate) fn into_field(self, pool: &mut ConstantPool) -> (r: Result<Field>)
        ensures
            self.field_result(old(pool)@, final(pool)@, r),
            match self.field_pool(old(pool)@) {
                Ok(p) => final(pool)@ == p && r is Ok,
                Err((p, n)) => final(pool)@ == p && overflowed(r, n),
            },
    {
        let ghost fb = self;
        let FieldBuilder {
            name,
            descriptor,
            access_flags,
            constant_value,
            signature,
            synthetic,
            deprecated,
            annotations,
            extra_attributes,
        } = self;
        let name_index = pool.intern_utf8(&name)?;
        let descriptor_index = pool.intern_utf8(&descriptor)?;
        let mut attributes: Vec<Attribute> = Vec::new();
        let ghost start: AttrRun = Ok((pool@, attributes@));
        if let Some(v) = &constant_value {
            let idx = intern_field_constant(v, pool)?;
            push_attr(pool, &mut attributes, Attribute::ConstantValue { constantvalue_index: idx })?;
        }
        if let Some(sig) = &signature {
            let signature_index = pool.intern_utf8(sig)?;
            push_attr(pool, &mut attributes, Attribute::Signature { signature_index })?;
        }
        if synthetic {
            push_attr(pool, &mut attributes, Attribute::Synthetic)?;
        }
        if deprecated {
            push_attr(pool, &mut attributes, Attribute::Deprecated)?;
        }
        let ghost head = attributes@;
        push_annotation_attrs(pool, &mut attributes, &annotations)?;
        let ghost mid = attributes@;
        push_attrs(pool, &mut attributes, extra_attributes)?;
        proof {
            assert(attributes@.take(head.len() as int) =~= head);
            assert(attributes@.take(mid.len() as int) =~= mid);
            assert(attributes@.skip(mid.len() as int) =~= fb.extra());
        }
        Ok(Field { access_flags: FieldAccess::from(access_flags), name_index, descriptor_index, attributes })
    }
}

} // verus!
