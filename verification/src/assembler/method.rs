//! Builder for a single `method_info`.
use vstd::prelude::*;
use crate::assembler::access::AccessFlags;
use crate::assembler::annotation::{anns_pool, ann_attr_count, annotations_pushed, push_annotation_attrs, Annotation};
use crate::assembler::code::{finish_pool, finish_result, lemma_finish_pool, lemma_max_locals_floor, labels_known, ops_fit, CodeBuilder};
use crate::assembler::util::{
    classes_ok, classes_run, extras_run, flag_stage, intern_class_list, push_attr, push_attrs, signature_stage, AttrRun,
};
use crate::spec::access::MethodAccess;
use crate::spec::attribute::Attribute;
use crate::spec::constant::{intern_spec, ConstantPool, ConstantView, PoolView};
use crate::spec::descriptor::{descriptor_message, parse_method_spec, slots_sum, FieldType, MethodDescriptor};
use crate::spec::encode::{error_is, EncodeError};
use crate::spec::error::{Error, Result};
use crate::spec::method::Method;

verus! {

#[derive(Debug)]
pub struct MethodBuilder {
    pub(crate) name: String,
    pub(crate) descriptor: String,
    pub(crate) access_flags: AccessFlags,
    pub(crate) code: Option<CodeBuilder>,
    pub(crate) extra_attributes: Vec<Attribute>,
    pub(crate) exceptions: Vec<String>,
    pub(crate) signature: Option<String>,
    pub(crate) synthetic: bool,
    pub(crate) deprecated: bool,
    pub(crate) annotations: Vec<Annotation>,
}

/// A run of stages that may stop with any error.
pub type StageRun = core::result::Result<PoolView, (PoolView, EncodeError)>;

/// An overflow of the pool, as an error of a stage run.
pub open spec fn overflow(x: (PoolView, int)) -> (PoolView, EncodeError) {
    (x.0, EncodeError::TooMany("constant pool"@, x.1))
}

/// Whether `pool_after` and `r` end a run that stopped at `x`.
pub open spec fn stopped<T>(x: (PoolView, EncodeError), pool_after: PoolView, r: Result<T>) -> bool {
    pool_after == x.0 && (r matches Err(err) && error_is(err, x.1))
}

/// Whether a method with these flags is static.
pub open spec fn is_static_flags(flags: AccessFlags) -> bool {
    MethodAccess::from_bits_truncate_spec(flags@)@ & 0x0008 == 0x0008
}

/// Local slots that the parameters need, the receiver of an instance
/// method included.
pub open spec fn min_locals(ps: Seq<FieldType>, is_static: bool) -> int {
    slots_sum(ps) + if is_static { 0int } else { 1int }
}

/// Inputs on which a body can be finished: the resolver holds its ops and
/// labels, and the locals floor fits in a `u16`.
pub open spec fn code_buildable(code: Option<CodeBuilder>, desc: Seq<char>, is_static: bool) -> bool {
    code matches Some(cb) ==> {
        &&& ops_fit(cb.ops())
        &&& labels_known(cb.ops(), cb.labels().len())
        &&& parse_method_spec(desc) matches Ok((ps, _)) ==> min_locals(ps, is_static) <= u16::MAX
    }
}

/// Pools after the `Code` stage: once the body is finished, and once the
/// attribute name is interned. A descriptor that does not parse stops it.
pub open spec fn code_run(code: Option<CodeBuilder>, desc: Seq<char>, p: PoolView) -> core::result::Result<(PoolView, PoolView), (PoolView, EncodeError)> {
    match code {
        None => Ok((p, p)),
        Some(cb) => match parse_method_spec(desc) {
            Err(e) => Err((p, EncodeError::Message(descriptor_message(e)))),
            Ok(_) => match finish_pool(cb, p) {
                Err(x) => Err(x),
                Ok(p1) => match intern_spec(p1, ConstantView::Utf8("Code"@)) {
                    Err(x) => Err(overflow(x)),
                    Ok((p2, _)) => Ok((p1, p2)),
                },
            },
        },
    }
}

/// Whether `a` is the `Code` attribute of the body finished from `p` into
/// `pf`, with the descriptor's locals floor.
pub open spec fn code_attr_ok(code: Option<CodeBuilder>, desc: Seq<char>, is_static: bool, p: PoolView, pf: PoolView, a: Attribute) -> bool {
    code matches Some(cb) && parse_method_spec(desc) matches Ok((ps, _))
        && a matches Attribute::Code(c) && finish_result(cb, p, min_locals(ps, is_static) as u16, pf, Ok(c))
}

/// Pool after the `Exceptions` stage (nothing for no exceptions).
pub open spec fn exceptions_run(names: Seq<String>, p: PoolView) -> StageRun {
    if names.len() == 0 {
        Ok(p)
    } else {
        match classes_run(names, p) {
            Err(x) => Err(overflow(x)),
            Ok(p1) => match intern_spec(p1, ConstantView::Utf8("Exceptions"@)) {
                Err(x) => Err(overflow(x)),
                Ok((p2, _)) => Ok(p2),
            },
        }
    }
}

pub open spec fn exceptions_attr_ok(names: Seq<String>, p: PoolView, a: Attribute) -> bool {
    a matches Attribute::Exceptions { exception_index_table: t } && classes_ok(names, p, t@)
}

/// The `Signature`, `Synthetic` and `Deprecated` stages, from `p`.
pub open spec fn tail_run(sig: Option<String>, synthetic: bool, deprecated: bool, p: PoolView) -> AttrRun {
    flag_stage(
        flag_stage(signature_stage(Ok((p, Seq::empty())), sig), synthetic, Attribute::Synthetic),
        deprecated,
        Attribute::Deprecated,
    )
}

impl Default for MethodBuilder {
    /// A builder with an empty name and descriptor, as `new` leaves the rest.
    fn default() -> (m: Self)
        ensures
            m.name().len() == 0,
            m.descriptor().len() == 0,
            m.flags()@ == 0,
            m.code_builder() is None,
            m.exception_names().len() == 0,
            m.signature_text() is None,
            !m.is_synthetic(),
            !m.is_deprecated(),
            m.annotation_list().len() == 0,
            m.extra().len() == 0,
    {
        MethodBuilder {
            name: String::new(),
            descriptor: String::new(),
            access_flags: AccessFlags::empty(),
            code: None,
            extra_attributes: Vec::new(),
            exceptions: Vec::new(),
            signature: None,
            synthetic: false,
            deprecated: false,
            annotations: Vec::new(),
        }
    }
}

impl MethodBuilder {
    pub closed spec fn name(&self) -> Seq<char> {
        self.name@
    }

    pub closed spec fn descriptor(&self) -> Seq<char> {
        self.descriptor@
    }

    pub closed spec fn flags(&self) -> AccessFlags {
        self.access_flags
    }

    pub closed spec fn code_builder(&self) -> Option<CodeBuilder> {
        self.code
    }

    pub closed spec fn exception_names(&self) -> Seq<String> {
        self.exceptions@
    }

    pub closed spec fn signature_text(&self) -> Option<String> {
        self.signature
    }

    pub closed spec fn is_synthetic(&self) -> bool {
        self.synthetic
    }

    pub closed spec fn is_deprecated(&self) -> bool {
        self.deprecated
    }

    pub closed spec fn annotation_list(&self) -> Seq<Annotation> {
        self.annotations@
    }

    pub closed spec fn extra(&self) -> Seq<Attribute> {
        self.extra_attributes@
    }

    /// `a` and `b` agree but for the field that `which` names: 0 flags,
    /// 1 code, 2 exceptions, 3 signature, 4 synthetic, 5 deprecated,
    /// 6 annotations, 7 extra attributes.
    pub closed spec fn same_except(a: Self, b: Self, which: int) -> bool {
        &&& which != 0 ==> b.access_flags == a.access_flags
        &&& which != 1 ==> b.code == a.code
        &&& which != 2 ==> b.exceptions == a.exceptions
        &&& which != 3 ==> b.signature == a.signature
        &&& which != 4 ==> b.synthetic == a.synthetic
        &&& which != 5 ==> b.deprecated == a.deprecated
        &&& which != 6 ==> b.annotations == a.annotations
        &&& which != 7 ==> b.extra_attributes == a.extra_attributes
        &&& b.name == a.name
        &&& b.descriptor == a.descriptor
    }

    /// Whether the method is static, by its flags as a method access set.
    pub open spec fn is_static(&self) -> bool {
        is_static_flags(self.flags())
    }

    /// Inputs on which building the method cannot overflow its slot count
    /// or resolve a body that the resolver cannot hold.
    pub open spec fn buildable(&self) -> bool {
        code_buildable(self.code_builder(), self.descriptor(), self.is_static())
    }

    /// The pool that `into_method` leaves, or the pool and the error it
    /// stops with.
    pub open spec fn method_pool(&self, p: PoolView) -> StageRun {
        match intern_spec(p, ConstantView::Utf8(self.name())) {
            Err(x) => Err(overflow(x)),
            Ok((p1, _)) => match intern_spec(p1, ConstantView::Utf8(self.descriptor())) {
                Err(x) => Err(overflow(x)),
                Ok((p2, _)) => match code_run(self.code_builder(), self.descriptor(), p2) {
                    Err(x) => Err(x),
                    Ok((_, p3)) => match exceptions_run(self.exception_names(), p3) {
                        Err(x) => Err(x),
                        Ok(p4) => match tail_run(self.signature_text(), self.is_synthetic(), self.is_deprecated(), p4) {
                            Err(x) => Err(overflow(x)),
                            Ok((p5, _)) => match anns_pool(self.annotation_list(), p5) {
                                Err(x) => Err(overflow(x)),
                                Ok(p6) => match extras_run(self.extra(), p6) {
                                    Err(x) => Err(overflow(x)),
                                    Ok(p7) => Ok(p7),
                                },
                            },
                        },
                    },
                },
            },
        }
    }

    /// What `into_method` gives and leaves in the pool. The attributes come
    /// in this order: `Code`, `Exceptions`, `Signature`, `Synthetic`,
    /// `Deprecated`, each where there is one, then the annotation
    /// attributes, then the extra attributes as given.
    pub open spec fn method_result(&self, p: PoolView, pool_after: PoolView, r: Result<Method>) -> bool {
        match intern_spec(p, ConstantView::Utf8(self.name())) {
            Err(x) => stopped(overflow(x), pool_after, r),
            Ok((p1, ni)) => match intern_spec(p1, ConstantView::Utf8(self.descriptor())) {
                Err(x) => stopped(overflow(x), pool_after, r),
                Ok((p2, di)) => match code_run(self.code_builder(), self.descriptor(), p2) {
                    Err(x) => stopped(x, pool_after, r),
                    Ok((pf, p3)) => match exceptions_run(self.exception_names(), p3) {
                        Err(x) => stopped(x, pool_after, r),
                        Ok(p4) => match tail_run(self.signature_text(), self.is_synthetic(), self.is_deprecated(), p4) {
                            Err(x) => stopped(overflow(x), pool_after, r),
                            Ok((p5, tail)) => match anns_pool(self.annotation_list(), p5) {
                                Err(x) => stopped(overflow(x), pool_after, r),
                                Ok(p6) => match extras_run(self.extra(), p6) {
                                    Err(x) => stopped(overflow(x), pool_after, r),
                                    Ok(p7) => pool_after == p7 && (r matches Ok(m) && self.method_ok(p2, pf, p3, p5, p6, tail, ni as u16, di as u16, m)),
                                },
                            },
                        },
                    },
                },
            },
        }
    }

    /// The shape of a built method, given the pools between its stages.
    pub open spec fn method_ok(&self, p2: PoolView, pf: PoolView, p3: PoolView, p5: PoolView, p6: PoolView, tail: Seq<Attribute>, ni: u16, di: u16, m: Method) -> bool {
        let a = m.attributes@;
        let k0: int = if self.code_builder() is Some { 1 } else { 0 };
        let k1: int = k0 + if self.exception_names().len() > 0 { 1int } else { 0int };
        let k2: int = k1 + tail.len();
        let k3: int = k2 + ann_attr_count(self.annotation_list());
        &&& m.access_flags == MethodAccess::from_bits_truncate_spec(self.flags()@)
        &&& m.name_index == ni
        &&& m.descriptor_index == di
        &&& k3 <= a.len()
        &&& self.code_builder() is Some ==> code_attr_ok(self.code_builder(), self.descriptor(), self.is_static(), p2, pf, a[0])
        &&& self.exception_names().len() > 0 ==> exceptions_attr_ok(self.exception_names(), p3, a[k0])
        &&& a.subrange(k1, k2) == tail
        &&& annotations_pushed(self.annotation_list(), p5, a.take(k2), p6, a.take(k3), Ok(()))
        &&& a.skip(k3) == self.extra()
    }
}

impl MethodBuilder {
    pub fn new(name: &str, descriptor: &str) -> (m: Self)
        ensures
            m.name() == name@,
            m.descriptor() == descriptor@,
            m.flags()@ == 0,
            m.code_builder() is None,
            m.exception_names().len() == 0,
            m.signature_text() is None,
            !m.is_synthetic(),
            !m.is_deprecated(),
            m.annotation_list().len() == 0,
            m.extra().len() == 0,
    {
        MethodBuilder {
            name: name.to_owned(),
            descriptor: descriptor.to_owned(),
            access_flags: AccessFlags::empty(),
            code: None,
            extra_attributes: Vec::new(),
            exceptions: Vec::new(),
            signature: None,
            synthetic: false,
            deprecated: false,
            annotations: Vec::new(),
        }
    }

    pub fn access_flags(self, flags: AccessFlags) -> (m: Self)
        ensures
            m.flags() == flags,
            Self::same_except(self, m, 0),
    {
        let mut m = self;
        m.access_flags = flags;
        m
    }

    /// Open a code builder scope: `f` works on the body so far (a fresh one
    /// at first). Abstract or native methods skip this call.
    pub fn code<F: FnOnce(&mut CodeBuilder)>(self, f: F) -> (m: Self)
        requires
            forall|c: &mut CodeBuilder| f.requires((c,)),
        ensures
            exists|c: &mut CodeBuilder| #[trigger] f.ensures((c,), ()) && m.code_builder() == Some(*final(c)) && match self.code_builder() {
                Some(b) => *c == b,
                None => c.ops().len() == 0 && c.labels().len() == 0 && c.stack_limit() is None && c.locals_limit() is None,
            },
            Self::same_except(self, m, 1),
    {
        let mut m = self;
        let mut cb = match m.code.take() {
            Some(c) => c,
            None => CodeBuilder::new(),
        };
        f(&mut cb);
        m.code = Some(cb);
        m
    }

    /// Declare a checked exception by its internal name.
    pub fn exception(self, internal_name: &str) -> (m: Self)
        ensures
            m.exception_names().len() == self.exception_names().len() + 1,
            m.exception_names().drop_last() == self.exception_names(),
            m.exception_names().last()@ == internal_name@,
            Self::same_except(self, m, 2),
    {
        let mut m = self;
        m.exceptions.push(internal_name.to_owned());
        m
    }

    pub fn signature(self, s: &str) -> (m: Self)
        ensures
            m.signature_text() matches Some(t) && t@ == s@,
            Self::same_except(self, m, 3),
    {
        let mut m = self;
        m.signature = Some(s.to_owned());
        m
    }

    pub fn synthetic(self) -> (m: Self)
        ensures
            m.is_synthetic(),
            Self::same_except(self, m, 4),
    {
        let mut m = self;
        m.synthetic = true;
        m
    }

    pub fn deprecated(self) -> (m: Self)
        ensures
            m.is_deprecated(),
            Self::same_except(self, m, 5),
    {
        let mut m = self;
        m.deprecated = true;
        m
    }

    /// Attach an annotation; it lands in the visible or invisible
    /// annotations attribute of the method by its visibility.
    pub fn annotation(self, a: Annotation) -> (m: Self)
        ensures
            m.annotation_list() == self.annotation_list().push(a),
            Self::same_except(self, m, 6),
    {
        let mut m = self;
        m.annotations.push(a);
        m
    }

    /// Attach a raw attribute to the emitted `method_info`.
    pub fn attribute(self, attr: Attribute) -> (m: Self)
        ensures
            m.extra() == self.extra().push(attr),
            Self::same_except(self, m, 7),
    {
        let mut m = self;
        m.extra_attributes.push(attr);
        m
    }

}

/// The `Code` stage of a method, appending its attribute where there is a body.
fn code_stage(
    code: Option<CodeBuilder>,
    descriptor: &String,
    is_static: bool,
    pool: &mut ConstantPool,
    attrs: &mut Vec<Attribute>,
) -> (r: Result<()>)
    requires
        code_buildable(code, descriptor@, is_static),
    ensures
        match code_run(code, descriptor@, old(pool)@) {
            Err(x) => stopped(x, final(pool)@, r),
            Ok((pf, p)) => r is Ok && final(pool)@ == p && if code is None {
                final(attrs)@ == old(attrs)@
            } else {
                &&& final(attrs)@.len() == old(attrs)@.len() + 1
                &&& final(attrs)@.drop_last() == old(attrs)@
                &&& code_attr_ok(code, descriptor@, is_static, old(pool)@, pf, final(attrs)@.last())
            },
        },
{
    if let Some(code) = code {
        let md = MethodDescriptor::parse(descriptor)?;
        let params = md.param_slots();
        let receiver: u16 = if is_static { 0 } else { 1 };
        let min_locals = params + receiver;
        let ghost p0 = pool@;
        let fr = code.finish(pool, min_locals);
        proof { lemma_finish_pool(code, p0, min_locals, pool@, fr); }
        let code_attr = fr?;
        let ghost a0 = attrs@;
        let attr = Attribute::Code(code_attr);
        let r = push_attr(pool, attrs, attr);
        proof { assert(a0.push(attr).drop_last() =~= a0); }
        r
    } else {
        Ok(())
    }
}

/// The `Exceptions` stage of a method.
fn exceptions_stage(names: &Vec<String>, pool: &mut ConstantPool, attrs: &mut Vec<Attribute>) -> (r: Result<()>)
    ensures
        match exceptions_run(names@, old(pool)@) {
            Err(x) => stopped(x, final(pool)@, r),
            Ok(p) => r is Ok && final(pool)@ == p && if names@.len() == 0 {
                final(attrs)@ == old(attrs)@
            } else {
                &&& final(attrs)@.len() == old(attrs)@.len() + 1
                &&& final(attrs)@.drop_last() == old(attrs)@
                &&& exceptions_attr_ok(names@, old(pool)@, final(attrs)@.last())
            },
        },
{
    if names.len() > 0 {
        let indices = intern_class_list(pool, names)?;
        let ghost a0 = attrs@;
        let attr = Attribute::Exceptions { exception_index_table: indices };
        let r = push_attr(pool, attrs, attr);
        proof { assert(a0.push(attr).drop_last() =~= a0); }
        r
    } else {
        Ok(())
    }
}

/// The `Signature`, `Synthetic` and `Deprecated` stages.
pub(crate) fn tail_stage(
    signature: &Option<String>,
    synthetic: bool,
    deprecated: bool,
    pool: &mut ConstantPool,
    attrs: &mut Vec<Attribute>,
) -> (r: Result<()>)
    ensures
        match tail_run(*signature, synthetic, deprecated, old(pool)@) {
            Err(x) => stopped(overflow(x), final(pool)@, r),
            Ok((p, tail)) => r is Ok && final(pool)@ == p && final(attrs)@ == old(attrs)@ + tail,
        },
{
    let ghost a0 = attrs@;
    if let Some(sig) = signature {
        let signature_index = pool.intern_utf8(sig)?;
        push_attr(pool, attrs, Attribute::Signature { signature_index })?;
    }
    if synthetic {
        push_attr(pool, attrs, Attribute::Synthetic)?;
    }
    if deprecated {
        push_attr(pool, attrs, Attribute::Deprecated)?;
    }
    proof {
        if let Ok((p, tail)) = tail_run(*signature, synthetic, deprecated, old(pool)@) {
            assert(attrs@ =~= a0 + tail);
        }
    }
    Ok(())
}

impl MethodBuilder {
    #[verifier::rlimit(60)]
    pub(crate) fn into_method(self, pool: &mut ConstantPool) -> (r: Result<Method>)
        requires
            self.buildable(),
        ensures
            self.method_result(old(pool)@, final(pool)@, r),
            match self.method_pool(old(pool)@) {
                Ok(p) => final(pool)@ == p && r is Ok,
                Err(x) => stopped(x, final(pool)@, r),
            },
    {
        let ghost mb = self;
        let MethodBuilder {
            name,
            descriptor,
            access_flags,
            code,
            extra_attributes,
            exceptions,
            signature,
            synthetic,
            deprecated,
            annotations,
        } = self;
        let name_index = pool.intern_utf8(&name)?;
        let descriptor_index = pool.intern_utf8(&descriptor)?;
        let mut attributes: Vec<Attribute> = Vec::new();
        let access = MethodAccess::from(access_flags);
        let is_static = access.contains(MethodAccess::STATIC());
        let ghost p2 = pool@;
        code_stage(code, &descriptor, is_static, pool, &mut attributes)?;
        let ghost p3 = pool@;
        let ghost a1 = attributes@;
        exceptions_stage(&exceptions, pool, &mut attributes)?;
        let ghost a2 = attributes@;
        let ghost p4 = pool@;
        tail_stage(&signature, synthetic, deprecated, pool, &mut attributes)?;
        let ghost a3 = attributes@;
        let ghost p5 = pool@;
        push_annotation_attrs(pool, &mut attributes, &annotations)?;
        let ghost a4 = attributes@;
        let ghost p6 = pool@;
        push_attrs(pool, &mut attributes, extra_attributes)?;
        proof {
            assert(attributes@.take(a3.len() as int) =~= a3);
            assert(attributes@.take(a4.len() as int) =~= a4);
            assert(attributes@.skip(a4.len() as int) =~= mb.extra());
            assert(attributes@.subrange(a2.len() as int, a3.len() as int) =~= a3.skip(a2.len() as int));
            assert(is_static == mb.is_static());
            if mb.code_builder() is Some {
                assert(attributes@[0] == a1[0]);
            }
            if mb.exception_names().len() > 0 {
                assert(attributes@[a1.len() as int] == a2[a1.len() as int]);
            }
        }
        let m = Method { access_flags: access, name_index, descriptor_index, attributes };
        proof {
            let pf = code_run(mb.code_builder(), mb.descriptor(), p2)->Ok_0.0;
            let tail = tail_run(mb.signature_text(), mb.is_synthetic(), mb.is_deprecated(), p4)->Ok_0.1;
            assert(a3 == a2 + tail);
            assert(a3.skip(a2.len() as int) =~= tail);
            assert(mb.method_ok(p2, pf, p3, p5, p6, tail, name_index, descriptor_index, m));
        }
        Ok(m)
    }
}

} // verus!

verus! {

/// A built method whose body leaves `max_locals` unset has room for its
/// parameters, and for the receiver in slot 0 unless the method is static:
/// `max_locals` is at least the parameters' slots, plus one without
/// `ACC_STATIC`.
pub proof fn lemma_locals_hold_parameters(mb: MethodBuilder, p: PoolView, pool_after: PoolView, m: Method)
    requires
        mb.method_result(p, pool_after, Ok(m)),
        mb.buildable(),
        mb.code_builder() matches Some(cb) && cb.locals_limit() is None,
    ensures
        m.attributes@.len() > 0,
        m.attributes@[0] matches Attribute::Code(c) && (parse_method_spec(mb.descriptor()) matches Ok((ps, _))
            ==> c.max_locals >= slots_sum(ps) + if m.access_flags@ & 0x0008 == 0x0008 { 0int } else { 1int }),
{
    let cb = mb.code_builder()->Some_0;
    if let Ok((p1, ni)) = intern_spec(p, ConstantView::Utf8(mb.name())) {
        if let Ok((p2, di)) = intern_spec(p1, ConstantView::Utf8(mb.descriptor())) {
            if let Ok((pf, p3)) = code_run(mb.code_builder(), mb.descriptor(), p2) {
                if let Ok(p4) = exceptions_run(mb.exception_names(), p3) {
                    if let Ok((p5, tail)) = tail_run(mb.signature_text(), mb.is_synthetic(), mb.is_deprecated(), p4) {
                        if let Ok(p6) = anns_pool(mb.annotation_list(), p5) {
                            assert(mb.method_ok(p2, pf, p3, p5, p6, tail, ni as u16, di as u16, m));
                            let (ps, _) = parse_method_spec(mb.descriptor())->Ok_0;
                            let c = m.attributes@[0]->Code_0;
                            let floor = min_locals(ps, mb.is_static());
                            assert(finish_result(cb, p2, floor as u16, pf, Ok(c)));
                            lemma_max_locals_floor(cb, p2, floor as u16, pf, c);
                        }
                    }
                }
            }
        }
    }
}

} // verus!
