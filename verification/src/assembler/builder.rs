//! Top level `ClassFileBuilder`.
use vstd::prelude::*;
use crate::assembler::access::AccessFlags;
use crate::assembler::annotation::{anns_pool, ann_attr_count, annotations_pushed, push_annotation_attrs, Annotation};
use crate::assembler::field::FieldBuilder;
use crate::assembler::method::{overflow, stopped, MethodBuilder, StageRun};
use crate::assembler::util::{
    class_list_run, classes_ok, classes_run, extras_run, intern_class_list, push_attr, push_attrs, then_attr, utf8_step,
    AttrRun,
};
use crate::spec::access::ClassAccess;
use crate::spec::attribute::Attribute;
use crate::spec::classfile::ClassFile;
use crate::spec::constant::{intern_class_spec, intern_spec, ConstantPool, ConstantView, PoolStep, PoolView};
use crate::spec::encode::{class_file_enc, encode, error_is, EncodeError};
use crate::spec::error::{Error, Result};
use crate::spec::field::Field;
use crate::spec::method::Method;
use crate::spec::version::{Version, JAVA_5};

verus! {

#[derive(Debug)]
pub struct ClassFileBuilder {
    this_name: String,
    super_name: Option<String>,
    access_flags: AccessFlags,
    version: Version,
    interfaces: Vec<String>,
    fields: Vec<FieldBuilder>,
    methods: Vec<MethodBuilder>,
    source_file: Option<String>,
    signature: Option<String>,
    nest_host: Option<String>,
    nest_members: Vec<String>,
    permitted_subclasses: Vec<String>,
    annotations: Vec<Annotation>,
    extra_attributes: Vec<Attribute>,
}

/// Pool after building each field of `s` in order.
pub open spec fn fields_run(s: Seq<FieldBuilder>, p: PoolView) -> core::result::Result<PoolView, (PoolView, int)>
    decreases s.len(),
{
    if s.len() == 0 {
        Ok(p)
    } else {
        match fields_run(s.drop_last(), p) {
            Err(x) => Err(x),
            Ok(p1) => s.last().field_pool(p1),
        }
    }
}

/// Whether `o` holds the fields built from `s`, one after the other, from `p`.
pub open spec fn fields_ok(s: Seq<FieldBuilder>, p: PoolView, o: Seq<Field>) -> bool
    decreases s.len(),
{
    &&& s.len() == o.len()
    &&& s.len() > 0 ==> {
        &&& fields_ok(s.drop_last(), p, o.drop_last())
        &&& fields_run(s.drop_last(), p) matches Ok(p1) && s.last().field_pool(p1) matches Ok(p2)
            && s.last().field_result(p1, p2, Ok(o.last()))
    }
}

/// Pool after building each method of `s` in order.
pub open spec fn methods_run(s: Seq<MethodBuilder>, p: PoolView) -> StageRun
    decreases s.len(),
{
    if s.len() == 0 {
        Ok(p)
    } else {
        match methods_run(s.drop_last(), p) {
            Err(x) => Err(x),
            Ok(p1) => s.last().method_pool(p1),
        }
    }
}

/// Whether `o` holds the methods built from `s`, one after the other, from `p`.
pub open spec fn methods_ok(s: Seq<MethodBuilder>, p: PoolView, o: Seq<Method>) -> bool
    decreases s.len(),
{
    &&& s.len() == o.len()
    &&& s.len() > 0 ==> {
        &&& methods_ok(s.drop_last(), p, o.drop_last())
        &&& methods_run(s.drop_last(), p) matches Ok(p1) && s.last().method_pool(p1) matches Ok(p2)
            && s.last().method_result(p1, p2, Ok(o.last()))
    }
}

/// Whether `r` is the error `e`.
pub open spec fn failed<T>(r: Result<T>, e: EncodeError) -> bool {
    r matches Err(err) && error_is(err, e)
}

/// Interning the super class, if there is one; index 0 otherwise.
pub open spec fn super_step(name: Option<String>, p: PoolView) -> PoolStep {
    match name {
        Some(n) => intern_class_spec(p, n@),
        None => Ok((p, 0int)),
    }
}

/// The `SourceFile`, `Signature` and `NestHost` stages, from `p`.
pub open spec fn class_head_run(source_file: Option<String>, signature: Option<String>, nest_host: Option<String>, p: PoolView) -> AttrRun {
    let start: AttrRun = Ok((p, Seq::empty()));
    let with_source = match source_file {
        Some(s) => then_attr(start, utf8_step(s@), |i: u16| Attribute::SourceFile { sourcefile_index: i }),
        None => start,
    };
    let with_sig = match signature {
        Some(s) => then_attr(with_source, utf8_step(s@), |i: u16| Attribute::Signature { signature_index: i }),
        None => with_source,
    };
    match nest_host {
        Some(h) => then_attr(with_sig, |q: PoolView| intern_class_spec(q, h@), |i: u16| Attribute::NestHost { host_class_index: i }),
        None => with_sig,
    }
}

pub open spec fn nest_members_ok(names: Seq<String>, p: PoolView, a: Attribute) -> bool {
    a matches Attribute::NestMembers { classes } && classes_ok(names, p, classes@)
}

pub open spec fn permitted_ok(names: Seq<String>, p: PoolView, a: Attribute) -> bool {
    a matches Attribute::PermittedSubclasses { classes } && classes_ok(names, p, classes@)
}

impl ClassFileBuilder {
    pub closed spec fn this_name(&self) -> Seq<char> {
        self.this_name@
    }

    pub closed spec fn super_name(&self) -> Option<String> {
        self.super_name
    }

    pub closed spec fn flags(&self) -> AccessFlags {
        self.access_flags
    }

    pub closed spec fn class_version(&self) -> Version {
        self.version
    }

    pub closed spec fn interface_names(&self) -> Seq<String> {
        self.interfaces@
    }

    pub closed spec fn field_list(&self) -> Seq<FieldBuilder> {
        self.fields@
    }

    pub closed spec fn method_list(&self) -> Seq<MethodBuilder> {
        self.methods@
    }

    pub closed spec fn source_file_name(&self) -> Option<String> {
        self.source_file
    }

    pub closed spec fn signature_text(&self) -> Option<String> {
        self.signature
    }

    pub closed spec fn nest_host_name(&self) -> Option<String> {
        self.nest_host
    }

    pub closed spec fn nest_member_names(&self) -> Seq<String> {
        self.nest_members@
    }

    pub closed spec fn permitted_names(&self) -> Seq<String> {
        self.permitted_subclasses@
    }

    pub closed spec fn annotation_list(&self) -> Seq<Annotation> {
        self.annotations@
    }

    pub closed spec fn extra(&self) -> Seq<Attribute> {
        self.extra_attributes@
    }

    /// `a` and `b` agree but for the field that `which` names: 0 super
    /// class, 1 flags, 2 version, 3 interfaces, 4 fields, 5 methods,
    /// 6 source file, 7 signature, 8 nest host, 9 nest members,
    /// 10 permitted subclasses, 11 annotations, 12 extra attributes.
    pub closed spec fn same_except(a: Self, b: Self, which: int) -> bool {
        &&& b.this_name == a.this_name
        &&& which != 0 ==> b.super_name == a.super_name
        &&& which != 1 ==> b.access_flags == a.access_flags
        &&& which != 2 ==> b.version == a.version
        &&& which != 3 ==> b.interfaces == a.interfaces
        &&& which != 4 ==> b.fields == a.fields
        &&& which != 5 ==> b.methods == a.methods
        &&& which != 6 ==> b.source_file == a.source_file
        &&& which != 7 ==> b.signature == a.signature
        &&& which != 8 ==> b.nest_host == a.nest_host
        &&& which != 9 ==> b.nest_members == a.nest_members
        &&& which != 10 ==> b.permitted_subclasses == a.permitted_subclasses
        &&& which != 11 ==> b.annotations == a.annotations
        &&& which != 12 ==> b.extra_attributes == a.extra_attributes
    }

    /// Every method can be built without overflowing a slot count or the
    /// resolver's arithmetic.
    pub open spec fn buildable(&self) -> bool {
        forall|i: int| 0 <= i < self.method_list().len() ==> (#[trigger] self.method_list()[i]).buildable()
    }

    /// The attribute stages after the members: `SourceFile`, `Signature`,
    /// `NestHost`, `NestMembers`, `PermittedSubclasses`, then the
    /// annotations, then the extra attributes as given.
    pub open spec fn attrs_ok(&self, p5: PoolView, head: Seq<Attribute>, p6: PoolView, p7: PoolView, p8: PoolView, p9: PoolView, a: Seq<Attribute>) -> bool {
        let k0: int = head.len() as int;
        let k1: int = k0 + if self.nest_member_names().len() > 0 { 1int } else { 0int };
        let k2: int = k1 + if self.permitted_names().len() > 0 { 1int } else { 0int };
        let k3: int = k2 + ann_attr_count(self.annotation_list());
        &&& k3 <= a.len()
        &&& a.take(k0) == head
        &&& self.nest_member_names().len() > 0 ==> nest_members_ok(self.nest_member_names(), p6, a[k0])
        &&& self.permitted_names().len() > 0 ==> permitted_ok(self.permitted_names(), p7, a[k1])
        &&& annotations_pushed(self.annotation_list(), p8, a.take(k2), p9, a.take(k3), Ok(()))
        &&& a.skip(k3) == self.extra()
    }

    /// What `build_class_file` gives: a fresh pool takes the class, the
    /// super class, the interfaces, the fields, the methods and the class
    /// attributes in that order; the first error stops the build.
    pub open spec fn class_result(&self, r: Result<ClassFile>) -> bool {
        let p0 = seq![None::<ConstantView>];
        match intern_class_spec(p0, self.this_name()) {
            Err(x) => failed(r, overflow(x).1),
            Ok((p1, this_i)) => match super_step(self.super_name(), p1) {
                Err(x) => failed(r, overflow(x).1),
                Ok((p2, super_i)) => match classes_run(self.interface_names(), p2) {
                    Err(x) => failed(r, overflow(x).1),
                    Ok(p3) => match fields_run(self.field_list(), p3) {
                        Err(x) => failed(r, overflow(x).1),
                        Ok(p4) => match methods_run(self.method_list(), p4) {
                            Err(x) => failed(r, x.1),
                            Ok(p5) => match class_head_run(self.source_file_name(), self.signature_text(), self.nest_host_name(), p5) {
                                Err(x) => failed(r, overflow(x).1),
                                Ok((p6, head)) => match class_list_run(self.nest_member_names(), p6, "NestMembers"@) {
                                    Err(x) => failed(r, overflow(x).1),
                                    Ok(p7) => match class_list_run(self.permitted_names(), p7, "PermittedSubclasses"@) {
                                        Err(x) => failed(r, overflow(x).1),
                                        Ok(p8) => match anns_pool(self.annotation_list(), p8) {
                                            Err(x) => failed(r, overflow(x).1),
                                            Ok(p9) => match extras_run(self.extra(), p9) {
                                                Err(x) => failed(r, overflow(x).1),
                                                Ok(p10) => r matches Ok(cf) && {
                                                    &&& cf.version == self.class_version()
                                                    &&& cf.constant_pool@ == p10
                                                    &&& cf.access_flags == ClassAccess::from_bits_truncate_spec(self.flags()@)
                                                    &&& cf.this_class == this_i as u16
                                                    &&& cf.super_class == super_i as u16
                                                    &&& classes_ok(self.interface_names(), p2, cf.interfaces@)
                                                    &&& fields_ok(self.field_list(), p3, cf.fields@)
                                                    &&& methods_ok(self.method_list(), p4, cf.methods@)
                                                    &&& self.attrs_ok(p5, head, p6, p7, p8, p9, cf.attributes@)
                                                },
                                            },
                                        },
                                    },
                                },
                            },
                        },
                    },
                },
            },
        }
    }
}

proof fn lemma_fields_err(s: Seq<FieldBuilder>, p: PoolView, k: int)
    requires
        0 <= k <= s.len(),
        fields_run(s.take(k), p) is Err,
    ensures
        fields_run(s, p) == fields_run(s.take(k), p),
    decreases s.len() - k,
{
    if k < s.len() {
        assert(s.take(k + 1).drop_last() =~= s.take(k));
        lemma_fields_err(s, p, k + 1);
    } else {
        assert(s.take(k) =~= s);
    }
}

proof fn lemma_methods_err(s: Seq<MethodBuilder>, p: PoolView, k: int)
    requires
        0 <= k <= s.len(),
        methods_run(s.take(k), p) is Err,
    ensures
        methods_run(s, p) == methods_run(s.take(k), p),
    decreases s.len() - k,
{
    if k < s.len() {
        assert(s.take(k + 1).drop_last() =~= s.take(k));
        lemma_methods_err(s, p, k + 1);
    } else {
        assert(s.take(k) =~= s);
    }
}

/// Build each field in order.
fn build_fields(pool: &mut ConstantPool, fields: Vec<FieldBuilder>) -> (r: Result<Vec<Field>>)
    ensures
        match fields_run(fields@, old(pool)@) {
            Ok(p) => final(pool)@ == p && (r matches Ok(v) && fields_ok(fields@, old(pool)@, v@)),
            Err(x) => final(pool)@ == x.0 && failed(r, overflow(x).1),
        },
{
    let mut rest = fields;
    let mut out: Vec<Field> = Vec::new();
    let ghost mut i: int = 0;
    assert(fields@.take(0) =~= Seq::<FieldBuilder>::empty());
    assert(fields@.skip(0) =~= fields@);
    while rest.len() > 0
        invariant
            0 <= i <= fields@.len(),
            rest@ == fields@.skip(i),
            fields_run(fields@.take(i), old(pool)@) == Ok::<PoolView, (PoolView, int)>(pool@),
            fields_ok(fields@.take(i), old(pool)@, out@),
        decreases rest@.len(),
    {
        proof {
            assert(fields@.take(i + 1).drop_last() =~= fields@.take(i));
            assert(fields@.take(i + 1).last() == fields@[i]);
        }
        let f = rest.remove(0);
        proof { assert(rest@ =~= fields@.skip(i + 1)); }
        let x = match f.into_field(pool) {
            Ok(x) => x,
            Err(e) => {
                proof { lemma_fields_err(fields@, old(pool)@, i + 1); }
                return Err(e);
            },
        };
        proof {
            assert(out@.push(x).drop_last() =~= out@);
            i = i + 1;
        }
        out.push(x);
    }
    assert(fields@.take(i) =~= fields@);
    Ok(out)
}

/// Build each method in order.
fn build_methods(pool: &mut ConstantPool, methods: Vec<MethodBuilder>) -> (r: Result<Vec<Method>>)
    requires
        forall|k: int| 0 <= k < methods@.len() ==> (#[trigger] methods@[k]).buildable(),
    ensures
        match methods_run(methods@, old(pool)@) {
            Ok(p) => final(pool)@ == p && (r matches Ok(v) && methods_ok(methods@, old(pool)@, v@)),
            Err(x) => final(pool)@ == x.0 && failed(r, x.1),
        },
{
    let mut rest = methods;
    let mut out: Vec<Method> = Vec::new();
    let ghost mut i: int = 0;
    assert(methods@.take(0) =~= Seq::<MethodBuilder>::empty());
    assert(methods@.skip(0) =~= methods@);
    while rest.len() > 0
        invariant
            0 <= i <= methods@.len(),
            rest@ == methods@.skip(i),
            forall|k: int| 0 <= k < methods@.len() ==> (#[trigger] methods@[k]).buildable(),
            methods_run(methods@.take(i), old(pool)@) == Ok::<PoolView, (PoolView, EncodeError)>(pool@),
            methods_ok(methods@.take(i), old(pool)@, out@),
        decreases rest@.len(),
    {
        proof {
            assert(methods@.take(i + 1).drop_last() =~= methods@.take(i));
            assert(methods@.take(i + 1).last() == methods@[i]);
        }
        let m = rest.remove(0);
        proof { assert(rest@ =~= methods@.skip(i + 1)); }
        let x = match m.into_method(pool) {
            Ok(x) => x,
            Err(e) => {
                proof { lemma_methods_err(methods@, old(pool)@, i + 1); }
                return Err(e);
            },
        };
        proof {
            assert(out@.push(x).drop_last() =~= out@);
            i = i + 1;
        }
        out.push(x);
    }
    assert(methods@.take(i) =~= methods@);
    Ok(out)
}

/// A class list stage: intern each name as a class, then push the
/// attribute that `make` builds from the indices.
fn class_list_stage(pool: &mut ConstantPool, attrs: &mut Vec<Attribute>, names: &Vec<String>, members: bool) -> (r: Result<()>)
    ensures
        match class_list_run(names@, old(pool)@, if members { "NestMembers"@ } else { "PermittedSubclasses"@ }) {
            Err(x) => final(pool)@ == x.0 && failed(r, overflow(x).1),
            Ok(p) => r is Ok && final(pool)@ == p && if names@.len() == 0 {
                final(attrs)@ == old(attrs)@
            } else {
                &&& final(attrs)@.len() == old(attrs)@.len() + 1
                &&& final(attrs)@.drop_last() == old(attrs)@
                &&& if members {
                    nest_members_ok(names@, old(pool)@, final(attrs)@.last())
                } else {
                    permitted_ok(names@, old(pool)@, final(attrs)@.last())
                }
            },
        },
{
    if names.len() == 0 {
        return Ok(());
    }
    let classes = intern_class_list(pool, names)?;
    let attr = if members { Attribute::NestMembers { classes } } else { Attribute::PermittedSubclasses { classes } };
    let ghost a0 = attrs@;
    let r = push_attr(pool, attrs, attr);
    proof { assert(a0.push(attr).drop_last() =~= a0); }
    r
}

/// The `SourceFile`, `Signature` and `NestHost` stages.
fn class_head_stage(
    pool: &mut ConstantPool,
    attrs: &mut Vec<Attribute>,
    source_file: &Option<String>,
    signature: &Option<String>,
    nest_host: &Option<String>,
) -> (r: Result<()>)
    ensures
        match class_head_run(*source_file, *signature, *nest_host, old(pool)@) {
            Err(x) => final(pool)@ == x.0 && failed(r, overflow(x).1),
            Ok((p, head)) => r is Ok && final(pool)@ == p && final(attrs)@ == old(attrs)@ + head,
        },
{
    let ghost a0 = attrs@;
    if let Some(src) = source_file {
        let sourcefile_index = pool.intern_utf8(src)?;
        push_attr(pool, attrs, Attribute::SourceFile { sourcefile_index })?;
    }
    if let Some(sig) = signature {
        let signature_index = pool.intern_utf8(sig)?;
        push_attr(pool, attrs, Attribute::Signature { signature_index })?;
    }
    if let Some(host) = nest_host {
        let host_class_index = pool.intern_class(host)?;
        push_attr(pool, attrs, Attribute::NestHost { host_class_index })?;
    }
    proof {
        if let Ok((p, head)) = class_head_run(*source_file, *signature, *nest_host, old(pool)@) {
            assert(attrs@ =~= a0 + head);
        }
    }
    Ok(())
}

impl ClassFileBuilder {
    /// A public class named `name` extending `java/lang/Object`, with
    /// `ACC_SUPER` set and class file version 49 (Java 5), so that builds
    /// with back branches pass verification without a `StackMapTable`.
    pub fn new(name: &str) -> (b: Self)
        ensures
            b.this_name() == name@,
            b.super_name() matches Some(s) && s@ == "java/lang/Object"@,
            b.flags()@ == 0x0021,
            b.class_version() == (Version { major: 49, minor: 0 }),
            b.interface_names().len() == 0,
            b.field_list().len() == 0,
            b.method_list().len() == 0,
            b.source_file_name() is None,
            b.signature_text() is None,
            b.nest_host_name() is None,
            b.nest_member_names().len() == 0,
            b.permitted_names().len() == 0,
            b.annotation_list().len() == 0,
            b.extra().len() == 0,
    {
        let flags = AccessFlags::PUBLIC() | AccessFlags::SUPER();
        assert(0x0001u16 | 0x0020u16 == 0x0021u16) by (bit_vector);
        ClassFileBuilder {
            this_name: name.to_owned(),
            super_name: Some("java/lang/Object".to_owned()),
            access_flags: flags,
            version: JAVA_5(),
            interfaces: Vec::new(),
            fields: Vec::new(),
            methods: Vec::new(),
            source_file: None,
            signature: None,
            nest_host: None,
            nest_members: Vec::new(),
            permitted_subclasses: Vec::new(),
            annotations: Vec::new(),
            extra_attributes: Vec::new(),
        }
    }

    pub fn super_class(self, internal_name: &str) -> (b: Self)
        ensures
            b.super_name() matches Some(s) && s@ == internal_name@,
            Self::same_except(self, b, 0),
    {
        let mut b = self;
        b.super_name = Some(internal_name.to_owned());
        b
    }

    /// Emit `super_class = 0`: only legal for `java/lang/Object` and
    /// `module-info`.
    pub fn no_super_class(self) -> (b: Self)
        ensures
            b.super_name() is None,
            Self::same_except(self, b, 0),
    {
        let mut b = self;
        b.super_name = None;
        b
    }

    pub fn access_flags(self, flags: AccessFlags) -> (b: Self)
        ensures
            b.flags() == flags,
            Self::same_except(self, b, 1),
    {
        let mut b = self;
        b.access_flags = flags;
        b
    }

    pub fn version(self, v: Version) -> (b: Self)
        ensures
            b.class_version() == v,
            Self::same_except(self, b, 2),
    {
        let mut b = self;
        b.version = v;
        b
    }

    pub fn interface(self, internal_name: &str) -> (b: Self)
        ensures
            b.interface_names().len() == self.interface_names().len() + 1,
            b.interface_names().drop_last() == self.interface_names(),
            b.interface_names().last()@ == internal_name@,
            Self::same_except(self, b, 3),
    {
        let mut b = self;
        b.interfaces.push(internal_name.to_owned());
        b
    }

    pub fn source_file(self, name: &str) -> (b: Self)
        ensures
            b.source_file_name() matches Some(s) && s@ == name@,
            Self::same_except(self, b, 6),
    {
        let mut b = self;
        b.source_file = Some(name.to_owned());
        b
    }

    pub fn signature(self, s: &str) -> (b: Self)
        ensures
            b.signature_text() matches Some(t) && t@ == s@,
            Self::same_except(self, b, 7),
    {
        let mut b = self;
        b.signature = Some(s.to_owned());
        b
    }

    pub fn nest_host(self, internal_name: &str) -> (b: Self)
        ensures
            b.nest_host_name() matches Some(s) && s@ == internal_name@,
            Self::same_except(self, b, 8),
    {
        let mut b = self;
        b.nest_host = Some(internal_name.to_owned());
        b
    }

    pub fn nest_member(self, internal_name: &str) -> (b: Self)
        ensures
            b.nest_member_names().len() == self.nest_member_names().len() + 1,
            b.nest_member_names().drop_last() == self.nest_member_names(),
            b.nest_member_names().last()@ == internal_name@,
            Self::same_except(self, b, 9),
    {
        let mut b = self;
        b.nest_members.push(internal_name.to_owned());
        b
    }

    pub fn permitted_subclass(self, internal_name: &str) -> (b: Self)
        ensures
            b.permitted_names().len() == self.permitted_names().len() + 1,
            b.permitted_names().drop_last() == self.permitted_names(),
            b.permitted_names().last()@ == internal_name@,
            Self::same_except(self, b, 10),
    {
        let mut b = self;
        b.permitted_subclasses.push(internal_name.to_owned());
        b
    }

    pub fn field(self, f: FieldBuilder) -> (b: Self)
        ensures
            b.field_list() == self.field_list().push(f),
            Self::same_except(self, b, 4),
    {
        let mut b = self;
        b.fields.push(f);
        b
    }

    pub fn method(self, m: MethodBuilder) -> (b: Self)
        ensures
            b.method_list() == self.method_list().push(m),
            Self::same_except(self, b, 5),
    {
        let mut b = self;
        b.methods.push(m);
        b
    }

    /// Attach an annotation to the class; it lands in the visible or
    /// invisible annotations attribute by its visibility.
    pub fn annotation(self, a: Annotation) -> (b: Self)
        ensures
            b.annotation_list() == self.annotation_list().push(a),
            Self::same_except(self, b, 11),
    {
        let mut b = self;
        b.annotations.push(a);
        b
    }

    /// Attach a raw attribute to the class.
    pub fn attribute(self, attr: Attribute) -> (b: Self)
        ensures
            b.extra() == self.extra().push(attr),
            Self::same_except(self, b, 12),
    {
        let mut b = self;
        b.extra_attributes.push(attr);
        b
    }

    /// Finalise into a structured `ClassFile`.
    #[verifier::rlimit(60)]
    pub fn build_class_file(self) -> (r: Result<ClassFile>)
        requires
            self.buildable(),
        ensures
            self.class_result(r),
    {
        let ghost cb = self;
        let ClassFileBuilder {
            this_name,
            super_name,
            access_flags,
            version,
            interfaces,
            fields,
            methods,
            source_file,
            signature,
            nest_host,
            nest_members,
            permitted_subclasses,
            annotations,
            extra_attributes,
        } = self;
        let mut pool = ConstantPool::new();
        let this_class = pool.intern_class(&this_name)?;
        let super_class = match &super_name {
            Some(name) => pool.intern_class(name)?,
            None => 0,
        };
        let ghost p2 = pool@;
        let interface_indices = intern_class_list(&mut pool, &interfaces)?;
        let ghost p3 = pool@;
        let built_fields = build_fields(&mut pool, fields)?;
        let ghost p4 = pool@;
        let built_methods = build_methods(&mut pool, methods)?;
        let ghost p5 = pool@;
        let mut attributes: Vec<Attribute> = Vec::new();
        class_head_stage(&mut pool, &mut attributes, &source_file, &signature, &nest_host)?;
        let ghost p6 = pool@;
        let ghost a1 = attributes@;
        class_list_stage(&mut pool, &mut attributes, &nest_members, true)?;
        let ghost p7 = pool@;
        let ghost a2 = attributes@;
        class_list_stage(&mut pool, &mut attributes, &permitted_subclasses, false)?;
        let ghost p8 = pool@;
        let ghost a3 = attributes@;
        push_annotation_attrs(&mut pool, &mut attributes, &annotations)?;
        let ghost p9 = pool@;
        let ghost a4 = attributes@;
        push_attrs(&mut pool, &mut attributes, extra_attributes)?;
        proof {
            assert(attributes@.take(a1.len() as int) =~= a1);
            assert(attributes@.take(a3.len() as int) =~= a3);
            assert(attributes@.take(a4.len() as int) =~= a4);
            assert(attributes@.skip(a4.len() as int) =~= cb.extra());
            if cb.nest_member_names().len() > 0 {
                assert(attributes@[a1.len() as int] == a2[a1.len() as int]);
            }
            if cb.permitted_names().len() > 0 {
                assert(attributes@[a2.len() as int] == a3[a2.len() as int]);
            }
            assert(cb.attrs_ok(p5, a1, p6, p7, p8, p9, attributes@));
        }
        Ok(ClassFile {
            version,
            constant_pool: pool,
            access_flags: ClassAccess::from(access_flags),
            this_class,
            super_class,
            interfaces: interface_indices,
            fields: built_fields,
            methods: built_methods,
            attributes,
        })
    }

    /// Build and encode to bytes in one step.
    pub fn build(self) -> (r: Result<Vec<u8>>)
        requires
            self.buildable(),
        ensures
            match r {
                Ok(v) => exists|cf: ClassFile| #[trigger] self.class_result(Ok(cf)) && class_file_enc(cf) == Ok::<Seq<u8>, EncodeError>(v@),
                Err(e) => self.class_result(Err(e)) || exists|cf: ClassFile| #[trigger] self.class_result(Ok(cf))
                    && (class_file_enc(cf) matches Err(x) && error_is(e, x)),
            },
    {
        let cf = self.build_class_file()?;
        encode(&cf)
    }
}

} // verus!
