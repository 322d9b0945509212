//! `Clone` for the recursive parts of the class file model: attributes hold
//! code bodies that hold attributes, and element values hold annotations
//! that hold element values.
//!
//! A `Vec` is known to Verus only by its view, so "the copy equals the
//! value" is stated as the `same_*` predicates below: the same variant and
//! the same plain fields, the same views of vectors of plain values, and
//! nested values that are copies in turn.
use vstd::prelude::*;
use crate::spec::attribute::{
    Annotation, Attribute, BootstrapMethod, CodeAttribute, ElementValue, ModuleAttribute, ModuleExports,
    ModuleOpens, ModuleProvides, ModuleRequires, RecordComponent, StackMapFrame, TypeAnnotation,
};
use crate::spec::classfile::ClassFile;
use crate::spec::field::Field;
use crate::spec::method::Method;

verus! {

/// Whether `b` is a copy of the element value `a`.
pub open spec fn same_element(a: ElementValue, b: ElementValue) -> bool
    decreases a, 2nat,
{
    match a {
        ElementValue::Annotation(x) => b matches ElementValue::Annotation(y) && x.type_index == y.type_index
            && same_pairs(x.element_value_pairs@, y.element_value_pairs@),
        ElementValue::Array(x) => b matches ElementValue::Array(y) && same_elements(x@, y@),
        _ => a == b,
    }
}

/// Whether `t` holds a copy of each element value of `s`, in order.
pub open spec fn same_elements(s: Seq<ElementValue>, t: Seq<ElementValue>) -> bool
    decreases s, 0nat,
{
    &&& s.len() == t.len()
    &&& forall|k: int| 0 <= k < s.len() ==> same_element(#[trigger] s[k], t[k])
}

/// Whether `t` holds each name index of `s` with a copy of its value, in order.
pub open spec fn same_pairs(s: Seq<(u16, ElementValue)>, t: Seq<(u16, ElementValue)>) -> bool
    decreases s, 1nat,
{
    &&& s.len() == t.len()
    &&& forall|k: int| 0 <= k < s.len() ==> (#[trigger] s[k]).0 == t[k].0 && same_element(s[k].1, t[k].1)
}

/// Whether `b` is a copy of the annotation `a`.
pub open spec fn same_annotation(a: Annotation, b: Annotation) -> bool {
    a.type_index == b.type_index && same_pairs(a.element_value_pairs@, b.element_value_pairs@)
}

pub open spec fn same_annotations(s: Seq<Annotation>, t: Seq<Annotation>) -> bool {
    &&& s.len() == t.len()
    &&& forall|k: int| 0 <= k < s.len() ==> #[trigger] same_annotation(s[k], t[k])
}

pub open spec fn same_parameter_annotations(s: Seq<Vec<Annotation>>, t: Seq<Vec<Annotation>>) -> bool {
    &&& s.len() == t.len()
    &&& forall|k: int| 0 <= k < s.len() ==> #[trigger] same_annotations(s[k]@, t[k]@)
}

/// Whether `b` is a copy of the type annotation `a`.
pub open spec fn same_type_annotation(a: TypeAnnotation, b: TypeAnnotation) -> bool {
    &&& a.target_type == b.target_type
    &&& a.target_info@ == b.target_info@
    &&& a.target_path@ == b.target_path@
    &&& a.type_index == b.type_index
    &&& same_pairs(a.element_value_pairs@, b.element_value_pairs@)
}

pub open spec fn same_type_annotations(s: Seq<TypeAnnotation>, t: Seq<TypeAnnotation>) -> bool {
    &&& s.len() == t.len()
    &&& forall|k: int| 0 <= k < s.len() ==> #[trigger] same_type_annotation(s[k], t[k])
}

/// Whether `b` is a copy of the stack map frame `a`.
pub open spec fn same_frame(a: StackMapFrame, b: StackMapFrame) -> bool {
    match a {
        StackMapFrame::Append { offset_delta, locals } => b matches StackMapFrame::Append {
            offset_delta: d,
            locals: l,
        } && offset_delta == d && locals@ == l@,
        StackMapFrame::Full { offset_delta, locals, stack } => b matches StackMapFrame::Full {
            offset_delta: d,
            locals: l,
            stack: st,
        } && offset_delta == d && locals@ == l@ && stack@ == st@,
        _ => a == b,
    }
}

pub open spec fn same_frames(s: Seq<StackMapFrame>, t: Seq<StackMapFrame>) -> bool {
    &&& s.len() == t.len()
    &&& forall|k: int| 0 <= k < s.len() ==> #[trigger] same_frame(s[k], t[k])
}

pub open spec fn same_bootstraps(s: Seq<BootstrapMethod>, t: Seq<BootstrapMethod>) -> bool {
    &&& s.len() == t.len()
    &&& forall|k: int|
        0 <= k < s.len() ==> #[trigger] s[k].bootstrap_method_ref == t[k].bootstrap_method_ref
            && s[k].bootstrap_arguments@ == t[k].bootstrap_arguments@
}

/// Whether `b` is a copy of the `Module` attribute body `a`.
pub open spec fn same_module(a: ModuleAttribute, b: ModuleAttribute) -> bool {
    &&& a.module_name_index == b.module_name_index
    &&& a.module_flags == b.module_flags
    &&& a.module_version_index == b.module_version_index
    &&& a.requires@ == b.requires@
    &&& a.exports@.len() == b.exports@.len()
    &&& forall|k: int|
        0 <= k < a.exports@.len() ==> #[trigger] a.exports@[k].exports_index == b.exports@[k].exports_index
            && a.exports@[k].exports_flags == b.exports@[k].exports_flags
            && a.exports@[k].exports_to_index@ == b.exports@[k].exports_to_index@
    &&& a.opens@.len() == b.opens@.len()
    &&& forall|k: int|
        0 <= k < a.opens@.len() ==> #[trigger] a.opens@[k].opens_index == b.opens@[k].opens_index
            && a.opens@[k].opens_flags == b.opens@[k].opens_flags
            && a.opens@[k].opens_to_index@ == b.opens@[k].opens_to_index@
    &&& a.uses@ == b.uses@
    &&& a.provides@.len() == b.provides@.len()
    &&& forall|k: int|
        0 <= k < a.provides@.len() ==> #[trigger] a.provides@[k].provides_index == b.provides@[k].provides_index
            && a.provides@[k].provides_with_index@ == b.provides@[k].provides_with_index@
}

/// Whether `b` is a copy of the attribute `a`.
pub open spec fn same_attribute(a: Attribute, b: Attribute) -> bool
    decreases a, 2nat,
{
    match a {
        Attribute::Code(c) => b matches Attribute::Code(d) && c.max_stack == d.max_stack
            && c.max_locals == d.max_locals && c.code@ == d.code@ && c.exception_table@ == d.exception_table@
            && same_attributes(c.attributes@, d.attributes@),
        Attribute::StackMapTable(x) => b matches Attribute::StackMapTable(y) && same_frames(x@, y@),
        Attribute::Exceptions { exception_index_table: x } => b matches Attribute::Exceptions {
            exception_index_table: y,
        } && x@ == y@,
        Attribute::InnerClasses(x) => b matches Attribute::InnerClasses(y) && x@ == y@,
        Attribute::SourceDebugExtension(x) => b matches Attribute::SourceDebugExtension(y) && x@ == y@,
        Attribute::LineNumberTable(x) => b matches Attribute::LineNumberTable(y) && x@ == y@,
        Attribute::LocalVariableTable(x) => b matches Attribute::LocalVariableTable(y) && x@ == y@,
        Attribute::LocalVariableTypeTable(x) => b matches Attribute::LocalVariableTypeTable(y) && x@ == y@,
        Attribute::RuntimeVisibleAnnotations(x) => b matches Attribute::RuntimeVisibleAnnotations(y)
            && same_annotations(x@, y@),
        Attribute::RuntimeInvisibleAnnotations(x) => b matches Attribute::RuntimeInvisibleAnnotations(y)
            && same_annotations(x@, y@),
        Attribute::RuntimeVisibleParameterAnnotations(x) => b matches Attribute::RuntimeVisibleParameterAnnotations(
            y,
        ) && same_parameter_annotations(x@, y@),
        Attribute::RuntimeInvisibleParameterAnnotations(x) => b matches Attribute::RuntimeInvisibleParameterAnnotations(
            y,
        ) && same_parameter_annotations(x@, y@),
        Attribute::RuntimeVisibleTypeAnnotations(x) => b matches Attribute::RuntimeVisibleTypeAnnotations(y)
            && same_type_annotations(x@, y@),
        Attribute::RuntimeInvisibleTypeAnnotations(x) => b matches Attribute::RuntimeInvisibleTypeAnnotations(y)
            && same_type_annotations(x@, y@),
        Attribute::AnnotationDefault(x) => b matches Attribute::AnnotationDefault(y) && same_element(x, y),
        Attribute::BootstrapMethods(x) => b matches Attribute::BootstrapMethods(y) && same_bootstraps(x@, y@),
        Attribute::MethodParameters(x) => b matches Attribute::MethodParameters(y) && x@ == y@,
        Attribute::Module(x) => b matches Attribute::Module(y) && same_module(*x, *y),
        Attribute::ModulePackages { package_indices: x } => b matches Attribute::ModulePackages {
            package_indices: y,
        } && x@ == y@,
        Attribute::NestMembers { classes: x } => b matches Attribute::NestMembers { classes: y } && x@ == y@,
        Attribute::Record(x) => b matches Attribute::Record(y) && same_records(x@, y@),
        Attribute::PermittedSubclasses { classes: x } => b matches Attribute::PermittedSubclasses { classes: y }
            && x@ == y@,
        Attribute::Raw { name_index, info } => b matches Attribute::Raw { name_index: n, info: i } && name_index
            == n && info@ == i@,
        _ => a == b,
    }
}

/// Whether `t` holds a copy of each attribute of `s`, in order.
pub open spec fn same_attributes(s: Seq<Attribute>, t: Seq<Attribute>) -> bool
    decreases s, 0nat,
{
    &&& s.len() == t.len()
    &&& forall|k: int| 0 <= k < s.len() ==> same_attribute(#[trigger] s[k], t[k])
}

/// Whether `t` holds a copy of each record component of `s`, in order.
pub open spec fn same_records(s: Seq<RecordComponent>, t: Seq<RecordComponent>) -> bool
    decreases s, 1nat,
{
    &&& s.len() == t.len()
    &&& forall|k: int|
        0 <= k < s.len() ==> (#[trigger] s[k]).name_index == t[k].name_index && s[k].descriptor_index
            == t[k].descriptor_index && same_attributes(s[k].attributes@, t[k].attributes@)
}

/// Whether `b` is a copy of the `Code` attribute body `a`.
pub open spec fn same_code(a: CodeAttribute, b: CodeAttribute) -> bool {
    &&& a.max_stack == b.max_stack
    &&& a.max_locals == b.max_locals
    &&& a.code@ == b.code@
    &&& a.exception_table@ == b.exception_table@
    &&& same_attributes(a.attributes@, b.attributes@)
}

/// Whether `b` is a copy of the record component `a`.
pub open spec fn same_record(a: RecordComponent, b: RecordComponent) -> bool {
    &&& a.name_index == b.name_index
    &&& a.descriptor_index == b.descriptor_index
    &&& same_attributes(a.attributes@, b.attributes@)
}

/// Whether `b` is a copy of the field `a`.
pub open spec fn same_field(a: Field, b: Field) -> bool {
    &&& a.access_flags == b.access_flags
    &&& a.name_index == b.name_index
    &&& a.descriptor_index == b.descriptor_index
    &&& same_attributes(a.attributes@, b.attributes@)
}

/// Whether `b` is a copy of the method `a`.
pub open spec fn same_method(a: Method, b: Method) -> bool {
    &&& a.access_flags == b.access_flags
    &&& a.name_index == b.name_index
    &&& a.descriptor_index == b.descriptor_index
    &&& same_attributes(a.attributes@, b.attributes@)
}

pub open spec fn same_fields(s: Seq<Field>, t: Seq<Field>) -> bool {
    &&& s.len() == t.len()
    &&& forall|k: int| 0 <= k < s.len() ==> #[trigger] same_field(s[k], t[k])
}

pub open spec fn same_methods(s: Seq<Method>, t: Seq<Method>) -> bool {
    &&& s.len() == t.len()
    &&& forall|k: int| 0 <= k < s.len() ==> #[trigger] same_method(s[k], t[k])
}

/// Whether `b` is a copy of the class file `a`.
pub open spec fn same_class_file(a: ClassFile, b: ClassFile) -> bool {
    &&& a.version == b.version
    &&& a.constant_pool@ == b.constant_pool@
    &&& a.access_flags == b.access_flags
    &&& a.this_class == b.this_class
    &&& a.super_class == b.super_class
    &&& a.interfaces@ == b.interfaces@
    &&& same_fields(a.fields@, b.fields@)
    &&& same_methods(a.methods@, b.methods@)
    &&& same_attributes(a.attributes@, b.attributes@)
}

/// A vector of plain values, copied one by one.
fn copy_all<T: Copy>(v: &Vec<T>) -> (r: Vec<T>)
    ensures
        r@ == v@,
{
    let mut out: Vec<T> = Vec::new();
    let mut i: usize = 0;
    while i < v.len()
        invariant
            i <= v@.len(),
            out@ == v@.take(i as int),
        decreases v@.len() - i,
    {
        out.push(v[i]);
        i += 1;
        assert(out@ =~= v@.take(i as int));
    }
    assert(v@.take(v@.len() as int) =~= v@);
    out
}

fn clone_element_value(e: &ElementValue) -> (r: ElementValue)
    ensures
        same_element(*e, r),
    decreases *e, 2nat,
{
    match e {
        ElementValue::Byte(i) => ElementValue::Byte(*i),
        ElementValue::Char(i) => ElementValue::Char(*i),
        ElementValue::Double(i) => ElementValue::Double(*i),
        ElementValue::Float(i) => ElementValue::Float(*i),
        ElementValue::Int(i) => ElementValue::Int(*i),
        ElementValue::Long(i) => ElementValue::Long(*i),
        ElementValue::Short(i) => ElementValue::Short(*i),
        ElementValue::Boolean(i) => ElementValue::Boolean(*i),
        ElementValue::String(i) => ElementValue::String(*i),
        ElementValue::Enum { type_name_index, const_name_index } => ElementValue::Enum {
            type_name_index: *type_name_index,
            const_name_index: *const_name_index,
        },
        ElementValue::Class(i) => ElementValue::Class(*i),
        ElementValue::Annotation(a) => ElementValue::Annotation(Box::new(Annotation {
            type_index: a.type_index,
            element_value_pairs: clone_element_pairs(&a.element_value_pairs),
        })),
        ElementValue::Array(items) => ElementValue::Array(clone_element_values(items)),
    }
}

fn clone_element_values(items: &Vec<ElementValue>) -> (r: Vec<ElementValue>)
    ensures
        same_elements(items@, r@),
    decreases items@, 0nat,
{
    let mut out: Vec<ElementValue> = Vec::new();
    let mut i: usize = 0;
    while i < items.len()
        invariant
            i <= items@.len(),
            out@.len() == i,
            forall|k: int| 0 <= k < i ==> same_element(items@[k], #[trigger] out@[k]),
        decreases items@.len() - i,
    {
        out.push(clone_element_value(&items[i]));
        i += 1;
    }
    out
}

fn clone_element_pairs(pairs: &Vec<(u16, ElementValue)>) -> (r: Vec<(u16, ElementValue)>)
    ensures
        same_pairs(pairs@, r@),
    decreases pairs@, 1nat,
{
    let mut out: Vec<(u16, ElementValue)> = Vec::new();
    let mut i: usize = 0;
    while i < pairs.len()
        invariant
            i <= pairs@.len(),
            out@.len() == i,
            forall|k: int| 0 <= k < i ==> pairs@[k].0 == (#[trigger] out@[k]).0 && same_element(pairs@[k].1, out@[k].1),
        decreases pairs@.len() - i,
    {
        out.push((pairs[i].0, clone_element_value(&pairs[i].1)));
        i += 1;
    }
    out
}

fn clone_annotation(a: &Annotation) -> (r: Annotation)
    ensures
        same_annotation(*a, r),
{
    Annotation { type_index: a.type_index, element_value_pairs: clone_element_pairs(&a.element_value_pairs) }
}

fn clone_annotations(v: &Vec<Annotation>) -> (r: Vec<Annotation>)
    ensures
        same_annotations(v@, r@),
{
    let mut out: Vec<Annotation> = Vec::new();
    let mut i: usize = 0;
    while i < v.len()
        invariant
            i <= v@.len(),
            out@.len() == i,
            forall|k: int| 0 <= k < i ==> same_annotation(v@[k], #[trigger] out@[k]),
        decreases v@.len() - i,
    {
        out.push(clone_annotation(&v[i]));
        i += 1;
    }
    out
}

fn clone_parameter_annotations(v: &Vec<Vec<Annotation>>) -> (r: Vec<Vec<Annotation>>)
    ensures
        same_parameter_annotations(v@, r@),
{
    let mut out: Vec<Vec<Annotation>> = Vec::new();
    let mut i: usize = 0;
    while i < v.len()
        invariant
            i <= v@.len(),
            out@.len() == i,
            forall|k: int| 0 <= k < i ==> same_annotations(v@[k]@, (#[trigger] out@[k])@),
        decreases v@.len() - i,
    {
        out.push(clone_annotations(&v[i]));
        i += 1;
    }
    out
}

fn clone_type_annotation(t: &TypeAnnotation) -> (r: TypeAnnotation)
    ensures
        same_type_annotation(*t, r),
{
    TypeAnnotation {
        target_type: t.target_type,
        target_info: copy_all(&t.target_info),
        target_path: copy_all(&t.target_path),
        type_index: t.type_index,
        element_value_pairs: clone_element_pairs(&t.element_value_pairs),
    }
}

fn clone_type_annotations(v: &Vec<TypeAnnotation>) -> (r: Vec<TypeAnnotation>)
    ensures
        same_type_annotations(v@, r@),
{
    let mut out: Vec<TypeAnnotation> = Vec::new();
    let mut i: usize = 0;
    while i < v.len()
        invariant
            i <= v@.len(),
            out@.len() == i,
            forall|k: int| 0 <= k < i ==> same_type_annotation(v@[k], #[trigger] out@[k]),
        decreases v@.len() - i,
    {
        out.push(clone_type_annotation(&v[i]));
        i += 1;
    }
    out
}

fn copy_frame(f: &StackMapFrame) -> (r: StackMapFrame)
    ensures
        same_frame(*f, r),
{
    match f {
        StackMapFrame::Same { offset_delta } => StackMapFrame::Same { offset_delta: *offset_delta },
        StackMapFrame::SameLocals1StackItem { offset_delta, stack } => StackMapFrame::SameLocals1StackItem {
            offset_delta: *offset_delta,
            stack: *stack,
        },
        StackMapFrame::SameLocals1StackItemExtended { offset_delta, stack } =>
            StackMapFrame::SameLocals1StackItemExtended { offset_delta: *offset_delta, stack: *stack },
        StackMapFrame::Chop { chopped, offset_delta } => StackMapFrame::Chop {
            chopped: *chopped,
            offset_delta: *offset_delta,
        },
        StackMapFrame::SameExtended { offset_delta } => StackMapFrame::SameExtended { offset_delta: *offset_delta },
        StackMapFrame::Append { offset_delta, locals } => StackMapFrame::Append {
            offset_delta: *offset_delta,
            locals: copy_all(locals),
        },
        StackMapFrame::Full { offset_delta, locals, stack } => StackMapFrame::Full {
            offset_delta: *offset_delta,
            locals: copy_all(locals),
            stack: copy_all(stack),
        },
    }
}

fn copy_frames(v: &Vec<StackMapFrame>) -> (r: Vec<StackMapFrame>)
    ensures
        same_frames(v@, r@),
{
    let mut out: Vec<StackMapFrame> = Vec::new();
    let mut i: usize = 0;
    while i < v.len()
        invariant
            i <= v@.len(),
            out@.len() == i,
            forall|k: int| 0 <= k < i ==> same_frame(v@[k], #[trigger] out@[k]),
        decreases v@.len() - i,
    {
        out.push(copy_frame(&v[i]));
        i += 1;
    }
    out
}

fn copy_bootstraps(v: &Vec<BootstrapMethod>) -> (r: Vec<BootstrapMethod>)
    ensures
        same_bootstraps(v@, r@),
{
    let mut out: Vec<BootstrapMethod> = Vec::new();
    let mut i: usize = 0;
    while i < v.len()
        invariant
            i <= v@.len(),
            out@.len() == i,
            forall|k: int|
                0 <= k < i ==> v@[k].bootstrap_method_ref == (#[trigger] out@[k]).bootstrap_method_ref
                    && v@[k].bootstrap_arguments@ == out@[k].bootstrap_arguments@,
        decreases v@.len() - i,
    {
        out.push(BootstrapMethod {
            bootstrap_method_ref: v[i].bootstrap_method_ref,
            bootstrap_arguments: copy_all(&v[i].bootstrap_arguments),
        });
        i += 1;
    }
    out
}

fn copy_module(m: &ModuleAttribute) -> (r: ModuleAttribute)
    ensures
        same_module(*m, r),
{
    let mut reqs: Vec<ModuleRequires> = Vec::new();
    let mut i: usize = 0;
    while i < m.requires.len()
        invariant
            i <= m.requires@.len(),
            reqs@ == m.requires@.take(i as int),
        decreases m.requires@.len() - i,
    {
        reqs.push(ModuleRequires {
            requires_index: m.requires[i].requires_index,
            requires_flags: m.requires[i].requires_flags,
            requires_version_index: m.requires[i].requires_version_index,
        });
        i += 1;
        assert(reqs@ =~= m.requires@.take(i as int));
    }
    assert(m.requires@.take(m.requires@.len() as int) =~= m.requires@);
    let mut exports: Vec<ModuleExports> = Vec::new();
    let mut i: usize = 0;
    while i < m.exports.len()
        invariant
            i <= m.exports@.len(),
            exports@.len() == i,
            forall|k: int|
                0 <= k < i ==> m.exports@[k].exports_index == (#[trigger] exports@[k]).exports_index
                    && m.exports@[k].exports_flags == exports@[k].exports_flags
                    && m.exports@[k].exports_to_index@ == exports@[k].exports_to_index@,
        decreases m.exports@.len() - i,
    {
        exports.push(ModuleExports {
            exports_index: m.exports[i].exports_index,
            exports_flags: m.exports[i].exports_flags,
            exports_to_index: copy_all(&m.exports[i].exports_to_index),
        });
        i += 1;
    }
    let mut opens: Vec<ModuleOpens> = Vec::new();
    let mut i: usize = 0;
    while i < m.opens.len()
        invariant
            i <= m.opens@.len(),
            opens@.len() == i,
            forall|k: int|
                0 <= k < i ==> m.opens@[k].opens_index == (#[trigger] opens@[k]).opens_index
                    && m.opens@[k].opens_flags == opens@[k].opens_flags
                    && m.opens@[k].opens_to_index@ == opens@[k].opens_to_index@,
        decreases m.opens@.len() - i,
    {
        opens.push(ModuleOpens {
            opens_index: m.opens[i].opens_index,
            opens_flags: m.opens[i].opens_flags,
            opens_to_index: copy_all(&m.opens[i].opens_to_index),
        });
        i += 1;
    }
    let mut provides: Vec<ModuleProvides> = Vec::new();
    let mut i: usize = 0;
    while i < m.provides.len()
        invariant
            i <= m.provides@.len(),
            provides@.len() == i,
            forall|k: int|
                0 <= k < i ==> m.provides@[k].provides_index == (#[trigger] provides@[k]).provides_index
                    && m.provides@[k].provides_with_index@ == provides@[k].provides_with_index@,
        decreases m.provides@.len() - i,
    {
        provides.push(ModuleProvides {
            provides_index: m.provides[i].provides_index,
            provides_with_index: copy_all(&m.provides[i].provides_with_index),
        });
        i += 1;
    }
    ModuleAttribute {
        module_name_index: m.module_name_index,
        module_flags: m.module_flags,
        module_version_index: m.module_version_index,
        requires: reqs,
        exports,
        opens,
        uses: copy_all(&m.uses),
        provides,
    }
}

fn clone_attribute(a: &Attribute) -> (r: Attribute)
    ensures
        same_attribute(*a, r),
    decreases *a, 2nat,
{
    match a {
        Attribute::ConstantValue { constantvalue_index } => Attribute::ConstantValue {
            constantvalue_index: *constantvalue_index,
        },
        Attribute::Code(c) => Attribute::Code(CodeAttribute {
            max_stack: c.max_stack,
            max_locals: c.max_locals,
            code: copy_all(&c.code),
            exception_table: copy_all(&c.exception_table),
            attributes: clone_attribute_list(&c.attributes),
        }),
        Attribute::StackMapTable(frames) => Attribute::StackMapTable(copy_frames(frames)),
        Attribute::Exceptions { exception_index_table } => Attribute::Exceptions {
            exception_index_table: copy_all(exception_index_table),
        },
        Attribute::InnerClasses(v) => Attribute::InnerClasses(copy_all(v)),
        Attribute::EnclosingMethod { class_index, method_index } => Attribute::EnclosingMethod {
            class_index: *class_index,
            method_index: *method_index,
        },
        Attribute::Synthetic => Attribute::Synthetic,
        Attribute::Signature { signature_index } => Attribute::Signature { signature_index: *signature_index },
        Attribute::SourceFile { sourcefile_index } => Attribute::SourceFile { sourcefile_index: *sourcefile_index },
        Attribute::SourceDebugExtension(v) => Attribute::SourceDebugExtension(copy_all(v)),
        Attribute::LineNumberTable(v) => Attribute::LineNumberTable(copy_all(v)),
        Attribute::LocalVariableTable(v) => Attribute::LocalVariableTable(copy_all(v)),
        Attribute::LocalVariableTypeTable(v) => Attribute::LocalVariableTypeTable(copy_all(v)),
        Attribute::Deprecated => Attribute::Deprecated,
        Attribute::RuntimeVisibleAnnotations(v) => Attribute::RuntimeVisibleAnnotations(clone_annotations(v)),
        Attribute::RuntimeInvisibleAnnotations(v) => Attribute::RuntimeInvisibleAnnotations(clone_annotations(v)),
        Attribute::RuntimeVisibleParameterAnnotations(v) => Attribute::RuntimeVisibleParameterAnnotations(
            clone_parameter_annotations(v),
        ),
        Attribute::RuntimeInvisibleParameterAnnotations(v) => Attribute::RuntimeInvisibleParameterAnnotations(
            clone_parameter_annotations(v),
        ),
        Attribute::RuntimeVisibleTypeAnnotations(v) => Attribute::RuntimeVisibleTypeAnnotations(
            clone_type_annotations(v),
        ),
        Attribute::RuntimeInvisibleTypeAnnotations(v) => Attribute::RuntimeInvisibleTypeAnnotations(
            clone_type_annotations(v),
        ),
        Attribute::AnnotationDefault(e) => Attribute::AnnotationDefault(clone_element_value(e)),
        Attribute::BootstrapMethods(v) => Attribute::BootstrapMethods(copy_bootstraps(v)),
        Attribute::MethodParameters(v) => Attribute::MethodParameters(copy_all(v)),
        Attribute::Module(m) => Attribute::Module(Box::new(copy_module(m))),
        Attribute::ModulePackages { package_indices } => Attribute::ModulePackages {
            package_indices: copy_all(package_indices),
        },
        Attribute::ModuleMainClass { main_class_index } => Attribute::ModuleMainClass { main_class_index: *main_class_index },
        Attribute::NestHost { host_class_index } => Attribute::NestHost { host_class_index: *host_class_index },
        Attribute::NestMembers { classes } => Attribute::NestMembers { classes: copy_all(classes) },
        Attribute::Record(components) => Attribute::Record(clone_records(components)),
        Attribute::PermittedSubclasses { classes } => Attribute::PermittedSubclasses { classes: copy_all(classes) },
        Attribute::Raw { name_index, info } => Attribute::Raw { name_index: *name_index, info: copy_all(info) },
    }
}

pub(crate) fn clone_attribute_list(v: &Vec<Attribute>) -> (r: Vec<Attribute>)
    ensures
        same_attributes(v@, r@),
    decreases v@, 0nat,
{
    let mut out: Vec<Attribute> = Vec::new();
    let mut i: usize = 0;
    while i < v.len()
        invariant
            i <= v@.len(),
            out@.len() == i,
            forall|k: int| 0 <= k < i ==> same_attribute(v@[k], #[trigger] out@[k]),
        decreases v@.len() - i,
    {
        out.push(clone_attribute(&v[i]));
        i += 1;
    }
    out
}

fn clone_records(v: &Vec<RecordComponent>) -> (r: Vec<RecordComponent>)
    ensures
        same_records(v@, r@),
    decreases v@, 1nat,
{
    let mut out: Vec<RecordComponent> = Vec::new();
    let mut i: usize = 0;
    while i < v.len()
        invariant
            i <= v@.len(),
            out@.len() == i,
            forall|k: int|
                0 <= k < i ==> v@[k].name_index == (#[trigger] out@[k]).name_index && v@[k].descriptor_index
                    == out@[k].descriptor_index && same_attributes(v@[k].attributes@, out@[k].attributes@),
        decreases v@.len() - i,
    {
        out.push(RecordComponent {
            name_index: v[i].name_index,
            descriptor_index: v[i].descriptor_index,
            attributes: clone_attribute_list(&v[i].attributes),
        });
        i += 1;
    }
    out
}

impl Clone for ElementValue {
    fn clone(&self) -> (r: Self)
        ensures
            same_element(*self, r),
    {
        clone_element_value(self)
    }
}

impl Clone for Annotation {
    fn clone(&self) -> (r: Self)
        ensures
            same_annotation(*self, r),
    {
        clone_annotation(self)
    }
}

impl Clone for TypeAnnotation {
    fn clone(&self) -> (r: Self)
        ensures
            same_type_annotation(*self, r),
    {
        clone_type_annotation(self)
    }
}

impl Clone for Attribute {
    fn clone(&self) -> (r: Self)
        ensures
            same_attribute(*self, r),
    {
        clone_attribute(self)
    }
}

impl Clone for CodeAttribute {
    fn clone(&self) -> (r: Self)
        ensures
            same_code(*self, r),
    {
        CodeAttribute {
            max_stack: self.max_stack,
            max_locals: self.max_locals,
            code: copy_all(&self.code),
            exception_table: copy_all(&self.exception_table),
            attributes: clone_attribute_list(&self.attributes),
        }
    }
}

impl Clone for RecordComponent {
    fn clone(&self) -> (r: Self)
        ensures
            same_record(*self, r),
    {
        RecordComponent {
            name_index: self.name_index,
            descriptor_index: self.descriptor_index,
            attributes: clone_attribute_list(&self.attributes),
        }
    }
}

impl Clone for Field {
    fn clone(&self) -> (r: Self)
        ensures
            same_field(*self, r),
    {
        Field {
            access_flags: self.access_flags,
            name_index: self.name_index,
            descriptor_index: self.descriptor_index,
            attributes: clone_attribute_list(&self.attributes),
        }
    }
}

impl Clone for Method {
    fn clone(&self) -> (r: Self)
        ensures
            same_method(*self, r),
    {
        Method {
            access_flags: self.access_flags,
            name_index: self.name_index,
            descriptor_index: self.descriptor_index,
            attributes: clone_attribute_list(&self.attributes),
        }
    }
}

fn clone_fields(v: &Vec<Field>) -> (r: Vec<Field>)
    ensures
        same_fields(v@, r@),
{
    let mut out: Vec<Field> = Vec::new();
    let mut i: usize = 0;
    while i < v.len()
        invariant
            i <= v@.len(),
            out@.len() == i,
            forall|k: int| 0 <= k < i ==> same_field(v@[k], #[trigger] out@[k]),
        decreases v@.len() - i,
    {
        out.push(v[i].clone());
        i += 1;
    }
    out
}

fn clone_methods(v: &Vec<Method>) -> (r: Vec<Method>)
    ensures
        same_methods(v@, r@),
{
    let mut out: Vec<Method> = Vec::new();
    let mut i: usize = 0;
    while i < v.len()
        invariant
            i <= v@.len(),
            out@.len() == i,
            forall|k: int| 0 <= k < i ==> same_method(v@[k], #[trigger] out@[k]),
        decreases v@.len() - i,
    {
        out.push(v[i].clone());
        i += 1;
    }
    out
}

impl Clone for ClassFile {
    fn clone(&self) -> (r: Self)
        ensures
            same_class_file(*self, r),
    {
        ClassFile {
            version: self.version,
            constant_pool: self.constant_pool.clone(),
            access_flags: self.access_flags,
            this_class: self.this_class,
            super_class: self.super_class,
            interfaces: copy_all(&self.interfaces),
            fields: clone_fields(&self.fields),
            methods: clone_methods(&self.methods),
            attributes: clone_attribute_list(&self.attributes),
        }
    }
}

} // verus!
