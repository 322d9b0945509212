//! Predefined and user-defined class file attributes.
//!
//! All predefined attributes are modelled as dedicated variants of
//! [`Attribute`]. Foreign or not-yet-supported attributes fall back to
//! [`Attribute::Raw`]. The encoder knows how to serialize each.
use vstd::prelude::*;
use crate::spec::access::{
    InnerClassAccess, ModuleExportsFlags, ModuleFlags, ModuleOpensFlags, ModuleRequiresFlags,
    ParameterAccess,
};
use crate::spec::constant::{find_from, ConstantPool, ConstantView};
use crate::spec::error::{Error, Result};

verus! {

/// Exception table entry inside `Code`.
#[derive(Debug, Clone, Copy, PartialEq, Eq)]
pub struct ExceptionHandler {
    pub start_pc: u16,
    pub end_pc: u16,
    pub handler_pc: u16,
    /// `0` denotes a "finally"-style catch-all (`any`).
    pub catch_type: u16,
}

/// Body of a `Code` attribute. The bytecode is stored as an opaque byte
/// stream, produced by the instruction encoder.
#[derive(Debug, PartialEq, Eq)]
pub struct CodeAttribute {
    pub max_stack: u16,
    pub max_locals: u16,
    pub code: Vec<u8>,
    pub exception_table: Vec<ExceptionHandler>,
    pub attributes: Vec<Attribute>,
}

impl Default for CodeAttribute {
    fn default() -> (r: Self)
        ensures
            r.max_stack == 0,
            r.max_locals == 0,
            r.code@.len() == 0,
            r.exception_table@.len() == 0,
            r.attributes@.len() == 0,
    {
        CodeAttribute {
            max_stack: 0,
            max_locals: 0,
            code: Vec::new(),
            exception_table: Vec::new(),
            attributes: Vec::new(),
        }
    }
}

/// `stack_map_frame`.
#[derive(Debug, Clone, PartialEq, Eq)]
pub enum StackMapFrame {
    /// Tags 0-63.
    Same { offset_delta: u8 },
    /// Tags 64-127.
    SameLocals1StackItem { offset_delta: u8, stack: VerificationType },
    /// Tag 247.
    SameLocals1StackItemExtended { offset_delta: u16, stack: VerificationType },
    /// Tags 248-250 (`k = 251 - frame_type`).
    Chop { chopped: u8, offset_delta: u16 },
    /// Tag 251.
    SameExtended { offset_delta: u16 },
    /// Tags 252-254 (`k = frame_type - 251`).
    Append { offset_delta: u16, locals: Vec<VerificationType> },
    /// Tag 255.
    Full { offset_delta: u16, locals: Vec<VerificationType>, stack: Vec<VerificationType> },
}

/// `verification_type_info`.
#[derive(Debug, Clone, Copy, PartialEq, Eq, Structural)]
pub enum VerificationType {
    Top,
    Integer,
    Float,
    Double,
    Long,
    Null,
    UninitializedThis,
    Object { cpool_index: u16 },
    /// The `u2` is the byte code offset of the `new` instruction creating
    /// the object being verified.
    Uninitialized { offset: u16 },
}

pub open spec fn verification_tag(v: VerificationType) -> u8 {
    match v {
        VerificationType::Top => 0,
        VerificationType::Integer => 1,
        VerificationType::Float => 2,
        VerificationType::Double => 3,
        VerificationType::Long => 4,
        VerificationType::Null => 5,
        VerificationType::UninitializedThis => 6,
        VerificationType::Object { .. } => 7,
        VerificationType::Uninitialized { .. } => 8,
    }
}

impl VerificationType {
    pub fn tag(self) -> (t: u8)
        ensures
            t == verification_tag(self),
    {
        match self {
            VerificationType::Top => 0,
            VerificationType::Integer => 1,
            VerificationType::Float => 2,
            VerificationType::Double => 3,
            VerificationType::Long => 4,
            VerificationType::Null => 5,
            VerificationType::UninitializedThis => 6,
            VerificationType::Object { .. } => 7,
            VerificationType::Uninitialized { .. } => 8,
        }
    }
}

/// Entry of the `InnerClasses` attribute.
#[derive(Debug, Clone, Copy, PartialEq, Eq)]
pub struct InnerClass {
    pub inner_class_info_index: u16,
    /// `0` when the inner class is not a member of its enclosing class.
    pub outer_class_info_index: u16,
    /// `0` when the inner class is anonymous.
    pub inner_name_index: u16,
    pub inner_class_access_flags: InnerClassAccess,
}

#[derive(Debug, Clone, Copy, PartialEq, Eq)]
pub struct LineNumberEntry {
    pub start_pc: u16,
    pub line_number: u16,
}

#[derive(Debug, Clone, Copy, PartialEq, Eq)]
pub struct LocalVariableEntry {
    pub start_pc: u16,
    pub length: u16,
    pub name_index: u16,
    pub descriptor_index: u16,
    pub index: u16,
}

#[derive(Debug, Clone, Copy, PartialEq, Eq)]
pub struct LocalVariableTypeEntry {
    pub start_pc: u16,
    pub length: u16,
    pub name_index: u16,
    pub signature_index: u16,
    pub index: u16,
}

#[derive(Debug, Clone, PartialEq, Eq)]
pub struct BootstrapMethod {
    pub bootstrap_method_ref: u16,
    pub bootstrap_arguments: Vec<u16>,
}

#[derive(Debug, Clone, Copy, PartialEq, Eq)]
pub struct MethodParameter {
    /// `0` denotes an unnamed parameter.
    pub name_index: u16,
    pub access_flags: ParameterAccess,
}

#[derive(Debug, PartialEq, Eq)]
pub struct RecordComponent {
    pub name_index: u16,
    pub descriptor_index: u16,
    pub attributes: Vec<Attribute>,
}

#[derive(Debug, Clone, PartialEq, Eq)]
pub struct ModuleRequires {
    pub requires_index: u16,
    pub requires_flags: ModuleRequiresFlags,
    /// `0` when the requires has no version.
    pub requires_version_index: u16,
}

#[derive(Debug, Clone, PartialEq, Eq)]
pub struct ModuleExports {
    pub exports_index: u16,
    pub exports_flags: ModuleExportsFlags,
    pub exports_to_index: Vec<u16>,
}

#[derive(Debug, Clone, PartialEq, Eq)]
pub struct ModuleOpens {
    pub opens_index: u16,
    pub opens_flags: ModuleOpensFlags,
    pub opens_to_index: Vec<u16>,
}

#[derive(Debug, Clone, PartialEq, Eq)]
pub struct ModuleProvides {
    pub provides_index: u16,
    pub provides_with_index: Vec<u16>,
}

#[derive(Debug, Clone, PartialEq, Eq)]
pub struct ModuleAttribute {
    pub module_name_index: u16,
    pub module_flags: ModuleFlags,
    /// `0` when the module has no version.
    pub module_version_index: u16,
    pub requires: Vec<ModuleRequires>,
    pub exports: Vec<ModuleExports>,
    pub opens: Vec<ModuleOpens>,
    pub uses: Vec<u16>,
    pub provides: Vec<ModuleProvides>,
}

/// Runtime annotation.
#[derive(Debug, PartialEq, Eq)]
pub struct Annotation {
    pub type_index: u16,
    pub element_value_pairs: Vec<(u16, ElementValue)>,
}

/// `element_value` inside an annotation.
#[derive(Debug, PartialEq, Eq)]
pub enum ElementValue {
    Byte(u16),
    Char(u16),
    Double(u16),
    Float(u16),
    Int(u16),
    Long(u16),
    Short(u16),
    Boolean(u16),
    String(u16),
    Enum { type_name_index: u16, const_name_index: u16 },
    Class(u16),
    Annotation(Box<Annotation>),
    Array(Vec<ElementValue>),
}

pub open spec fn element_tag(e: ElementValue) -> u8 {
    match e {
        ElementValue::Byte(_) => 66,
        ElementValue::Char(_) => 67,
        ElementValue::Double(_) => 68,
        ElementValue::Float(_) => 70,
        ElementValue::Int(_) => 73,
        ElementValue::Long(_) => 74,
        ElementValue::Short(_) => 83,
        ElementValue::Boolean(_) => 90,
        ElementValue::String(_) => 115,
        ElementValue::Enum { .. } => 101,
        ElementValue::Class(_) => 99,
        ElementValue::Annotation(_) => 64,
        ElementValue::Array(_) => 91,
    }
}

impl ElementValue {
    /// The tag character of the value's kind, as a byte.
    pub fn tag(&self) -> (t: u8)
        ensures
            t == element_tag(*self),
    {
        match self {
            ElementValue::Byte(_) => 66,
            ElementValue::Char(_) => 67,
            ElementValue::Double(_) => 68,
            ElementValue::Float(_) => 70,
            ElementValue::Int(_) => 73,
            ElementValue::Long(_) => 74,
            ElementValue::Short(_) => 83,
            ElementValue::Boolean(_) => 90,
            ElementValue::String(_) => 115,
            ElementValue::Enum { .. } => 101,
            ElementValue::Class(_) => 99,
            ElementValue::Annotation(_) => 64,
            ElementValue::Array(_) => 91,
        }
    }
}

/// `type_annotation`. `target_info` is stored as raw bytes because its
/// layout depends on `target_type`.
#[derive(Debug, PartialEq, Eq)]
pub struct TypeAnnotation {
    pub target_type: u8,
    pub target_info: Vec<u8>,
    pub target_path: Vec<(u8, u8)>,
    pub type_index: u16,
    pub element_value_pairs: Vec<(u16, ElementValue)>,
}

/// One of the predefined attributes, or a raw escape hatch for
/// custom/unknown attributes.
#[derive(Debug, PartialEq, Eq)]
#[non_exhaustive]
pub enum Attribute {
    ConstantValue { constantvalue_index: u16 },
    Code(CodeAttribute),
    StackMapTable(Vec<StackMapFrame>),
    Exceptions { exception_index_table: Vec<u16> },
    InnerClasses(Vec<InnerClass>),
    EnclosingMethod {
        class_index: u16,
        /// `0` when the enclosing scope is not a method.
        method_index: u16,
    },
    Synthetic,
    Signature { signature_index: u16 },
    SourceFile { sourcefile_index: u16 },
    SourceDebugExtension(Vec<u8>),
    LineNumberTable(Vec<LineNumberEntry>),
    LocalVariableTable(Vec<LocalVariableEntry>),
    LocalVariableTypeTable(Vec<LocalVariableTypeEntry>),
    Deprecated,
    RuntimeVisibleAnnotations(Vec<Annotation>),
    RuntimeInvisibleAnnotations(Vec<Annotation>),
    RuntimeVisibleParameterAnnotations(Vec<Vec<Annotation>>),
    RuntimeInvisibleParameterAnnotations(Vec<Vec<Annotation>>),
    RuntimeVisibleTypeAnnotations(Vec<TypeAnnotation>),
    RuntimeInvisibleTypeAnnotations(Vec<TypeAnnotation>),
    AnnotationDefault(ElementValue),
    BootstrapMethods(Vec<BootstrapMethod>),
    MethodParameters(Vec<MethodParameter>),
    Module(Box<ModuleAttribute>),
    ModulePackages { package_indices: Vec<u16> },
    ModuleMainClass { main_class_index: u16 },
    NestHost { host_class_index: u16 },
    NestMembers { classes: Vec<u16> },
    Record(Vec<RecordComponent>),
    PermittedSubclasses { classes: Vec<u16> },
    Raw { name_index: u16, info: Vec<u8> },
}

/// The attribute's spec-mandated name; `None` for a raw attribute, which
/// carries its own interned name index.
pub open spec fn attribute_name(a: Attribute) -> Option<Seq<char>> {
    match a {
        Attribute::ConstantValue { .. } => Some("ConstantValue"@),
        Attribute::Code(_) => Some("Code"@),
        Attribute::StackMapTable(_) => Some("StackMapTable"@),
        Attribute::Exceptions { .. } => Some("Exceptions"@),
        Attribute::InnerClasses(_) => Some("InnerClasses"@),
        Attribute::EnclosingMethod { .. } => Some("EnclosingMethod"@),
        Attribute::Synthetic => Some("Synthetic"@),
        Attribute::Signature { .. } => Some("Signature"@),
        Attribute::SourceFile { .. } => Some("SourceFile"@),
        Attribute::SourceDebugExtension(_) => Some("SourceDebugExtension"@),
        Attribute::LineNumberTable(_) => Some("LineNumberTable"@),
        Attribute::LocalVariableTable(_) => Some("LocalVariableTable"@),
        Attribute::LocalVariableTypeTable(_) => Some("LocalVariableTypeTable"@),
        Attribute::Deprecated => Some("Deprecated"@),
        Attribute::RuntimeVisibleAnnotations(_) => Some("RuntimeVisibleAnnotations"@),
        Attribute::RuntimeInvisibleAnnotations(_) => Some("RuntimeInvisibleAnnotations"@),
        Attribute::RuntimeVisibleParameterAnnotations(_) => Some("RuntimeVisibleParameterAnnotations"@),
        Attribute::RuntimeInvisibleParameterAnnotations(_) => Some("RuntimeInvisibleParameterAnnotations"@),
        Attribute::RuntimeVisibleTypeAnnotations(_) => Some("RuntimeVisibleTypeAnnotations"@),
        Attribute::RuntimeInvisibleTypeAnnotations(_) => Some("RuntimeInvisibleTypeAnnotations"@),
        Attribute::AnnotationDefault(_) => Some("AnnotationDefault"@),
        Attribute::BootstrapMethods(_) => Some("BootstrapMethods"@),
        Attribute::MethodParameters(_) => Some("MethodParameters"@),
        Attribute::Module(_) => Some("Module"@),
        Attribute::ModulePackages { .. } => Some("ModulePackages"@),
        Attribute::ModuleMainClass { .. } => Some("ModuleMainClass"@),
        Attribute::NestHost { .. } => Some("NestHost"@),
        Attribute::NestMembers { .. } => Some("NestMembers"@),
        Attribute::Record(_) => Some("Record"@),
        Attribute::PermittedSubclasses { .. } => Some("PermittedSubclasses"@),
        Attribute::Raw { .. } => None,
    }
}

/// Outcome of resolving an attribute's `name_index` against a pool: the
/// index, or the name that the pool lacks.
pub open spec fn name_index_spec(a: Attribute, pool: Seq<Option<ConstantView>>) -> core::result::Result<u16, Seq<char>> {
    match a {
        Attribute::Raw { name_index, .. } => Ok(name_index),
        _ => {
            let name = attribute_name(a)->Some_0;
            match find_from(pool, ConstantView::Utf8(name), 0) {
                Some(i) => Ok(i as u16),
                None => Err(name),
            }
        },
    }
}

impl Attribute {
    /// Spec-mandated attribute name. `None` for [`Attribute::Raw`]
    /// because a raw attribute carries its own interned name index.
    pub fn name(&self) -> (r: Option<&'static str>)
        ensures
            match attribute_name(*self) {
                Some(n) => r matches Some(s) && s@ == n,
                None => r is None,
            },
    {
        let n = match self {
            Attribute::ConstantValue { .. } => "ConstantValue",
            Attribute::Code(_) => "Code",
            Attribute::StackMapTable(_) => "StackMapTable",
            Attribute::Exceptions { .. } => "Exceptions",
            Attribute::InnerClasses(_) => "InnerClasses",
            Attribute::EnclosingMethod { .. } => "EnclosingMethod",
            Attribute::Synthetic => "Synthetic",
            Attribute::Signature { .. } => "Signature",
            Attribute::SourceFile { .. } => "SourceFile",
            Attribute::SourceDebugExtension(_) => "SourceDebugExtension",
            Attribute::LineNumberTable(_) => "LineNumberTable",
            Attribute::LocalVariableTable(_) => "LocalVariableTable",
            Attribute::LocalVariableTypeTable(_) => "LocalVariableTypeTable",
            Attribute::Deprecated => "Deprecated",
            Attribute::RuntimeVisibleAnnotations(_) => "RuntimeVisibleAnnotations",
            Attribute::RuntimeInvisibleAnnotations(_) => "RuntimeInvisibleAnnotations",
            Attribute::RuntimeVisibleParameterAnnotations(_) => "RuntimeVisibleParameterAnnotations",
            Attribute::RuntimeInvisibleParameterAnnotations(_) => "RuntimeInvisibleParameterAnnotations",
            Attribute::RuntimeVisibleTypeAnnotations(_) => "RuntimeVisibleTypeAnnotations",
            Attribute::RuntimeInvisibleTypeAnnotations(_) => "RuntimeInvisibleTypeAnnotations",
            Attribute::AnnotationDefault(_) => "AnnotationDefault",
            Attribute::BootstrapMethods(_) => "BootstrapMethods",
            Attribute::MethodParameters(_) => "MethodParameters",
            Attribute::Module(_) => "Module",
            Attribute::ModulePackages { .. } => "ModulePackages",
            Attribute::ModuleMainClass { .. } => "ModuleMainClass",
            Attribute::NestHost { .. } => "NestHost",
            Attribute::NestMembers { .. } => "NestMembers",
            Attribute::Record(_) => "Record",
            Attribute::PermittedSubclasses { .. } => "PermittedSubclasses",
            Attribute::Raw { .. } => return None,
        };
        Some(n)
    }

    /// Resolve this attribute's `name_index` via the supplied pool.
    ///
    /// For [`Attribute::Raw`] the caller's own index is returned. For any
    /// predefined variant the pool must already contain the mandated name.
    pub fn resolve_name_index(&self, pool: &ConstantPool) -> (r: Result<u16>)
        ensures
            match name_index_spec(*self, pool@) {
                Ok(i) => r == Ok::<u16, Error>(i),
                Err(name) => r matches Err(Error::MissingUtf8(s)) && s@ == name,
            },
    {
        if let Attribute::Raw { name_index, .. } = self {
            return Ok(*name_index);
        }
        let name = match self.name() {
            Some(n) => n,
            None => return Ok(0),
        };
        match pool.find_utf8(name) {
            Some(i) => Ok(i),
            None => Err(Error::MissingUtf8(name.to_owned())),
        }
    }
}

} // verus!
