//! Emit JVM class files and JAR archives, with the encoders, the constant
//! pool, the modified UTF-8 codec, the label resolver and the archive
//! writer proved against their specifications.
//!
//! * `spec`: the class file model (`ClassFile`, `ConstantPool`,
//!   `Attribute`, `Instruction`, ...) and its binary encoder;
//! * `assembler`: fluent class, field, method and code builders;
//! * `jar`: a stored-only ZIP writer, JAR manifests and a JAR builder.

pub mod spec;
pub mod jar;
pub mod assembler;

pub use assembler::access::AccessFlags;
pub use assembler::annotation::{Annotation, ElementValue};
pub use assembler::builder::ClassFileBuilder;
pub use assembler::code::CodeBuilder;
pub use assembler::field::{FieldBuilder, FieldConstant};
pub use assembler::label::Label;
pub use assembler::method::MethodBuilder;
pub use spec::access::{ClassAccess, FieldAccess, InnerClassAccess, MethodAccess, ParameterAccess};
pub use spec::attribute::{
    Attribute, BootstrapMethod, CodeAttribute, ExceptionHandler, InnerClass, LineNumberEntry, LocalVariableEntry,
    LocalVariableTypeEntry, MethodParameter, ModuleAttribute, RecordComponent, StackMapFrame, TypeAnnotation,
    VerificationType,
};
pub use spec::classfile::ClassFile;
pub use spec::constant::{Constant, ConstantPool, ConstantTag, ReferenceKind};
pub use spec::descriptor::{FieldDescriptor, MethodDescriptor};
pub use spec::encode::encode;
pub use spec::error::{Error, Result};
pub use spec::field::Field;
pub use spec::instruction::{ArrayType, Instruction, WideInstruction};
pub use spec::method::Method;
pub use spec::version::{Version, JAVA_11, JAVA_17, JAVA_21, JAVA_25, JAVA_8};
