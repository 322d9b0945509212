//! Top level `ClassFile` structure.
use vstd::prelude::*;
use crate::spec::access::ClassAccess;
use crate::spec::attribute::Attribute;
use crate::spec::constant::{ConstantPool, ConstantView};
use crate::spec::field::Field;
use crate::spec::method::Method;
use crate::spec::version::{Version, JAVA_17};

verus! {

/// Magic header word written as `u4` at the start of every class file.
pub const MAGIC: u32 = 0xCAFE_BABE;

#[derive(Debug)]
pub struct ClassFile {
    pub version: Version,
    pub constant_pool: ConstantPool,
    pub access_flags: ClassAccess,
    pub this_class: u16,
    /// `0` denotes no super class, which is only legal for `java.lang.Object`
    /// and for `module-info` class files.
    pub super_class: u16,
    pub interfaces: Vec<u16>,
    pub fields: Vec<Field>,
    pub methods: Vec<Method>,
    pub attributes: Vec<Attribute>,
}

impl Default for ClassFile {
    /// An empty Java 17 class file with a fresh pool and no members.
    fn default() -> (cf: Self)
        ensures
            cf.version.major == 61 && cf.version.minor == 0,
            cf.constant_pool@ == seq![None::<ConstantView>],
            cf.access_flags@ == 0,
            cf.this_class == 0,
            cf.super_class == 0,
            cf.interfaces@.len() == 0,
            cf.fields@.len() == 0,
            cf.methods@.len() == 0,
            cf.attributes@.len() == 0,
    {
        Self {
            version: JAVA_17(),
            constant_pool: ConstantPool::new(),
            access_flags: ClassAccess::empty(),
            this_class: 0,
            super_class: 0,
            interfaces: Vec::new(),
            fields: Vec::new(),
            methods: Vec::new(),
            attributes: Vec::new(),
        }
    }
}

} // verus!
