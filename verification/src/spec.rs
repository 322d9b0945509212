//! On-disk data model of the JVM class file format and its binary encoder.

pub mod version;
pub mod wire;
pub mod error;
pub mod mutf8;
pub mod text;
pub mod constant;
pub mod instruction;
pub mod descriptor;
pub mod access;
pub mod attribute;
pub mod field;
pub mod method;
pub mod classfile;
pub mod encode;
mod duplicate;
