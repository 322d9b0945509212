//! Fluent, assembler-style builders that compile down to the class file model.

pub mod access;
pub mod label;
pub mod code;
pub mod util;
pub mod annotation;
pub mod field;
pub mod method;
pub mod builder;
