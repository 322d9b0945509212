//! Writer for JAR archives and the ZIP subset they sit on.

pub mod crc32;
pub mod error;
pub mod zip;
pub mod manifest;
pub mod builder;
