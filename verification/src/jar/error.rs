//! Errors of the archive writer.
use vstd::prelude::*;
use crate::spec::text::{debug_quoted_str, debug_str, decimal_chars, push_decimal, push_str};

verus! {

pub type Result<T> = core::result::Result<T, Error>;

#[derive(Debug, Clone, PartialEq, Eq)]
#[non_exhaustive]
pub enum Error {
    /// ZIP file names are a `u16` length field; anything longer cannot be
    /// stored in a local file header.
    NameTooLong(usize),
    /// The stored size exceeds the 32-bit limit (ZIP64 is not implemented).
    EntryTooLarge(usize),
    /// The archive would hold more entries than the end record's `u16`
    /// field can count.
    TooManyEntries(usize),
    /// A file name held characters forbidden in ZIP entry paths (NUL,
    /// backslash, leading slash, or `..` path segments).
    InvalidName(String),
    /// The local headers and the central directory would outgrow `u32` offsets.
    ArchiveTooLarge,
}

/// The message of an error.
pub open spec fn error_message(e: Error) -> Seq<char> {
    match e {
        Error::NameTooLong(n) => "ZIP entry name length "@ + decimal_chars(n as nat) + " exceeds u16"@,
        Error::EntryTooLarge(n) => "ZIP entry size "@ + decimal_chars(n as nat) + " exceeds u32 (ZIP64 unsupported)"@,
        Error::TooManyEntries(n) => "archive contains "@ + decimal_chars(n as nat) + " entries, > u16"@,
        Error::InvalidName(s) => "invalid ZIP entry name "@ + debug_str(s@),
        Error::ArchiveTooLarge => "archive offsets exceed u32 (ZIP64 unsupported)"@,
    }
}

impl Error {
    /// The human-readable message of the error.
    pub fn to_string(&self) -> (s: String)
        ensures
            s@ == error_message(*self),
    {
        let mut s = String::new();
        match self {
            Error::NameTooLong(n) => {
                push_str(&mut s, "ZIP entry name length ");
                push_decimal(&mut s, *n as u64);
                push_str(&mut s, " exceeds u16");
            },
            Error::EntryTooLarge(n) => {
                push_str(&mut s, "ZIP entry size ");
                push_decimal(&mut s, *n as u64);
                push_str(&mut s, " exceeds u32 (ZIP64 unsupported)");
            },
            Error::TooManyEntries(n) => {
                push_str(&mut s, "archive contains ");
                push_decimal(&mut s, *n as u64);
                push_str(&mut s, " entries, > u16");
            },
            Error::InvalidName(name) => {
                push_str(&mut s, "invalid ZIP entry name ");
                let q = debug_quoted_str(name.as_str());
                push_str(&mut s, q.as_str());
            },
            Error::ArchiveTooLarge => {
                push_str(&mut s, "archive offsets exceed u32 (ZIP64 unsupported)");
            },
        }
        s
    }
}

} // verus!
