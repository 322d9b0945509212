//! Errors returned by the class file encoder and its helpers.
use vstd::prelude::*;
use crate::spec::text::{debug_quoted_str, debug_str, decimal_chars, push_decimal, push_signed_decimal, push_str, signed_decimal_chars};

verus! {

/// Errors that may occur while encoding a class file.
#[derive(Debug, Clone, PartialEq, Eq)]
#[non_exhaustive]
pub enum Error {
    /// A `u2` sized container (constant pool, interfaces, methods, fields, ...) overflowed.
    TooManyEntries { what: &'static str, count: usize },
    /// Tried to look up a constant pool name that has not been interned.
    MissingUtf8(String),
    /// The code array exceeded the `u4` bound of the `Code` attribute.
    CodeTooLarge(usize),
    /// A branch offset could not be represented in the required width.
    BranchOutOfRange { offset: i64, width_bits: u8 },
    /// A label was used but never resolved to an instruction position.
    UnresolvedLabel(usize),
    /// Modified UTF-8 byte sequence is malformed at `offset`.
    InvalidUtf8 { offset: usize, reason: &'static str },
    /// A generic message for violations picked up at encode time.
    Encoding(String),
}

pub type Result<T> = core::result::Result<T, Error>;

/// The message of an error.
pub open spec fn error_message(e: Error) -> Seq<char> {
    match e {
        Error::TooManyEntries { what, count } => "too many entries for "@ + what@ + ": "@ + decimal_chars(count as nat)
            + " > 65535"@,
        Error::MissingUtf8(s) => "CONSTANT_Utf8 "@ + debug_str(s@) + " is not in the pool"@,
        Error::CodeTooLarge(n) => "code array of "@ + decimal_chars(n as nat) + " bytes exceeds u4 bounds"@,
        Error::BranchOutOfRange { offset, width_bits } => "branch offset "@ + signed_decimal_chars(offset as int)
            + " does not fit in "@ + decimal_chars(width_bits as nat) + " bits"@,
        Error::UnresolvedLabel(id) => "label #"@ + decimal_chars(id as nat) + " was never placed"@,
        Error::InvalidUtf8 { offset, reason } => "invalid modified UTF-8 at byte "@ + decimal_chars(offset as nat) + ": "@
            + reason@,
        Error::Encoding(m) => m@,
    }
}

impl Error {
    /// The human-readable message of the error.
    pub fn to_string(&self) -> (s: String)
        ensures
            s@ == error_message(*self),
    {
        let mut s = String::new();
        match self {
            Error::TooManyEntries { what, count } => {
                push_str(&mut s, "too many entries for ");
                push_str(&mut s, what);
                push_str(&mut s, ": ");
                push_decimal(&mut s, *count as u64);
                push_str(&mut s, " > 65535");
            },
            Error::MissingUtf8(name) => {
                push_str(&mut s, "CONSTANT_Utf8 ");
                let q = debug_quoted_str(name.as_str());
                push_str(&mut s, q.as_str());
                push_str(&mut s, " is not in the pool");
            },
            Error::CodeTooLarge(n) => {
                push_str(&mut s, "code array of ");
                push_decimal(&mut s, *n as u64);
                push_str(&mut s, " bytes exceeds u4 bounds");
            },
            Error::BranchOutOfRange { offset, width_bits } => {
                push_str(&mut s, "branch offset ");
                push_signed_decimal(&mut s, *offset);
                push_str(&mut s, " does not fit in ");
                push_decimal(&mut s, *width_bits as u64);
                push_str(&mut s, " bits");
            },
            Error::UnresolvedLabel(id) => {
                push_str(&mut s, "label #");
                push_decimal(&mut s, *id as u64);
                push_str(&mut s, " was never placed");
            },
            Error::InvalidUtf8 { offset, reason } => {
                push_str(&mut s, "invalid modified UTF-8 at byte ");
                push_decimal(&mut s, *offset as u64);
                push_str(&mut s, ": ");
                push_str(&mut s, reason);
            },
            Error::Encoding(m) => {
                push_str(&mut s, m.as_str());
            },
        }
        s
    }
}

} // verus!
