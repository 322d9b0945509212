//! Class file version numbers.
use vstd::prelude::*;
use crate::spec::text::{decimal_chars, push_char, push_decimal};

verus! {

/// Offset between a Java SE release number and its class file major version.
pub const JAVA_SE_MAJOR_OFFSET: u16 = 44;

/// Sentinel minor version that marks a class file using preview features.
pub const PREVIEW_MINOR: u16 = 0xFFFF;

/// Class file version (`major`, `minor`) as emitted after the magic word.
#[derive(Debug, Clone, Copy, PartialEq, Eq, Hash, Structural)]
pub struct Version {
    pub major: u16,
    pub minor: u16,
}

impl Version {
    pub fn new(major: u16, minor: u16) -> (v: Self)
        ensures
            v.major == major,
            v.minor == minor,
    {
        Self { major, minor }
    }

    /// Class file version of a Java SE release: major is the release plus 44,
    /// minor is zero.
    pub fn java_se(release: u16) -> (v: Self)
        requires
            release + JAVA_SE_MAJOR_OFFSET <= u16::MAX,
        ensures
            v.major == release + JAVA_SE_MAJOR_OFFSET,
            v.minor == 0,
    {
        Self { major: release + JAVA_SE_MAJOR_OFFSET, minor: 0 }
    }

    /// `major.minor` in decimal.
    pub fn to_string(&self) -> (s: String)
        ensures
            s@ == decimal_chars(self.major as nat) + seq!['.'] + decimal_chars(self.minor as nat),
    {
        let mut s = String::new();
        push_decimal(&mut s, self.major as u64);
        push_char(&mut s, '.');
        push_decimal(&mut s, self.minor as u64);
        s
    }

    pub fn is_preview(self) -> (b: bool)
        ensures
            b == (self.minor == PREVIEW_MINOR),
    {
        self.minor == PREVIEW_MINOR
    }
}

/// JDK 1.1 predates the `major = 44 + release` formula; its version is `45.3`.
#[allow(non_snake_case)]
pub fn JAVA_1_1() -> (v: Version)
    ensures
        v.major == 45,
        v.minor == 3,
{
    Version { major: 45, minor: 3 }
}

/// Class file version of Java 1.2.
#[allow(non_snake_case)]
pub fn JAVA_1_2() -> (v: Version)
    ensures
        v.major == 46,
        v.minor == 0,
{
    Version { major: 46, minor: 0 }
}

/// Class file version of Java 1.3.
#[allow(non_snake_case)]
pub fn JAVA_1_3() -> (v: Version)
    ensures
        v.major == 47,
        v.minor == 0,
{
    Version { major: 47, minor: 0 }
}

/// Class file version of Java 1.4.
#[allow(non_snake_case)]
pub fn JAVA_1_4() -> (v: Version)
    ensures
        v.major == 48,
        v.minor == 0,
{
    Version { major: 48, minor: 0 }
}

/// Class file version of Java 5.
#[allow(non_snake_case)]
pub fn JAVA_5() -> (v: Version)
    ensures
        v.major == 49,
        v.minor == 0,
{
    Version { major: 49, minor: 0 }
}

/// Class file version of Java 6.
#[allow(non_snake_case)]
pub fn JAVA_6() -> (v: Version)
    ensures
        v.major == 50,
        v.minor == 0,
{
    Version { major: 50, minor: 0 }
}

/// Class file version of Java 7.
#[allow(non_snake_case)]
pub fn JAVA_7() -> (v: Version)
    ensures
        v.major == 51,
        v.minor == 0,
{
    Version { major: 51, minor: 0 }
}

/// Class file version of Java 8.
#[allow(non_snake_case)]
pub fn JAVA_8() -> (v: Version)
    ensures
        v.major == 52,
        v.minor == 0,
{
    Version { major: 52, minor: 0 }
}

/// Class file version of Java 9.
#[allow(non_snake_case)]
pub fn JAVA_9() -> (v: Version)
    ensures
        v.major == 53,
        v.minor == 0,
{
    Version { major: 53, minor: 0 }
}

/// Class file version of Java 10.
#[allow(non_snake_case)]
pub fn JAVA_10() -> (v: Version)
    ensures
        v.major == 54,
        v.minor == 0,
{
    Version { major: 54, minor: 0 }
}

/// Class file version of Java 11.
#[allow(non_snake_case)]
pub fn JAVA_11() -> (v: Version)
    ensures
        v.major == 55,
        v.minor == 0,
{
    Version { major: 55, minor: 0 }
}

/// Class file version of Java 12.
#[allow(non_snake_case)]
pub fn JAVA_12() -> (v: Version)
    ensures
        v.major == 56,
        v.minor == 0,
{
    Version { major: 56, minor: 0 }
}

/// Class file version of Java 13.
#[allow(non_snake_case)]
pub fn JAVA_13() -> (v: Version)
    ensures
        v.major == 57,
        v.minor == 0,
{
    Version { major: 57, minor: 0 }
}

/// Class file version of Java 14.
#[allow(non_snake_case)]
pub fn JAVA_14() -> (v: Version)
    ensures
        v.major == 58,
        v.minor == 0,
{
    Version { major: 58, minor: 0 }
}

/// Class file version of Java 15.
#[allow(non_snake_case)]
pub fn JAVA_15() -> (v: Version)
    ensures
        v.major == 59,
        v.minor == 0,
{
    Version { major: 59, minor: 0 }
}

/// Class file version of Java 16.
#[allow(non_snake_case)]
pub fn JAVA_16() -> (v: Version)
    ensures
        v.major == 60,
        v.minor == 0,
{
    Version { major: 60, minor: 0 }
}

/// Class file version of Java 17.
#[allow(non_snake_case)]
pub fn JAVA_17() -> (v: Version)
    ensures
        v.major == 61,
        v.minor == 0,
{
    Version { major: 61, minor: 0 }
}

/// Class file version of Java 18.
#[allow(non_snake_case)]
pub fn JAVA_18() -> (v: Version)
    ensures
        v.major == 62,
        v.minor == 0,
{
    Version { major: 62, minor: 0 }
}

/// Class file version of Java 19.
#[allow(non_snake_case)]
pub fn JAVA_19() -> (v: Version)
    ensures
        v.major == 63,
        v.minor == 0,
{
    Version { major: 63, minor: 0 }
}

/// Class file version of Java 20.
#[allow(non_snake_case)]
pub fn JAVA_20() -> (v: Version)
    ensures
        v.major == 64,
        v.minor == 0,
{
    Version { major: 64, minor: 0 }
}

/// Class file version of Java 21.
#[allow(non_snake_case)]
pub fn JAVA_21() -> (v: Version)
    ensures
        v.major == 65,
        v.minor == 0,
{
    Version { major: 65, minor: 0 }
}

/// Class file version of Java 22.
#[allow(non_snake_case)]
pub fn JAVA_22() -> (v: Version)
    ensures
        v.major == 66,
        v.minor == 0,
{
    Version { major: 66, minor: 0 }
}

/// Class file version of Java 23.
#[allow(non_snake_case)]
pub fn JAVA_23() -> (v: Version)
    ensures
        v.major == 67,
        v.minor == 0,
{
    Version { major: 67, minor: 0 }
}

/// Class file version of Java 24.
#[allow(non_snake_case)]
pub fn JAVA_24() -> (v: Version)
    ensures
        v.major == 68,
        v.minor == 0,
{
    Version { major: 68, minor: 0 }
}

/// Class file version of Java 25.
#[allow(non_snake_case)]
pub fn JAVA_25() -> (v: Version)
    ensures
        v.major == 69,
        v.minor == 0,
{
    Version { major: 69, minor: 0 }
}


} // verus!
