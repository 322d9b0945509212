//! Unified access flag type used by the builders.
//!
//! The JVM defines distinct flag sets per context (class / field / method /
//! inner class / parameter). The builders take a single [`AccessFlags`] bag
//! that combines every bit from every context and truncate it to the
//! context-specific set on the way to the class file model. Aliases cover
//! bits that carry different names in different contexts (for example
//! `SUPER` is the class-level spelling of the `SYNCHRONIZED` bit).
use vstd::prelude::*;
use crate::spec::access::{ClassAccess, FieldAccess, InnerClassAccess, MethodAccess, ParameterAccess};

verus! {

/// Every access flag bit of every context.
#[derive(Debug, Clone, Copy, PartialEq, Eq, Hash, Structural)]
pub struct AccessFlags {
    bits: u16,
}

impl View for AccessFlags {
    type V = u16;

    closed spec fn view(&self) -> u16 {
        self.bits
    }
}

/// The empty set.
impl Default for AccessFlags {
    fn default() -> (r: Self)
        ensures
            r@ == 0,
    {
        Self { bits: 0 }
    }
}

impl AccessFlags {
    #[allow(non_snake_case)]
    pub fn PUBLIC() -> (r: Self)
        ensures
            r@ == 0x0001,
    {
        Self { bits: 0x0001 }
    }

    #[allow(non_snake_case)]
    pub fn PRIVATE() -> (r: Self)
        ensures
            r@ == 0x0002,
    {
        Self { bits: 0x0002 }
    }

    #[allow(non_snake_case)]
    pub fn PROTECTED() -> (r: Self)
        ensures
            r@ == 0x0004,
    {
        Self { bits: 0x0004 }
    }

    #[allow(non_snake_case)]
    pub fn STATIC() -> (r: Self)
        ensures
            r@ == 0x0008,
    {
        Self { bits: 0x0008 }
    }

    #[allow(non_snake_case)]
    pub fn FINAL() -> (r: Self)
        ensures
            r@ == 0x0010,
    {
        Self { bits: 0x0010 }
    }

    #[allow(non_snake_case)]
    pub fn SYNCHRONIZED() -> (r: Self)
        ensures
            r@ == 0x0020,
    {
        Self { bits: 0x0020 }
    }

    #[allow(non_snake_case)]
    pub fn VOLATILE() -> (r: Self)
        ensures
            r@ == 0x0040,
    {
        Self { bits: 0x0040 }
    }

    #[allow(non_snake_case)]
    pub fn TRANSIENT() -> (r: Self)
        ensures
            r@ == 0x0080,
    {
        Self { bits: 0x0080 }
    }

    #[allow(non_snake_case)]
    pub fn NATIVE() -> (r: Self)
        ensures
            r@ == 0x0100,
    {
        Self { bits: 0x0100 }
    }

    #[allow(non_snake_case)]
    pub fn INTERFACE() -> (r: Self)
        ensures
            r@ == 0x0200,
    {
        Self { bits: 0x0200 }
    }

    #[allow(non_snake_case)]
    pub fn ABSTRACT() -> (r: Self)
        ensures
            r@ == 0x0400,
    {
        Self { bits: 0x0400 }
    }

    #[allow(non_snake_case)]
    pub fn STRICT() -> (r: Self)
        ensures
            r@ == 0x0800,
    {
        Self { bits: 0x0800 }
    }

    #[allow(non_snake_case)]
    pub fn SYNTHETIC() -> (r: Self)
        ensures
            r@ == 0x1000,
    {
        Self { bits: 0x1000 }
    }

    #[allow(non_snake_case)]
    pub fn ANNOTATION() -> (r: Self)
        ensures
            r@ == 0x2000,
    {
        Self { bits: 0x2000 }
    }

    #[allow(non_snake_case)]
    pub fn ENUM() -> (r: Self)
        ensures
            r@ == 0x4000,
    {
        Self { bits: 0x4000 }
    }

    #[allow(non_snake_case)]
    pub fn MODULE() -> (r: Self)
        ensures
            r@ == 0x8000,
    {
        Self { bits: 0x8000 }
    }

    /// Alias of [`AccessFlags::SYNCHRONIZED`].
    #[allow(non_snake_case)]
    pub fn SUPER() -> (r: Self)
        ensures
            r@ == 0x0020,
    {
        Self { bits: 0x0020 }
    }

    /// Alias of [`AccessFlags::VOLATILE`].
    #[allow(non_snake_case)]
    pub fn BRIDGE() -> (r: Self)
        ensures
            r@ == 0x0040,
    {
        Self { bits: 0x0040 }
    }

    /// Alias of [`AccessFlags::TRANSIENT`].
    #[allow(non_snake_case)]
    pub fn VARARGS() -> (r: Self)
        ensures
            r@ == 0x0080,
    {
        Self { bits: 0x0080 }
    }

    /// Alias of [`AccessFlags::MODULE`].
    #[allow(non_snake_case)]
    pub fn MANDATED() -> (r: Self)
        ensures
            r@ == 0x8000,
    {
        Self { bits: 0x8000 }
    }

    /// Alias of [`AccessFlags::SYNCHRONIZED`].
    #[allow(non_snake_case)]
    pub fn TRANSITIVE() -> (r: Self)
        ensures
            r@ == 0x0020,
    {
        Self { bits: 0x0020 }
    }

    /// Alias of [`AccessFlags::VOLATILE`].
    #[allow(non_snake_case)]
    pub fn STATIC_PHASE() -> (r: Self)
        ensures
            r@ == 0x0040,
    {
        Self { bits: 0x0040 }
    }

    /// Alias of [`AccessFlags::SYNCHRONIZED`].
    #[allow(non_snake_case)]
    pub fn OPEN() -> (r: Self)
        ensures
            r@ == 0x0020,
    {
        Self { bits: 0x0020 }
    }

    /// Every bit that names a flag of this set.
    pub open spec fn all_bits() -> u16 {
        0xffff
    }

    /// The set whose bits are those of `b` that name a flag.
    pub closed spec fn from_bits_truncate_spec(b: u16) -> Self {
        Self { bits: b & Self::all_bits() }
    }

    /// The set holding the flags of both operands.
    pub closed spec fn union_spec(a: Self, b: Self) -> Self {
        Self { bits: a.bits | b.bits }
    }

    pub fn empty() -> (r: Self)
        ensures
            r@ == 0,
    {
        Self { bits: 0 }
    }

    pub fn all() -> (r: Self)
        ensures
            r@ == Self::all_bits(),
    {
        Self { bits: 0xffff }
    }

    pub fn bits(&self) -> (b: u16)
        ensures
            b == self@,
    {
        self.bits
    }

    /// The flags of `bits` that this set names; other bits are dropped.
    pub fn from_bits_truncate(bits: u16) -> (r: Self)
        ensures
            r@ == bits & Self::all_bits(),
            r == Self::from_bits_truncate_spec(bits),
    {
        Self { bits: bits & 0xffff }
    }

    /// Whether every flag of `other` is set in `self`.
    pub fn contains(&self, other: Self) -> (b: bool)
        ensures
            b == (self@ & other@ == other@),
    {
        self.bits & other.bits == other.bits
    }

    pub fn is_empty(&self) -> (b: bool)
        ensures
            b == (self@ == 0),
    {
        self.bits == 0
    }

    /// The flags set in either operand.
    pub fn union(self, other: Self) -> (r: Self)
        ensures
            r@ == self@ | other@,
    {
        Self { bits: self.bits | other.bits }
    }
}

impl core::ops::BitOr for AccessFlags {
    type Output = Self;

    fn bitor(self, other: Self) -> (r: Self)
        ensures
            r@ == self@ | other@,
            r == Self::union_spec(self, other),
    {
        Self { bits: self.bits | other.bits }
    }
}

impl vstd::std_specs::ops::BitOrSpecImpl for AccessFlags {
    open spec fn obeys_bitor_spec() -> bool {
        true
    }

    open spec fn bitor_req(self, rhs: Self) -> bool {
        true
    }

    open spec fn bitor_spec(self, rhs: Self) -> Self {
        AccessFlags::union_spec(self, rhs)
    }
}

impl From<AccessFlags> for ClassAccess {
    fn from(a: AccessFlags) -> (r: Self)
        ensures
            r@ == a@ & ClassAccess::all_bits(),
    {
        ClassAccess::from_bits_truncate(a.bits())
    }
}

impl vstd::std_specs::convert::FromSpecImpl<AccessFlags> for ClassAccess {
    open spec fn obeys_from_spec() -> bool {
        true
    }

    open spec fn from_spec(a: AccessFlags) -> Self {
        ClassAccess::from_bits_truncate_spec(a@)
    }
}

impl From<AccessFlags> for FieldAccess {
    fn from(a: AccessFlags) -> (r: Self)
        ensures
            r@ == a@ & FieldAccess::all_bits(),
    {
        FieldAccess::from_bits_truncate(a.bits())
    }
}

impl vstd::std_specs::convert::FromSpecImpl<AccessFlags> for FieldAccess {
    open spec fn obeys_from_spec() -> bool {
        true
    }

    open spec fn from_spec(a: AccessFlags) -> Self {
        FieldAccess::from_bits_truncate_spec(a@)
    }
}

impl From<AccessFlags> for MethodAccess {
    fn from(a: AccessFlags) -> (r: Self)
        ensures
            r@ == a@ & MethodAccess::all_bits(),
    {
        MethodAccess::from_bits_truncate(a.bits())
    }
}

impl vstd::std_specs::convert::FromSpecImpl<AccessFlags> for MethodAccess {
    open spec fn obeys_from_spec() -> bool {
        true
    }

    open spec fn from_spec(a: AccessFlags) -> Self {
        MethodAccess::from_bits_truncate_spec(a@)
    }
}

impl From<AccessFlags> for InnerClassAccess {
    fn from(a: AccessFlags) -> (r: Self)
        ensures
            r@ == a@ & InnerClassAccess::all_bits(),
    {
        InnerClassAccess::from_bits_truncate(a.bits())
    }
}

impl vstd::std_specs::convert::FromSpecImpl<AccessFlags> for InnerClassAccess {
    open spec fn obeys_from_spec() -> bool {
        true
    }

    open spec fn from_spec(a: AccessFlags) -> Self {
        InnerClassAccess::from_bits_truncate_spec(a@)
    }
}

impl From<AccessFlags> for ParameterAccess {
    fn from(a: AccessFlags) -> (r: Self)
        ensures
            r@ == a@ & ParameterAccess::all_bits(),
    {
        ParameterAccess::from_bits_truncate(a.bits())
    }
}

impl vstd::std_specs::convert::FromSpecImpl<AccessFlags> for ParameterAccess {
    open spec fn obeys_from_spec() -> bool {
        true
    }

    open spec fn from_spec(a: AccessFlags) -> Self {
        ParameterAccess::from_bits_truncate_spec(a@)
    }
}

} // verus!
