//! Access flag bit sets of classes, fields, methods, inner classes,
//! method parameters and modules.
use vstd::prelude::*;

verus! {

/// `access_flags` field of a class file.
#[derive(Debug, Clone, Copy, PartialEq, Eq, Hash, Structural)]
pub struct ClassAccess {
    bits: u16,
}

impl View for ClassAccess {
    type V = u16;

    closed spec fn view(&self) -> u16 {
        self.bits
    }
}

/// The empty set.
impl Default for ClassAccess {
    fn default() -> (r: Self)
        ensures
            r@ == 0,
    {
        Self { bits: 0 }
    }
}

impl ClassAccess {
    #[allow(non_snake_case)]
    pub fn PUBLIC() -> (r: Self)
        ensures
            r@ == 0x0001,
    {
        Self { bits: 0x0001 }
    }

    #[allow(non_snake_case)]
    pub fn FINAL() -> (r: Self)
        ensures
            r@ == 0x0010,
    {
        Self { bits: 0x0010 }
    }

    #[allow(non_snake_case)]
    pub fn SUPER() -> (r: Self)
        ensures
            r@ == 0x0020,
    {
        Self { bits: 0x0020 }
    }

    #[allow(non_snake_case)]
    pub fn INTERFACE() -> (r: Self)
        ensures
            r@ == 0x0200,
    {
        Self { bits: 0x0200 }
    }

    #[allow(non_snake_case)]
    pub fn ABSTRACT() -> (r: Self)
        ensures
            r@ == 0x0400,
    {
        Self { bits: 0x0400 }
    }

    #[allow(non_snake_case)]
    pub fn SYNTHETIC() -> (r: Self)
        ensures
            r@ == 0x1000,
    {
        Self { bits: 0x1000 }
    }

    #[allow(non_snake_case)]
    pub fn ANNOTATION() -> (r: Self)
        ensures
            r@ == 0x2000,
    {
        Self { bits: 0x2000 }
    }

    #[allow(non_snake_case)]
    pub fn ENUM() -> (r: Self)
        ensures
            r@ == 0x4000,
    {
        Self { bits: 0x4000 }
    }

    #[allow(non_snake_case)]
    pub fn MODULE() -> (r: Self)
        ensures
            r@ == 0x8000,
    {
        Self { bits: 0x8000 }
    }

    /// Every bit that names a flag of this set.
    pub open spec fn all_bits() -> u16 {
        0xf631
    }

    /// The set whose bits are those of `b` that name a flag.
    pub closed spec fn from_bits_truncate_spec(b: u16) -> Self {
        Self { bits: b & Self::all_bits() }
    }

    /// The set holding the flags of both operands.
    pub closed spec fn union_spec(a: Self, b: Self) -> Self {
        Self { bits: a.bits | b.bits }
    }

    pub fn empty() -> (r: Self)
        ensures
            r@ == 0,
    {
        Self { bits: 0 }
    }

    pub fn all() -> (r: Self)
        ensures
            r@ == Self::all_bits(),
    {
        Self { bits: 0xf631 }
    }

    pub fn bits(&self) -> (b: u16)
        ensures
            b == self@,
    {
        self.bits
    }

    /// The flags of `bits` that this set names; other bits are dropped.
    pub fn from_bits_truncate(bits: u16) -> (r: Self)
        ensures
            r@ == bits & Self::all_bits(),
            r == Self::from_bits_truncate_spec(bits),
    {
        Self { bits: bits & 0xf631 }
    }

    /// Whether every flag of `other` is set in `self`.
    pub fn contains(&self, other: Self) -> (b: bool)
        ensures
            b == (self@ & other@ == other@),
    {
        self.bits & other.bits == other.bits
    }

    pub fn is_empty(&self) -> (b: bool)
        ensures
            b == (self@ == 0),
    {
        self.bits == 0
    }

    /// The flags set in either operand.
    pub fn union(self, other: Self) -> (r: Self)
        ensures
            r@ == self@ | other@,
    {
        Self { bits: self.bits | other.bits }
    }
}

impl core::ops::BitOr for ClassAccess {
    type Output = Self;

    fn bitor(self, other: Self) -> (r: Self)
        ensures
            r@ == self@ | other@,
            r == Self::union_spec(self, other),
    {
        Self { bits: self.bits | other.bits }
    }
}

impl vstd::std_specs::ops::BitOrSpecImpl for ClassAccess {
    open spec fn obeys_bitor_spec() -> bool {
        true
    }

    open spec fn bitor_req(self, rhs: Self) -> bool {
        true
    }

    open spec fn bitor_spec(self, rhs: Self) -> Self {
        ClassAccess::union_spec(self, rhs)
    }
}

/// Access flags for a field.
#[derive(Debug, Clone, Copy, PartialEq, Eq, Hash, Structural)]
pub struct FieldAccess {
    bits: u16,
}

impl View for FieldAccess {
    type V = u16;

    closed spec fn view(&self) -> u16 {
        self.bits
    }
}

/// The empty set.
impl Default for FieldAccess {
    fn default() -> (r: Self)
        ensures
            r@ == 0,
    {
        Self { bits: 0 }
    }
}

impl FieldAccess {
    #[allow(non_snake_case)]
    pub fn PUBLIC() -> (r: Self)
        ensures
            r@ == 0x0001,
    {
        Self { bits: 0x0001 }
    }

    #[allow(non_snake_case)]
    pub fn PRIVATE() -> (r: Self)
        ensures
            r@ == 0x0002,
    {
        Self { bits: 0x0002 }
    }

    #[allow(non_snake_case)]
    pub fn PROTECTED() -> (r: Self)
        ensures
            r@ == 0x0004,
    {
        Self { bits: 0x0004 }
    }

    #[allow(non_snake_case)]
    pub fn STATIC() -> (r: Self)
        ensures
            r@ == 0x0008,
    {
        Self { bits: 0x0008 }
    }

    #[allow(non_snake_case)]
    pub fn FINAL() -> (r: Self)
        ensures
            r@ == 0x0010,
    {
        Self { bits: 0x0010 }
    }

    #[allow(non_snake_case)]
    pub fn VOLATILE() -> (r: Self)
        ensures
            r@ == 0x0040,
    {
        Self { bits: 0x0040 }
    }

    #[allow(non_snake_case)]
    pub fn TRANSIENT() -> (r: Self)
        ensures
            r@ == 0x0080,
    {
        Self { bits: 0x0080 }
    }

    #[allow(non_snake_case)]
    pub fn SYNTHETIC() -> (r: Self)
        ensures
            r@ == 0x1000,
    {
        Self { bits: 0x1000 }
    }

    #[allow(non_snake_case)]
    pub fn ENUM() -> (r: Self)
        ensures
            r@ == 0x4000,
    {
        Self { bits: 0x4000 }
    }

    /// Every bit that names a flag of this set.
    pub open spec fn all_bits() -> u16 {
        0x50df
    }

    /// The set whose bits are those of `b` that name a flag.
    pub closed spec fn from_bits_truncate_spec(b: u16) -> Self {
        Self { bits: b & Self::all_bits() }
    }

    /// The set holding the flags of both operands.
    pub closed spec fn union_spec(a: Self, b: Self) -> Self {
        Self { bits: a.bits | b.bits }
    }

    pub fn empty() -> (r: Self)
        ensures
            r@ == 0,
    {
        Self { bits: 0 }
    }

    pub fn all() -> (r: Self)
        ensures
            r@ == Self::all_bits(),
    {
        Self { bits: 0x50df }
    }

    pub fn bits(&self) -> (b: u16)
        ensures
            b == self@,
    {
        self.bits
    }

    /// The flags of `bits` that this set names; other bits are dropped.
    pub fn from_bits_truncate(bits: u16) -> (r: Self)
        ensures
            r@ == bits & Self::all_bits(),
            r == Self::from_bits_truncate_spec(bits),
    {
        Self { bits: bits & 0x50df }
    }

    /// Whether every flag of `other` is set in `self`.
    pub fn contains(&self, other: Self) -> (b: bool)
        ensures
            b == (self@ & other@ == other@),
    {
        self.bits & other.bits == other.bits
    }

    pub fn is_empty(&self) -> (b: bool)
        ensures
            b == (self@ == 0),
    {
        self.bits == 0
    }

    /// The flags set in either operand.
    pub fn union(self, other: Self) -> (r: Self)
        ensures
            r@ == self@ | other@,
    {
        Self { bits: self.bits | other.bits }
    }
}

impl core::ops::BitOr for FieldAccess {
    type Output = Self;

    fn bitor(self, other: Self) -> (r: Self)
        ensures
            r@ == self@ | other@,
            r == Self::union_spec(self, other),
    {
        Self { bits: self.bits | other.bits }
    }
}

impl vstd::std_specs::ops::BitOrSpecImpl for FieldAccess {
    open spec fn obeys_bitor_spec() -> bool {
        true
    }

    open spec fn bitor_req(self, rhs: Self) -> bool {
        true
    }

    open spec fn bitor_spec(self, rhs: Self) -> Self {
        FieldAccess::union_spec(self, rhs)
    }
}

/// Access flags for a method.
#[derive(Debug, Clone, Copy, PartialEq, Eq, Hash, Structural)]
pub struct MethodAccess {
    bits: u16,
}

impl View for MethodAccess {
    type V = u16;

    closed spec fn view(&self) -> u16 {
        self.bits
    }
}

/// The empty set.
impl Default for MethodAccess {
    fn default() -> (r: Self)
        ensures
            r@ == 0,
    {
        Self { bits: 0 }
    }
}

impl MethodAccess {
    #[allow(non_snake_case)]
    pub fn PUBLIC() -> (r: Self)
        ensures
            r@ == 0x0001,
    {
        Self { bits: 0x0001 }
    }

    #[allow(non_snake_case)]
    pub fn PRIVATE() -> (r: Self)
        ensures
            r@ == 0x0002,
    {
        Self { bits: 0x0002 }
    }

    #[allow(non_snake_case)]
    pub fn PROTECTED() -> (r: Self)
        ensures
            r@ == 0x0004,
    {
        Self { bits: 0x0004 }
    }

    #[allow(non_snake_case)]
    pub fn STATIC() -> (r: Self)
        ensures
            r@ == 0x0008,
    {
        Self { bits: 0x0008 }
    }

    #[allow(non_snake_case)]
    pub fn FINAL() -> (r: Self)
        ensures
            r@ == 0x0010,
    {
        Self { bits: 0x0010 }
    }

    #[allow(non_snake_case)]
    pub fn SYNCHRONIZED() -> (r: Self)
        ensures
            r@ == 0x0020,
    {
        Self { bits: 0x0020 }
    }

    #[allow(non_snake_case)]
    pub fn BRIDGE() -> (r: Self)
        ensures
            r@ == 0x0040,
    {
        Self { bits: 0x0040 }
    }

    #[allow(non_snake_case)]
    pub fn VARARGS() -> (r: Self)
        ensures
            r@ == 0x0080,
    {
        Self { bits: 0x0080 }
    }

    #[allow(non_snake_case)]
    pub fn NATIVE() -> (r: Self)
        ensures
            r@ == 0x0100,
    {
        Self { bits: 0x0100 }
    }

    #[allow(non_snake_case)]
    pub fn ABSTRACT() -> (r: Self)
        ensures
            r@ == 0x0400,
    {
        Self { bits: 0x0400 }
    }

    #[allow(non_snake_case)]
    pub fn STRICT() -> (r: Self)
        ensures
            r@ == 0x0800,
    {
        Self { bits: 0x0800 }
    }

    #[allow(non_snake_case)]
    pub fn SYNTHETIC() -> (r: Self)
        ensures
            r@ == 0x1000,
    {
        Self { bits: 0x1000 }
    }

    /// Every bit that names a flag of this set.
    pub open spec fn all_bits() -> u16 {
        0x1dff
    }

    /// The set whose bits are those of `b` that name a flag.
    pub closed spec fn from_bits_truncate_spec(b: u16) -> Self {
        Self { bits: b & Self::all_bits() }
    }

    /// The set holding the flags of both operands.
    pub closed spec fn union_spec(a: Self, b: Self) -> Self {
        Self { bits: a.bits | b.bits }
    }

    pub fn empty() -> (r: Self)
        ensures
            r@ == 0,
    {
        Self { bits: 0 }
    }

    pub fn all() -> (r: Self)
        ensures
            r@ == Self::all_bits(),
    {
        Self { bits: 0x1dff }
    }

    pub fn bits(&self) -> (b: u16)
        ensures
            b == self@,
    {
        self.bits
    }

    /// The flags of `bits` that this set names; other bits are dropped.
    pub fn from_bits_truncate(bits: u16) -> (r: Self)
        ensures
            r@ == bits & Self::all_bits(),
            r == Self::from_bits_truncate_spec(bits),
    {
        Self { bits: bits & 0x1dff }
    }

    /// Whether every flag of `other` is set in `self`.
    pub fn contains(&self, other: Self) -> (b: bool)
        ensures
            b == (self@ & other@ == other@),
    {
        self.bits & other.bits == other.bits
    }

    pub fn is_empty(&self) -> (b: bool)
        ensures
            b == (self@ == 0),
    {
        self.bits == 0
    }

    /// The flags set in either operand.
    pub fn union(self, other: Self) -> (r: Self)
        ensures
            r@ == self@ | other@,
    {
        Self { bits: self.bits | other.bits }
    }
}

impl core::ops::BitOr for MethodAccess {
    type Output = Self;

    fn bitor(self, other: Self) -> (r: Self)
        ensures
            r@ == self@ | other@,
            r == Self::union_spec(self, other),
    {
        Self { bits: self.bits | other.bits }
    }
}

impl vstd::std_specs::ops::BitOrSpecImpl for MethodAccess {
    open spec fn obeys_bitor_spec() -> bool {
        true
    }

    open spec fn bitor_req(self, rhs: Self) -> bool {
        true
    }

    open spec fn bitor_spec(self, rhs: Self) -> Self {
        MethodAccess::union_spec(self, rhs)
    }
}

/// Access flags used in `InnerClasses` entries.
#[derive(Debug, Clone, Copy, PartialEq, Eq, Hash, Structural)]
pub struct InnerClassAccess {
    bits: u16,
}

impl View for InnerClassAccess {
    type V = u16;

    closed spec fn view(&self) -> u16 {
        self.bits
    }
}

/// The empty set.
impl Default for InnerClassAccess {
    fn default() -> (r: Self)
        ensures
            r@ == 0,
    {
        Self { bits: 0 }
    }
}

impl InnerClassAccess {
    #[allow(non_snake_case)]
    pub fn PUBLIC() -> (r: Self)
        ensures
            r@ == 0x0001,
    {
        Self { bits: 0x0001 }
    }

    #[allow(non_snake_case)]
    pub fn PRIVATE() -> (r: Self)
        ensures
            r@ == 0x0002,
    {
        Self { bits: 0x0002 }
    }

    #[allow(non_snake_case)]
    pub fn PROTECTED() -> (r: Self)
        ensures
            r@ == 0x0004,
    {
        Self { bits: 0x0004 }
    }

    #[allow(non_snake_case)]
    pub fn STATIC() -> (r: Self)
        ensures
            r@ == 0x0008,
    {
        Self { bits: 0x0008 }
    }

    #[allow(non_snake_case)]
    pub fn FINAL() -> (r: Self)
        ensures
            r@ == 0x0010,
    {
        Self { bits: 0x0010 }
    }

    #[allow(non_snake_case)]
    pub fn INTERFACE() -> (r: Self)
        ensures
            r@ == 0x0200,
    {
        Self { bits: 0x0200 }
    }

    #[allow(non_snake_case)]
    pub fn ABSTRACT() -> (r: Self)
        ensures
            r@ == 0x0400,
    {
        Self { bits: 0x0400 }
    }

    #[allow(non_snake_case)]
    pub fn SYNTHETIC() -> (r: Self)
        ensures
            r@ == 0x1000,
    {
        Self { bits: 0x1000 }
    }

    #[allow(non_snake_case)]
    pub fn ANNOTATION() -> (r: Self)
        ensures
            r@ == 0x2000,
    {
        Self { bits: 0x2000 }
    }

    #[allow(non_snake_case)]
    pub fn ENUM() -> (r: Self)
        ensures
            r@ == 0x4000,
    {
        Self { bits: 0x4000 }
    }

    /// Every bit that names a flag of this set.
    pub open spec fn all_bits() -> u16 {
        0x761f
    }

    /// The set whose bits are those of `b` that name a flag.
    pub closed spec fn from_bits_truncate_spec(b: u16) -> Self {
        Self { bits: b & Self::all_bits() }
    }

    /// The set holding the flags of both operands.
    pub closed spec fn union_spec(a: Self, b: Self) -> Self {
        Self { bits: a.bits | b.bits }
    }

    pub fn empty() -> (r: Self)
        ensures
            r@ == 0,
    {
        Self { bits: 0 }
    }

    pub fn all() -> (r: Self)
        ensures
            r@ == Self::all_bits(),
    {
        Self { bits: 0x761f }
    }

    pub fn bits(&self) -> (b: u16)
        ensures
            b == self@,
    {
        self.bits
    }

    /// The flags of `bits` that this set names; other bits are dropped.
    pub fn from_bits_truncate(bits: u16) -> (r: Self)
        ensures
            r@ == bits & Self::all_bits(),
            r == Self::from_bits_truncate_spec(bits),
    {
        Self { bits: bits & 0x761f }
    }

    /// Whether every flag of `other` is set in `self`.
    pub fn contains(&self, other: Self) -> (b: bool)
        ensures
            b == (self@ & other@ == other@),
    {
        self.bits & other.bits == other.bits
    }

    pub fn is_empty(&self) -> (b: bool)
        ensures
            b == (self@ == 0),
    {
        self.bits == 0
    }

    /// The flags set in either operand.
    pub fn union(self, other: Self) -> (r: Self)
        ensures
            r@ == self@ | other@,
    {
        Self { bits: self.bits | other.bits }
    }
}

impl core::ops::BitOr for InnerClassAccess {
    type Output = Self;

    fn bitor(self, other: Self) -> (r: Self)
        ensures
            r@ == self@ | other@,
            r == Self::union_spec(self, other),
    {
        Self { bits: self.bits | other.bits }
    }
}

impl vstd::std_specs::ops::BitOrSpecImpl for InnerClassAccess {
    open spec fn obeys_bitor_spec() -> bool {
        true
    }

    open spec fn bitor_req(self, rhs: Self) -> bool {
        true
    }

    open spec fn bitor_spec(self, rhs: Self) -> Self {
        InnerClassAccess::union_spec(self, rhs)
    }
}

/// Access flags for entries inside `MethodParameters`.
#[derive(Debug, Clone, Copy, PartialEq, Eq, Hash, Structural)]
pub struct ParameterAccess {
    bits: u16,
}

impl View for ParameterAccess {
    type V = u16;

    closed spec fn view(&self) -> u16 {
        self.bits
    }
}

/// The empty set.
impl Default for ParameterAccess {
    fn default() -> (r: Self)
        ensures
            r@ == 0,
    {
        Self { bits: 0 }
    }
}

impl ParameterAccess {
    #[allow(non_snake_case)]
    pub fn FINAL() -> (r: Self)
        ensures
            r@ == 0x0010,
    {
        Self { bits: 0x0010 }
    }

    #[allow(non_snake_case)]
    pub fn SYNTHETIC() -> (r: Self)
        ensures
            r@ == 0x1000,
    {
        Self { bits: 0x1000 }
    }

    #[allow(non_snake_case)]
    pub fn MANDATED() -> (r: Self)
        ensures
            r@ == 0x8000,
    {
        Self { bits: 0x8000 }
    }

    /// Every bit that names a flag of this set.
    pub open spec fn all_bits() -> u16 {
        0x9010
    }

    /// The set whose bits are those of `b` that name a flag.
    pub closed spec fn from_bits_truncate_spec(b: u16) -> Self {
        Self { bits: b & Self::all_bits() }
    }

    /// The set holding the flags of both operands.
    pub closed spec fn union_spec(a: Self, b: Self) -> Self {
        Self { bits: a.bits | b.bits }
    }

    pub fn empty() -> (r: Self)
        ensures
            r@ == 0,
    {
        Self { bits: 0 }
    }

    pub fn all() -> (r: Self)
        ensures
            r@ == Self::all_bits(),
    {
        Self { bits: 0x9010 }
    }

    pub fn bits(&self) -> (b: u16)
        ensures
            b == self@,
    {
        self.bits
    }

    /// The flags of `bits` that this set names; other bits are dropped.
    pub fn from_bits_truncate(bits: u16) -> (r: Self)
        ensures
            r@ == bits & Self::all_bits(),
            r == Self::from_bits_truncate_spec(bits),
    {
        Self { bits: bits & 0x9010 }
    }

    /// Whether every flag of `other` is set in `self`.
    pub fn contains(&self, other: Self) -> (b: bool)
        ensures
            b == (self@ & other@ == other@),
    {
        self.bits & other.bits == other.bits
    }

    pub fn is_empty(&self) -> (b: bool)
        ensures
            b == (self@ == 0),
    {
        self.bits == 0
    }

    /// The flags set in either operand.
    pub fn union(self, other: Self) -> (r: Self)
        ensures
            r@ == self@ | other@,
    {
        Self { bits: self.bits | other.bits }
    }
}

impl core::ops::BitOr for ParameterAccess {
    type Output = Self;

    fn bitor(self, other: Self) -> (r: Self)
        ensures
            r@ == self@ | other@,
            r == Self::union_spec(self, other),
    {
        Self { bits: self.bits | other.bits }
    }
}

impl vstd::std_specs::ops::BitOrSpecImpl for ParameterAccess {
    open spec fn obeys_bitor_spec() -> bool {
        true
    }

    open spec fn bitor_req(self, rhs: Self) -> bool {
        true
    }

    open spec fn bitor_spec(self, rhs: Self) -> Self {
        ParameterAccess::union_spec(self, rhs)
    }
}

/// Module flags used in `Module` attributes.
#[derive(Debug, Clone, Copy, PartialEq, Eq, Hash, Structural)]
pub struct ModuleFlags {
    bits: u16,
}

impl View for ModuleFlags {
    type V = u16;

    closed spec fn view(&self) -> u16 {
        self.bits
    }
}

/// The empty set.
impl Default for ModuleFlags {
    fn default() -> (r: Self)
        ensures
            r@ == 0,
    {
        Self { bits: 0 }
    }
}

impl ModuleFlags {
    #[allow(non_snake_case)]
    pub fn OPEN() -> (r: Self)
        ensures
            r@ == 0x0020,
    {
        Self { bits: 0x0020 }
    }

    #[allow(non_snake_case)]
    pub fn SYNTHETIC() -> (r: Self)
        ensures
            r@ == 0x1000,
    {
        Self { bits: 0x1000 }
    }

    #[allow(non_snake_case)]
    pub fn MANDATED() -> (r: Self)
        ensures
            r@ == 0x8000,
    {
        Self { bits: 0x8000 }
    }

    /// Every bit that names a flag of this set.
    pub open spec fn all_bits() -> u16 {
        0x9020
    }

    /// The set whose bits are those of `b` that name a flag.
    pub closed spec fn from_bits_truncate_spec(b: u16) -> Self {
        Self { bits: b & Self::all_bits() }
    }

    /// The set holding the flags of both operands.
    pub closed spec fn union_spec(a: Self, b: Self) -> Self {
        Self { bits: a.bits | b.bits }
    }

    pub fn empty() -> (r: Self)
        ensures
            r@ == 0,
    {
        Self { bits: 0 }
    }

    pub fn all() -> (r: Self)
        ensures
            r@ == Self::all_bits(),
    {
        Self { bits: 0x9020 }
    }

    pub fn bits(&self) -> (b: u16)
        ensures
            b == self@,
    {
        self.bits
    }

    /// The flags of `bits` that this set names; other bits are dropped.
    pub fn from_bits_truncate(bits: u16) -> (r: Self)
        ensures
            r@ == bits & Self::all_bits(),
            r == Self::from_bits_truncate_spec(bits),
    {
        Self { bits: bits & 0x9020 }
    }

    /// Whether every flag of `other` is set in `self`.
    pub fn contains(&self, other: Self) -> (b: bool)
        ensures
            b == (self@ & other@ == other@),
    {
        self.bits & other.bits == other.bits
    }

    pub fn is_empty(&self) -> (b: bool)
        ensures
            b == (self@ == 0),
    {
        self.bits == 0
    }

    /// The flags set in either operand.
    pub fn union(self, other: Self) -> (r: Self)
        ensures
            r@ == self@ | other@,
    {
        Self { bits: self.bits | other.bits }
    }
}

impl core::ops::BitOr for ModuleFlags {
    type Output = Self;

    fn bitor(self, other: Self) -> (r: Self)
        ensures
            r@ == self@ | other@,
            r == Self::union_spec(self, other),
    {
        Self { bits: self.bits | other.bits }
    }
}

impl vstd::std_specs::ops::BitOrSpecImpl for ModuleFlags {
    open spec fn obeys_bitor_spec() -> bool {
        true
    }

    open spec fn bitor_req(self, rhs: Self) -> bool {
        true
    }

    open spec fn bitor_spec(self, rhs: Self) -> Self {
        ModuleFlags::union_spec(self, rhs)
    }
}

/// Flags used inside module `requires` records.
#[derive(Debug, Clone, Copy, PartialEq, Eq, Hash, Structural)]
pub struct ModuleRequiresFlags {
    bits: u16,
}

impl View for ModuleRequiresFlags {
    type V = u16;

    closed spec fn view(&self) -> u16 {
        self.bits
    }
}

/// The empty set.
impl Default for ModuleRequiresFlags {
    fn default() -> (r: Self)
        ensures
            r@ == 0,
    {
        Self { bits: 0 }
    }
}

impl ModuleRequiresFlags {
    #[allow(non_snake_case)]
    pub fn TRANSITIVE() -> (r: Self)
        ensures
            r@ == 0x0020,
    {
        Self { bits: 0x0020 }
    }

    #[allow(non_snake_case)]
    pub fn STATIC_PHASE() -> (r: Self)
        ensures
            r@ == 0x0040,
    {
        Self { bits: 0x0040 }
    }

    #[allow(non_snake_case)]
    pub fn SYNTHETIC() -> (r: Self)
        ensures
            r@ == 0x1000,
    {
        Self { bits: 0x1000 }
    }

    #[allow(non_snake_case)]
    pub fn MANDATED() -> (r: Self)
        ensures
            r@ == 0x8000,
    {
        Self { bits: 0x8000 }
    }

    /// Every bit that names a flag of this set.
    pub open spec fn all_bits() -> u16 {
        0x9060
    }

    /// The set whose bits are those of `b` that name a flag.
    pub closed spec fn from_bits_truncate_spec(b: u16) -> Self {
        Self { bits: b & Self::all_bits() }
    }

    /// The set holding the flags of both operands.
    pub closed spec fn union_spec(a: Self, b: Self) -> Self {
        Self { bits: a.bits | b.bits }
    }

    pub fn empty() -> (r: Self)
        ensures
            r@ == 0,
    {
        Self { bits: 0 }
    }

    pub fn all() -> (r: Self)
        ensures
            r@ == Self::all_bits(),
    {
        Self { bits: 0x9060 }
    }

    pub fn bits(&self) -> (b: u16)
        ensures
            b == self@,
    {
        self.bits
    }

    /// The flags of `bits` that this set names; other bits are dropped.
    pub fn from_bits_truncate(bits: u16) -> (r: Self)
        ensures
            r@ == bits & Self::all_bits(),
            r == Self::from_bits_truncate_spec(bits),
    {
        Self { bits: bits & 0x9060 }
    }

    /// Whether every flag of `other` is set in `self`.
    pub fn contains(&self, other: Self) -> (b: bool)
        ensures
            b == (self@ & other@ == other@),
    {
        self.bits & other.bits == other.bits
    }

    pub fn is_empty(&self) -> (b: bool)
        ensures
            b == (self@ == 0),
    {
        self.bits == 0
    }

    /// The flags set in either operand.
    pub fn union(self, other: Self) -> (r: Self)
        ensures
            r@ == self@ | other@,
    {
        Self { bits: self.bits | other.bits }
    }
}

impl core::ops::BitOr for ModuleRequiresFlags {
    type Output = Self;

    fn bitor(self, other: Self) -> (r: Self)
        ensures
            r@ == self@ | other@,
            r == Self::union_spec(self, other),
    {
        Self { bits: self.bits | other.bits }
    }
}

impl vstd::std_specs::ops::BitOrSpecImpl for ModuleRequiresFlags {
    open spec fn obeys_bitor_spec() -> bool {
        true
    }

    open spec fn bitor_req(self, rhs: Self) -> bool {
        true
    }

    open spec fn bitor_spec(self, rhs: Self) -> Self {
        ModuleRequiresFlags::union_spec(self, rhs)
    }
}

/// Flags for module `exports` records.
#[derive(Debug, Clone, Copy, PartialEq, Eq, Hash, Structural)]
pub struct ModuleExportsFlags {
    bits: u16,
}

impl View for ModuleExportsFlags {
    type V = u16;

    closed spec fn view(&self) -> u16 {
        self.bits
    }
}

/// The empty set.
impl Default for ModuleExportsFlags {
    fn default() -> (r: Self)
        ensures
            r@ == 0,
    {
        Self { bits: 0 }
    }
}

impl ModuleExportsFlags {
    #[allow(non_snake_case)]
    pub fn SYNTHETIC() -> (r: Self)
        ensures
            r@ == 0x1000,
    {
        Self { bits: 0x1000 }
    }

    #[allow(non_snake_case)]
    pub fn MANDATED() -> (r: Self)
        ensures
            r@ == 0x8000,
    {
        Self { bits: 0x8000 }
    }

    /// Every bit that names a flag of this set.
    pub open spec fn all_bits() -> u16 {
        0x9000
    }

    /// The set whose bits are those of `b` that name a flag.
    pub closed spec fn from_bits_truncate_spec(b: u16) -> Self {
        Self { bits: b & Self::all_bits() }
    }

    /// The set holding the flags of both operands.
    pub closed spec fn union_spec(a: Self, b: Self) -> Self {
        Self { bits: a.bits | b.bits }
    }

    pub fn empty() -> (r: Self)
        ensures
            r@ == 0,
    {
        Self { bits: 0 }
    }

    pub fn all() -> (r: Self)
        ensures
            r@ == Self::all_bits(),
    {
        Self { bits: 0x9000 }
    }

    pub fn bits(&self) -> (b: u16)
        ensures
            b == self@,
    {
        self.bits
    }

    /// The flags of `bits` that this set names; other bits are dropped.
    pub fn from_bits_truncate(bits: u16) -> (r: Self)
        ensures
            r@ == bits & Self::all_bits(),
            r == Self::from_bits_truncate_spec(bits),
    {
        Self { bits: bits & 0x9000 }
    }

    /// Whether every flag of `other` is set in `self`.
    pub fn contains(&self, other: Self) -> (b: bool)
        ensures
            b == (self@ & other@ == other@),
    {
        self.bits & other.bits == other.bits
    }

    pub fn is_empty(&self) -> (b: bool)
        ensures
            b == (self@ == 0),
    {
        self.bits == 0
    }

    /// The flags set in either operand.
    pub fn union(self, other: Self) -> (r: Self)
        ensures
            r@ == self@ | other@,
    {
        Self { bits: self.bits | other.bits }
    }
}

impl core::ops::BitOr for ModuleExportsFlags {
    type Output = Self;

    fn bitor(self, other: Self) -> (r: Self)
        ensures
            r@ == self@ | other@,
            r == Self::union_spec(self, other),
    {
        Self { bits: self.bits | other.bits }
    }
}

impl vstd::std_specs::ops::BitOrSpecImpl for ModuleExportsFlags {
    open spec fn obeys_bitor_spec() -> bool {
        true
    }

    open spec fn bitor_req(self, rhs: Self) -> bool {
        true
    }

    open spec fn bitor_spec(self, rhs: Self) -> Self {
        ModuleExportsFlags::union_spec(self, rhs)
    }
}

/// Flags for module `opens` records.
#[derive(Debug, Clone, Copy, PartialEq, Eq, Hash, Structural)]
pub struct ModuleOpensFlags {
    bits: u16,
}

impl View for ModuleOpensFlags {
    type V = u16;

    closed spec fn view(&self) -> u16 {
        self.bits
    }
}

/// The empty set.
impl Default for ModuleOpensFlags {
    fn default() -> (r: Self)
        ensures
            r@ == 0,
    {
        Self { bits: 0 }
    }
}

impl ModuleOpensFlags {
    #[allow(non_snake_case)]
    pub fn SYNTHETIC() -> (r: Self)
        ensures
            r@ == 0x1000,
    {
        Self { bits: 0x1000 }
    }

    #[allow(non_snake_case)]
    pub fn MANDATED() -> (r: Self)
        ensures
            r@ == 0x8000,
    {
        Self { bits: 0x8000 }
    }

    /// Every bit that names a flag of this set.
    pub open spec fn all_bits() -> u16 {
        0x9000
    }

    /// The set whose bits are those of `b` that name a flag.
    pub closed spec fn from_bits_truncate_spec(b: u16) -> Self {
        Self { bits: b & Self::all_bits() }
    }

    /// The set holding the flags of both operands.
    pub closed spec fn union_spec(a: Self, b: Self) -> Self {
        Self { bits: a.bits | b.bits }
    }

    pub fn empty() -> (r: Self)
        ensures
            r@ == 0,
    {
        Self { bits: 0 }
    }

    pub fn all() -> (r: Self)
        ensures
            r@ == Self::all_bits(),
    {
        Self { bits: 0x9000 }
    }

    pub fn bits(&self) -> (b: u16)
        ensures
            b == self@,
    {
        self.bits
    }

    /// The flags of `bits` that this set names; other bits are dropped.
    pub fn from_bits_truncate(bits: u16) -> (r: Self)
        ensures
            r@ == bits & Self::all_bits(),
            r == Self::from_bits_truncate_spec(bits),
    {
        Self { bits: bits & 0x9000 }
    }

    /// Whether every flag of `other` is set in `self`.
    pub fn contains(&self, other: Self) -> (b: bool)
        ensures
            b == (self@ & other@ == other@),
    {
        self.bits & other.bits == other.bits
    }

    pub fn is_empty(&self) -> (b: bool)
        ensures
            b == (self@ == 0),
    {
        self.bits == 0
    }

    /// The flags set in either operand.
    pub fn union(self, other: Self) -> (r: Self)
        ensures
            r@ == self@ | other@,
    {
        Self { bits: self.bits | other.bits }
    }
}

impl core::ops::BitOr for ModuleOpensFlags {
    type Output = Self;

    fn bitor(self, other: Self) -> (r: Self)
        ensures
            r@ == self@ | other@,
            r == Self::union_spec(self, other),
    {
        Self { bits: self.bits | other.bits }
    }
}

impl vstd::std_specs::ops::BitOrSpecImpl for ModuleOpensFlags {
    open spec fn obeys_bitor_spec() -> bool {
        true
    }

    open spec fn bitor_req(self, rhs: Self) -> bool {
        true
    }

    open spec fn bitor_spec(self, rhs: Self) -> Self {
        ModuleOpensFlags::union_spec(self, rhs)
    }
}

} // verus!
