//! Constant pool.
//!
//! All 17 `CONSTANT_*` kinds (including the `Module`/`Package`/`Dynamic`/
//! `InvokeDynamic`/`MethodHandle`/`MethodType` additions) are representable
//! here. `Long` and `Double` occupy *two* logical slots.
use vstd::prelude::*;
use crate::spec::error::{Error, Result};

verus! {

/// Numeric tags of the constant pool entry kinds.
#[derive(Debug, Clone, Copy, PartialEq, Eq, Hash, Structural)]
pub enum ConstantTag {
    Utf8,
    Integer,
    Float,
    Long,
    Double,
    Class,
    String,
    Fieldref,
    Methodref,
    InterfaceMethodref,
    NameAndType,
    MethodHandle,
    MethodType,
    Dynamic,
    InvokeDynamic,
    Module,
    Package,
}

/// The byte written for each tag.
pub open spec fn tag_byte(t: ConstantTag) -> u8 {
    match t {
        ConstantTag::Utf8 => 1,
        ConstantTag::Integer => 3,
        ConstantTag::Float => 4,
        ConstantTag::Long => 5,
        ConstantTag::Double => 6,
        ConstantTag::Class => 7,
        ConstantTag::String => 8,
        ConstantTag::Fieldref => 9,
        ConstantTag::Methodref => 10,
        ConstantTag::InterfaceMethodref => 11,
        ConstantTag::NameAndType => 12,
        ConstantTag::MethodHandle => 15,
        ConstantTag::MethodType => 16,
        ConstantTag::Dynamic => 17,
        ConstantTag::InvokeDynamic => 18,
        ConstantTag::Module => 19,
        ConstantTag::Package => 20,
    }
}

impl ConstantTag {
    /// The tag's byte value.
    pub fn to_u8(self) -> (b: u8)
        ensures
            b == tag_byte(self),
    {
        match self {
            ConstantTag::Utf8 => 1,
            ConstantTag::Integer => 3,
            ConstantTag::Float => 4,
            ConstantTag::Long => 5,
            ConstantTag::Double => 6,
            ConstantTag::Class => 7,
            ConstantTag::String => 8,
            ConstantTag::Fieldref => 9,
            ConstantTag::Methodref => 10,
            ConstantTag::InterfaceMethodref => 11,
            ConstantTag::NameAndType => 12,
            ConstantTag::MethodHandle => 15,
            ConstantTag::MethodType => 16,
            ConstantTag::Dynamic => 17,
            ConstantTag::InvokeDynamic => 18,
            ConstantTag::Module => 19,
            ConstantTag::Package => 20,
        }
    }
}

/// `reference_kind` byte for `CONSTANT_MethodHandle_info`.
#[derive(Debug, Clone, Copy, PartialEq, Eq, Hash, Structural)]
pub enum ReferenceKind {
    GetField,
    GetStatic,
    PutField,
    PutStatic,
    InvokeVirtual,
    InvokeStatic,
    InvokeSpecial,
    NewInvokeSpecial,
    InvokeInterface,
}

pub open spec fn reference_kind_byte(k: ReferenceKind) -> u8 {
    match k {
        ReferenceKind::GetField => 1,
        ReferenceKind::GetStatic => 2,
        ReferenceKind::PutField => 3,
        ReferenceKind::PutStatic => 4,
        ReferenceKind::InvokeVirtual => 5,
        ReferenceKind::InvokeStatic => 6,
        ReferenceKind::InvokeSpecial => 7,
        ReferenceKind::NewInvokeSpecial => 8,
        ReferenceKind::InvokeInterface => 9,
    }
}

impl ReferenceKind {
    /// The kind's byte value.
    pub fn to_u8(self) -> (b: u8)
        ensures
            b == reference_kind_byte(self),
    {
        match self {
            ReferenceKind::GetField => 1,
            ReferenceKind::GetStatic => 2,
            ReferenceKind::PutField => 3,
            ReferenceKind::PutStatic => 4,
            ReferenceKind::InvokeVirtual => 5,
            ReferenceKind::InvokeStatic => 6,
            ReferenceKind::InvokeSpecial => 7,
            ReferenceKind::NewInvokeSpecial => 8,
            ReferenceKind::InvokeInterface => 9,
        }
    }
}

/// A single constant pool entry.
///
/// Floats and doubles are stored as IEEE-754 bit patterns so the enum stays
/// `Eq + Hash` (which interning needs).
#[derive(Debug, Eq, Hash)]
pub enum Constant {
    Utf8(String),
    Integer(i32),
    Float(u32),
    Long(i64),
    Double(u64),
    Class { name_index: u16 },
    String { string_index: u16 },
    Fieldref { class_index: u16, name_and_type_index: u16 },
    Methodref { class_index: u16, name_and_type_index: u16 },
    InterfaceMethodref { class_index: u16, name_and_type_index: u16 },
    NameAndType { name_index: u16, descriptor_index: u16 },
    MethodHandle { reference_kind: ReferenceKind, reference_index: u16 },
    MethodType { descriptor_index: u16 },
    Dynamic { bootstrap_method_attr_index: u16, name_and_type_index: u16 },
    InvokeDynamic { bootstrap_method_attr_index: u16, name_and_type_index: u16 },
    Module { name_index: u16 },
    Package { name_index: u16 },
}

/// Mathematical model of a constant: the string payload is its characters.
pub enum ConstantView {
    Utf8(Seq<char>),
    Integer(i32),
    Float(u32),
    Long(i64),
    Double(u64),
    Class { name_index: u16 },
    String { string_index: u16 },
    Fieldref { class_index: u16, name_and_type_index: u16 },
    Methodref { class_index: u16, name_and_type_index: u16 },
    InterfaceMethodref { class_index: u16, name_and_type_index: u16 },
    NameAndType { name_index: u16, descriptor_index: u16 },
    MethodHandle { reference_kind: ReferenceKind, reference_index: u16 },
    MethodType { descriptor_index: u16 },
    Dynamic { bootstrap_method_attr_index: u16, name_and_type_index: u16 },
    InvokeDynamic { bootstrap_method_attr_index: u16, name_and_type_index: u16 },
    Module { name_index: u16 },
    Package { name_index: u16 },
}

impl View for Constant {
    type V = ConstantView;

    open spec fn view(&self) -> ConstantView {
        match self {
            Constant::Utf8(s) => ConstantView::Utf8(s@),
            Constant::Integer(v) => ConstantView::Integer(*v),
            Constant::Float(v) => ConstantView::Float(*v),
            Constant::Long(v) => ConstantView::Long(*v),
            Constant::Double(v) => ConstantView::Double(*v),
            Constant::Class { name_index } => ConstantView::Class { name_index: *name_index },
            Constant::String { string_index } => ConstantView::String { string_index: *string_index },
            Constant::Fieldref { class_index, name_and_type_index } => ConstantView::Fieldref {
                class_index: *class_index,
                name_and_type_index: *name_and_type_index,
            },
            Constant::Methodref { class_index, name_and_type_index } => ConstantView::Methodref {
                class_index: *class_index,
                name_and_type_index: *name_and_type_index,
            },
            Constant::InterfaceMethodref { class_index, name_and_type_index } =>
                ConstantView::InterfaceMethodref {
                    class_index: *class_index,
                    name_and_type_index: *name_and_type_index,
                },
            Constant::NameAndType { name_index, descriptor_index } => ConstantView::NameAndType {
                name_index: *name_index,
                descriptor_index: *descriptor_index,
            },
            Constant::MethodHandle { reference_kind, reference_index } => ConstantView::MethodHandle {
                reference_kind: *reference_kind,
                reference_index: *reference_index,
            },
            Constant::MethodType { descriptor_index } => ConstantView::MethodType {
                descriptor_index: *descriptor_index,
            },
            Constant::Dynamic { bootstrap_method_attr_index, name_and_type_index } =>
                ConstantView::Dynamic {
                    bootstrap_method_attr_index: *bootstrap_method_attr_index,
                    name_and_type_index: *name_and_type_index,
                },
            Constant::InvokeDynamic { bootstrap_method_attr_index, name_and_type_index } =>
                ConstantView::InvokeDynamic {
                    bootstrap_method_attr_index: *bootstrap_method_attr_index,
                    name_and_type_index: *name_and_type_index,
                },
            Constant::Module { name_index } => ConstantView::Module { name_index: *name_index },
            Constant::Package { name_index } => ConstantView::Package { name_index: *name_index },
        }
    }
}

pub open spec fn constant_tag(c: ConstantView) -> ConstantTag {
    match c {
        ConstantView::Utf8(_) => ConstantTag::Utf8,
        ConstantView::Integer(_) => ConstantTag::Integer,
        ConstantView::Float(_) => ConstantTag::Float,
        ConstantView::Long(_) => ConstantTag::Long,
        ConstantView::Double(_) => ConstantTag::Double,
        ConstantView::Class { .. } => ConstantTag::Class,
        ConstantView::String { .. } => ConstantTag::String,
        ConstantView::Fieldref { .. } => ConstantTag::Fieldref,
        ConstantView::Methodref { .. } => ConstantTag::Methodref,
        ConstantView::InterfaceMethodref { .. } => ConstantTag::InterfaceMethodref,
        ConstantView::NameAndType { .. } => ConstantTag::NameAndType,
        ConstantView::MethodHandle { .. } => ConstantTag::MethodHandle,
        ConstantView::MethodType { .. } => ConstantTag::MethodType,
        ConstantView::Dynamic { .. } => ConstantTag::Dynamic,
        ConstantView::InvokeDynamic { .. } => ConstantTag::InvokeDynamic,
        ConstantView::Module { .. } => ConstantTag::Module,
        ConstantView::Package { .. } => ConstantTag::Package,
    }
}

/// Long and double entries take two slots.
pub open spec fn is_wide_view(c: ConstantView) -> bool {
    c is Long || c is Double
}

impl Constant {
    pub fn tag(&self) -> (t: ConstantTag)
        ensures
            t == constant_tag(self@),
    {
        match self {
            Constant::Utf8(_) => ConstantTag::Utf8,
            Constant::Integer(_) => ConstantTag::Integer,
            Constant::Float(_) => ConstantTag::Float,
            Constant::Long(_) => ConstantTag::Long,
            Constant::Double(_) => ConstantTag::Double,
            Constant::Class { .. } => ConstantTag::Class,
            Constant::String { .. } => ConstantTag::String,
            Constant::Fieldref { .. } => ConstantTag::Fieldref,
            Constant::Methodref { .. } => ConstantTag::Methodref,
            Constant::InterfaceMethodref { .. } => ConstantTag::InterfaceMethodref,
            Constant::NameAndType { .. } => ConstantTag::NameAndType,
            Constant::MethodHandle { .. } => ConstantTag::MethodHandle,
            Constant::MethodType { .. } => ConstantTag::MethodType,
            Constant::Dynamic { .. } => ConstantTag::Dynamic,
            Constant::InvokeDynamic { .. } => ConstantTag::InvokeDynamic,
            Constant::Module { .. } => ConstantTag::Module,
            Constant::Package { .. } => ConstantTag::Package,
        }
    }

    /// Whether this entry occupies two slots (long/double).
    pub fn is_wide(&self) -> (b: bool)
        ensures
            b == is_wide_view(self@),
    {
        match self {
            Constant::Long(_) | Constant::Double(_) => true,
            _ => false,
        }
    }

    /// Whether two constants are the same entry: same kind and same payload.
    pub fn same_as(&self, other: &Constant) -> (b: bool)
        ensures
            b == (self@ == other@),
    {
        match (self, other) {
            (Constant::Utf8(a), Constant::Utf8(b)) => a.eq(b),
            (Constant::Integer(a), Constant::Integer(b)) => *a == *b,
            (Constant::Float(a), Constant::Float(b)) => *a == *b,
            (Constant::Long(a), Constant::Long(b)) => *a == *b,
            (Constant::Double(a), Constant::Double(b)) => *a == *b,
            (Constant::Class { name_index: a }, Constant::Class { name_index: b }) => *a == *b,
            (Constant::String { string_index: a }, Constant::String { string_index: b }) => *a == *b,
            (
                Constant::Fieldref { class_index: a, name_and_type_index: b },
                Constant::Fieldref { class_index: c, name_and_type_index: d },
            ) => *a == *c && *b == *d,
            (
                Constant::Methodref { class_index: a, name_and_type_index: b },
                Constant::Methodref { class_index: c, name_and_type_index: d },
            ) => *a == *c && *b == *d,
            (
                Constant::InterfaceMethodref { class_index: a, name_and_type_index: b },
                Constant::InterfaceMethodref { class_index: c, name_and_type_index: d },
            ) => *a == *c && *b == *d,
            (
                Constant::NameAndType { name_index: a, descriptor_index: b },
                Constant::NameAndType { name_index: c, descriptor_index: d },
            ) => *a == *c && *b == *d,
            (
                Constant::MethodHandle { reference_kind: a, reference_index: b },
                Constant::MethodHandle { reference_kind: c, reference_index: d },
            ) => *a == *c && *b == *d,
            (
                Constant::MethodType { descriptor_index: a },
                Constant::MethodType { descriptor_index: b },
            ) => *a == *b,
            (
                Constant::Dynamic { bootstrap_method_attr_index: a, name_and_type_index: b },
                Constant::Dynamic { bootstrap_method_attr_index: c, name_and_type_index: d },
            ) => *a == *c && *b == *d,
            (
                Constant::InvokeDynamic { bootstrap_method_attr_index: a, name_and_type_index: b },
                Constant::InvokeDynamic { bootstrap_method_attr_index: c, name_and_type_index: d },
            ) => *a == *c && *b == *d,
            (Constant::Module { name_index: a }, Constant::Module { name_index: b }) => *a == *b,
            (Constant::Package { name_index: a }, Constant::Package { name_index: b }) => *a == *b,
            _ => false,
        }
    }
}

impl Clone for Constant {
    fn clone(&self) -> (r: Self)
        ensures
            r@ == self@,
    {
        match self {
            Constant::Utf8(s) => Constant::Utf8(s.clone()),
            Constant::Integer(v) => Constant::Integer(*v),
            Constant::Float(v) => Constant::Float(*v),
            Constant::Long(v) => Constant::Long(*v),
            Constant::Double(v) => Constant::Double(*v),
            Constant::Class { name_index } => Constant::Class { name_index: *name_index },
            Constant::String { string_index } => Constant::String { string_index: *string_index },
            Constant::Fieldref { class_index, name_and_type_index } => Constant::Fieldref {
                class_index: *class_index,
                name_and_type_index: *name_and_type_index,
            },
            Constant::Methodref { class_index, name_and_type_index } => Constant::Methodref {
                class_index: *class_index,
                name_and_type_index: *name_and_type_index,
            },
            Constant::InterfaceMethodref { class_index, name_and_type_index } =>
                Constant::InterfaceMethodref {
                    class_index: *class_index,
                    name_and_type_index: *name_and_type_index,
                },
            Constant::NameAndType { name_index, descriptor_index } => Constant::NameAndType {
                name_index: *name_index,
                descriptor_index: *descriptor_index,
            },
            Constant::MethodHandle { reference_kind, reference_index } => Constant::MethodHandle {
                reference_kind: *reference_kind,
                reference_index: *reference_index,
            },
            Constant::MethodType { descriptor_index } => Constant::MethodType {
                descriptor_index: *descriptor_index,
            },
            Constant::Dynamic { bootstrap_method_attr_index, name_and_type_index } =>
                Constant::Dynamic {
                    bootstrap_method_attr_index: *bootstrap_method_attr_index,
                    name_and_type_index: *name_and_type_index,
                },
            Constant::InvokeDynamic { bootstrap_method_attr_index, name_and_type_index } =>
                Constant::InvokeDynamic {
                    bootstrap_method_attr_index: *bootstrap_method_attr_index,
                    name_and_type_index: *name_and_type_index,
                },
            Constant::Module { name_index } => Constant::Module { name_index: *name_index },
            Constant::Package { name_index } => Constant::Package { name_index: *name_index },
        }
    }
}

impl PartialEq for Constant {
    fn eq(&self, other: &Self) -> (r: bool) {
        self.same_as(other)
    }
}

impl vstd::std_specs::cmp::PartialEqSpecImpl for Constant {
    open spec fn obeys_eq_spec() -> bool {
        true
    }

    open spec fn eq_spec(&self, other: &Constant) -> bool {
        self@ == other@
    }
}

} // verus!

verus! {

/// Model of a pool: one optional constant per slot; slot 0 and the slot after
/// each wide entry are empty.
pub type PoolView = Seq<Option<ConstantView>>;

/// Outcome of a pool operation on the model: the pool afterwards and the
/// index handed out, or the pool afterwards and the slot count at which the
/// pool overflowed.
pub type PoolStep = core::result::Result<(PoolView, int), (PoolView, int)>;

/// Appending `c` without deduplication.
pub open spec fn push_spec(v: PoolView, c: ConstantView) -> PoolStep {
    let idx = v.len() as int;
    let wide = if is_wide_view(c) { 1int } else { 0int };
    if idx + 1 + wide > 65535 {
        Err((v, idx))
    } else if is_wide_view(c) {
        Ok((v.push(Some(c)).push(None), idx))
    } else {
        Ok((v.push(Some(c)), idx))
    }
}

/// First slot at or after `i` that holds `c`.
pub open spec fn find_from(v: PoolView, c: ConstantView, i: int) -> Option<int>
    decreases v.len() - i,
{
    if i < 0 || i >= v.len() {
        None
    } else if v[i] == Some(c) {
        Some(i)
    } else {
        find_from(v, c, i + 1)
    }
}

/// Interning `c`: the first slot (from 1) that already holds it, else a push.
pub open spec fn intern_spec(v: PoolView, c: ConstantView) -> PoolStep {
    match find_from(v, c, 1) {
        Some(i) => Ok((v, i)),
        None => push_spec(v, c),
    }
}

/// Chain a second interning step after a first one that yielded an index.
pub open spec fn then_intern(first: PoolStep, f: spec_fn(int) -> ConstantView) -> PoolStep {
    match first {
        Err(e) => Err(e),
        Ok((v, i)) => intern_spec(v, f(i)),
    }
}

/// Whether the call's result `r` and the pool afterwards `after` are the step `s`.
pub open spec fn step_result(after: PoolView, r: Result<u16>, s: PoolStep) -> bool {
    match s {
        Ok((v, i)) => after == v && r == Ok::<u16, Error>(i as u16),
        Err((v, n)) => after == v && (r matches Err(Error::TooManyEntries { what, count })
            && what@ == "constant pool"@ && count == n),
    }
}

/// A JVM constant pool. Index 0 is reserved and treated as absent. Wide
/// entries occupy two indices, the second slot is `None`.
#[derive(Debug)]
pub struct ConstantPool {
    entries: Vec<Option<Constant>>,
}

pub open spec fn opt_view(e: Option<Constant>) -> Option<ConstantView> {
    match e {
        Some(c) => Some(c@),
        None => None,
    }
}

/// Well-formed pool models: slot 0 is empty and the slot count fits the
/// `u2` `constant_pool_count`.
pub open spec fn pool_wf(v: PoolView) -> bool {
    1 <= v.len() <= 65535 && v[0] is None
}

impl View for ConstantPool {
    type V = PoolView;

    closed spec fn view(&self) -> PoolView {
        self.entries@.map_values(|e: Option<Constant>| opt_view(e))
    }
}

impl Clone for ConstantPool {
    fn clone(&self) -> (r: Self)
        ensures
            r@ == self@,
    {
        proof { use_type_invariant(self); }
        let mut entries: Vec<Option<Constant>> = Vec::new();
        let mut i: usize = 0;
        while i < self.entries.len()
            invariant
                i <= self.entries@.len(),
                entries@.len() == i,
                forall|k: int| 0 <= k < i ==> opt_view(#[trigger] entries@[k]) == opt_view(self.entries@[k]),
            decreases self.entries@.len() - i,
        {
            let e = match &self.entries[i] {
                Some(c) => Some(c.clone()),
                None => None,
            };
            entries.push(e);
            i += 1;
        }
        let r = ConstantPool { entries };
        assert(r@ =~= self@);
        r
    }
}

impl Default for ConstantPool {
    fn default() -> (p: Self)
        ensures
            p@ == seq![None::<ConstantView>],
    {
        Self::new()
    }
}

impl ConstantPool {
    #[verifier::type_invariant]
    closed spec fn inv(&self) -> bool {
        pool_wf(self@)
    }

    pub fn new() -> (p: Self)
        ensures
            p@ == seq![None::<ConstantView>],
    {
        let p = Self { entries: vec![None] };
        assert(p@ =~= seq![None::<ConstantView>]);
        p
    }

    /// Number of slots including reserved and wide padding: the class
    /// file's `constant_pool_count`.
    pub fn count(&self) -> (n: u16)
        ensures
            n == self@.len(),
    {
        proof { use_type_invariant(self); }
        self.entries.len() as u16
    }

    /// Number of slots, reserved and padding slots included.
    pub(crate) fn slot_count(&self) -> (n: usize)
        ensures
            n == self@.len(),
            1 <= n <= 65535,
    {
        proof { use_type_invariant(self); }
        self.entries.len()
    }

    pub fn get(&self, index: u16) -> (r: Option<&Constant>)
        ensures
            match r {
                Some(c) => index < self@.len() && self@[index as int] == Some(c@),
                None => index >= self@.len() || self@[index as int] is None,
            },
    {
        if (index as usize) < self.entries.len() {
            match &self.entries[index as usize] {
                Some(c) => Some(c),
                None => None,
            }
        } else {
            None
        }
    }

    /// Pairs of index and constant for every occupied slot, in slot order.
    pub fn iter(&self) -> (items: Vec<(u16, &Constant)>)
        ensures
            items@.len() == occupied(self@, self@.len() as int).len(),
            forall|k: int| 0 <= k < items@.len() ==> {
                let (i, c) = #[trigger] items@[k];
                &&& i as int == occupied(self@, self@.len() as int)[k]
                &&& self@[i as int] == Some(c@)
            },
    {
        proof { use_type_invariant(self); }
        let mut items: Vec<(u16, &Constant)> = Vec::new();
        let mut i: usize = 0;
        while i < self.entries.len()
            invariant
                i <= self@.len(),
                self@.len() == self.entries@.len(),
                self@.len() <= 65535,
                items@.len() == occupied(self@, i as int).len(),
                forall|k: int| 0 <= k < items@.len() ==> {
                    let (j, c) = #[trigger] items@[k];
                    &&& j as int == occupied(self@, i as int)[k]
                    &&& self@[j as int] == Some(c@)
                },
            decreases self@.len() - i,
        {
            assert(self@[i as int] == opt_view(self.entries@[i as int]));
            match &self.entries[i] {
                Some(c) => {
                    items.push((i as u16, c));
                },
                None => {},
            }
            i += 1;
        }
        items
    }

    /// Append a constant without deduplication. Returns the assigned index.
    pub fn push(&mut self, c: Constant) -> (r: Result<u16>)
        ensures
            step_result(final(self)@, r, push_spec(old(self)@, c@)),
    {
        proof { use_type_invariant(&*self); }
        let wide = c.is_wide();
        let idx = self.entries.len();
        let extra: usize = if wide { 1 } else { 0 };
        if idx + 1 + extra > 65535 {
            return Err(Error::TooManyEntries { what: "constant pool", count: idx });
        }
        let ghost cv = c@;
        let mut entries: Vec<Option<Constant>> = vec![None];
        std::mem::swap(&mut entries, &mut self.entries);
        entries.push(Some(c));
        if wide {
            entries.push(None);
        }
        std::mem::swap(&mut entries, &mut self.entries);
        proof {
            if wide {
                assert(self@ =~= old(self)@.push(Some(cv)).push(None));
            } else {
                assert(self@ =~= old(self)@.push(Some(cv)));
            }
        }
        Ok(idx as u16)
    }

    /// Append the constant, or return the existing index if an identical
    /// entry is already present.
    pub fn intern(&mut self, c: Constant) -> (r: Result<u16>)
        ensures
            step_result(final(self)@, r, intern_spec(old(self)@, c@)),
    {
        proof { use_type_invariant(&*self); }
        let mut i: usize = 1;
        while i < self.entries.len()
            invariant
                1 <= i <= self@.len(),
                self@.len() == self.entries@.len(),
                self@.len() <= 65535,
                find_from(self@, c@, 1) == find_from(self@, c@, i as int),
            decreases self@.len() - i,
        {
            assert(self@[i as int] == opt_view(self.entries@[i as int]));
            if let Some(existing) = &self.entries[i] {
                if existing.same_as(&c) {
                    return Ok(i as u16);
                }
            }
            i += 1;
        }
        self.push(c)
    }

    pub fn intern_utf8(&mut self, s: &str) -> (r: Result<u16>)
        ensures
            step_result(final(self)@, r, intern_spec(old(self)@, ConstantView::Utf8(s@))),
    {
        self.intern(Constant::Utf8(s.to_owned()))
    }

    pub fn intern_class(&mut self, internal_name: &str) -> (r: Result<u16>)
        ensures
            step_result(final(self)@, r, intern_class_spec(old(self)@, internal_name@)),
    {
        let name_index = self.intern_utf8(internal_name)?;
        self.intern(Constant::Class { name_index })
    }

    pub fn intern_string(&mut self, value: &str) -> (r: Result<u16>)
        ensures
            step_result(final(self)@, r, intern_string_spec(old(self)@, value@)),
    {
        let string_index = self.intern_utf8(value)?;
        self.intern(Constant::String { string_index })
    }

    pub fn intern_name_and_type(&mut self, name: &str, descriptor: &str) -> (r: Result<u16>)
        ensures
            step_result(final(self)@, r, intern_name_and_type_spec(old(self)@, name@, descriptor@)),
    {
        let name_index = self.intern_utf8(name)?;
        let descriptor_index = self.intern_utf8(descriptor)?;
        self.intern(Constant::NameAndType { name_index, descriptor_index })
    }

    pub fn intern_fieldref(&mut self, class: &str, name: &str, desc: &str) -> (r: Result<u16>)
        ensures
            step_result(final(self)@, r, intern_member_spec(old(self)@, MemberKind::Field, class@, name@, desc@)),
    {
        let class_index = self.intern_class(class)?;
        let name_and_type_index = self.intern_name_and_type(name, desc)?;
        self.intern(Constant::Fieldref { class_index, name_and_type_index })
    }

    pub fn intern_methodref(&mut self, class: &str, name: &str, desc: &str) -> (r: Result<u16>)
        ensures
            step_result(final(self)@, r, intern_member_spec(old(self)@, MemberKind::Method, class@, name@, desc@)),
    {
        let class_index = self.intern_class(class)?;
        let name_and_type_index = self.intern_name_and_type(name, desc)?;
        self.intern(Constant::Methodref { class_index, name_and_type_index })
    }

    pub fn intern_interface_methodref(&mut self, class: &str, name: &str, desc: &str) -> (r: Result<u16>)
        ensures
            step_result(
                final(self)@,
                r,
                intern_member_spec(old(self)@, MemberKind::InterfaceMethod, class@, name@, desc@),
            ),
    {
        let class_index = self.intern_class(class)?;
        let name_and_type_index = self.intern_name_and_type(name, desc)?;
        self.intern(Constant::InterfaceMethodref { class_index, name_and_type_index })
    }

    pub fn intern_method_type(&mut self, desc: &str) -> (r: Result<u16>)
        ensures
            step_result(
                final(self)@,
                r,
                then_intern(intern_spec(old(self)@, ConstantView::Utf8(desc@)), |i: int| ConstantView::MethodType {
                    descriptor_index: i as u16,
                }),
            ),
    {
        let descriptor_index = self.intern_utf8(desc)?;
        self.intern(Constant::MethodType { descriptor_index })
    }

    pub fn intern_method_handle(&mut self, kind: ReferenceKind, reference_index: u16) -> (r: Result<u16>)
        ensures
            step_result(
                final(self)@,
                r,
                intern_spec(old(self)@, ConstantView::MethodHandle { reference_kind: kind, reference_index }),
            ),
    {
        self.intern(Constant::MethodHandle { reference_kind: kind, reference_index })
    }

    pub fn intern_invoke_dynamic(&mut self, bootstrap_method_attr_index: u16, name: &str, desc: &str) -> (r: Result<u16>)
        ensures
            step_result(
                final(self)@,
                r,
                intern_dynamic_spec(old(self)@, true, bootstrap_method_attr_index, name@, desc@),
            ),
    {
        let name_and_type_index = self.intern_name_and_type(name, desc)?;
        self.intern(Constant::InvokeDynamic { bootstrap_method_attr_index, name_and_type_index })
    }

    pub fn intern_dynamic(&mut self, bootstrap_method_attr_index: u16, name: &str, desc: &str) -> (r: Result<u16>)
        ensures
            step_result(
                final(self)@,
                r,
                intern_dynamic_spec(old(self)@, false, bootstrap_method_attr_index, name@, desc@),
            ),
    {
        let name_and_type_index = self.intern_name_and_type(name, desc)?;
        self.intern(Constant::Dynamic { bootstrap_method_attr_index, name_and_type_index })
    }

    pub fn intern_module(&mut self, module_name: &str) -> (r: Result<u16>)
        ensures
            step_result(
                final(self)@,
                r,
                then_intern(intern_spec(old(self)@, ConstantView::Utf8(module_name@)), |i: int| ConstantView::Module {
                    name_index: i as u16,
                }),
            ),
    {
        let name_index = self.intern_utf8(module_name)?;
        self.intern(Constant::Module { name_index })
    }

    pub fn intern_package(&mut self, package_name: &str) -> (r: Result<u16>)
        ensures
            step_result(
                final(self)@,
                r,
                then_intern(intern_spec(old(self)@, ConstantView::Utf8(package_name@)), |i: int| ConstantView::Package {
                    name_index: i as u16,
                }),
            ),
    {
        let name_index = self.intern_utf8(package_name)?;
        self.intern(Constant::Package { name_index })
    }

    /// Look up the index of an already-interned UTF-8 string without modifying the pool.
    pub fn find_utf8(&self, s: &str) -> (r: Option<u16>)
        ensures
            match find_from(self@, ConstantView::Utf8(s@), 0) {
                Some(i) => r == Some(i as u16),
                None => r is None,
            },
    {
        proof { use_type_invariant(self); }
        let mut i: usize = 0;
        while i < self.entries.len()
            invariant
                i <= self@.len(),
                self@.len() == self.entries@.len(),
                self@.len() <= 65535,
                find_from(self@, ConstantView::Utf8(s@), 0) == find_from(self@, ConstantView::Utf8(s@), i as int),
            decreases self@.len() - i,
        {
            assert(self@[i as int] == opt_view(self.entries@[i as int]));
            if let Some(Constant::Utf8(v)) = &self.entries[i] {
                if crate::spec::text::str_eq(v.as_str(), s) {
                    return Some(i as u16);
                }
            }
            i += 1;
        }
        None
    }

    /// Read a `CONSTANT_Utf8` value by index.
    pub fn utf8(&self, index: u16) -> (r: Option<&str>)
        ensures
            match r {
                Some(s) => index < self@.len() && self@[index as int] == Some(ConstantView::Utf8(s@)),
                None => !(index < self@.len() && self@[index as int] matches Some(ConstantView::Utf8(_))),
            },
    {
        match self.get(index) {
            Some(Constant::Utf8(s)) => Some(s.as_str()),
            _ => None,
        }
    }
}

/// Interning a class entry and its name.
pub open spec fn intern_class_spec(v: PoolView, name: Seq<char>) -> PoolStep {
    then_intern(intern_spec(v, ConstantView::Utf8(name)), |i: int| ConstantView::Class { name_index: i as u16 })
}

/// Interning a string entry and its text.
pub open spec fn intern_string_spec(v: PoolView, value: Seq<char>) -> PoolStep {
    then_intern(intern_spec(v, ConstantView::Utf8(value)), |i: int| ConstantView::String { string_index: i as u16 })
}

/// Two steps in sequence whose indices feed a final entry.
pub open spec fn then_pair(first: PoolStep, second: spec_fn(PoolView) -> PoolStep, f: spec_fn(int, int) -> ConstantView) -> PoolStep {
    match first {
        Err(e) => Err(e),
        Ok((v1, i)) => match second(v1) {
            Err(e) => Err(e),
            Ok((v2, j)) => intern_spec(v2, f(i, j)),
        },
    }
}

pub open spec fn intern_name_and_type_spec(v: PoolView, name: Seq<char>, desc: Seq<char>) -> PoolStep {
    then_pair(
        intern_spec(v, ConstantView::Utf8(name)),
        |v1: PoolView| intern_spec(v1, ConstantView::Utf8(desc)),
        |i: int, j: int| ConstantView::NameAndType { name_index: i as u16, descriptor_index: j as u16 },
    )
}

/// The three kinds of member references.
pub enum MemberKind {
    Field,
    Method,
    InterfaceMethod,
}

pub open spec fn member_ref(k: MemberKind, c: int, nt: int) -> ConstantView {
    match k {
        MemberKind::Field => ConstantView::Fieldref { class_index: c as u16, name_and_type_index: nt as u16 },
        MemberKind::Method => ConstantView::Methodref { class_index: c as u16, name_and_type_index: nt as u16 },
        MemberKind::InterfaceMethod => ConstantView::InterfaceMethodref {
            class_index: c as u16,
            name_and_type_index: nt as u16,
        },
    }
}

pub open spec fn intern_member_spec(v: PoolView, k: MemberKind, class: Seq<char>, name: Seq<char>, desc: Seq<char>) -> PoolStep {
    then_pair(
        intern_class_spec(v, class),
        |v1: PoolView| intern_name_and_type_spec(v1, name, desc),
        |c: int, nt: int| member_ref(k, c, nt),
    )
}

pub open spec fn intern_dynamic_spec(v: PoolView, invoke: bool, bsm: u16, name: Seq<char>, desc: Seq<char>) -> PoolStep {
    then_intern(intern_name_and_type_spec(v, name, desc), |nt: int| if invoke {
        ConstantView::InvokeDynamic { bootstrap_method_attr_index: bsm, name_and_type_index: nt as u16 }
    } else {
        ConstantView::Dynamic { bootstrap_method_attr_index: bsm, name_and_type_index: nt as u16 }
    })
}

/// Indices of the occupied slots below `n`, in order.
pub open spec fn occupied(v: PoolView, n: int) -> Seq<int>
    decreases n,
{
    if n <= 0 {
        Seq::empty()
    } else if v[n - 1] is Some {
        occupied(v, n - 1).push(n - 1)
    } else {
        occupied(v, n - 1)
    }
}

} // verus!

verus! {

proof fn lemma_find_from_extend(v: PoolView, c: ConstantView, i: int, tail: PoolView)
    requires
        0 <= i <= v.len(),
        find_from(v, c, i) is None,
        tail.len() > 0,
        tail[0] == Some(c),
    ensures
        find_from(v + tail, c, i) == Some(v.len() as int),
    decreases v.len() - i,
{
    let w = v + tail;
    if i < v.len() {
        assert(w[i] == v[i]);
        lemma_find_from_extend(v, c, i + 1, tail);
    } else {
        assert(w[i] == tail[0]);
    }
}

proof fn lemma_find_from_hit(v: PoolView, c: ConstantView, i: int, k: int)
    requires
        find_from(v, c, i) == Some(k),
    ensures
        i <= k < v.len(),
        v[k] == Some(c),
    decreases v.len() - i,
{
    if v[i] != Some(c) {
        lemma_find_from_hit(v, c, i + 1, k);
    }
}

/// Interning a constant puts it at the index handed out, and interning the
/// same constant again hands out that index and leaves the pool unchanged.
pub proof fn lemma_intern_idempotent(v: PoolView, c: ConstantView)
    requires
        pool_wf(v),
    ensures
        intern_spec(v, c) matches Ok((v1, i)) ==> {
            &&& 1 <= i < v1.len()
            &&& v1[i] == Some(c)
            &&& intern_spec(v1, c) == Ok::<(PoolView, int), (PoolView, int)>((v1, i))
        },
{
    match find_from(v, c, 1) {
        Some(k) => {
            lemma_find_from_hit(v, c, 1, k);
        },
        None => {
            if let Ok((v1, i)) = push_spec(v, c) {
                let tail = if is_wide_view(c) { seq![Some(c), None] } else { seq![Some(c)] };
                assert(v1 =~= v + tail);
                lemma_find_from_extend(v, c, 1, tail);
            }
        },
    }
}

/// A wide constant takes its slot and the next one, which stays empty; the
/// entry after it lands two slots further on.
pub proof fn lemma_wide_takes_two_slots(v: PoolView, c: ConstantView, d: ConstantView)
    requires
        is_wide_view(c),
        push_spec(v, c) is Ok,
        push_spec(push_spec(v, c)->Ok_0.0, d) is Ok,
    ensures
        ({
            let (v1, i) = push_spec(v, c)->Ok_0;
            let (v2, j) = push_spec(v1, d)->Ok_0;
            &&& j == i + 2
            &&& v2[i + 1] is None
            &&& v2[i] == Some(c)
        }),
{
}

} // verus!
