//! Method body builder producing a `CodeAttribute` after symbol resolution.
use vstd::prelude::*;
use crate::assembler::label::{Label, LabelTable};
use crate::assembler::util::{attr_step, push_attr};
use crate::spec::attribute::{Attribute, CodeAttribute, LineNumberEntry};
use crate::spec::constant::{
    intern_class_spec, intern_dynamic_spec, intern_member_spec, intern_spec, intern_string_spec, then_intern,
    ConstantPool, ConstantView, MemberKind, PoolStep, PoolView, ReferenceKind, Constant,
};
use crate::spec::descriptor::{parse_method_spec, slots_sum, field_types, descriptor_message, MethodDescriptor};
use crate::spec::encode::{EncodeError, error_is};
use crate::spec::error::{Error, Result};
use crate::spec::text::chars_of;
use crate::spec::instruction::{lemma_be32_all_len, lemma_encoding_matches_size, lemma_pairs_bytes_len, lemma_table_encoding, 
    encoding_of, encodes_ok, lookup_operands, size_computable, size_of, switch_pad, table_operands,
    tableswitch_len_message, wide_index, ArrayType, Instruction, WideInstruction,
};

verus! {

/// Opcodes for fluent field access.
#[derive(Debug, Clone, Copy, PartialEq, Eq, Structural)]
pub enum FieldOp {
    GetStatic,
    PutStatic,
    GetField,
    PutField,
}

/// Opcodes for fluent method invocation.
#[derive(Debug, Clone, Copy, PartialEq, Eq, Structural)]
pub enum InvokeOp {
    Virtual,
    Special,
    Static,
    Interface,
}

/// Opcodes that reference a single class (`new`, `anewarray`, `checkcast`, `instanceof`).
#[derive(Debug, Clone, Copy, PartialEq, Eq, Structural)]
pub enum ClassRefOp {
    New,
    Anewarray,
    Checkcast,
    Instanceof,
}

/// Conditional and unconditional short branches (16-bit signed offset).
#[derive(Debug, Clone, Copy, PartialEq, Eq, Structural)]
pub enum BranchKind {
    Ifeq,
    Ifne,
    Iflt,
    Ifge,
    Ifgt,
    Ifle,
    IfIcmpeq,
    IfIcmpne,
    IfIcmplt,
    IfIcmpge,
    IfIcmpgt,
    IfIcmple,
    IfAcmpeq,
    IfAcmpne,
    Goto,
    Jsr,
    Ifnull,
    Ifnonnull,
}

/// An `ldc`/`ldc_w`/`ldc2_w` payload whose final opcode is determined by the
/// interned pool index during resolution.
#[derive(Debug, Clone, PartialEq)]
pub enum LdcValue {
    Int(i32),
    Long(i64),
    Float(u32),
    Double(u64),
    String(String),
    Class(String),
    MethodType(String),
    MethodHandle { kind: ReferenceKind, reference_index: u16 },
}

/// One entry in the builder's working list.
#[derive(Debug, Clone, PartialEq)]
pub enum Op {
    Raw(Instruction),
    Ldc(LdcValue),
    Field { op: FieldOp, class: String, name: String, desc: String },
    Invoke { op: InvokeOp, class: String, name: String, desc: String },
    InvokeDynamic { bootstrap_method_attr_index: u16, name: String, desc: String },
    ClassRef { op: ClassRefOp, class: String },
    Multianewarray { class: String, dimensions: u8 },
    Placed(Label),
    Branch { kind: BranchKind, target: Label },
    GotoW(Label),
    JsrW(Label),
    Tableswitch { default: Label, low: i32, cases: Vec<Label> },
    Lookupswitch { default: Label, pairs: Vec<(i32, Label)> },
    LineNumber(u16),
}

/// Fluent builder for the body of a method.
#[derive(Debug)]
pub struct CodeBuilder {
    pub(crate) ops: Vec<Op>,
    pub(crate) labels: LabelTable,
    pub(crate) max_stack: Option<u16>,
    pub(crate) max_locals: Option<u16>,
}

impl Default for CodeBuilder {
    /// The empty body of `new`.
    fn default() -> (c: Self)
        ensures
            c.ops().len() == 0,
            c.labels().len() == 0,
            c.stack_limit() is None,
            c.locals_limit() is None,
    {
        Self::new()
    }
}

impl CodeBuilder {
    /// The pending operations, in emission order.
    pub closed spec fn ops(&self) -> Seq<Op> {
        self.ops@
    }

    /// Label positions recorded so far.
    pub closed spec fn labels(&self) -> Seq<Option<u32>> {
        self.labels@
    }

    pub closed spec fn stack_limit(&self) -> Option<u16> {
        self.max_stack
    }

    pub closed spec fn locals_limit(&self) -> Option<u16> {
        self.max_locals
    }

    /// `b` is `a` with `op` appended and nothing else changed.
    pub open spec fn appended(a: CodeBuilder, b: CodeBuilder, op: Op) -> bool {
        &&& b.ops() == a.ops().push(op)
        &&& b.labels() == a.labels()
        &&& b.stack_limit() == a.stack_limit()
        &&& b.locals_limit() == a.locals_limit()
    }

    pub fn new() -> (c: Self)
        ensures
            c.ops().len() == 0,
            c.labels().len() == 0,
            c.stack_limit() is None,
            c.locals_limit() is None,
    {
        CodeBuilder { ops: Vec::new(), labels: LabelTable::new(), max_stack: None, max_locals: None }
    }

    fn push_op(&mut self, op: Op) -> (r: &mut Self)
        ensures
            Self::appended(*old(self), *r, op),
            *final(self) == *final(r),
    {
        self.ops.push(op);
        self
    }
}

} // verus!

verus! {

/// The load and store families that have `_0`..`_3` shortcut forms.
#[derive(Debug, Clone, Copy, PartialEq, Eq, Structural)]
pub enum LocalKind {
    Iload,
    Lload,
    Fload,
    Dload,
    Aload,
    Istore,
    Lstore,
    Fstore,
    Dstore,
    Astore,
}

/// Opcode of the `_0` shortcut of each family; `_1`..`_3` follow it.
pub open spec fn shortcut_base(k: LocalKind) -> u8 {
    match k {
        LocalKind::Iload => 0x1a,
        LocalKind::Lload => 0x1e,
        LocalKind::Fload => 0x22,
        LocalKind::Dload => 0x26,
        LocalKind::Aload => 0x2a,
        LocalKind::Istore => 0x3b,
        LocalKind::Lstore => 0x3f,
        LocalKind::Fstore => 0x43,
        LocalKind::Dstore => 0x47,
        LocalKind::Astore => 0x4b,
    }
}

/// Whether `op` is one of the load/store shortcut opcodes.
pub open spec fn is_shortcut_opcode(op: u8) -> bool {
    (0x1a <= op <= 0x1d) || (0x1e <= op <= 0x21) || (0x22 <= op <= 0x25) || (0x26 <= op <= 0x29) || (0x2a <= op <= 0x2d) || (0x3b <= op <= 0x3e) || (0x3f <= op <= 0x42) || (0x43 <= op <= 0x46) || (0x47 <= op <= 0x4a) || (0x4b <= op <= 0x4e)
}

/// The shortcut instruction whose opcode is `op`.
pub open spec fn shortcut_instruction(op: u8) -> Instruction {
    match op {
        0x1a => Instruction::Iload0,
        0x1b => Instruction::Iload1,
        0x1c => Instruction::Iload2,
        0x1d => Instruction::Iload3,
        0x1e => Instruction::Lload0,
        0x1f => Instruction::Lload1,
        0x20 => Instruction::Lload2,
        0x21 => Instruction::Lload3,
        0x22 => Instruction::Fload0,
        0x23 => Instruction::Fload1,
        0x24 => Instruction::Fload2,
        0x25 => Instruction::Fload3,
        0x26 => Instruction::Dload0,
        0x27 => Instruction::Dload1,
        0x28 => Instruction::Dload2,
        0x29 => Instruction::Dload3,
        0x2a => Instruction::Aload0,
        0x2b => Instruction::Aload1,
        0x2c => Instruction::Aload2,
        0x2d => Instruction::Aload3,
        0x3b => Instruction::Istore0,
        0x3c => Instruction::Istore1,
        0x3d => Instruction::Istore2,
        0x3e => Instruction::Istore3,
        0x3f => Instruction::Lstore0,
        0x40 => Instruction::Lstore1,
        0x41 => Instruction::Lstore2,
        0x42 => Instruction::Lstore3,
        0x43 => Instruction::Fstore0,
        0x44 => Instruction::Fstore1,
        0x45 => Instruction::Fstore2,
        0x46 => Instruction::Fstore3,
        0x47 => Instruction::Dstore0,
        0x48 => Instruction::Dstore1,
        0x49 => Instruction::Dstore2,
        0x4a => Instruction::Dstore3,
        0x4b => Instruction::Astore0,
        0x4c => Instruction::Astore1,
        0x4d => Instruction::Astore2,
        0x4e => Instruction::Astore3,
        _ => Instruction::Nop,
    }
}

pub open spec fn basic_local(k: LocalKind, index: u8) -> Instruction {
    match k {
        LocalKind::Iload => Instruction::Iload(index),
        LocalKind::Lload => Instruction::Lload(index),
        LocalKind::Fload => Instruction::Fload(index),
        LocalKind::Dload => Instruction::Dload(index),
        LocalKind::Aload => Instruction::Aload(index),
        LocalKind::Istore => Instruction::Istore(index),
        LocalKind::Lstore => Instruction::Lstore(index),
        LocalKind::Fstore => Instruction::Fstore(index),
        LocalKind::Dstore => Instruction::Dstore(index),
        LocalKind::Astore => Instruction::Astore(index),
    }
}

pub open spec fn wide_local(k: LocalKind, index: u16) -> WideInstruction {
    match k {
        LocalKind::Iload => WideInstruction::Iload(index),
        LocalKind::Lload => WideInstruction::Lload(index),
        LocalKind::Fload => WideInstruction::Fload(index),
        LocalKind::Dload => WideInstruction::Dload(index),
        LocalKind::Aload => WideInstruction::Aload(index),
        LocalKind::Istore => WideInstruction::Istore(index),
        LocalKind::Lstore => WideInstruction::Lstore(index),
        LocalKind::Fstore => WideInstruction::Fstore(index),
        LocalKind::Dstore => WideInstruction::Dstore(index),
        LocalKind::Astore => WideInstruction::Astore(index),
    }
}

/// The narrowest instruction of family `k` for local `index`: the shortcut
/// below 4, the one byte operand form below 256, else `wide`.
pub open spec fn local_instruction(k: LocalKind, index: u16) -> Instruction {
    if index < 4 {
        shortcut_instruction((shortcut_base(k) + index) as u8)
    } else if index < 256 {
        basic_local(k, index as u8)
    } else {
        Instruction::Wide(wide_local(k, index))
    }
}

fn raw_from_opcode(op: u8) -> (i: Instruction)
    requires
        is_shortcut_opcode(op),
    ensures
        i == shortcut_instruction(op),
{
    match op {
        0x1a => Instruction::Iload0,
        0x1b => Instruction::Iload1,
        0x1c => Instruction::Iload2,
        0x1d => Instruction::Iload3,
        0x1e => Instruction::Lload0,
        0x1f => Instruction::Lload1,
        0x20 => Instruction::Lload2,
        0x21 => Instruction::Lload3,
        0x22 => Instruction::Fload0,
        0x23 => Instruction::Fload1,
        0x24 => Instruction::Fload2,
        0x25 => Instruction::Fload3,
        0x26 => Instruction::Dload0,
        0x27 => Instruction::Dload1,
        0x28 => Instruction::Dload2,
        0x29 => Instruction::Dload3,
        0x2a => Instruction::Aload0,
        0x2b => Instruction::Aload1,
        0x2c => Instruction::Aload2,
        0x2d => Instruction::Aload3,
        0x3b => Instruction::Istore0,
        0x3c => Instruction::Istore1,
        0x3d => Instruction::Istore2,
        0x3e => Instruction::Istore3,
        0x3f => Instruction::Lstore0,
        0x40 => Instruction::Lstore1,
        0x41 => Instruction::Lstore2,
        0x42 => Instruction::Lstore3,
        0x43 => Instruction::Fstore0,
        0x44 => Instruction::Fstore1,
        0x45 => Instruction::Fstore2,
        0x46 => Instruction::Fstore3,
        0x47 => Instruction::Dstore0,
        0x48 => Instruction::Dstore1,
        0x49 => Instruction::Dstore2,
        0x4a => Instruction::Dstore3,
        0x4b => Instruction::Astore0,
        0x4c => Instruction::Astore1,
        0x4d => Instruction::Astore2,
        0x4e => Instruction::Astore3,
        _ => Instruction::Nop,
    }
}

fn local_shortcut_base(k: LocalKind) -> (b: u8)
    ensures
        b == shortcut_base(k),
{
    match k {
        LocalKind::Iload => 0x1a,
        LocalKind::Lload => 0x1e,
        LocalKind::Fload => 0x22,
        LocalKind::Dload => 0x26,
        LocalKind::Aload => 0x2a,
        LocalKind::Istore => 0x3b,
        LocalKind::Lstore => 0x3f,
        LocalKind::Fstore => 0x43,
        LocalKind::Dstore => 0x47,
        LocalKind::Astore => 0x4b,
    }
}

fn basic_instruction(k: LocalKind, i: u8) -> (r: Instruction)
    ensures
        r == basic_local(k, i),
{
    match k {
        LocalKind::Iload => Instruction::Iload(i),
        LocalKind::Lload => Instruction::Lload(i),
        LocalKind::Fload => Instruction::Fload(i),
        LocalKind::Dload => Instruction::Dload(i),
        LocalKind::Aload => Instruction::Aload(i),
        LocalKind::Istore => Instruction::Istore(i),
        LocalKind::Lstore => Instruction::Lstore(i),
        LocalKind::Fstore => Instruction::Fstore(i),
        LocalKind::Dstore => Instruction::Dstore(i),
        LocalKind::Astore => Instruction::Astore(i),
    }
}

fn wide_instruction(k: LocalKind, index: u16) -> (r: WideInstruction)
    ensures
        r == wide_local(k, index),
{
    match k {
        LocalKind::Iload => WideInstruction::Iload(index),
        LocalKind::Lload => WideInstruction::Lload(index),
        LocalKind::Fload => WideInstruction::Fload(index),
        LocalKind::Dload => WideInstruction::Dload(index),
        LocalKind::Aload => WideInstruction::Aload(index),
        LocalKind::Istore => WideInstruction::Istore(index),
        LocalKind::Lstore => WideInstruction::Lstore(index),
        LocalKind::Fstore => WideInstruction::Fstore(index),
        LocalKind::Dstore => WideInstruction::Dstore(index),
        LocalKind::Astore => WideInstruction::Astore(index),
    }
}

/// The instruction for each short branch kind with the given offset.
pub open spec fn branch_instruction(k: BranchKind, offset: i16) -> Instruction {
    match k {
        BranchKind::Ifeq => Instruction::Ifeq(offset),
        BranchKind::Ifne => Instruction::Ifne(offset),
        BranchKind::Iflt => Instruction::Iflt(offset),
        BranchKind::Ifge => Instruction::Ifge(offset),
        BranchKind::Ifgt => Instruction::Ifgt(offset),
        BranchKind::Ifle => Instruction::Ifle(offset),
        BranchKind::IfIcmpeq => Instruction::IfIcmpeq(offset),
        BranchKind::IfIcmpne => Instruction::IfIcmpne(offset),
        BranchKind::IfIcmplt => Instruction::IfIcmplt(offset),
        BranchKind::IfIcmpge => Instruction::IfIcmpge(offset),
        BranchKind::IfIcmpgt => Instruction::IfIcmpgt(offset),
        BranchKind::IfIcmple => Instruction::IfIcmple(offset),
        BranchKind::IfAcmpeq => Instruction::IfAcmpeq(offset),
        BranchKind::IfAcmpne => Instruction::IfAcmpne(offset),
        BranchKind::Goto => Instruction::Goto(offset),
        BranchKind::Jsr => Instruction::Jsr(offset),
        BranchKind::Ifnull => Instruction::Ifnull(offset),
        BranchKind::Ifnonnull => Instruction::Ifnonnull(offset),
    }
}

impl BranchKind {
    fn to_instruction(self, offset: i16) -> (i: Instruction)
        ensures
            i == branch_instruction(self, offset),
    {
        match self {
            BranchKind::Ifeq => Instruction::Ifeq(offset),
            BranchKind::Ifne => Instruction::Ifne(offset),
            BranchKind::Iflt => Instruction::Iflt(offset),
            BranchKind::Ifge => Instruction::Ifge(offset),
            BranchKind::Ifgt => Instruction::Ifgt(offset),
            BranchKind::Ifle => Instruction::Ifle(offset),
            BranchKind::IfIcmpeq => Instruction::IfIcmpeq(offset),
            BranchKind::IfIcmpne => Instruction::IfIcmpne(offset),
            BranchKind::IfIcmplt => Instruction::IfIcmplt(offset),
            BranchKind::IfIcmpge => Instruction::IfIcmpge(offset),
            BranchKind::IfIcmpgt => Instruction::IfIcmpgt(offset),
            BranchKind::IfIcmple => Instruction::IfIcmple(offset),
            BranchKind::IfAcmpeq => Instruction::IfAcmpeq(offset),
            BranchKind::IfAcmpne => Instruction::IfAcmpne(offset),
            BranchKind::Goto => Instruction::Goto(offset),
            BranchKind::Jsr => Instruction::Jsr(offset),
            BranchKind::Ifnull => Instruction::Ifnull(offset),
            BranchKind::Ifnonnull => Instruction::Ifnonnull(offset),
        }
    }
}

/// `iinc` with the narrow form when both operands fit a byte, else `wide`.
pub open spec fn iinc_instruction(index: u16, delta: i16) -> Instruction {
    if index < 256 && -128 <= delta < 128 {
        Instruction::Iinc { index: index as u8, delta: delta as i8 }
    } else {
        Instruction::Wide(WideInstruction::Iinc { index, delta })
    }
}

/// `ret` with the narrow form below 256, else `wide`.
pub open spec fn ret_instruction(index: u16) -> Instruction {
    if index < 256 { Instruction::Ret(index as u8) } else { Instruction::Wide(WideInstruction::Ret(index)) }
}

impl CodeBuilder {
    /// Request a fresh label. Place it at the desired code position with
    /// [`CodeBuilder::place`].
    pub fn label(&mut self) -> (l: Label)
        ensures
            l.id() == old(self).labels().len(),
            final(self).labels() == old(self).labels().push(None),
            final(self).ops() == old(self).ops(),
            final(self).stack_limit() == old(self).stack_limit(),
            final(self).locals_limit() == old(self).locals_limit(),
    {
        self.labels.new_label()
    }

    /// Force `max_stack`. Leaving this unset asks the resolver for a
    /// conservative ceiling taken from the emitted instructions: the sum of
    /// the words each one can add to the operand stack.
    pub fn max_stack(&mut self, v: u16) -> (r: &mut Self)
        ensures
            r.ops() == old(self).ops(),
            r.labels() == old(self).labels(),
            r.stack_limit() == Some(v),
            r.locals_limit() == old(self).locals_limit(),
            *final(self) == *final(r),
    {
        self.max_stack = Some(v);
        self
    }

    /// Force `max_locals`. Leaving this unset uses the widest local slot
    /// mentioned in the emitted instructions, at least the parameter slots.
    pub fn max_locals(&mut self, v: u16) -> (r: &mut Self)
        ensures
            r.ops() == old(self).ops(),
            r.labels() == old(self).labels(),
            r.stack_limit() == old(self).stack_limit(),
            r.locals_limit() == Some(v),
            *final(self) == *final(r),
    {
        self.max_locals = Some(v);
        self
    }

    /// `iinc index, delta`: widens to `wide iinc` when the operands exceed
    /// the 8-bit forms.
    pub fn iinc(&mut self, index: u16, delta: i16) -> (r: &mut Self)
        ensures
            Self::appended(*old(self), *r, Op::Raw(iinc_instruction(index, delta))),
            *final(self) == *final(r),
    {
        let ins = if index < 256 && -128 <= delta && delta < 128 {
            Instruction::Iinc { index: index as u8, delta: delta as i8 }
        } else {
            Instruction::Wide(WideInstruction::Iinc { index, delta })
        };
        self.push_op(Op::Raw(ins))
    }

    /// `ret index`: widens as needed.
    pub fn ret(&mut self, index: u16) -> (r: &mut Self)
        ensures
            Self::appended(*old(self), *r, Op::Raw(ret_instruction(index))),
            *final(self) == *final(r),
    {
        let ins = if index < 256 {
            Instruction::Ret(index as u8)
        } else {
            Instruction::Wide(WideInstruction::Ret(index))
        };
        self.push_op(Op::Raw(ins))
    }

    fn push_load(&mut self, index: u16, kind: LocalKind) -> (r: &mut Self)
        ensures
            Self::appended(*old(self), *r, Op::Raw(local_instruction(kind, index))),
            *final(self) == *final(r),
    {
        let ins = if index < 4 {
            raw_from_opcode(local_shortcut_base(kind) + index as u8)
        } else if index < 256 {
            basic_instruction(kind, index as u8)
        } else {
            Instruction::Wide(wide_instruction(kind, index))
        };
        self.push_op(Op::Raw(ins))
    }

    fn push_field(&mut self, op: FieldOp, class: &str, name: &str, desc: &str) -> (r: &mut Self)
        ensures
            r.ops().len() == old(self).ops().len() + 1,
            r.ops().take(old(self).ops().len() as int) == old(self).ops(),
            r.ops().last() matches Op::Field { op: o, class: c, name: n, desc: d }
                && o == op && c@ == class@ && n@ == name@ && d@ == desc@,
            r.labels() == old(self).labels(),
            r.stack_limit() == old(self).stack_limit(),
            r.locals_limit() == old(self).locals_limit(),
            *final(self) == *final(r),
    {
        let r = self.push_op(Op::Field { op, class: class.to_owned(), name: name.to_owned(), desc: desc.to_owned() });
        assert(r.ops().take(old(self).ops().len() as int) =~= old(self).ops());
        r
    }

    fn push_invoke(&mut self, op: InvokeOp, class: &str, name: &str, desc: &str) -> (r: &mut Self)
        ensures
            r.ops().len() == old(self).ops().len() + 1,
            r.ops().take(old(self).ops().len() as int) == old(self).ops(),
            r.ops().last() matches Op::Invoke { op: o, class: c, name: n, desc: d }
                && o == op && c@ == class@ && n@ == name@ && d@ == desc@,
            r.labels() == old(self).labels(),
            r.stack_limit() == old(self).stack_limit(),
            r.locals_limit() == old(self).locals_limit(),
            *final(self) == *final(r),
    {
        let r = self.push_op(Op::Invoke { op, class: class.to_owned(), name: name.to_owned(), desc: desc.to_owned() });
        assert(r.ops().take(old(self).ops().len() as int) =~= old(self).ops());
        r
    }

    fn push_class(&mut self, op: ClassRefOp, internal_name: &str) -> (r: &mut Self)
        ensures
            exists|owned: String| owned@ == internal_name@
                && Self::appended(*old(self), *r, Op::ClassRef { op, class: owned }),
            *final(self) == *final(r),
    {
        let owned = internal_name.to_owned();
        self.push_op(Op::ClassRef { op, class: owned })
    }

    pub fn invokedynamic(&mut self, bootstrap_method_attr_index: u16, name: &str, desc: &str) -> (r: &mut Self)
        ensures
            r.ops().len() == old(self).ops().len() + 1,
            r.ops().take(old(self).ops().len() as int) == old(self).ops(),
            r.ops().last() matches Op::InvokeDynamic { bootstrap_method_attr_index: b, name: n, desc: d }
                && b == bootstrap_method_attr_index && n@ == name@ && d@ == desc@,
            r.labels() == old(self).labels(),
            r.stack_limit() == old(self).stack_limit(),
            r.locals_limit() == old(self).locals_limit(),
            *final(self) == *final(r),
    {
        let r = self.push_op(Op::InvokeDynamic { bootstrap_method_attr_index, name: name.to_owned(), desc: desc.to_owned() });
        assert(r.ops().take(old(self).ops().len() as int) =~= old(self).ops());
        r
    }

    pub fn multianewarray(&mut self, internal_name: &str, dimensions: u8) -> (r: &mut Self)
        ensures
            exists|owned: String| owned@ == internal_name@
                && Self::appended(*old(self), *r, Op::Multianewarray { class: owned, dimensions }),
            *final(self) == *final(r),
    {
        let owned = internal_name.to_owned();
        self.push_op(Op::Multianewarray { class: owned, dimensions })
    }

    pub fn tableswitch(&mut self, default: Label, low: i32, cases: Vec<Label>) -> (r: &mut Self)
        ensures
            Self::appended(*old(self), *r, Op::Tableswitch { default, low, cases }),
            *final(self) == *final(r),
    {
        self.push_op(Op::Tableswitch { default, low, cases })
    }

    pub fn lookupswitch(&mut self, default: Label, pairs: Vec<(i32, Label)>) -> (r: &mut Self)
        ensures
            Self::appended(*old(self), *r, Op::Lookupswitch { default, pairs }),
            *final(self) == *final(r),
    {
        self.push_op(Op::Lookupswitch { default, pairs })
    }
    /// Emit `nop`.
    pub fn nop(&mut self) -> (r: &mut Self)
        ensures
            Self::appended(*old(self), *r, Op::Raw(Instruction::Nop)),
            *final(self) == *final(r),
    {
        self.push_op(Op::Raw(Instruction::Nop))
    }

    /// Emit `aconst_null`.
    pub fn aconst_null(&mut self) -> (r: &mut Self)
        ensures
            Self::appended(*old(self), *r, Op::Raw(Instruction::AconstNull)),
            *final(self) == *final(r),
    {
        self.push_op(Op::Raw(Instruction::AconstNull))
    }

    /// Emit `iconst_m1`.
    pub fn iconst_m1(&mut self) -> (r: &mut Self)
        ensures
            Self::appended(*old(self), *r, Op::Raw(Instruction::IconstM1)),
            *final(self) == *final(r),
    {
        self.push_op(Op::Raw(Instruction::IconstM1))
    }

    /// Emit `iconst_0`.
    pub fn iconst_0(&mut self) -> (r: &mut Self)
        ensures
            Self::appended(*old(self), *r, Op::Raw(Instruction::Iconst0)),
            *final(self) == *final(r),
    {
        self.push_op(Op::Raw(Instruction::Iconst0))
    }

    /// Emit `iconst_1`.
    pub fn iconst_1(&mut self) -> (r: &mut Self)
        ensures
            Self::appended(*old(self), *r, Op::Raw(Instruction::Iconst1)),
            *final(self) == *final(r),
    {
        self.push_op(Op::Raw(Instruction::Iconst1))
    }

    /// Emit `iconst_2`.
    pub fn iconst_2(&mut self) -> (r: &mut Self)
        ensures
            Self::appended(*old(self), *r, Op::Raw(Instruction::Iconst2)),
            *final(self) == *final(r),
    {
        self.push_op(Op::Raw(Instruction::Iconst2))
    }

    /// Emit `iconst_3`.
    pub fn iconst_3(&mut self) -> (r: &mut Self)
        ensures
            Self::appended(*old(self), *r, Op::Raw(Instruction::Iconst3)),
            *final(self) == *final(r),
    {
        self.push_op(Op::Raw(Instruction::Iconst3))
    }

    /// Emit `iconst_4`.
    pub fn iconst_4(&mut self) -> (r: &mut Self)
        ensures
            Self::appended(*old(self), *r, Op::Raw(Instruction::Iconst4)),
            *final(self) == *final(r),
    {
        self.push_op(Op::Raw(Instruction::Iconst4))
    }

    /// Emit `iconst_5`.
    pub fn iconst_5(&mut self) -> (r: &mut Self)
        ensures
            Self::appended(*old(self), *r, Op::Raw(Instruction::Iconst5)),
            *final(self) == *final(r),
    {
        self.push_op(Op::Raw(Instruction::Iconst5))
    }

    /// Emit `lconst_0`.
    pub fn lconst_0(&mut self) -> (r: &mut Self)
        ensures
            Self::appended(*old(self), *r, Op::Raw(Instruction::Lconst0)),
            *final(self) == *final(r),
    {
        self.push_op(Op::Raw(Instruction::Lconst0))
    }

    /// Emit `lconst_1`.
    pub fn lconst_1(&mut self) -> (r: &mut Self)
        ensures
            Self::appended(*old(self), *r, Op::Raw(Instruction::Lconst1)),
            *final(self) == *final(r),
    {
        self.push_op(Op::Raw(Instruction::Lconst1))
    }

    /// Emit `fconst_0`.
    pub fn fconst_0(&mut self) -> (r: &mut Self)
        ensures
            Self::appended(*old(self), *r, Op::Raw(Instruction::Fconst0)),
            *final(self) == *final(r),
    {
        self.push_op(Op::Raw(Instruction::Fconst0))
    }

    /// Emit `fconst_1`.
    pub fn fconst_1(&mut self) -> (r: &mut Self)
        ensures
            Self::appended(*old(self), *r, Op::Raw(Instruction::Fconst1)),
            *final(self) == *final(r),
    {
        self.push_op(Op::Raw(Instruction::Fconst1))
    }

    /// Emit `fconst_2`.
    pub fn fconst_2(&mut self) -> (r: &mut Self)
        ensures
            Self::appended(*old(self), *r, Op::Raw(Instruction::Fconst2)),
            *final(self) == *final(r),
    {
        self.push_op(Op::Raw(Instruction::Fconst2))
    }

    /// Emit `dconst_0`.
    pub fn dconst_0(&mut self) -> (r: &mut Self)
        ensures
            Self::appended(*old(self), *r, Op::Raw(Instruction::Dconst0)),
            *final(self) == *final(r),
    {
        self.push_op(Op::Raw(Instruction::Dconst0))
    }

    /// Emit `dconst_1`.
    pub fn dconst_1(&mut self) -> (r: &mut Self)
        ensures
            Self::appended(*old(self), *r, Op::Raw(Instruction::Dconst1)),
            *final(self) == *final(r),
    {
        self.push_op(Op::Raw(Instruction::Dconst1))
    }

    /// Emit `iaload`.
    pub fn iaload(&mut self) -> (r: &mut Self)
        ensures
            Self::appended(*old(self), *r, Op::Raw(Instruction::Iaload)),
            *final(self) == *final(r),
    {
        self.push_op(Op::Raw(Instruction::Iaload))
    }

    /// Emit `laload`.
    pub fn laload(&mut self) -> (r: &mut Self)
        ensures
            Self::appended(*old(self), *r, Op::Raw(Instruction::Laload)),
            *final(self) == *final(r),
    {
        self.push_op(Op::Raw(Instruction::Laload))
    }

    /// Emit `faload`.
    pub fn faload(&mut self) -> (r: &mut Self)
        ensures
            Self::appended(*old(self), *r, Op::Raw(Instruction::Faload)),
            *final(self) == *final(r),
    {
        self.push_op(Op::Raw(Instruction::Faload))
    }

    /// Emit `daload`.
    pub fn daload(&mut self) -> (r: &mut Self)
        ensures
            Self::appended(*old(self), *r, Op::Raw(Instruction::Daload)),
            *final(self) == *final(r),
    {
        self.push_op(Op::Raw(Instruction::Daload))
    }

    /// Emit `aaload`.
    pub fn aaload(&mut self) -> (r: &mut Self)
        ensures
            Self::appended(*old(self), *r, Op::Raw(Instruction::Aaload)),
            *final(self) == *final(r),
    {
        self.push_op(Op::Raw(Instruction::Aaload))
    }

    /// Emit `baload`.
    pub fn baload(&mut self) -> (r: &mut Self)
        ensures
            Self::appended(*old(self), *r, Op::Raw(Instruction::Baload)),
            *final(self) == *final(r),
    {
        self.push_op(Op::Raw(Instruction::Baload))
    }

    /// Emit `caload`.
    pub fn caload(&mut self) -> (r: &mut Self)
        ensures
            Self::appended(*old(self), *r, Op::Raw(Instruction::Caload)),
            *final(self) == *final(r),
    {
        self.push_op(Op::Raw(Instruction::Caload))
    }

    /// Emit `saload`.
    pub fn saload(&mut self) -> (r: &mut Self)
        ensures
            Self::appended(*old(self), *r, Op::Raw(Instruction::Saload)),
            *final(self) == *final(r),
    {
        self.push_op(Op::Raw(Instruction::Saload))
    }

    /// Emit `iastore`.
    pub fn iastore(&mut self) -> (r: &mut Self)
        ensures
            Self::appended(*old(self), *r, Op::Raw(Instruction::Iastore)),
            *final(self) == *final(r),
    {
        self.push_op(Op::Raw(Instruction::Iastore))
    }

    /// Emit `lastore`.
    pub fn lastore(&mut self) -> (r: &mut Self)
        ensures
            Self::appended(*old(self), *r, Op::Raw(Instruction::Lastore)),
            *final(self) == *final(r),
    {
        self.push_op(Op::Raw(Instruction::Lastore))
    }

    /// Emit `fastore`.
    pub fn fastore(&mut self) -> (r: &mut Self)
        ensures
            Self::appended(*old(self), *r, Op::Raw(Instruction::Fastore)),
            *final(self) == *final(r),
    {
        self.push_op(Op::Raw(Instruction::Fastore))
    }

    /// Emit `dastore`.
    pub fn dastore(&mut self) -> (r: &mut Self)
        ensures
            Self::appended(*old(self), *r, Op::Raw(Instruction::Dastore)),
            *final(self) == *final(r),
    {
        self.push_op(Op::Raw(Instruction::Dastore))
    }

    /// Emit `aastore`.
    pub fn aastore(&mut self) -> (r: &mut Self)
        ensures
            Self::appended(*old(self), *r, Op::Raw(Instruction::Aastore)),
            *final(self) == *final(r),
    {
        self.push_op(Op::Raw(Instruction::Aastore))
    }

    /// Emit `bastore`.
    pub fn bastore(&mut self) -> (r: &mut Self)
        ensures
            Self::appended(*old(self), *r, Op::Raw(Instruction::Bastore)),
            *final(self) == *final(r),
    {
        self.push_op(Op::Raw(Instruction::Bastore))
    }

    /// Emit `castore`.
    pub fn castore(&mut self) -> (r: &mut Self)
        ensures
            Self::appended(*old(self), *r, Op::Raw(Instruction::Castore)),
            *final(self) == *final(r),
    {
        self.push_op(Op::Raw(Instruction::Castore))
    }

    /// Emit `sastore`.
    pub fn sastore(&mut self) -> (r: &mut Self)
        ensures
            Self::appended(*old(self), *r, Op::Raw(Instruction::Sastore)),
            *final(self) == *final(r),
    {
        self.push_op(Op::Raw(Instruction::Sastore))
    }

    /// Emit `pop`.
    pub fn pop(&mut self) -> (r: &mut Self)
        ensures
            Self::appended(*old(self), *r, Op::Raw(Instruction::Pop)),
            *final(self) == *final(r),
    {
        self.push_op(Op::Raw(Instruction::Pop))
    }

    /// Emit `pop2`.
    pub fn pop2(&mut self) -> (r: &mut Self)
        ensures
            Self::appended(*old(self), *r, Op::Raw(Instruction::Pop2)),
            *final(self) == *final(r),
    {
        self.push_op(Op::Raw(Instruction::Pop2))
    }

    /// Emit `dup`.
    pub fn dup(&mut self) -> (r: &mut Self)
        ensures
            Self::appended(*old(self), *r, Op::Raw(Instruction::Dup)),
            *final(self) == *final(r),
    {
        self.push_op(Op::Raw(Instruction::Dup))
    }

    /// Emit `dup_x1`.
    pub fn dup_x1(&mut self) -> (r: &mut Self)
        ensures
            Self::appended(*old(self), *r, Op::Raw(Instruction::DupX1)),
            *final(self) == *final(r),
    {
        self.push_op(Op::Raw(Instruction::DupX1))
    }

    /// Emit `dup_x2`.
    pub fn dup_x2(&mut self) -> (r: &mut Self)
        ensures
            Self::appended(*old(self), *r, Op::Raw(Instruction::DupX2)),
            *final(self) == *final(r),
    {
        self.push_op(Op::Raw(Instruction::DupX2))
    }

    /// Emit `dup2`.
    pub fn dup2(&mut self) -> (r: &mut Self)
        ensures
            Self::appended(*old(self), *r, Op::Raw(Instruction::Dup2)),
            *final(self) == *final(r),
    {
        self.push_op(Op::Raw(Instruction::Dup2))
    }

    /// Emit `dup2_x1`.
    pub fn dup2_x1(&mut self) -> (r: &mut Self)
        ensures
            Self::appended(*old(self), *r, Op::Raw(Instruction::Dup2X1)),
            *final(self) == *final(r),
    {
        self.push_op(Op::Raw(Instruction::Dup2X1))
    }

    /// Emit `dup2_x2`.
    pub fn dup2_x2(&mut self) -> (r: &mut Self)
        ensures
            Self::appended(*old(self), *r, Op::Raw(Instruction::Dup2X2)),
            *final(self) == *final(r),
    {
        self.push_op(Op::Raw(Instruction::Dup2X2))
    }

    /// Emit `swap`.
    pub fn swap(&mut self) -> (r: &mut Self)
        ensures
            Self::appended(*old(self), *r, Op::Raw(Instruction::Swap)),
            *final(self) == *final(r),
    {
        self.push_op(Op::Raw(Instruction::Swap))
    }

    /// Emit `iadd`.
    pub fn iadd(&mut self) -> (r: &mut Self)
        ensures
            Self::appended(*old(self), *r, Op::Raw(Instruction::Iadd)),
            *final(self) == *final(r),
    {
        self.push_op(Op::Raw(Instruction::Iadd))
    }

    /// Emit `ladd`.
    pub fn ladd(&mut self) -> (r: &mut Self)
        ensures
            Self::appended(*old(self), *r, Op::Raw(Instruction::Ladd)),
            *final(self) == *final(r),
    {
        self.push_op(Op::Raw(Instruction::Ladd))
    }

    /// Emit `fadd`.
    pub fn fadd(&mut self) -> (r: &mut Self)
        ensures
            Self::appended(*old(self), *r, Op::Raw(Instruction::Fadd)),
            *final(self) == *final(r),
    {
        self.push_op(Op::Raw(Instruction::Fadd))
    }

    /// Emit `dadd`.
    pub fn dadd(&mut self) -> (r: &mut Self)
        ensures
            Self::appended(*old(self), *r, Op::Raw(Instruction::Dadd)),
            *final(self) == *final(r),
    {
        self.push_op(Op::Raw(Instruction::Dadd))
    }

    /// Emit `isub`.
    pub fn isub(&mut self) -> (r: &mut Self)
        ensures
            Self::appended(*old(self), *r, Op::Raw(Instruction::Isub)),
            *final(self) == *final(r),
    {
        self.push_op(Op::Raw(Instruction::Isub))
    }

    /// Emit `lsub`.
    pub fn lsub(&mut self) -> (r: &mut Self)
        ensures
            Self::appended(*old(self), *r, Op::Raw(Instruction::Lsub)),
            *final(self) == *final(r),
    {
        self.push_op(Op::Raw(Instruction::Lsub))
    }

    /// Emit `fsub`.
    pub fn fsub(&mut self) -> (r: &mut Self)
        ensures
            Self::appended(*old(self), *r, Op::Raw(Instruction::Fsub)),
            *final(self) == *final(r),
    {
        self.push_op(Op::Raw(Instruction::Fsub))
    }

    /// Emit `dsub`.
    pub fn dsub(&mut self) -> (r: &mut Self)
        ensures
            Self::appended(*old(self), *r, Op::Raw(Instruction::Dsub)),
            *final(self) == *final(r),
    {
        self.push_op(Op::Raw(Instruction::Dsub))
    }

    /// Emit `imul`.
    pub fn imul(&mut self) -> (r: &mut Self)
        ensures
            Self::appended(*old(self), *r, Op::Raw(Instruction::Imul)),
            *final(self) == *final(r),
    {
        self.push_op(Op::Raw(Instruction::Imul))
    }

    /// Emit `lmul`.
    pub fn lmul(&mut self) -> (r: &mut Self)
        ensures
            Self::appended(*old(self), *r, Op::Raw(Instruction::Lmul)),
            *final(self) == *final(r),
    {
        self.push_op(Op::Raw(Instruction::Lmul))
    }

    /// Emit `fmul`.
    pub fn fmul(&mut self) -> (r: &mut Self)
        ensures
            Self::appended(*old(self), *r, Op::Raw(Instruction::Fmul)),
            *final(self) == *final(r),
    {
        self.push_op(Op::Raw(Instruction::Fmul))
    }

    /// Emit `dmul`.
    pub fn dmul(&mut self) -> (r: &mut Self)
        ensures
            Self::appended(*old(self), *r, Op::Raw(Instruction::Dmul)),
            *final(self) == *final(r),
    {
        self.push_op(Op::Raw(Instruction::Dmul))
    }

    /// Emit `idiv`.
    pub fn idiv(&mut self) -> (r: &mut Self)
        ensures
            Self::appended(*old(self), *r, Op::Raw(Instruction::Idiv)),
            *final(self) == *final(r),
    {
        self.push_op(Op::Raw(Instruction::Idiv))
    }

    /// Emit `ldiv`.
    pub fn ldiv(&mut self) -> (r: &mut Self)
        ensures
            Self::appended(*old(self), *r, Op::Raw(Instruction::Ldiv)),
            *final(self) == *final(r),
    {
        self.push_op(Op::Raw(Instruction::Ldiv))
    }

    /// Emit `fdiv`.
    pub fn fdiv(&mut self) -> (r: &mut Self)
        ensures
            Self::appended(*old(self), *r, Op::Raw(Instruction::Fdiv)),
            *final(self) == *final(r),
    {
        self.push_op(Op::Raw(Instruction::Fdiv))
    }

    /// Emit `ddiv`.
    pub fn ddiv(&mut self) -> (r: &mut Self)
        ensures
            Self::appended(*old(self), *r, Op::Raw(Instruction::Ddiv)),
            *final(self) == *final(r),
    {
        self.push_op(Op::Raw(Instruction::Ddiv))
    }

    /// Emit `irem`.
    pub fn irem(&mut self) -> (r: &mut Self)
        ensures
            Self::appended(*old(self), *r, Op::Raw(Instruction::Irem)),
            *final(self) == *final(r),
    {
        self.push_op(Op::Raw(Instruction::Irem))
    }

    /// Emit `lrem`.
    pub fn lrem(&mut self) -> (r: &mut Self)
        ensures
            Self::appended(*old(self), *r, Op::Raw(Instruction::Lrem)),
            *final(self) == *final(r),
    {
        self.push_op(Op::Raw(Instruction::Lrem))
    }

    /// Emit `frem`.
    pub fn frem(&mut self) -> (r: &mut Self)
        ensures
            Self::appended(*old(self), *r, Op::Raw(Instruction::Frem)),
            *final(self) == *final(r),
    {
        self.push_op(Op::Raw(Instruction::Frem))
    }

    /// Emit `drem`.
    pub fn drem(&mut self) -> (r: &mut Self)
        ensures
            Self::appended(*old(self), *r, Op::Raw(Instruction::Drem)),
            *final(self) == *final(r),
    {
        self.push_op(Op::Raw(Instruction::Drem))
    }

    /// Emit `ineg`.
    pub fn ineg(&mut self) -> (r: &mut Self)
        ensures
            Self::appended(*old(self), *r, Op::Raw(Instruction::Ineg)),
            *final(self) == *final(r),
    {
        self.push_op(Op::Raw(Instruction::Ineg))
    }

    /// Emit `lneg`.
    pub fn lneg(&mut self) -> (r: &mut Self)
        ensures
            Self::appended(*old(self), *r, Op::Raw(Instruction::Lneg)),
            *final(self) == *final(r),
    {
        self.push_op(Op::Raw(Instruction::Lneg))
    }

    /// Emit `fneg`.
    pub fn fneg(&mut self) -> (r: &mut Self)
        ensures
            Self::appended(*old(self), *r, Op::Raw(Instruction::Fneg)),
            *final(self) == *final(r),
    {
        self.push_op(Op::Raw(Instruction::Fneg))
    }

    /// Emit `dneg`.
    pub fn dneg(&mut self) -> (r: &mut Self)
        ensures
            Self::appended(*old(self), *r, Op::Raw(Instruction::Dneg)),
            *final(self) == *final(r),
    {
        self.push_op(Op::Raw(Instruction::Dneg))
    }

    /// Emit `ishl`.
    pub fn ishl(&mut self) -> (r: &mut Self)
        ensures
            Self::appended(*old(self), *r, Op::Raw(Instruction::Ishl)),
            *final(self) == *final(r),
    {
        self.push_op(Op::Raw(Instruction::Ishl))
    }

    /// Emit `lshl`.
    pub fn lshl(&mut self) -> (r: &mut Self)
        ensures
            Self::appended(*old(self), *r, Op::Raw(Instruction::Lshl)),
            *final(self) == *final(r),
    {
        self.push_op(Op::Raw(Instruction::Lshl))
    }

    /// Emit `ishr`.
    pub fn ishr(&mut self) -> (r: &mut Self)
        ensures
            Self::appended(*old(self), *r, Op::Raw(Instruction::Ishr)),
            *final(self) == *final(r),
    {
        self.push_op(Op::Raw(Instruction::Ishr))
    }

    /// Emit `lshr`.
    pub fn lshr(&mut self) -> (r: &mut Self)
        ensures
            Self::appended(*old(self), *r, Op::Raw(Instruction::Lshr)),
            *final(self) == *final(r),
    {
        self.push_op(Op::Raw(Instruction::Lshr))
    }

    /// Emit `iushr`.
    pub fn iushr(&mut self) -> (r: &mut Self)
        ensures
            Self::appended(*old(self), *r, Op::Raw(Instruction::Iushr)),
            *final(self) == *final(r),
    {
        self.push_op(Op::Raw(Instruction::Iushr))
    }

    /// Emit `lushr`.
    pub fn lushr(&mut self) -> (r: &mut Self)
        ensures
            Self::appended(*old(self), *r, Op::Raw(Instruction::Lushr)),
            *final(self) == *final(r),
    {
        self.push_op(Op::Raw(Instruction::Lushr))
    }

    /// Emit `iand`.
    pub fn iand(&mut self) -> (r: &mut Self)
        ensures
            Self::appended(*old(self), *r, Op::Raw(Instruction::Iand)),
            *final(self) == *final(r),
    {
        self.push_op(Op::Raw(Instruction::Iand))
    }

    /// Emit `land`.
    pub fn land(&mut self) -> (r: &mut Self)
        ensures
            Self::appended(*old(self), *r, Op::Raw(Instruction::Land)),
            *final(self) == *final(r),
    {
        self.push_op(Op::Raw(Instruction::Land))
    }

    /// Emit `ior`.
    pub fn ior(&mut self) -> (r: &mut Self)
        ensures
            Self::appended(*old(self), *r, Op::Raw(Instruction::Ior)),
            *final(self) == *final(r),
    {
        self.push_op(Op::Raw(Instruction::Ior))
    }

    /// Emit `lor`.
    pub fn lor(&mut self) -> (r: &mut Self)
        ensures
            Self::appended(*old(self), *r, Op::Raw(Instruction::Lor)),
            *final(self) == *final(r),
    {
        self.push_op(Op::Raw(Instruction::Lor))
    }

    /// Emit `ixor`.
    pub fn ixor(&mut self) -> (r: &mut Self)
        ensures
            Self::appended(*old(self), *r, Op::Raw(Instruction::Ixor)),
            *final(self) == *final(r),
    {
        self.push_op(Op::Raw(Instruction::Ixor))
    }

    /// Emit `lxor`.
    pub fn lxor(&mut self) -> (r: &mut Self)
        ensures
            Self::appended(*old(self), *r, Op::Raw(Instruction::Lxor)),
            *final(self) == *final(r),
    {
        self.push_op(Op::Raw(Instruction::Lxor))
    }

    /// Emit `i2l`.
    pub fn i2l(&mut self) -> (r: &mut Self)
        ensures
            Self::appended(*old(self), *r, Op::Raw(Instruction::I2l)),
            *final(self) == *final(r),
    {
        self.push_op(Op::Raw(Instruction::I2l))
    }

    /// Emit `i2f`.
    pub fn i2f(&mut self) -> (r: &mut Self)
        ensures
            Self::appended(*old(self), *r, Op::Raw(Instruction::I2f)),
            *final(self) == *final(r),
    {
        self.push_op(Op::Raw(Instruction::I2f))
    }

    /// Emit `i2d`.
    pub fn i2d(&mut self) -> (r: &mut Self)
        ensures
            Self::appended(*old(self), *r, Op::Raw(Instruction::I2d)),
            *final(self) == *final(r),
    {
        self.push_op(Op::Raw(Instruction::I2d))
    }

    /// Emit `l2i`.
    pub fn l2i(&mut self) -> (r: &mut Self)
        ensures
            Self::appended(*old(self), *r, Op::Raw(Instruction::L2i)),
            *final(self) == *final(r),
    {
        self.push_op(Op::Raw(Instruction::L2i))
    }

    /// Emit `l2f`.
    pub fn l2f(&mut self) -> (r: &mut Self)
        ensures
            Self::appended(*old(self), *r, Op::Raw(Instruction::L2f)),
            *final(self) == *final(r),
    {
        self.push_op(Op::Raw(Instruction::L2f))
    }

    /// Emit `l2d`.
    pub fn l2d(&mut self) -> (r: &mut Self)
        ensures
            Self::appended(*old(self), *r, Op::Raw(Instruction::L2d)),
            *final(self) == *final(r),
    {
        self.push_op(Op::Raw(Instruction::L2d))
    }

    /// Emit `f2i`.
    pub fn f2i(&mut self) -> (r: &mut Self)
        ensures
            Self::appended(*old(self), *r, Op::Raw(Instruction::F2i)),
            *final(self) == *final(r),
    {
        self.push_op(Op::Raw(Instruction::F2i))
    }

    /// Emit `f2l`.
    pub fn f2l(&mut self) -> (r: &mut Self)
        ensures
            Self::appended(*old(self), *r, Op::Raw(Instruction::F2l)),
            *final(self) == *final(r),
    {
        self.push_op(Op::Raw(Instruction::F2l))
    }

    /// Emit `f2d`.
    pub fn f2d(&mut self) -> (r: &mut Self)
        ensures
            Self::appended(*old(self), *r, Op::Raw(Instruction::F2d)),
            *final(self) == *final(r),
    {
        self.push_op(Op::Raw(Instruction::F2d))
    }

    /// Emit `d2i`.
    pub fn d2i(&mut self) -> (r: &mut Self)
        ensures
            Self::appended(*old(self), *r, Op::Raw(Instruction::D2i)),
            *final(self) == *final(r),
    {
        self.push_op(Op::Raw(Instruction::D2i))
    }

    /// Emit `d2l`.
    pub fn d2l(&mut self) -> (r: &mut Self)
        ensures
            Self::appended(*old(self), *r, Op::Raw(Instruction::D2l)),
            *final(self) == *final(r),
    {
        self.push_op(Op::Raw(Instruction::D2l))
    }

    /// Emit `d2f`.
    pub fn d2f(&mut self) -> (r: &mut Self)
        ensures
            Self::appended(*old(self), *r, Op::Raw(Instruction::D2f)),
            *final(self) == *final(r),
    {
        self.push_op(Op::Raw(Instruction::D2f))
    }

    /// Emit `i2b`.
    pub fn i2b(&mut self) -> (r: &mut Self)
        ensures
            Self::appended(*old(self), *r, Op::Raw(Instruction::I2b)),
            *final(self) == *final(r),
    {
        self.push_op(Op::Raw(Instruction::I2b))
    }

    /// Emit `i2c`.
    pub fn i2c(&mut self) -> (r: &mut Self)
        ensures
            Self::appended(*old(self), *r, Op::Raw(Instruction::I2c)),
            *final(self) == *final(r),
    {
        self.push_op(Op::Raw(Instruction::I2c))
    }

    /// Emit `i2s`.
    pub fn i2s(&mut self) -> (r: &mut Self)
        ensures
            Self::appended(*old(self), *r, Op::Raw(Instruction::I2s)),
            *final(self) == *final(r),
    {
        self.push_op(Op::Raw(Instruction::I2s))
    }

    /// Emit `lcmp`.
    pub fn lcmp(&mut self) -> (r: &mut Self)
        ensures
            Self::appended(*old(self), *r, Op::Raw(Instruction::Lcmp)),
            *final(self) == *final(r),
    {
        self.push_op(Op::Raw(Instruction::Lcmp))
    }

    /// Emit `fcmpl`.
    pub fn fcmpl(&mut self) -> (r: &mut Self)
        ensures
            Self::appended(*old(self), *r, Op::Raw(Instruction::Fcmpl)),
            *final(self) == *final(r),
    {
        self.push_op(Op::Raw(Instruction::Fcmpl))
    }

    /// Emit `fcmpg`.
    pub fn fcmpg(&mut self) -> (r: &mut Self)
        ensures
            Self::appended(*old(self), *r, Op::Raw(Instruction::Fcmpg)),
            *final(self) == *final(r),
    {
        self.push_op(Op::Raw(Instruction::Fcmpg))
    }

    /// Emit `dcmpl`.
    pub fn dcmpl(&mut self) -> (r: &mut Self)
        ensures
            Self::appended(*old(self), *r, Op::Raw(Instruction::Dcmpl)),
            *final(self) == *final(r),
    {
        self.push_op(Op::Raw(Instruction::Dcmpl))
    }

    /// Emit `dcmpg`.
    pub fn dcmpg(&mut self) -> (r: &mut Self)
        ensures
            Self::appended(*old(self), *r, Op::Raw(Instruction::Dcmpg)),
            *final(self) == *final(r),
    {
        self.push_op(Op::Raw(Instruction::Dcmpg))
    }

    /// Emit `ireturn`.
    pub fn ireturn(&mut self) -> (r: &mut Self)
        ensures
            Self::appended(*old(self), *r, Op::Raw(Instruction::Ireturn)),
            *final(self) == *final(r),
    {
        self.push_op(Op::Raw(Instruction::Ireturn))
    }

    /// Emit `lreturn`.
    pub fn lreturn(&mut self) -> (r: &mut Self)
        ensures
            Self::appended(*old(self), *r, Op::Raw(Instruction::Lreturn)),
            *final(self) == *final(r),
    {
        self.push_op(Op::Raw(Instruction::Lreturn))
    }

    /// Emit `freturn`.
    pub fn freturn(&mut self) -> (r: &mut Self)
        ensures
            Self::appended(*old(self), *r, Op::Raw(Instruction::Freturn)),
            *final(self) == *final(r),
    {
        self.push_op(Op::Raw(Instruction::Freturn))
    }

    /// Emit `dreturn`.
    pub fn dreturn(&mut self) -> (r: &mut Self)
        ensures
            Self::appended(*old(self), *r, Op::Raw(Instruction::Dreturn)),
            *final(self) == *final(r),
    {
        self.push_op(Op::Raw(Instruction::Dreturn))
    }

    /// Emit `areturn`.
    pub fn areturn(&mut self) -> (r: &mut Self)
        ensures
            Self::appended(*old(self), *r, Op::Raw(Instruction::Areturn)),
            *final(self) == *final(r),
    {
        self.push_op(Op::Raw(Instruction::Areturn))
    }

    /// Emit `arraylength`.
    pub fn arraylength(&mut self) -> (r: &mut Self)
        ensures
            Self::appended(*old(self), *r, Op::Raw(Instruction::Arraylength)),
            *final(self) == *final(r),
    {
        self.push_op(Op::Raw(Instruction::Arraylength))
    }

    /// Emit `athrow`.
    pub fn athrow(&mut self) -> (r: &mut Self)
        ensures
            Self::appended(*old(self), *r, Op::Raw(Instruction::Athrow)),
            *final(self) == *final(r),
    {
        self.push_op(Op::Raw(Instruction::Athrow))
    }

    /// Emit `monitorenter`.
    pub fn monitorenter(&mut self) -> (r: &mut Self)
        ensures
            Self::appended(*old(self), *r, Op::Raw(Instruction::Monitorenter)),
            *final(self) == *final(r),
    {
        self.push_op(Op::Raw(Instruction::Monitorenter))
    }

    /// Emit `monitorexit`.
    pub fn monitorexit(&mut self) -> (r: &mut Self)
        ensures
            Self::appended(*old(self), *r, Op::Raw(Instruction::Monitorexit)),
            *final(self) == *final(r),
    {
        self.push_op(Op::Raw(Instruction::Monitorexit))
    }

    /// Emit `breakpoint`.
    pub fn breakpoint(&mut self) -> (r: &mut Self)
        ensures
            Self::appended(*old(self), *r, Op::Raw(Instruction::Breakpoint)),
            *final(self) == *final(r),
    {
        self.push_op(Op::Raw(Instruction::Breakpoint))
    }

    pub fn bipush(&mut self, v: i8) -> (r: &mut Self)
        ensures
            Self::appended(*old(self), *r, Op::Raw(Instruction::Bipush(v))),
            *final(self) == *final(r),
    {
        self.push_op(Op::Raw(Instruction::Bipush(v)))
    }

    pub fn sipush(&mut self, v: i16) -> (r: &mut Self)
        ensures
            Self::appended(*old(self), *r, Op::Raw(Instruction::Sipush(v))),
            *final(self) == *final(r),
    {
        self.push_op(Op::Raw(Instruction::Sipush(v)))
    }

    pub fn newarray(&mut self, atype: ArrayType) -> (r: &mut Self)
        ensures
            Self::appended(*old(self), *r, Op::Raw(Instruction::Newarray(atype))),
            *final(self) == *final(r),
    {
        self.push_op(Op::Raw(Instruction::Newarray(atype)))
    }

    pub fn return_void(&mut self) -> (r: &mut Self)
        ensures
            Self::appended(*old(self), *r, Op::Raw(Instruction::Return)),
            *final(self) == *final(r),
    {
        self.push_op(Op::Raw(Instruction::Return))
    }

    /// Escape hatch for instructions that have no dedicated builder method.
    pub fn raw(&mut self, ins: Instruction) -> (r: &mut Self)
        ensures
            Self::appended(*old(self), *r, Op::Raw(ins)),
            *final(self) == *final(r),
    {
        self.push_op(Op::Raw(ins))
    }

    /// Associate the next instruction with a source line (emitted as a `LineNumberTable` entry).
    pub fn line(&mut self, line: u16) -> (r: &mut Self)
        ensures
            Self::appended(*old(self), *r, Op::LineNumber(line)),
            *final(self) == *final(r),
    {
        self.push_op(Op::LineNumber(line))
    }

    /// Attach a previously created label to the *next* instruction emitted.
    pub fn place(&mut self, label: Label) -> (r: &mut Self)
        ensures
            Self::appended(*old(self), *r, Op::Placed(label)),
            *final(self) == *final(r),
    {
        self.push_op(Op::Placed(label))
    }

    /// `iload` with the narrowest encoding: the `_0`..`_3` shortcut, the one byte form, or `wide`.
    pub fn iload(&mut self, index: u16) -> (r: &mut Self)
        ensures
            Self::appended(*old(self), *r, Op::Raw(local_instruction(LocalKind::Iload, index))),
            *final(self) == *final(r),
    {
        self.push_load(index, LocalKind::Iload)
    }

    /// `lload` with the narrowest encoding: the `_0`..`_3` shortcut, the one byte form, or `wide`.
    pub fn lload(&mut self, index: u16) -> (r: &mut Self)
        ensures
            Self::appended(*old(self), *r, Op::Raw(local_instruction(LocalKind::Lload, index))),
            *final(self) == *final(r),
    {
        self.push_load(index, LocalKind::Lload)
    }

    /// `fload` with the narrowest encoding: the `_0`..`_3` shortcut, the one byte form, or `wide`.
    pub fn fload(&mut self, index: u16) -> (r: &mut Self)
        ensures
            Self::appended(*old(self), *r, Op::Raw(local_instruction(LocalKind::Fload, index))),
            *final(self) == *final(r),
    {
        self.push_load(index, LocalKind::Fload)
    }

    /// `dload` with the narrowest encoding: the `_0`..`_3` shortcut, the one byte form, or `wide`.
    pub fn dload(&mut self, index: u16) -> (r: &mut Self)
        ensures
            Self::appended(*old(self), *r, Op::Raw(local_instruction(LocalKind::Dload, index))),
            *final(self) == *final(r),
    {
        self.push_load(index, LocalKind::Dload)
    }

    /// `aload` with the narrowest encoding: the `_0`..`_3` shortcut, the one byte form, or `wide`.
    pub fn aload(&mut self, index: u16) -> (r: &mut Self)
        ensures
            Self::appended(*old(self), *r, Op::Raw(local_instruction(LocalKind::Aload, index))),
            *final(self) == *final(r),
    {
        self.push_load(index, LocalKind::Aload)
    }

    /// `istore` with the narrowest encoding: the `_0`..`_3` shortcut, the one byte form, or `wide`.
    pub fn istore(&mut self, index: u16) -> (r: &mut Self)
        ensures
            Self::appended(*old(self), *r, Op::Raw(local_instruction(LocalKind::Istore, index))),
            *final(self) == *final(r),
    {
        self.push_load(index, LocalKind::Istore)
    }

    /// `lstore` with the narrowest encoding: the `_0`..`_3` shortcut, the one byte form, or `wide`.
    pub fn lstore(&mut self, index: u16) -> (r: &mut Self)
        ensures
            Self::appended(*old(self), *r, Op::Raw(local_instruction(LocalKind::Lstore, index))),
            *final(self) == *final(r),
    {
        self.push_load(index, LocalKind::Lstore)
    }

    /// `fstore` with the narrowest encoding: the `_0`..`_3` shortcut, the one byte form, or `wide`.
    pub fn fstore(&mut self, index: u16) -> (r: &mut Self)
        ensures
            Self::appended(*old(self), *r, Op::Raw(local_instruction(LocalKind::Fstore, index))),
            *final(self) == *final(r),
    {
        self.push_load(index, LocalKind::Fstore)
    }

    /// `dstore` with the narrowest encoding: the `_0`..`_3` shortcut, the one byte form, or `wide`.
    pub fn dstore(&mut self, index: u16) -> (r: &mut Self)
        ensures
            Self::appended(*old(self), *r, Op::Raw(local_instruction(LocalKind::Dstore, index))),
            *final(self) == *final(r),
    {
        self.push_load(index, LocalKind::Dstore)
    }

    /// `astore` with the narrowest encoding: the `_0`..`_3` shortcut, the one byte form, or `wide`.
    pub fn astore(&mut self, index: u16) -> (r: &mut Self)
        ensures
            Self::appended(*old(self), *r, Op::Raw(local_instruction(LocalKind::Astore, index))),
            *final(self) == *final(r),
    {
        self.push_load(index, LocalKind::Astore)
    }

    pub fn ldc_int(&mut self, v: i32) -> (r: &mut Self)
        ensures
            Self::appended(*old(self), *r, Op::Ldc(LdcValue::Int(v))),
            *final(self) == *final(r),
    {
        self.push_op(Op::Ldc(LdcValue::Int(v)))
    }

    pub fn ldc_long(&mut self, v: i64) -> (r: &mut Self)
        ensures
            Self::appended(*old(self), *r, Op::Ldc(LdcValue::Long(v))),
            *final(self) == *final(r),
    {
        self.push_op(Op::Ldc(LdcValue::Long(v)))
    }

    /// Load a float constant given by its IEEE-754 bit pattern.
    pub fn ldc_float_bits(&mut self, bits: u32) -> (r: &mut Self)
        ensures
            Self::appended(*old(self), *r, Op::Ldc(LdcValue::Float(bits))),
            *final(self) == *final(r),
    {
        self.push_op(Op::Ldc(LdcValue::Float(bits)))
    }

    /// Load a double constant given by its IEEE-754 bit pattern.
    pub fn ldc_double_bits(&mut self, bits: u64) -> (r: &mut Self)
        ensures
            Self::appended(*old(self), *r, Op::Ldc(LdcValue::Double(bits))),
            *final(self) == *final(r),
    {
        self.push_op(Op::Ldc(LdcValue::Double(bits)))
    }

    pub fn ldc_string(&mut self, s: &str) -> (r: &mut Self)
        ensures
            exists|owned: String| owned@ == s@ && Self::appended(*old(self), *r, Op::Ldc(LdcValue::String(owned))),
            *final(self) == *final(r),
    {
        let owned = s.to_owned();
        self.push_op(Op::Ldc(LdcValue::String(owned)))
    }

    pub fn ldc_class(&mut self, internal_name: &str) -> (r: &mut Self)
        ensures
            exists|owned: String| owned@ == internal_name@ && Self::appended(*old(self), *r, Op::Ldc(LdcValue::Class(owned))),
            *final(self) == *final(r),
    {
        let owned = internal_name.to_owned();
        self.push_op(Op::Ldc(LdcValue::Class(owned)))
    }

    pub fn ldc_method_type(&mut self, descriptor: &str) -> (r: &mut Self)
        ensures
            exists|owned: String| owned@ == descriptor@ && Self::appended(*old(self), *r, Op::Ldc(LdcValue::MethodType(owned))),
            *final(self) == *final(r),
    {
        let owned = descriptor.to_owned();
        self.push_op(Op::Ldc(LdcValue::MethodType(owned)))
    }

    pub fn ldc_method_handle(&mut self, kind: ReferenceKind, reference_index: u16) -> (r: &mut Self)
        ensures
            Self::appended(*old(self), *r, Op::Ldc(LdcValue::MethodHandle { kind, reference_index })),
            *final(self) == *final(r),
    {
        self.push_op(Op::Ldc(LdcValue::MethodHandle { kind, reference_index }))
    }

    pub fn getstatic(&mut self, class: &str, name: &str, desc: &str) -> (r: &mut Self)
        ensures
            r.ops().len() == old(self).ops().len() + 1,
            r.ops().take(old(self).ops().len() as int) == old(self).ops(),
            r.ops().last() matches Op::Field { op, class: c, name: n, desc: d }
                && op == FieldOp::GetStatic && c@ == class@ && n@ == name@ && d@ == desc@,
            r.labels() == old(self).labels(),
            r.stack_limit() == old(self).stack_limit(),
            r.locals_limit() == old(self).locals_limit(),
            *final(self) == *final(r),
    {
        self.push_field(FieldOp::GetStatic, class, name, desc)
    }

    pub fn putstatic(&mut self, class: &str, name: &str, desc: &str) -> (r: &mut Self)
        ensures
            r.ops().len() == old(self).ops().len() + 1,
            r.ops().take(old(self).ops().len() as int) == old(self).ops(),
            r.ops().last() matches Op::Field { op, class: c, name: n, desc: d }
                && op == FieldOp::PutStatic && c@ == class@ && n@ == name@ && d@ == desc@,
            r.labels() == old(self).labels(),
            r.stack_limit() == old(self).stack_limit(),
            r.locals_limit() == old(self).locals_limit(),
            *final(self) == *final(r),
    {
        self.push_field(FieldOp::PutStatic, class, name, desc)
    }

    pub fn getfield(&mut self, class: &str, name: &str, desc: &str) -> (r: &mut Self)
        ensures
            r.ops().len() == old(self).ops().len() + 1,
            r.ops().take(old(self).ops().len() as int) == old(self).ops(),
            r.ops().last() matches Op::Field { op, class: c, name: n, desc: d }
                && op == FieldOp::GetField && c@ == class@ && n@ == name@ && d@ == desc@,
            r.labels() == old(self).labels(),
            r.stack_limit() == old(self).stack_limit(),
            r.locals_limit() == old(self).locals_limit(),
            *final(self) == *final(r),
    {
        self.push_field(FieldOp::GetField, class, name, desc)
    }

    pub fn putfield(&mut self, class: &str, name: &str, desc: &str) -> (r: &mut Self)
        ensures
            r.ops().len() == old(self).ops().len() + 1,
            r.ops().take(old(self).ops().len() as int) == old(self).ops(),
            r.ops().last() matches Op::Field { op, class: c, name: n, desc: d }
                && op == FieldOp::PutField && c@ == class@ && n@ == name@ && d@ == desc@,
            r.labels() == old(self).labels(),
            r.stack_limit() == old(self).stack_limit(),
            r.locals_limit() == old(self).locals_limit(),
            *final(self) == *final(r),
    {
        self.push_field(FieldOp::PutField, class, name, desc)
    }

    pub fn invokevirtual(&mut self, class: &str, name: &str, desc: &str) -> (r: &mut Self)
        ensures
            r.ops().len() == old(self).ops().len() + 1,
            r.ops().take(old(self).ops().len() as int) == old(self).ops(),
            r.ops().last() matches Op::Invoke { op, class: c, name: n, desc: d }
                && op == InvokeOp::Virtual && c@ == class@ && n@ == name@ && d@ == desc@,
            r.labels() == old(self).labels(),
            r.stack_limit() == old(self).stack_limit(),
            r.locals_limit() == old(self).locals_limit(),
            *final(self) == *final(r),
    {
        self.push_invoke(InvokeOp::Virtual, class, name, desc)
    }

    pub fn invokespecial(&mut self, class: &str, name: &str, desc: &str) -> (r: &mut Self)
        ensures
            r.ops().len() == old(self).ops().len() + 1,
            r.ops().take(old(self).ops().len() as int) == old(self).ops(),
            r.ops().last() matches Op::Invoke { op, class: c, name: n, desc: d }
                && op == InvokeOp::Special && c@ == class@ && n@ == name@ && d@ == desc@,
            r.labels() == old(self).labels(),
            r.stack_limit() == old(self).stack_limit(),
            r.locals_limit() == old(self).locals_limit(),
            *final(self) == *final(r),
    {
        self.push_invoke(InvokeOp::Special, class, name, desc)
    }

    pub fn invokestatic(&mut self, class: &str, name: &str, desc: &str) -> (r: &mut Self)
        ensures
            r.ops().len() == old(self).ops().len() + 1,
            r.ops().take(old(self).ops().len() as int) == old(self).ops(),
            r.ops().last() matches Op::Invoke { op, class: c, name: n, desc: d }
                && op == InvokeOp::Static && c@ == class@ && n@ == name@ && d@ == desc@,
            r.labels() == old(self).labels(),
            r.stack_limit() == old(self).stack_limit(),
            r.locals_limit() == old(self).locals_limit(),
            *final(self) == *final(r),
    {
        self.push_invoke(InvokeOp::Static, class, name, desc)
    }

    pub fn invokeinterface(&mut self, class: &str, name: &str, desc: &str) -> (r: &mut Self)
        ensures
            r.ops().len() == old(self).ops().len() + 1,
            r.ops().take(old(self).ops().len() as int) == old(self).ops(),
            r.ops().last() matches Op::Invoke { op, class: c, name: n, desc: d }
                && op == InvokeOp::Interface && c@ == class@ && n@ == name@ && d@ == desc@,
            r.labels() == old(self).labels(),
            r.stack_limit() == old(self).stack_limit(),
            r.locals_limit() == old(self).locals_limit(),
            *final(self) == *final(r),
    {
        self.push_invoke(InvokeOp::Interface, class, name, desc)
    }

    pub fn new_class(&mut self, internal_name: &str) -> (r: &mut Self)
        ensures
            exists|owned: String| owned@ == internal_name@
                && Self::appended(*old(self), *r, Op::ClassRef { op: ClassRefOp::New, class: owned }),
            *final(self) == *final(r),
    {
        self.push_class(ClassRefOp::New, internal_name)
    }

    pub fn anewarray(&mut self, internal_name: &str) -> (r: &mut Self)
        ensures
            exists|owned: String| owned@ == internal_name@
                && Self::appended(*old(self), *r, Op::ClassRef { op: ClassRefOp::Anewarray, class: owned }),
            *final(self) == *final(r),
    {
        self.push_class(ClassRefOp::Anewarray, internal_name)
    }

    pub fn checkcast(&mut self, internal_name: &str) -> (r: &mut Self)
        ensures
            exists|owned: String| owned@ == internal_name@
                && Self::appended(*old(self), *r, Op::ClassRef { op: ClassRefOp::Checkcast, class: owned }),
            *final(self) == *final(r),
    {
        self.push_class(ClassRefOp::Checkcast, internal_name)
    }

    pub fn instanceof(&mut self, internal_name: &str) -> (r: &mut Self)
        ensures
            exists|owned: String| owned@ == internal_name@
                && Self::appended(*old(self), *r, Op::ClassRef { op: ClassRefOp::Instanceof, class: owned }),
            *final(self) == *final(r),
    {
        self.push_class(ClassRefOp::Instanceof, internal_name)
    }

    pub fn ifeq(&mut self, target: Label) -> (r: &mut Self)
        ensures
            Self::appended(*old(self), *r, Op::Branch { kind: BranchKind::Ifeq, target }),
            *final(self) == *final(r),
    {
        self.push_op(Op::Branch { kind: BranchKind::Ifeq, target })
    }

    pub fn ifne(&mut self, target: Label) -> (r: &mut Self)
        ensures
            Self::appended(*old(self), *r, Op::Branch { kind: BranchKind::Ifne, target }),
            *final(self) == *final(r),
    {
        self.push_op(Op::Branch { kind: BranchKind::Ifne, target })
    }

    pub fn iflt(&mut self, target: Label) -> (r: &mut Self)
        ensures
            Self::appended(*old(self), *r, Op::Branch { kind: BranchKind::Iflt, target }),
            *final(self) == *final(r),
    {
        self.push_op(Op::Branch { kind: BranchKind::Iflt, target })
    }

    pub fn ifge(&mut self, target: Label) -> (r: &mut Self)
        ensures
            Self::appended(*old(self), *r, Op::Branch { kind: BranchKind::Ifge, target }),
            *final(self) == *final(r),
    {
        self.push_op(Op::Branch { kind: BranchKind::Ifge, target })
    }

    pub fn ifgt(&mut self, target: Label) -> (r: &mut Self)
        ensures
            Self::appended(*old(self), *r, Op::Branch { kind: BranchKind::Ifgt, target }),
            *final(self) == *final(r),
    {
        self.push_op(Op::Branch { kind: BranchKind::Ifgt, target })
    }

    pub fn ifle(&mut self, target: Label) -> (r: &mut Self)
        ensures
            Self::appended(*old(self), *r, Op::Branch { kind: BranchKind::Ifle, target }),
            *final(self) == *final(r),
    {
        self.push_op(Op::Branch { kind: BranchKind::Ifle, target })
    }

    pub fn if_icmpeq(&mut self, target: Label) -> (r: &mut Self)
        ensures
            Self::appended(*old(self), *r, Op::Branch { kind: BranchKind::IfIcmpeq, target }),
            *final(self) == *final(r),
    {
        self.push_op(Op::Branch { kind: BranchKind::IfIcmpeq, target })
    }

    pub fn if_icmpne(&mut self, target: Label) -> (r: &mut Self)
        ensures
            Self::appended(*old(self), *r, Op::Branch { kind: BranchKind::IfIcmpne, target }),
            *final(self) == *final(r),
    {
        self.push_op(Op::Branch { kind: BranchKind::IfIcmpne, target })
    }

    pub fn if_icmplt(&mut self, target: Label) -> (r: &mut Self)
        ensures
            Self::appended(*old(self), *r, Op::Branch { kind: BranchKind::IfIcmplt, target }),
            *final(self) == *final(r),
    {
        self.push_op(Op::Branch { kind: BranchKind::IfIcmplt, target })
    }

    pub fn if_icmpge(&mut self, target: Label) -> (r: &mut Self)
        ensures
            Self::appended(*old(self), *r, Op::Branch { kind: BranchKind::IfIcmpge, target }),
            *final(self) == *final(r),
    {
        self.push_op(Op::Branch { kind: BranchKind::IfIcmpge, target })
    }

    pub fn if_icmpgt(&mut self, target: Label) -> (r: &mut Self)
        ensures
            Self::appended(*old(self), *r, Op::Branch { kind: BranchKind::IfIcmpgt, target }),
            *final(self) == *final(r),
    {
        self.push_op(Op::Branch { kind: BranchKind::IfIcmpgt, target })
    }

    pub fn if_icmple(&mut self, target: Label) -> (r: &mut Self)
        ensures
            Self::appended(*old(self), *r, Op::Branch { kind: BranchKind::IfIcmple, target }),
            *final(self) == *final(r),
    {
        self.push_op(Op::Branch { kind: BranchKind::IfIcmple, target })
    }

    pub fn if_acmpeq(&mut self, target: Label) -> (r: &mut Self)
        ensures
            Self::appended(*old(self), *r, Op::Branch { kind: BranchKind::IfAcmpeq, target }),
            *final(self) == *final(r),
    {
        self.push_op(Op::Branch { kind: BranchKind::IfAcmpeq, target })
    }

    pub fn if_acmpne(&mut self, target: Label) -> (r: &mut Self)
        ensures
            Self::appended(*old(self), *r, Op::Branch { kind: BranchKind::IfAcmpne, target }),
            *final(self) == *final(r),
    {
        self.push_op(Op::Branch { kind: BranchKind::IfAcmpne, target })
    }

    pub fn goto(&mut self, target: Label) -> (r: &mut Self)
        ensures
            Self::appended(*old(self), *r, Op::Branch { kind: BranchKind::Goto, target }),
            *final(self) == *final(r),
    {
        self.push_op(Op::Branch { kind: BranchKind::Goto, target })
    }

    pub fn jsr(&mut self, target: Label) -> (r: &mut Self)
        ensures
            Self::appended(*old(self), *r, Op::Branch { kind: BranchKind::Jsr, target }),
            *final(self) == *final(r),
    {
        self.push_op(Op::Branch { kind: BranchKind::Jsr, target })
    }

    pub fn ifnull(&mut self, target: Label) -> (r: &mut Self)
        ensures
            Self::appended(*old(self), *r, Op::Branch { kind: BranchKind::Ifnull, target }),
            *final(self) == *final(r),
    {
        self.push_op(Op::Branch { kind: BranchKind::Ifnull, target })
    }

    pub fn ifnonnull(&mut self, target: Label) -> (r: &mut Self)
        ensures
            Self::appended(*old(self), *r, Op::Branch { kind: BranchKind::Ifnonnull, target }),
            *final(self) == *final(r),
    {
        self.push_op(Op::Branch { kind: BranchKind::Ifnonnull, target })
    }

    pub fn goto_w(&mut self, target: Label) -> (r: &mut Self)
        ensures
            Self::appended(*old(self), *r, Op::GotoW(target)),
            *final(self) == *final(r),
    {
        self.push_op(Op::GotoW(target))
    }

    pub fn jsr_w(&mut self, target: Label) -> (r: &mut Self)
        ensures
            Self::appended(*old(self), *r, Op::JsrW(target)),
            *final(self) == *final(r),
    {
        self.push_op(Op::JsrW(target))
    }
}

} // verus!

verus! {

/// Bytes that `op` takes in the code array when it starts at `pc` and the
/// pool holds `pool` as the op is reached. A constant load takes the size
/// of the form that its resolved pool index calls for.
pub open spec fn op_size(op: Op, pc: nat, pool: PoolView) -> int {
    match op {
        Op::Raw(ins) => size_of(ins, pc),
        Op::Ldc(v) => ldc_size(v, pool),
        Op::Field { .. } => 3,
        Op::Invoke { op, .. } => if op == InvokeOp::Interface { 5 } else { 3 },
        Op::ClassRef { .. } => 3,
        Op::InvokeDynamic { .. } => 5,
        Op::Multianewarray { .. } => 4,
        Op::Placed(_) | Op::LineNumber(_) => 0,
        Op::Branch { .. } => 3,
        Op::GotoW(_) | Op::JsrW(_) => 5,
        Op::Tableswitch { cases, .. } => 1 + switch_pad(pc) + 12 + 4 * cases@.len(),
        Op::Lookupswitch { pairs, .. } => 1 + switch_pad(pc) + 8 + 8 * pairs@.len(),
    }
}

/// Local variable slot count that a load, store, `iinc` or `ret` implies:
/// its index plus one, plus one more for a long or double; 0 for other ops.
pub open spec fn local_width(op: Op) -> int {
    match op {
        Op::Raw(ins) => match ins {
            Instruction::Iload(i) | Instruction::Fload(i) | Instruction::Aload(i) | Instruction::Istore(i)
            | Instruction::Fstore(i) | Instruction::Astore(i) | Instruction::Ret(i) => i + 1,
            Instruction::Lload(i) | Instruction::Dload(i) | Instruction::Lstore(i) | Instruction::Dstore(i) => i + 2,
            Instruction::Iload0 | Instruction::Fload0 | Instruction::Aload0 | Instruction::Istore0
            | Instruction::Fstore0 | Instruction::Astore0 => 1,
            Instruction::Iload1 | Instruction::Fload1 | Instruction::Aload1 | Instruction::Istore1
            | Instruction::Fstore1 | Instruction::Astore1 => 2,
            Instruction::Iload2 | Instruction::Fload2 | Instruction::Aload2 | Instruction::Istore2
            | Instruction::Fstore2 | Instruction::Astore2 => 3,
            Instruction::Iload3 | Instruction::Fload3 | Instruction::Aload3 | Instruction::Istore3
            | Instruction::Fstore3 | Instruction::Astore3 => 4,
            Instruction::Lload0 | Instruction::Dload0 | Instruction::Lstore0 | Instruction::Dstore0 => 2,
            Instruction::Lload1 | Instruction::Dload1 | Instruction::Lstore1 | Instruction::Dstore1 => 3,
            Instruction::Lload2 | Instruction::Dload2 | Instruction::Lstore2 | Instruction::Dstore2 => 4,
            Instruction::Lload3 | Instruction::Dload3 | Instruction::Lstore3 | Instruction::Dstore3 => 5,
            Instruction::Iinc { index, .. } => index + 1,
            Instruction::Wide(w) => match w {
                WideInstruction::Lload(i) | WideInstruction::Dload(i) | WideInstruction::Lstore(i)
                | WideInstruction::Dstore(i) => i + 2,
                _ => wide_index(w) + 1,
            },
            _ => 0,
        },
        _ => 0,
    }
}

/// Inputs on which the resolver's arithmetic cannot overflow: switch sizes
/// leave room for any code offset below `2^32`, a table switch's case
/// count and its `high` fit an `i32`, slot counts fit a `u2`.
pub open spec fn op_fits(op: Op) -> bool {
    match op {
        Op::Raw(ins) => {
            &&& local_width(op) <= u16::MAX
            &&& match ins {
                Instruction::Tableswitch { low, high, .. } => 0 <= high - low + 1 <= i32::MAX
                    && 16 + 4 * (high - low + 1) + 0x1_0000_0000 <= usize::MAX,
                Instruction::Lookupswitch { pairs, .. } => 12 + 8 * pairs@.len() + 0x1_0000_0000 <= usize::MAX,
                _ => true,
            }
        },
        Op::Tableswitch { low, cases, .. } => {
            &&& 16 + 4 * cases@.len() + 0x1_0000_0000 <= usize::MAX
            &&& cases@.len() <= i32::MAX ==> i32::MIN <= low + cases@.len() - 1 && low + cases@.len() <= i32::MAX
        },
        Op::Lookupswitch { pairs, .. } => 12 + 8 * pairs@.len() + 0x1_0000_0000 <= usize::MAX,
        Op::Invoke { op, desc, .. } => op == InvokeOp::Interface ==> (parse_method_spec(desc@) matches Ok((ps, _))
            ==> slots_sum(ps) + 1 <= u16::MAX),
        _ => true,
    }
}

/// The pool once a step has interned its entries, or as far as it got.
pub open spec fn step_pool(s: PoolStep) -> PoolView {
    match s {
        Ok((p, _)) => p,
        Err((p, _)) => p,
    }
}

/// The pool after `op` has interned what it refers to.
pub open spec fn pool_next(op: Op, pool: PoolView) -> PoolView {
    match op {
        Op::Ldc(v) => step_pool(ldc_step(v, pool).0),
        Op::Field { class, name, desc, .. } => step_pool(intern_member_spec(pool, MemberKind::Field, class@, name@, desc@)),
        Op::Invoke { op, class, name, desc } => step_pool(
            intern_member_spec(
                pool,
                if op == InvokeOp::Interface { MemberKind::InterfaceMethod } else { MemberKind::Method },
                class@,
                name@,
                desc@,
            ),
        ),
        Op::InvokeDynamic { bootstrap_method_attr_index, name, desc } => step_pool(
            intern_dynamic_spec(pool, true, bootstrap_method_attr_index, name@, desc@),
        ),
        Op::ClassRef { class, .. } => step_pool(intern_class_spec(pool, class@)),
        Op::Multianewarray { class, .. } => step_pool(intern_class_spec(pool, class@)),
        _ => pool,
    }
}

/// The pool when op `n` is reached, the first `n` ops having interned in order.
pub open spec fn pool_thread(ops: Seq<Op>, pool: PoolView, n: int) -> PoolView
    decreases n,
{
    if n <= 0 {
        pool
    } else {
        pool_next(ops[n - 1], pool_thread(ops, pool, n - 1))
    }
}

/// Offsets of the ops from `i` on, starting at `pc`, and the code size;
/// or the size at which the code array outgrew a `u4`. Each op is sized
/// against the pool it will meet, starting from `pool`.
pub open spec fn layout_from(ops: Seq<Op>, i: int, pc: nat, pool: PoolView) -> core::result::Result<(Seq<u32>, nat), int>
    decreases ops.len() - i,
{
    if i < 0 || i >= ops.len() {
        Ok((Seq::empty(), pc))
    } else {
        let next = pc + op_size(ops[i], pc, pool_thread(ops, pool, i));
        if next > usize::MAX {
            Err(usize::MAX as int)
        } else if next > u32::MAX {
            Err(next)
        } else {
            match layout_from(ops, i + 1, next as nat, pool) {
                Ok((offs, total)) => Ok((seq![pc as u32] + offs, total)),
                Err(e) => Err(e),
            }
        }
    }
}

/// Size of `op` at `pc` against `pool`, and the pool once `op` has interned
/// what it refers to.
fn op_layout_size(op: &Op, pc: usize, pool: &mut ConstantPool) -> (n: usize)
    requires
        op_fits(*op),
        pc <= u32::MAX,
    ensures
        n == op_size(*op, pc as nat, old(pool)@),
        final(pool)@ == pool_next(*op, old(pool)@),
{
    match op {
        Op::Raw(ins) => {
            assert(size_computable(*ins, pc as nat));
            ins.size(pc)
        },
        Op::Ldc(v) => match resolve_ldc(v, pool) {
            Ok(Instruction::Ldc(_)) => 2,
            _ => 3,
        },
        Op::Field { class, name, desc, .. } => {
            let _ = pool.intern_fieldref(class.as_str(), name.as_str(), desc.as_str());
            3
        },
        Op::Invoke { op: InvokeOp::Interface, class, name, desc } => {
            let _ = pool.intern_interface_methodref(class.as_str(), name.as_str(), desc.as_str());
            5
        },
        Op::Invoke { class, name, desc, .. } => {
            let _ = pool.intern_methodref(class.as_str(), name.as_str(), desc.as_str());
            3
        },
        Op::ClassRef { class, .. } => {
            let _ = pool.intern_class(class.as_str());
            3
        },
        Op::InvokeDynamic { bootstrap_method_attr_index, name, desc } => {
            let _ = pool.intern_invoke_dynamic(*bootstrap_method_attr_index, name.as_str(), desc.as_str());
            5
        },
        Op::Multianewarray { class, .. } => {
            let _ = pool.intern_class(class.as_str());
            4
        },
        Op::Placed(_) | Op::LineNumber(_) => 0,
        Op::Branch { .. } => 3,
        Op::GotoW(_) | Op::JsrW(_) => 5,
        Op::Tableswitch { cases, .. } => {
            let pad = (4 - ((pc % 4 + 1) % 4)) % 4;
            assert(pad == switch_pad(pc as nat));
            1 + pad + 12 + 4 * cases.len()
        },
        Op::Lookupswitch { pairs, .. } => {
            let pad = (4 - ((pc % 4 + 1) % 4)) % 4;
            assert(pad == switch_pad(pc as nat));
            1 + pad + 8 + 8 * pairs.len()
        },
    }
}

/// The layout of `ops`, sizing each constant load against a copy of `pool`
/// that takes the constants in the order that emission will intern them.
fn compute_layout(ops: &Vec<Op>, pool: &ConstantPool) -> (r: Result<(Vec<u32>, usize)>)
    requires
        forall|i: int| 0 <= i < ops@.len() ==> op_fits(#[trigger] ops@[i]),
    ensures
        match layout_from(ops@, 0, 0, pool@) {
            Ok((offs, total)) => r matches Ok((o, t)) && o@ == offs && t == total,
            Err(n) => r matches Err(Error::CodeTooLarge(m)) && m == n,
        },
{
    let mut probe = pool.clone();
    let mut offsets: Vec<u32> = Vec::with_capacity(ops.len());
    let mut pc: usize = 0;
    let mut i: usize = 0;
    while i < ops.len()
        invariant
            i <= ops@.len(),
            pc <= u32::MAX,
            forall|k: int| 0 <= k < ops@.len() ==> op_fits(#[trigger] ops@[k]),
            probe@ == pool_thread(ops@, pool@, i as int),
            layout_from(ops@, 0, 0, pool@) == match layout_from(ops@, i as int, pc as nat, pool@) {
                Ok((offs, total)) => Ok((offsets@ + offs, total)),
                Err(e) => Err(e),
            },
        decreases ops@.len() - i,
    {
        let ghost prev = offsets@;
        offsets.push(pc as u32);
        let size = op_layout_size(&ops[i], pc, &mut probe);
        let next = match pc.checked_add(size) {
            Some(n) => n,
            None => return Err(Error::CodeTooLarge(usize::MAX)),
        };
        if next > 0xFFFF_FFFF {
            return Err(Error::CodeTooLarge(next));
        }
        proof {
            if let Ok((offs, total)) = layout_from(ops@, i + 1, next as nat, pool@) {
                assert(prev + (seq![pc as u32] + offs) =~= offsets@ + offs);
            }
        }
        pc = next;
        i += 1;
    }
    proof {
        assert(offsets@ + Seq::<u32>::empty() =~= offsets@);
    }
    Ok((offsets, pc))
}

} // verus!

verus! {

/// Position of `l` in a label table, if placed.
pub open spec fn resolve_spec(pos: Seq<Option<u32>>, l: Label) -> Option<u32> {
    if l.id() < pos.len() { pos[l.id() as int] } else { None }
}

/// Offset from `origin` to the label, as a 16-bit branch operand.
pub open spec fn short_offset(pos: Seq<Option<u32>>, target: Label, origin: u32) -> core::result::Result<i16, EncodeError> {
    match resolve_spec(pos, target) {
        None => Err(EncodeError::Unresolved(target.id() as int)),
        Some(t) => {
            let d = t - origin;
            if -0x8000 <= d <= 0x7FFF { Ok(d as i16) } else { Err(EncodeError::OutOfRange(d, 16)) }
        },
    }
}

/// Offset from `origin` to the label, as a 32-bit branch operand.
pub open spec fn long_offset(pos: Seq<Option<u32>>, target: Label, origin: u32) -> core::result::Result<i32, EncodeError> {
    match resolve_spec(pos, target) {
        None => Err(EncodeError::Unresolved(target.id() as int)),
        Some(t) => {
            let d = t - origin;
            if -0x8000_0000 <= d <= 0x7FFF_FFFF { Ok(d as i32) } else { Err(EncodeError::OutOfRange(d, 32)) }
        },
    }
}

/// 32-bit offsets of every label, in order; the first failure stops.
pub open spec fn long_offsets(pos: Seq<Option<u32>>, ls: Seq<Label>, origin: u32) -> core::result::Result<Seq<i32>, EncodeError>
    decreases ls.len(),
{
    if ls.len() == 0 {
        Ok(Seq::empty())
    } else {
        match long_offsets(pos, ls.drop_last(), origin) {
            Err(e) => Err(e),
            Ok(s) => match long_offset(pos, ls.last(), origin) {
                Err(e) => Err(e),
                Ok(o) => Ok(s.push(o)),
            },
        }
    }
}

/// Match values paired with the 32-bit offsets of their labels.
pub open spec fn long_pairs(pos: Seq<Option<u32>>, ps: Seq<(i32, Label)>, origin: u32) -> core::result::Result<Seq<(i32, i32)>, EncodeError>
    decreases ps.len(),
{
    if ps.len() == 0 {
        Ok(Seq::empty())
    } else {
        match long_pairs(pos, ps.drop_last(), origin) {
            Err(e) => Err(e),
            Ok(s) => match long_offset(pos, ps.last().1, origin) {
                Err(e) => Err(e),
                Ok(o) => Ok(s.push((ps.last().0, o))),
            },
        }
    }
}

/// The `count` operand of `invokeinterface`: one plus the argument slots.
pub open spec fn interface_count_spec(desc: Seq<char>) -> core::result::Result<u8, EncodeError> {
    match parse_method_spec(desc) {
        Err(e) => Err(EncodeError::Message(descriptor_message(e))),
        Ok((ps, _)) => {
            let total = 1 + slots_sum(ps);
            if total > 255 {
                Err(EncodeError::TooMany("invokeinterface count"@, total))
            } else {
                Ok(total as u8)
            }
        },
    }
}

/// Interning an `ldc` payload: the pool step, and whether it needs `ldc2_w`.
pub open spec fn ldc_step(v: LdcValue, pool: PoolView) -> (PoolStep, bool) {
    match v {
        LdcValue::Int(x) => (intern_spec(pool, ConstantView::Integer(x)), false),
        LdcValue::Float(b) => (intern_spec(pool, ConstantView::Float(b)), false),
        LdcValue::String(s) => (intern_string_spec(pool, s@), false),
        LdcValue::Class(c) => (intern_class_spec(pool, c@), false),
        LdcValue::MethodType(d) => (
            then_intern(intern_spec(pool, ConstantView::Utf8(d@)), |i: int| ConstantView::MethodType { descriptor_index: i as u16 }),
            false,
        ),
        LdcValue::MethodHandle { kind, reference_index } =>
            (intern_spec(pool, ConstantView::MethodHandle { reference_kind: kind, reference_index }), false),
        LdcValue::Long(x) => (intern_spec(pool, ConstantView::Long(x)), true),
        LdcValue::Double(b) => (intern_spec(pool, ConstantView::Double(b)), true),
    }
}

/// The load of pool entry `i`: `ldc2_w` for a long or double, `ldc` when
/// the index fits in a byte, `ldc_w` otherwise.
pub open spec fn ldc_instruction(i: int, wide: bool) -> Instruction {
    let k = i as u16;
    if wide {
        Instruction::Ldc2W(k)
    } else if k <= 255 {
        Instruction::Ldc(k as u8)
    } else {
        Instruction::LdcW(k)
    }
}

/// Bytes of the load that `v` resolves to in `pool`: two for a narrow `ldc`,
/// three otherwise (also where the pool cannot take the constant).
pub open spec fn ldc_size(v: LdcValue, pool: PoolView) -> int {
    let (s, wide) = ldc_step(v, pool);
    match s {
        Ok((_, i)) => if !wide && (i as u16) <= 255 { 2 } else { 3 },
        Err(_) => 3,
    }
}

/// Outcome of emitting one op: the pool afterwards and the op's bytes, or
/// the pool afterwards and why emission stopped.
pub type OpOutcome = core::result::Result<(PoolView, Seq<u8>), (PoolView, EncodeError)>;

/// A pool step whose index becomes the operand of `f`.
pub open spec fn pool_then(s: PoolStep, f: spec_fn(int) -> Instruction, at: nat) -> OpOutcome {
    match s {
        Ok((p, i)) => Ok((p, encoding_of(f(i), at))),
        Err((p, n)) => Err((p, EncodeError::TooMany("constant pool"@, n))),
    }
}

pub open spec fn field_instruction(op: FieldOp, idx: u16) -> Instruction {
    match op {
        FieldOp::GetStatic => Instruction::Getstatic(idx),
        FieldOp::PutStatic => Instruction::Putstatic(idx),
        FieldOp::GetField => Instruction::Getfield(idx),
        FieldOp::PutField => Instruction::Putfield(idx),
    }
}

pub open spec fn invoke_instruction(op: InvokeOp, idx: u16) -> Instruction {
    match op {
        InvokeOp::Virtual => Instruction::Invokevirtual(idx),
        InvokeOp::Special => Instruction::Invokespecial(idx),
        _ => Instruction::Invokestatic(idx),
    }
}

pub open spec fn class_instruction(op: ClassRefOp, idx: u16) -> Instruction {
    match op {
        ClassRefOp::New => Instruction::New(idx),
        ClassRefOp::Anewarray => Instruction::Anewarray(idx),
        ClassRefOp::Checkcast => Instruction::Checkcast(idx),
        ClassRefOp::Instanceof => Instruction::Instanceof(idx),
    }
}

/// Emitting `op`, whose layout offset is `origin`, into a code array of
/// length `at`, with label positions `pos` and pool `pool`.
/// Outcome of a table switch op: its default and case offsets, then the
/// bytes of a `tableswitch` whose `high` is `low + cases - 1`.
pub open spec fn table_emit(pos: Seq<Option<u32>>, default: Label, low: i32, cases: Seq<Label>, origin: u32, pool: PoolView, at: nat) -> OpOutcome {
    match long_offset(pos, default, origin) {
        Err(e) => Err((pool, e)),
        Ok(d) => match long_offsets(pos, cases, origin) {
            Err(e) => Err((pool, e)),
            Ok(offs) => if cases.len() > i32::MAX {
                Err((pool, EncodeError::TooMany("tableswitch cases"@, cases.len() as int)))
            } else {
                Ok((pool, seq![0xaau8] + table_operands(at, d, low, (low + cases.len() - 1) as i32, offs)))
            },
        },
    }
}

pub open spec fn op_emit(op: Op, origin: u32, pos: Seq<Option<u32>>, pool: PoolView, at: nat) -> OpOutcome {
    match op {
        Op::Raw(ins) => match ins {
            Instruction::Tableswitch { offsets, .. } => if encodes_ok(ins) {
                Ok((pool, encoding_of(ins, at)))
            } else {
                Err((pool, EncodeError::Message(tableswitch_len_message(offsets@.len()))))
            },
            _ => Ok((pool, encoding_of(ins, at))),
        },
        Op::Ldc(v) => {
            let (s, wide) = ldc_step(v, pool);
            pool_then(s, |i: int| ldc_instruction(i, wide), at)
        },
        Op::Field { op, class, name, desc } => pool_then(
            intern_member_spec(pool, MemberKind::Field, class@, name@, desc@),
            |i: int| field_instruction(op, i as u16),
            at,
        ),
        Op::Invoke { op, class, name, desc } => if op == InvokeOp::Interface {
            match intern_member_spec(pool, MemberKind::InterfaceMethod, class@, name@, desc@) {
                Err((p, n)) => Err((p, EncodeError::TooMany("constant pool"@, n))),
                Ok((p, i)) => match interface_count_spec(desc@) {
                    Err(e) => Err((p, e)),
                    Ok(c) => Ok((p, encoding_of(Instruction::Invokeinterface { index: i as u16, count: c }, at))),
                },
            }
        } else {
            pool_then(
                intern_member_spec(pool, MemberKind::Method, class@, name@, desc@),
                |i: int| invoke_instruction(op, i as u16),
                at,
            )
        },
        Op::InvokeDynamic { bootstrap_method_attr_index, name, desc } => pool_then(
            intern_dynamic_spec(pool, true, bootstrap_method_attr_index, name@, desc@),
            |i: int| Instruction::Invokedynamic(i as u16),
            at,
        ),
        Op::ClassRef { op, class } => pool_then(intern_class_spec(pool, class@), |i: int| class_instruction(op, i as u16), at),
        Op::Multianewarray { class, dimensions } => pool_then(
            intern_class_spec(pool, class@),
            |i: int| Instruction::Multianewarray { index: i as u16, dimensions },
            at,
        ),
        Op::Branch { kind, target } => match short_offset(pos, target, origin) {
            Err(e) => Err((pool, e)),
            Ok(o) => Ok((pool, encoding_of(branch_instruction(kind, o), at))),
        },
        Op::GotoW(target) => match long_offset(pos, target, origin) {
            Err(e) => Err((pool, e)),
            Ok(o) => Ok((pool, encoding_of(Instruction::GotoW(o), at))),
        },
        Op::JsrW(target) => match long_offset(pos, target, origin) {
            Err(e) => Err((pool, e)),
            Ok(o) => Ok((pool, encoding_of(Instruction::JsrW(o), at))),
        },
        Op::Tableswitch { default, low, cases } => table_emit(pos, default, low, cases@, origin, pool, at),
        Op::Lookupswitch { default, pairs } => match long_offset(pos, default, origin) {
            Err(e) => Err((pool, e)),
            Ok(d) => match long_pairs(pos, pairs@, origin) {
                Err(e) => Err((pool, e)),
                Ok(ps) => Ok((pool, seq![0xabu8] + lookup_operands(at, d, ps))),
            },
        },
        Op::Placed(_) | Op::LineNumber(_) => Ok((pool, Seq::empty())),
    }
}

} // verus!

verus! {

/// Whether `r` is the result that the spec outcome `e` describes.
pub open spec fn result_is<T>(r: Result<T>, e: core::result::Result<T, EncodeError>) -> bool {
    match e {
        Ok(v) => r == Ok::<T, Error>(v),
        Err(x) => r matches Err(err) && error_is(err, x),
    }
}

fn branch_delta(labels: &LabelTable, target: Label, origin: u32) -> (r: Result<i64>)
    ensures
        match resolve_spec(labels@, target) {
            None => r matches Err(Error::UnresolvedLabel(id)) && id == target.id(),
            Some(t) => r == Ok::<i64, Error>((t - origin) as i64),
        },
{
    match labels.resolve(target) {
        Some(t) => Ok(t as i64 - origin as i64),
        None => Err(Error::UnresolvedLabel(target.index())),
    }
}

fn short_branch_offset(labels: &LabelTable, target: Label, origin: u32) -> (r: Result<i16>)
    ensures
        result_is(r, short_offset(labels@, target, origin)),
{
    let delta = branch_delta(labels, target, origin)?;
    if -0x8000 <= delta && delta <= 0x7FFF {
        Ok(delta as i16)
    } else {
        Err(Error::BranchOutOfRange { offset: delta, width_bits: 16 })
    }
}

fn long_branch_offset(labels: &LabelTable, target: Label, origin: u32) -> (r: Result<i32>)
    ensures
        result_is(r, long_offset(labels@, target, origin)),
{
    let delta = branch_delta(labels, target, origin)?;
    if -0x8000_0000 <= delta && delta <= 0x7FFF_FFFF {
        Ok(delta as i32)
    } else {
        Err(Error::BranchOutOfRange { offset: delta, width_bits: 32 })
    }
}

fn interface_arg_count(desc: &str) -> (r: Result<u8>)
    requires
        parse_method_spec(desc@) matches Ok((ps, _)) ==> slots_sum(ps) + 1 <= u16::MAX,
    ensures
        result_is(r, interface_count_spec(desc@)),
{
    let md = MethodDescriptor::parse(desc)?;
    // `count` is 1 + param slots (the receiver plus the slot-weighted args).
    let total = 1 + md.param_slots();
    if total > 255 {
        Err(Error::TooManyEntries { what: "invokeinterface count", count: total as usize })
    } else {
        Ok(total as u8)
    }
}

/// Whether the call's pool and result match the pool step `s` followed by `f`.
pub open spec fn pool_result(after: PoolView, r: Result<u16>, s: PoolStep) -> bool {
    crate::spec::constant::step_result(after, r, s)
}

fn resolve_ldc(value: &LdcValue, pool: &mut ConstantPool) -> (r: Result<Instruction>)
    ensures
        ({
            let (s, wide) = ldc_step(*value, old(pool)@);
            match s {
                Ok((p, i)) => final(pool)@ == p && r == Ok::<Instruction, Error>(ldc_instruction(i, wide)),
                Err((p, n)) => final(pool)@ == p && (r matches Err(e) && error_is(e, EncodeError::TooMany("constant pool"@, n))),
            }
        }),
{
    let i = match value {
        LdcValue::Int(v) => pool.intern(Constant::Integer(*v))?,
        LdcValue::Float(bits) => pool.intern(Constant::Float(*bits))?,
        LdcValue::String(s) => pool.intern_string(s.as_str())?,
        LdcValue::Class(c) => pool.intern_class(c.as_str())?,
        LdcValue::MethodType(desc) => pool.intern_method_type(desc.as_str())?,
        LdcValue::MethodHandle { kind, reference_index } => pool.intern_method_handle(*kind, *reference_index)?,
        LdcValue::Long(v) => return Ok(Instruction::Ldc2W(pool.intern(Constant::Long(*v))?)),
        LdcValue::Double(bits) => return Ok(Instruction::Ldc2W(pool.intern(Constant::Double(*bits))?)),
    };
    if i <= 255 {
        Ok(Instruction::Ldc(i as u8))
    } else {
        Ok(Instruction::LdcW(i))
    }
}

} // verus!

verus! {

/// Whether the pool, code buffer and result after emitting match `o`.
pub open spec fn emitted_op(pool_after: PoolView, code_before: Seq<u8>, code_after: Seq<u8>, r: Result<()>, o: OpOutcome) -> bool {
    match o {
        Ok((p, b)) => r is Ok && pool_after == p && code_after == code_before + b,
        Err((p, e)) => (r matches Err(err) && error_is(err, e)) && pool_after == p,
    }
}

fn emit_instruction(ins: Instruction, code: &mut Vec<u8>) -> (r: Result<()>)
    requires
        encodes_ok(ins),
    ensures
        r is Ok,
        final(code)@ == old(code)@ + encoding_of(ins, old(code)@.len()),
{
    ins.encode(code)
}

fn resolve_cases(labels: &LabelTable, cases: &Vec<Label>, origin: u32) -> (r: Result<Vec<i32>>)
    ensures
        match long_offsets(labels@, cases@, origin) {
            Ok(s) => r matches Ok(v) && v@ == s,
            Err(x) => r matches Err(e) && error_is(e, x),
        },
{
    let mut offsets: Vec<i32> = Vec::with_capacity(cases.len());
    let mut i: usize = 0;
    while i < cases.len()
        invariant
            i <= cases@.len(),
            long_offsets(labels@, cases@.take(i as int), origin) == Ok::<Seq<i32>, EncodeError>(offsets@),
        decreases cases@.len() - i,
    {
        proof { assert(cases@.take(i + 1).drop_last() =~= cases@.take(i as int)); }
        let o = match long_branch_offset(labels, cases[i], origin) {
            Ok(o) => o,
            Err(e) => {
                proof { lemma_long_offsets_err(labels@, cases@, origin, i as int + 1); }
                return Err(e);
            },
        };
        offsets.push(o);
        i += 1;
    }
    assert(cases@.take(i as int) =~= cases@);
    Ok(offsets)
}

proof fn lemma_long_offsets_err(pos: Seq<Option<u32>>, ls: Seq<Label>, origin: u32, i: int)
    requires
        0 <= i <= ls.len(),
        long_offsets(pos, ls.take(i), origin) is Err,
    ensures
        long_offsets(pos, ls, origin) == long_offsets(pos, ls.take(i), origin),
    decreases ls.len() - i,
{
    if i < ls.len() {
        assert(ls.take(i + 1).drop_last() =~= ls.take(i));
        lemma_long_offsets_err(pos, ls, origin, i + 1);
    } else {
        assert(ls.take(i) =~= ls);
    }
}

proof fn lemma_long_offsets_len(pos: Seq<Option<u32>>, ls: Seq<Label>, origin: u32)
    ensures
        long_offsets(pos, ls, origin) matches Ok(s) ==> s.len() == ls.len(),
    decreases ls.len(),
{
    if ls.len() > 0 {
        lemma_long_offsets_len(pos, ls.drop_last(), origin);
    }
}

proof fn lemma_long_pairs_err(pos: Seq<Option<u32>>, ps: Seq<(i32, Label)>, origin: u32, i: int)
    requires
        0 <= i <= ps.len(),
        long_pairs(pos, ps.take(i), origin) is Err,
    ensures
        long_pairs(pos, ps, origin) == long_pairs(pos, ps.take(i), origin),
    decreases ps.len() - i,
{
    if i < ps.len() {
        assert(ps.take(i + 1).drop_last() =~= ps.take(i));
        lemma_long_pairs_err(pos, ps, origin, i + 1);
    } else {
        assert(ps.take(i) =~= ps);
    }
}

fn resolve_pairs(labels: &LabelTable, pairs: &Vec<(i32, Label)>, origin: u32) -> (r: Result<Vec<(i32, i32)>>)
    ensures
        match long_pairs(labels@, pairs@, origin) {
            Ok(s) => r matches Ok(v) && v@ == s,
            Err(x) => r matches Err(e) && error_is(e, x),
        },
{
    let mut resolved: Vec<(i32, i32)> = Vec::with_capacity(pairs.len());
    let mut i: usize = 0;
    while i < pairs.len()
        invariant
            i <= pairs@.len(),
            long_pairs(labels@, pairs@.take(i as int), origin) == Ok::<Seq<(i32, i32)>, EncodeError>(resolved@),
        decreases pairs@.len() - i,
    {
        proof { assert(pairs@.take(i + 1).drop_last() =~= pairs@.take(i as int)); }
        let (m, l) = pairs[i];
        let o = match long_branch_offset(labels, l, origin) {
            Ok(o) => o,
            Err(e) => {
                proof { lemma_long_pairs_err(labels@, pairs@, origin, i as int + 1); }
                return Err(e);
            },
        };
        resolved.push((m, o));
        i += 1;
    }
    assert(pairs@.take(i as int) =~= pairs@);
    Ok(resolved)
}

fn tableswitch_cases(n: usize) -> (r: Result<i32>)
    ensures
        n <= i32::MAX ==> r == Ok::<i32, Error>(n as i32),
        n > i32::MAX ==> (r matches Err(e) && error_is(e, EncodeError::TooMany("tableswitch cases"@, n as int))),
{
    if n <= 0x7FFF_FFFF {
        Ok(n as i32)
    } else {
        Err(Error::TooManyEntries { what: "tableswitch cases", count: n })
    }
}

fn emit_pool_op(op: &Op, origin: u32, labels: &LabelTable, pool: &mut ConstantPool, code: &mut Vec<u8>) -> (r: Result<()>)
    requires
        op_fits(*op),
        op is Ldc || op is Field || op is ClassRef || op is Multianewarray || op is InvokeDynamic,
    ensures
        emitted_op(final(pool)@, old(code)@, final(code)@, r, op_emit(*op, origin, labels@, old(pool)@, old(code)@.len())),
{
    match op {
        Op::Ldc(value) => {
            let ins = resolve_ldc(value, pool)?;
            emit_instruction(ins, code)
        },
        Op::Field { op: fop, class, name, desc } => {
            let idx = pool.intern_fieldref(class.as_str(), name.as_str(), desc.as_str())?;
            let ins = match fop {
                FieldOp::GetStatic => Instruction::Getstatic(idx),
                FieldOp::PutStatic => Instruction::Putstatic(idx),
                FieldOp::GetField => Instruction::Getfield(idx),
                FieldOp::PutField => Instruction::Putfield(idx),
            };
            emit_instruction(ins, code)
        },
        Op::InvokeDynamic { bootstrap_method_attr_index, name, desc } => {
            let idx = pool.intern_invoke_dynamic(*bootstrap_method_attr_index, name.as_str(), desc.as_str())?;
            emit_instruction(Instruction::Invokedynamic(idx), code)
        },
        Op::ClassRef { op: cop, class } => {
            let idx = pool.intern_class(class.as_str())?;
            let ins = match cop {
                ClassRefOp::New => Instruction::New(idx),
                ClassRefOp::Anewarray => Instruction::Anewarray(idx),
                ClassRefOp::Checkcast => Instruction::Checkcast(idx),
                ClassRefOp::Instanceof => Instruction::Instanceof(idx),
            };
            emit_instruction(ins, code)
        },
        Op::Multianewarray { class, dimensions } => {
            let idx = pool.intern_class(class.as_str())?;
            emit_instruction(Instruction::Multianewarray { index: idx, dimensions: *dimensions }, code)
        },
        _ => Ok(()),
    }
}

fn emit_invoke(op: &Op, origin: u32, labels: &LabelTable, pool: &mut ConstantPool, code: &mut Vec<u8>) -> (r: Result<()>)
    requires
        op_fits(*op),
        op is Invoke,
    ensures
        emitted_op(final(pool)@, old(code)@, final(code)@, r, op_emit(*op, origin, labels@, old(pool)@, old(code)@.len())),
{
    match op {
        Op::Invoke { op: iop, class, name, desc } => {
            let ins = match iop {
                InvokeOp::Virtual => Instruction::Invokevirtual(pool.intern_methodref(class.as_str(), name.as_str(), desc.as_str())?),
                InvokeOp::Special => Instruction::Invokespecial(pool.intern_methodref(class.as_str(), name.as_str(), desc.as_str())?),
                InvokeOp::Static => Instruction::Invokestatic(pool.intern_methodref(class.as_str(), name.as_str(), desc.as_str())?),
                InvokeOp::Interface => Instruction::Invokeinterface {
                    index: pool.intern_interface_methodref(class.as_str(), name.as_str(), desc.as_str())?,
                    count: interface_arg_count(desc.as_str())?,
                },
            };
            emit_instruction(ins, code)
        },
        _ => Ok(()),
    }
}

fn emit_branch_op(op: &Op, origin: u32, labels: &LabelTable, pool: &mut ConstantPool, code: &mut Vec<u8>) -> (r: Result<()>)
    requires
        op_fits(*op),
        op is Branch || op is GotoW || op is JsrW,
    ensures
        emitted_op(final(pool)@, old(code)@, final(code)@, r, op_emit(*op, origin, labels@, old(pool)@, old(code)@.len())),
{
    match op {
        Op::Branch { kind, target } => {
            let rel16 = short_branch_offset(labels, *target, origin)?;
            emit_instruction(kind.to_instruction(rel16), code)
        },
        Op::GotoW(target) => {
            let o = long_branch_offset(labels, *target, origin)?;
            emit_instruction(Instruction::GotoW(o), code)
        },
        Op::JsrW(target) => {
            let o = long_branch_offset(labels, *target, origin)?;
            emit_instruction(Instruction::JsrW(o), code)
        },
        _ => Ok(()),
    }
}

fn table_instruction(default: i32, low: i32, n: i32, offsets: Vec<i32>) -> (ins: Instruction)
    requires
        offsets@.len() == n,
        i32::MIN <= low + n - 1,
        low + n <= i32::MAX,
    ensures
        encodes_ok(ins),
        ins == (Instruction::Tableswitch { default, low, high: (low + n - 1) as i32, offsets }),
{
    Instruction::Tableswitch { default, low, high: low + n - 1, offsets }
}

fn emit_table_parts(default: Label, low: i32, cases: &Vec<Label>, origin: u32, labels: &LabelTable, code: &mut Vec<u8>) -> (r: Result<()>)
    requires
        cases@.len() <= i32::MAX ==> i32::MIN <= low + cases@.len() - 1 && low + cases@.len() <= i32::MAX,
    ensures
        match table_emit(labels@, default, low, cases@, origin, Seq::<Option<ConstantView>>::empty(), old(code)@.len()) {
            Ok((_, b)) => r is Ok && final(code)@ == old(code)@ + b,
            Err((_, e)) => r matches Err(err) && error_is(err, e),
        },
{
    let default_rel = long_branch_offset(labels, default, origin)?;
    let offsets = resolve_cases(labels, cases, origin)?;
    proof { lemma_long_offsets_len(labels@, cases@, origin); }
    let n = tableswitch_cases(cases.len())?;
    let ghost offs = offsets@;
    let ins = table_instruction(default_rel, low, n, offsets);
    let ghost at = code@.len();
    proof {
        lemma_table_encoding(ins, at);
    }
    emit_instruction(ins, code)
}

fn emit_table(op: &Op, origin: u32, labels: &LabelTable, pool: &mut ConstantPool, code: &mut Vec<u8>) -> (r: Result<()>)
    requires
        op_fits(*op),
        op is Tableswitch,
    ensures
        emitted_op(final(pool)@, old(code)@, final(code)@, r, op_emit(*op, origin, labels@, old(pool)@, old(code)@.len())),
{
    match op {
        Op::Tableswitch { default, low, cases } => emit_table_parts(*default, *low, cases, origin, labels, code),
        _ => Ok(()),
    }
}

fn emit_lookup(op: &Op, origin: u32, labels: &LabelTable, pool: &mut ConstantPool, code: &mut Vec<u8>) -> (r: Result<()>)
    requires
        op_fits(*op),
        op is Lookupswitch,
    ensures
        emitted_op(final(pool)@, old(code)@, final(code)@, r, op_emit(*op, origin, labels@, old(pool)@, old(code)@.len())),
{
    match op {
        Op::Lookupswitch { default, pairs } => {
            let default_rel = long_branch_offset(labels, *default, origin)?;
            let resolved = resolve_pairs(labels, pairs, origin)?;
            let ghost ps = resolved@;
            let ins = Instruction::Lookupswitch { default: default_rel, pairs: resolved };
            let ghost at = code@.len();
            proof {
                assert(encoding_of(ins, at) == seq![0xabu8] + lookup_operands(at, default_rel, ps));
            }
            emit_instruction(ins, code)
        },
        _ => Ok(()),
    }
}

fn emit_op(op: &Op, origin: u32, labels: &LabelTable, pool: &mut ConstantPool, code: &mut Vec<u8>) -> (r: Result<()>)
    requires
        op_fits(*op),
        !(op is Placed || op is LineNumber),
    ensures
        emitted_op(final(pool)@, old(code)@, final(code)@, r, op_emit(*op, origin, labels@, old(pool)@, old(code)@.len())),
{
    match op {
        Op::Raw(ins) => ins.encode(code),
        Op::Invoke { .. } => emit_invoke(op, origin, labels, pool, code),
        Op::Branch { .. } | Op::GotoW(_) | Op::JsrW(_) => emit_branch_op(op, origin, labels, pool, code),
        Op::Tableswitch { .. } => emit_table(op, origin, labels, pool, code),
        Op::Lookupswitch { .. } => emit_lookup(op, origin, labels, pool, code),
        _ => emit_pool_op(op, origin, labels, pool, code),
    }
}

/// Every label that an op places was handed out by a table of `n` labels.
pub open spec fn labels_known(ops: Seq<Op>, n: nat) -> bool {
    forall|i: int| 0 <= i < ops.len() ==> (#[trigger] ops[i] matches Op::Placed(l) ==> l.id() < n)
}

/// Every op is within the resolver's arithmetic limits.
pub open spec fn ops_fit(ops: Seq<Op>) -> bool {
    forall|i: int| 0 <= i < ops.len() ==> op_fits(#[trigger] ops[i])
}

/// Label positions after the first `n` ops have placed their labels at
/// their offsets, a later placement of a label overriding an earlier one.
pub open spec fn placed_positions(pos: Seq<Option<u32>>, ops: Seq<Op>, offs: Seq<u32>, n: int) -> Seq<Option<u32>>
    decreases n,
{
    if n <= 0 {
        pos
    } else {
        let p = placed_positions(pos, ops, offs, n - 1);
        match ops[n - 1] {
            Op::Placed(l) => p.update(l.id() as int, Some(offs[n - 1])),
            _ => p,
        }
    }
}

/// Emission state: the pool, the code so far, the line number entries and
/// a line number waiting for the next real instruction.
pub type EmitState = (PoolView, Seq<u8>, Seq<LineNumberEntry>, Option<u16>);

pub type EmitOutcome = core::result::Result<EmitState, (PoolView, EncodeError)>;

/// One op of emission at layout offset `offset`. A line number marker waits
/// for the next op that emits bytes, whose offset it then records.
#[verifier::opaque]
pub open spec fn emit_step(op: Op, offset: u32, pos: Seq<Option<u32>>, st: EmitState) -> EmitOutcome {
    let (pool, code, lines, pending) = st;
    match op {
        Op::LineNumber(l) => Ok((pool, code, lines, Some(l))),
        Op::Placed(_) => Ok(st),
        _ => {
            let lines2 = match pending {
                Some(l) => lines.push(LineNumberEntry { start_pc: offset as u16, line_number: l }),
                None => lines,
            };
            match op_emit(op, offset, pos, pool, code.len()) {
                Ok((p, b)) => Ok((p, code + b, lines2, None)),
                Err(x) => Err(x),
            }
        },
    }
}

/// Emission of the first `n` ops, stopping at the first error.
pub open spec fn emit_prefix(ops: Seq<Op>, offs: Seq<u32>, pos: Seq<Option<u32>>, pool: PoolView, n: int) -> EmitOutcome
    decreases n,
{
    if n <= 0 {
        Ok((pool, Seq::empty(), Seq::empty(), None))
    } else {
        match emit_prefix(ops, offs, pos, pool, n - 1) {
            Err(x) => Err(x),
            Ok(st) => emit_step(ops[n - 1], offs[n - 1], pos, st),
        }
    }
}

/// The largest local slot count that the first `n` ops imply (0 for none).
pub open spec fn max_local_width(ops: Seq<Op>, n: int) -> int
    decreases n,
{
    if n <= 0 {
        0
    } else {
        let m = max_local_width(ops, n - 1);
        if local_width(ops[n - 1]) > m { local_width(ops[n - 1]) } else { m }
    }
}

/// The `max_locals` of a finished body: the value set on the builder, or
/// the larger of the inferred slot count and `min_locals`.
pub open spec fn finished_locals(cb: CodeBuilder, min_locals: u16) -> u16 {
    match cb.locals_limit() {
        Some(v) => v,
        None => {
            let w = max_local_width(cb.ops(), cb.ops().len() as int);
            if w > min_locals { w as u16 } else { min_locals }
        },
    }
}

/// The `max_stack` of a finished body: the value set on the builder, or
/// the ceiling that the ops give.
pub open spec fn finished_stack(cb: CodeBuilder) -> u16 {
    match cb.stack_limit() {
        Some(v) => v,
        None => stack_ceiling(cb.ops()),
    }
}

/// What `finish` gives back and leaves in the pool. The layout comes first
/// (a code array over `u4` fails with the pool untouched); then every label
/// is placed; then the ops are emitted in order, each failure leaving the
/// pool as far as it got; finally a `LineNumberTable` attribute, present
/// exactly when line numbers were recorded, has its name interned.
#[verifier::opaque]
pub open spec fn finish_result(cb: CodeBuilder, pool: PoolView, min_locals: u16, pool_after: PoolView, r: Result<CodeAttribute>) -> bool {
    let ops = cb.ops();
    match layout_from(ops, 0, 0, pool) {
        Err(n) => pool_after == pool && (r matches Err(Error::CodeTooLarge(m)) && m == n),
        Ok((offs, _)) => match emit_prefix(ops, offs, placed_positions(cb.labels(), ops, offs, ops.len() as int), pool, ops.len() as int) {
            Err((p, e)) => pool_after == p && (r matches Err(err) && error_is(err, e)),
            Ok((p, code, lines, _)) => {
                let step = if lines.len() == 0 { Ok((p, 0int)) } else { intern_spec(p, ConstantView::Utf8("LineNumberTable"@)) };
                match step {
                    Err((p2, n)) => pool_after == p2 && (r matches Err(Error::TooManyEntries { what, count })
                        && what@ == "constant pool"@ && count == n),
                    Ok((p2, _)) => pool_after == p2 && (r matches Ok(c) && {
                        &&& c.code@ == code
                        &&& c.max_stack == finished_stack(cb)
                        &&& c.max_locals == finished_locals(cb, min_locals)
                        &&& c.exception_table@.len() == 0
                        &&& if lines.len() == 0 {
                            c.attributes@.len() == 0
                        } else {
                            c.attributes@.len() == 1 && (c.attributes@[0] matches Attribute::LineNumberTable(v) && v@ == lines)
                        }
                    }),
                }
            },
        },
    }
}

proof fn lemma_layout_len(ops: Seq<Op>, i: int, pc: nat, pool: PoolView)
    requires
        0 <= i <= ops.len(),
    ensures
        layout_from(ops, i, pc, pool) matches Ok((offs, _)) ==> offs.len() == ops.len() - i,
    decreases ops.len() - i,
{
    if i < ops.len() {
        let next = pc + op_size(ops[i], pc, pool_thread(ops, pool, i));
        if next <= u32::MAX {
            lemma_layout_len(ops, i + 1, next as nat, pool);
        }
    }
}

proof fn lemma_emit_prefix_err(ops: Seq<Op>, offs: Seq<u32>, pos: Seq<Option<u32>>, pool: PoolView, i: int, n: int)
    requires
        0 <= i <= n,
        emit_prefix(ops, offs, pos, pool, i) is Err,
    ensures
        emit_prefix(ops, offs, pos, pool, n) == emit_prefix(ops, offs, pos, pool, i),
    decreases n - i,
{
    if i < n {
        lemma_emit_prefix_err(ops, offs, pos, pool, i, n - 1);
    }
}

proof fn lemma_placed_len(pos: Seq<Option<u32>>, ops: Seq<Op>, offs: Seq<u32>, n: int)
    requires
        n <= ops.len(),
        labels_known(ops, pos.len()),
    ensures
        placed_positions(pos, ops, offs, n).len() == pos.len(),
    decreases n,
{
    if n > 0 {
        lemma_placed_len(pos, ops, offs, n - 1);
    }
}

/// Local slot count implied by one op, as `local_width` states it.
fn local_slot_width(op: &Op) -> (w: u16)
    requires
        op_fits(*op),
    ensures
        w == local_width(*op),
{
    let (i, wide): (u16, bool) = match op {
        Op::Raw(ins) => match ins {
            Instruction::Iload(i) | Instruction::Fload(i) | Instruction::Aload(i) | Instruction::Istore(i)
            | Instruction::Fstore(i) | Instruction::Astore(i) | Instruction::Ret(i) => (*i as u16, false),
            Instruction::Lload(i) | Instruction::Dload(i) | Instruction::Lstore(i) | Instruction::Dstore(i) => (*i as u16, true),
            Instruction::Iload0 | Instruction::Fload0 | Instruction::Aload0 | Instruction::Istore0
            | Instruction::Fstore0 | Instruction::Astore0 => (0, false),
            Instruction::Iload1 | Instruction::Fload1 | Instruction::Aload1 | Instruction::Istore1
            | Instruction::Fstore1 | Instruction::Astore1 => (1, false),
            Instruction::Iload2 | Instruction::Fload2 | Instruction::Aload2 | Instruction::Istore2
            | Instruction::Fstore2 | Instruction::Astore2 => (2, false),
            Instruction::Iload3 | Instruction::Fload3 | Instruction::Aload3 | Instruction::Istore3
            | Instruction::Fstore3 | Instruction::Astore3 => (3, false),
            Instruction::Lload0 | Instruction::Dload0 | Instruction::Lstore0 | Instruction::Dstore0 => (0, true),
            Instruction::Lload1 | Instruction::Dload1 | Instruction::Lstore1 | Instruction::Dstore1 => (1, true),
            Instruction::Lload2 | Instruction::Dload2 | Instruction::Lstore2 | Instruction::Dstore2 => (2, true),
            Instruction::Lload3 | Instruction::Dload3 | Instruction::Lstore3 | Instruction::Dstore3 => (3, true),
            Instruction::Iinc { index, .. } => (*index as u16, false),
            Instruction::Wide(w) => match w {
                WideInstruction::Iload(i) | WideInstruction::Fload(i) | WideInstruction::Aload(i)
                | WideInstruction::Istore(i) | WideInstruction::Fstore(i) | WideInstruction::Astore(i)
                | WideInstruction::Ret(i) | WideInstruction::Iinc { index: i, .. } => (*i, false),
                WideInstruction::Lload(i) | WideInstruction::Dload(i) | WideInstruction::Lstore(i)
                | WideInstruction::Dstore(i) => (*i, true),
            },
            _ => return 0,
        },
        _ => return 0,
    };
    if wide { i + 2 } else { i + 1 }
}

fn infer_max_locals(ops: &Vec<Op>) -> (m: u16)
    requires
        ops_fit(ops@),
    ensures
        m == max_local_width(ops@, ops@.len() as int),
{
    let mut max: u16 = 0;
    let mut i: usize = 0;
    while i < ops.len()
        invariant
            i <= ops@.len(),
            ops_fit(ops@),
            max == max_local_width(ops@, i as int),
        decreases ops@.len() - i,
    {
        let width = local_slot_width(&ops[i]);
        if width > max {
            max = width;
        }
        i += 1;
    }
    max
}

/// One step of emission: a line number marker waits, a placed label
/// emits nothing, any other op records a waiting line number and emits.
fn emit_one(
    op: &Op,
    offset: u32,
    labels: &LabelTable,
    pool: &mut ConstantPool,
    code: &mut Vec<u8>,
    lines: &mut Vec<LineNumberEntry>,
    pending: &mut Option<u16>,
) -> (r: Result<()>)
    requires
        op_fits(*op),
    ensures
        match emit_step(*op, offset, labels@, (old(pool)@, old(code)@, old(lines)@, *old(pending))) {
            Ok(st) => r is Ok && st == (final(pool)@, final(code)@, final(lines)@, *final(pending)),
            Err((p, e)) => (r matches Err(err) && error_is(err, e)) && final(pool)@ == p,
        },
{
    reveal(emit_step);
    match op {
        Op::LineNumber(line) => {
            *pending = Some(*line);
            Ok(())
        },
        Op::Placed(_) => Ok(()),
        _ => {
            if let Some(line) = *pending {
                lines.push(LineNumberEntry { start_pc: offset as u16, line_number: line });
                *pending = None;
            }
            emit_op(op, offset, labels, pool, code)
        },
    }
}

impl CodeBuilder {
    /// Resolve all pending references and produce a `CodeAttribute`. The
    /// `min_locals` floor typically comes from the enclosing method's
    /// parameter slot count, an implicit `this` included.
    pub fn finish(self, pool: &mut ConstantPool, min_locals: u16) -> (r: Result<CodeAttribute>)
        requires
            ops_fit(self.ops()),
            labels_known(self.ops(), self.labels().len()),
        ensures
            finish_result(self, old(pool)@, min_locals, final(pool)@, r),
    {
        reveal(finish_result);
        let ghost cb = self;
        let CodeBuilder { ops, labels, max_stack, max_locals } = self;
        let mut labels = labels;
        proof { lemma_layout_len(ops@, 0, 0, pool@); }
        let (offsets, total_size) = compute_layout(&ops, pool)?;
        // Place every label up front so that forward branches resolve.
        let mut i: usize = 0;
        while i < ops.len()
            invariant
                i <= ops@.len(),
                offsets@.len() == ops@.len(),
                labels_known(ops@, cb.labels().len()),
                labels@ == placed_positions(cb.labels(), ops@, offsets@, i as int),
            decreases ops@.len() - i,
        {
            proof {
                lemma_placed_len(cb.labels(), ops@, offsets@, i as int);
                lemma_placed_len(cb.labels(), ops@, offsets@, i as int + 1);
            }
            if let Op::Placed(label) = &ops[i] {
                labels.place(*label, offsets[i]);
            }
            i += 1;
        }
        let ghost pos = labels@;
        let ghost pool0 = pool@;
        let mut code: Vec<u8> = Vec::with_capacity(total_size);
        let mut line_numbers: Vec<LineNumberEntry> = Vec::new();
        let mut pending: Option<u16> = None;
        let mut i: usize = 0;
        while i < ops.len()
            invariant
                i <= ops@.len(),
                offsets@.len() == ops@.len(),
                ops_fit(ops@),
                labels@ == pos,
                cb == self,
                cb.ops() == ops@,
                pool0 == old(pool)@,
                pos == placed_positions(cb.labels(), ops@, offsets@, ops@.len() as int),
                layout_from(ops@, 0, 0, pool0) matches Ok((offs, _)) && offs == offsets@,
                emit_prefix(ops@, offsets@, pos, pool0, i as int) == Ok::<EmitState, (PoolView, EncodeError)>((pool@, code@, line_numbers@, pending)),
            decreases ops@.len() - i,
        {
            let ghost st: EmitState = (pool@, code@, line_numbers@, pending);
            let e = emit_one(&ops[i], offsets[i], &labels, pool, &mut code, &mut line_numbers, &mut pending);
            if let Err(err) = e {
                proof {
                    assert(emit_prefix(ops@, offsets@, pos, pool0, i + 1) == emit_step(ops@[i as int], offsets@[i as int], pos, st));
                    assert(emit_prefix(ops@, offsets@, pos, pool0, i + 1) is Err);
                    lemma_emit_prefix_err(ops@, offsets@, pos, pool0, i + 1, ops@.len() as int);
                    reveal(finish_result);
                }
                return Err(err);
            }
            i += 1;
        }
        let ghost lines = line_numbers@;
        let inferred = infer_max_locals(&ops);
        let floor = if inferred > min_locals { inferred } else { min_locals };
        let locals = match max_locals {
            Some(v) => v,
            None => floor,
        };
        let stack = match max_stack {
            Some(v) => v,
            None => stack_ceiling_of(&ops),
        };
        let mut attributes: Vec<Attribute> = Vec::new();
        if line_numbers.len() > 0 {
            let attr = Attribute::LineNumberTable(line_numbers);
            push_attr(pool, &mut attributes, attr)?;
        }
        Ok(CodeAttribute { max_stack: stack, max_locals: locals, code, exception_table: Vec::new(), attributes })
    }
}

/// The pool that `finish` leaves, or the pool and the error it stops with.
pub open spec fn finish_pool(cb: CodeBuilder, pool: PoolView) -> core::result::Result<PoolView, (PoolView, EncodeError)> {
    let ops = cb.ops();
    match layout_from(ops, 0, 0, pool) {
        Err(n) => Err((pool, EncodeError::CodeTooLarge(n))),
        Ok((offs, _)) => match emit_prefix(ops, offs, placed_positions(cb.labels(), ops, offs, ops.len() as int), pool, ops.len() as int) {
            Err(x) => Err(x),
            Ok((p, _, lines, _)) => if lines.len() == 0 {
                Ok(p)
            } else {
                match intern_spec(p, ConstantView::Utf8("LineNumberTable"@)) {
                    Err((p2, n)) => Err((p2, EncodeError::TooMany("constant pool"@, n))),
                    Ok((p2, _)) => Ok(p2),
                }
            },
        },
    }
}

/// `finish_result` fixes the pool and the outcome as `finish_pool` says.
pub proof fn lemma_finish_pool(cb: CodeBuilder, pool: PoolView, min_locals: u16, pool_after: PoolView, r: Result<CodeAttribute>)
    requires
        finish_result(cb, pool, min_locals, pool_after, r),
    ensures
        match finish_pool(cb, pool) {
            Ok(q) => pool_after == q && r is Ok,
            Err((q, e)) => pool_after == q && (r matches Err(err) && error_is(err, e)),
        },
{
    reveal(finish_result);
}

proof fn lemma_long_pairs_len(pos: Seq<Option<u32>>, ps: Seq<(i32, Label)>, origin: u32)
    ensures
        long_pairs(pos, ps, origin) matches Ok(s) ==> s.len() == ps.len(),
    decreases ps.len(),
{
    if ps.len() > 0 {
        lemma_long_pairs_len(pos, ps.drop_last(), origin);
    }
}

/// The bytes of an op that interns a constant are as many as its size.
proof fn lemma_pool_op_len(op: Op, origin: u32, pos: Seq<Option<u32>>, pool: PoolView, at: nat)
    requires
        op is Ldc || op is Field || op is Invoke || op is InvokeDynamic || op is ClassRef || op is Multianewarray,
    ensures
        op_emit(op, origin, pos, pool, at) matches Ok((_, b)) ==> b.len() == op_size(op, at, pool),
{
    match op {
        Op::Ldc(v) => {
            let (s, wide) = ldc_step(v, pool);
            if let Ok((_, i)) = s {
                lemma_encoding_matches_size(Instruction::Ldc2W(i as u16), at);
                lemma_encoding_matches_size(Instruction::LdcW(i as u16), at);
            }
        },
        Op::Field { op: fop, class, name, desc } => {
            if let Ok((_, i)) = intern_member_spec(pool, MemberKind::Field, class@, name@, desc@) {
                lemma_encoding_matches_size(field_instruction(fop, i as u16), at);
            }
        },
        Op::Invoke { op: iop, class, name, desc } => {
            if let Ok((_, i)) = intern_member_spec(pool, MemberKind::InterfaceMethod, class@, name@, desc@) {
                if let Ok(c) = interface_count_spec(desc@) {
                    lemma_encoding_matches_size(Instruction::Invokeinterface { index: i as u16, count: c }, at);
                }
            }
            if let Ok((_, i)) = intern_member_spec(pool, MemberKind::Method, class@, name@, desc@) {
                lemma_encoding_matches_size(invoke_instruction(iop, i as u16), at);
            }
        },
        Op::InvokeDynamic { bootstrap_method_attr_index, name, desc } => {
            if let Ok((_, i)) = intern_dynamic_spec(pool, true, bootstrap_method_attr_index, name@, desc@) {
                lemma_encoding_matches_size(Instruction::Invokedynamic(i as u16), at);
            }
        },
        Op::ClassRef { op: cop, class } => {
            if let Ok((_, i)) = intern_class_spec(pool, class@) {
                lemma_encoding_matches_size(class_instruction(cop, i as u16), at);
            }
        },
        Op::Multianewarray { class, dimensions } => {
            if let Ok((_, i)) = intern_class_spec(pool, class@) {
                lemma_encoding_matches_size(Instruction::Multianewarray { index: i as u16, dimensions }, at);
            }
        },
        _ => {},
    }
}

/// The bytes of a branch op are as many as its size.
proof fn lemma_branch_op_len(op: Op, origin: u32, pos: Seq<Option<u32>>, pool: PoolView, at: nat)
    requires
        op is Branch || op is GotoW || op is JsrW,
    ensures
        op_emit(op, origin, pos, pool, at) matches Ok((_, b)) ==> b.len() == op_size(op, at, pool),
{
    match op {
        Op::Branch { kind, target } => {
            if let Ok(o) = short_offset(pos, target, origin) {
                lemma_encoding_matches_size(branch_instruction(kind, o), at);
            }
        },
        Op::GotoW(target) => {
            if let Ok(o) = long_offset(pos, target, origin) {
                lemma_encoding_matches_size(Instruction::GotoW(o), at);
            }
        },
        Op::JsrW(target) => {
            if let Ok(o) = long_offset(pos, target, origin) {
                lemma_encoding_matches_size(Instruction::JsrW(o), at);
            }
        },
        _ => {},
    }
}

/// The bytes of a table switch are as many as the size of its op.
proof fn lemma_table_op_len(pos: Seq<Option<u32>>, default: Label, low: i32, cases: Seq<Label>, origin: u32, pool: PoolView, at: nat)
    requires
        16 + 4 * cases.len() + 0x1_0000_0000 <= usize::MAX,
        cases.len() <= i32::MAX ==> i32::MIN <= low + cases.len() - 1 && low + cases.len() <= i32::MAX,
    ensures
        table_emit(pos, default, low, cases, origin, pool, at) matches Ok((_, b))
            ==> b.len() == 1 + switch_pad(at) + 12 + 4 * cases.len(),
{
    lemma_long_offsets_len(pos, cases, origin);
    if let Ok(offs) = long_offsets(pos, cases, origin) {
        lemma_be32_all_len(offs);
    }
}

/// The bytes of a lookup switch op are as many as its size.
proof fn lemma_lookup_op_len(op: Op, origin: u32, pos: Seq<Option<u32>>, pool: PoolView, at: nat)
    requires
        op is Lookupswitch,
    ensures
        op_emit(op, origin, pos, pool, at) matches Ok((_, b)) ==> b.len() == op_size(op, at, pool),
{
    if let Op::Lookupswitch { default, pairs } = op {
        lemma_long_pairs_len(pos, pairs@, origin);
        if let Ok(ps) = long_pairs(pos, pairs@, origin) {
            lemma_pairs_bytes_len(ps);
        }
    }
}

/// The bytes that an op emits are as many as the layout gives it.
proof fn lemma_op_emit_len(op: Op, origin: u32, pos: Seq<Option<u32>>, pool: PoolView, at: nat)
    requires
        op_fits(op),
    ensures
        op_emit(op, origin, pos, pool, at) matches Ok((_, b)) ==> b.len() == op_size(op, at, pool),
{
    match op {
        Op::Raw(ins) => {
            if encodes_ok(ins) {
                lemma_encoding_matches_size(ins, at);
            }
        },
        Op::Branch { .. } | Op::GotoW(_) | Op::JsrW(_) => lemma_branch_op_len(op, origin, pos, pool, at),
        Op::Tableswitch { default, low, cases } => lemma_table_op_len(pos, default, low, cases@, origin, pool, at),
        Op::Lookupswitch { .. } => lemma_lookup_op_len(op, origin, pos, pool, at),
        Op::Placed(_) | Op::LineNumber(_) => {},
        _ => lemma_pool_op_len(op, origin, pos, pool, at),
    }
}

/// Emitting an op that succeeds leaves the pool as `pool_next` says.
proof fn lemma_op_emit_pool(op: Op, origin: u32, pos: Seq<Option<u32>>, pool: PoolView, at: nat)
    ensures
        op_emit(op, origin, pos, pool, at) matches Ok((p, _)) ==> p == pool_next(op, pool),
{
}

/// Emission that got through `n` ops has the pool that interning them in
/// order gives.
proof fn lemma_emit_pool(ops: Seq<Op>, offs: Seq<u32>, pos: Seq<Option<u32>>, pool: PoolView, n: int)
    requires
        0 <= n <= ops.len(),
    ensures
        emit_prefix(ops, offs, pos, pool, n) matches Ok((p, _, _, _)) ==> p == pool_thread(ops, pool, n),
    decreases n,
{
    if n > 0 {
        lemma_emit_pool(ops, offs, pos, pool, n - 1);
        reveal(emit_step);
        if let Ok((p, code, lines, pending)) = emit_prefix(ops, offs, pos, pool, n - 1) {
            lemma_op_emit_pool(ops[n - 1], offs[n - 1], pos, p, code.len());
        }
    }
}

/// The shape of a layout: one offset per op, the first at `pc`, each next
/// one past the size of the op before it, and the total past the last.
proof fn lemma_layout_shape(ops: Seq<Op>, i: int, pc: nat, pool: PoolView)
    requires
        ops_fit(ops),
        0 <= i <= ops.len(),
        pc <= u32::MAX,
        layout_from(ops, i, pc, pool) is Ok,
    ensures
        ({
            let (o, t) = layout_from(ops, i, pc, pool)->Ok_0;
            &&& o.len() == ops.len() - i
            &&& o.len() > 0 ==> o[0] == pc
            &&& forall|j: int| 0 <= j < o.len() - 1 ==> #[trigger] o[j + 1] == o[j] + op_size(ops[i + j], o[j] as nat, pool_thread(ops, pool, i + j))
            &&& o.len() > 0 ==> t == o.last() + op_size(ops.last(), o.last() as nat, pool_thread(ops, pool, ops.len() - 1))
            &&& o.len() == 0 ==> t == pc
        }),
    decreases ops.len() - i,
{
    if i < ops.len() {
        let next = pc + op_size(ops[i], pc, pool_thread(ops, pool, i));
        assert(op_size(ops[i], pc, pool_thread(ops, pool, i)) >= 0) by {
            assert(op_fits(ops[i]));
        }
        assert(next <= u32::MAX) by {
            if next > u32::MAX {
                assert(layout_from(ops, i, pc, pool) is Err);
            }
        }
        lemma_layout_shape(ops, i + 1, next as nat, pool);
        let (o1, t1) = layout_from(ops, i + 1, next as nat, pool)->Ok_0;
        let o = seq![pc as u32] + o1;
        assert forall|j: int| 0 <= j < o.len() - 1 implies #[trigger] o[j + 1] == o[j] + op_size(ops[i + j], o[j] as nat, pool_thread(ops, pool, i + j)) by {
            if j > 0 {
                assert(o[j + 1] == o1[j]);
                assert(o1[(j - 1) + 1] == o1[j - 1] + op_size(ops[(i + 1) + (j - 1)], o1[j - 1] as nat, pool_thread(ops, pool, (i + 1) + (j - 1))));
            }
        }
    }
}

/// The layout that `finish` computes before emitting is where the bytes
/// land: after the first `n` ops the code holds exactly as many bytes as
/// the layout offset of op `n` (or the layout total after the last op), so
/// every branch offset taken from the layout is an offset in the code array.
pub proof fn lemma_layout_matches_emission(ops: Seq<Op>, pos: Seq<Option<u32>>, pool: PoolView, n: int)
    requires
        ops_fit(ops),
        layout_from(ops, 0, 0, pool) is Ok,
        0 <= n <= ops.len(),
    ensures
        ({
            let (offs, total) = layout_from(ops, 0, 0, pool)->Ok_0;
            emit_prefix(ops, offs, pos, pool, n) matches Ok((_, code, _, _))
                ==> code.len() == if n < ops.len() { offs[n] as int } else { total as int }
        }),
    decreases n,
{
    lemma_layout_shape(ops, 0, 0, pool);
    let (offs, total) = layout_from(ops, 0, 0, pool)->Ok_0;
    if n > 0 {
        lemma_layout_matches_emission(ops, pos, pool, n - 1);
        lemma_emit_pool(ops, offs, pos, pool, n - 1);
        reveal(emit_step);
        if let Ok((p, code, lines, pending)) = emit_prefix(ops, offs, pos, pool, n - 1) {
            lemma_op_emit_len(ops[n - 1], offs[n - 1], pos, p, code.len());
            if n < ops.len() {
                assert(offs[(n - 1) + 1] == offs[n - 1] + op_size(ops[0 + (n - 1)], offs[n - 1] as nat, pool_thread(ops, pool, 0 + (n - 1))));
            }
        }
    }
}

} // verus!

verus! {

/// The most words that `ins` can add to the operand stack: what it pushes
/// less what it pops, where that is positive. An instruction that names a
/// pool entry whose type the instruction alone does not give counts at the
/// most it can push (two words for a field read or a call).
pub open spec fn raw_growth(ins: Instruction) -> int {
    match ins {
        Instruction::AconstNull { .. }
        | Instruction::IconstM1 { .. }
        | Instruction::Iconst0 { .. }
        | Instruction::Iconst1 { .. }
        | Instruction::Iconst2 { .. }
        | Instruction::Iconst3 { .. }
        | Instruction::Iconst4 { .. }
        | Instruction::Iconst5 { .. }
        | Instruction::Fconst0 { .. }
        | Instruction::Fconst1 { .. }
        | Instruction::Fconst2 { .. }
        | Instruction::Bipush { .. }
        | Instruction::Sipush { .. }
        | Instruction::Ldc { .. }
        | Instruction::LdcW { .. }
        | Instruction::Iload { .. }
        | Instruction::Fload { .. }
        | Instruction::Aload { .. }
        | Instruction::Iload0 { .. }
        | Instruction::Iload1 { .. }
        | Instruction::Iload2 { .. }
        | Instruction::Iload3 { .. }
        | Instruction::Fload0 { .. }
        | Instruction::Fload1 { .. }
        | Instruction::Fload2 { .. }
        | Instruction::Fload3 { .. }
        | Instruction::Aload0 { .. }
        | Instruction::Aload1 { .. }
        | Instruction::Aload2 { .. }
        | Instruction::Aload3 { .. }
        | Instruction::Dup { .. }
        | Instruction::DupX1 { .. }
        | Instruction::DupX2 { .. }
        | Instruction::I2l { .. }
        | Instruction::I2d { .. }
        | Instruction::F2l { .. }
        | Instruction::F2d { .. }
        | Instruction::Jsr { .. }
        | Instruction::JsrW { .. }
        | Instruction::New { .. }
        | Instruction::Getfield { .. } => 1,
        Instruction::Lconst0 { .. }
        | Instruction::Lconst1 { .. }
        | Instruction::Dconst0 { .. }
        | Instruction::Dconst1 { .. }
        | Instruction::Ldc2W { .. }
        | Instruction::Lload { .. }
        | Instruction::Dload { .. }
        | Instruction::Lload0 { .. }
        | Instruction::Lload1 { .. }
        | Instruction::Lload2 { .. }
        | Instruction::Lload3 { .. }
        | Instruction::Dload0 { .. }
        | Instruction::Dload1 { .. }
        | Instruction::Dload2 { .. }
        | Instruction::Dload3 { .. }
        | Instruction::Dup2 { .. }
        | Instruction::Dup2X1 { .. }
        | Instruction::Dup2X2 { .. }
        | Instruction::Getstatic { .. }
        | Instruction::Invokevirtual { .. }
        | Instruction::Invokespecial { .. }
        | Instruction::Invokestatic { .. }
        | Instruction::Invokeinterface { .. }
        | Instruction::Invokedynamic { .. } => 2,
        Instruction::Wide(w) => match w {
            WideInstruction::Iload(_) | WideInstruction::Fload(_) | WideInstruction::Aload(_) => 1,
            WideInstruction::Lload(_) | WideInstruction::Dload(_) => 2,
            _ => 0,
        },
        _ => 0,
    }
}

fn raw_growth_of(ins: &Instruction) -> (g: u32)
    ensures
        g == raw_growth(*ins),
{
    match ins {
        Instruction::AconstNull { .. }
        | Instruction::IconstM1 { .. }
        | Instruction::Iconst0 { .. }
        | Instruction::Iconst1 { .. }
        | Instruction::Iconst2 { .. }
        | Instruction::Iconst3 { .. }
        | Instruction::Iconst4 { .. }
        | Instruction::Iconst5 { .. }
        | Instruction::Fconst0 { .. }
        | Instruction::Fconst1 { .. }
        | Instruction::Fconst2 { .. }
        | Instruction::Bipush { .. }
        | Instruction::Sipush { .. }
        | Instruction::Ldc { .. }
        | Instruction::LdcW { .. }
        | Instruction::Iload { .. }
        | Instruction::Fload { .. }
        | Instruction::Aload { .. }
        | Instruction::Iload0 { .. }
        | Instruction::Iload1 { .. }
        | Instruction::Iload2 { .. }
        | Instruction::Iload3 { .. }
        | Instruction::Fload0 { .. }
        | Instruction::Fload1 { .. }
        | Instruction::Fload2 { .. }
        | Instruction::Fload3 { .. }
        | Instruction::Aload0 { .. }
        | Instruction::Aload1 { .. }
        | Instruction::Aload2 { .. }
        | Instruction::Aload3 { .. }
        | Instruction::Dup { .. }
        | Instruction::DupX1 { .. }
        | Instruction::DupX2 { .. }
        | Instruction::I2l { .. }
        | Instruction::I2d { .. }
        | Instruction::F2l { .. }
        | Instruction::F2d { .. }
        | Instruction::Jsr { .. }
        | Instruction::JsrW { .. }
        | Instruction::New { .. }
        | Instruction::Getfield { .. } => 1,
        Instruction::Lconst0 { .. }
        | Instruction::Lconst1 { .. }
        | Instruction::Dconst0 { .. }
        | Instruction::Dconst1 { .. }
        | Instruction::Ldc2W { .. }
        | Instruction::Lload { .. }
        | Instruction::Dload { .. }
        | Instruction::Lload0 { .. }
        | Instruction::Lload1 { .. }
        | Instruction::Lload2 { .. }
        | Instruction::Lload3 { .. }
        | Instruction::Dload0 { .. }
        | Instruction::Dload1 { .. }
        | Instruction::Dload2 { .. }
        | Instruction::Dload3 { .. }
        | Instruction::Dup2 { .. }
        | Instruction::Dup2X1 { .. }
        | Instruction::Dup2X2 { .. }
        | Instruction::Getstatic { .. }
        | Instruction::Invokevirtual { .. }
        | Instruction::Invokespecial { .. }
        | Instruction::Invokestatic { .. }
        | Instruction::Invokeinterface { .. }
        | Instruction::Invokedynamic { .. } => 2,
        Instruction::Wide(w) => match w {
            WideInstruction::Iload(_) | WideInstruction::Fload(_) | WideInstruction::Aload(_) => 1,
            WideInstruction::Lload(_) | WideInstruction::Dload(_) => 2,
            _ => 0,
        },
        _ => 0,
    }
}

/// Words of a field of descriptor `d`: two for `J` and `D`, else one.
pub open spec fn value_words(d: Seq<char>) -> int {
    if d.len() == 1 && (d[0] == 'J' || d[0] == 'D') { 2 } else { 1 }
}

/// Words of the result of a method of descriptor `d`: none for `V`, two
/// for `J` and `D`, else one.
pub open spec fn result_words(d: Seq<char>) -> int {
    let n = d.len();
    if n >= 2 && d[n - 2] == ')' {
        if d[n - 1] == 'V' { 0 } else if d[n - 1] == 'J' || d[n - 1] == 'D' { 2 } else { 1 }
    } else {
        1
    }
}

/// The most words that `op` can add to the operand stack. A call counts at
/// the words of its result.
pub open spec fn op_growth(op: Op) -> int {
    match op {
        Op::Raw(ins) => raw_growth(ins),
        Op::Ldc(v) => match v {
            LdcValue::Long(_) | LdcValue::Double(_) => 2,
            _ => 1,
        },
        Op::Field { op, desc, .. } => match op {
            FieldOp::GetStatic => value_words(desc@),
            FieldOp::GetField => value_words(desc@) - 1,
            _ => 0,
        },
        Op::Invoke { desc, .. } => result_words(desc@),
        Op::InvokeDynamic { desc, .. } => result_words(desc@),
        Op::ClassRef { op, .. } => if op == ClassRefOp::New { 1 } else { 0 },
        Op::Branch { kind, .. } => if kind == BranchKind::Jsr { 1 } else { 0 },
        Op::JsrW(_) => 1,
        _ => 0,
    }
}

/// What the first `n` ops can add to the operand stack, together.
pub open spec fn growth_sum(ops: Seq<Op>, n: int) -> int
    decreases n,
{
    if n <= 0 { 0 } else { growth_sum(ops, n - 1) + op_growth(ops[n - 1]) }
}

/// The `max_stack` that an unset limit gets: the sum of what every op can
/// add to the operand stack, a ceiling on the depth any path through the
/// code reaches; `u16::MAX` where the sum is larger.
pub open spec fn stack_ceiling(ops: Seq<Op>) -> u16 {
    let s = growth_sum(ops, ops.len() as int);
    if s > u16::MAX { u16::MAX } else { s as u16 }
}

fn value_words_of(d: &str) -> (w: u32)
    ensures
        w == value_words(d@),
{
    let c = chars_of(d);
    if c.len() == 1 && (c[0] == 'J' || c[0] == 'D') { 2 } else { 1 }
}

fn result_words_of(d: &str) -> (w: u32)
    ensures
        w == result_words(d@),
{
    let c = chars_of(d);
    let n = c.len();
    if n >= 2 && c[n - 2] == ')' {
        if c[n - 1] == 'V' { 0 } else if c[n - 1] == 'J' || c[n - 1] == 'D' { 2 } else { 1 }
    } else {
        1
    }
}

fn op_growth_of(op: &Op) -> (g: u32)
    ensures
        g == op_growth(*op),
{
    match op {
        Op::Raw(ins) => raw_growth_of(ins),
        Op::Ldc(v) => match v {
            LdcValue::Long(_) | LdcValue::Double(_) => 2,
            _ => 1,
        },
        Op::Field { op, desc, .. } => match op {
            FieldOp::GetStatic => value_words_of(desc.as_str()),
            FieldOp::GetField => value_words_of(desc.as_str()) - 1,
            _ => 0,
        },
        Op::Invoke { desc, .. } => result_words_of(desc.as_str()),
        Op::InvokeDynamic { desc, .. } => result_words_of(desc.as_str()),
        Op::ClassRef { op, .. } => match op {
            ClassRefOp::New => 1,
            _ => 0,
        },
        Op::Branch { kind, .. } => match kind {
            BranchKind::Jsr => 1,
            _ => 0,
        },
        Op::JsrW(_) => 1,
        _ => 0,
    }
}

fn stack_ceiling_of(ops: &Vec<Op>) -> (m: u16)
    ensures
        m == stack_ceiling(ops@),
{
    let mut sum: u32 = 0;
    let mut i: usize = 0;
    while i < ops.len()
        invariant
            i <= ops@.len(),
            sum == (if growth_sum(ops@, i as int) > u16::MAX { u16::MAX as int } else { growth_sum(ops@, i as int) }),
            forall|k: int| 0 <= k <= i ==> growth_sum(ops@, k) >= 0,
        decreases ops@.len() - i,
    {
        let g = op_growth_of(&ops[i]);
        let next = sum + g;
        sum = if next > 0xFFFF { 0xFFFF } else { next };
        i += 1;
    }
    sum as u16
}

} // verus!

verus! {

proof fn lemma_max_width_ge(ops: Seq<Op>, n: int, k: int)
    requires
        0 <= k < n <= ops.len(),
    ensures
        max_local_width(ops, n) >= local_width(ops[k]),
    decreases n,
{
    if k < n - 1 {
        lemma_max_width_ge(ops, n - 1, k);
    }
}

proof fn lemma_max_width_fits(ops: Seq<Op>, n: int)
    requires
        ops_fit(ops),
        0 <= n <= ops.len(),
    ensures
        0 <= max_local_width(ops, n) <= u16::MAX,
    decreases n,
{
    if n > 0 {
        lemma_max_width_fits(ops, n - 1);
        assert(op_fits(ops[n - 1]));
    }
}

/// Without a `max_locals` set, a finished body has room for every local it
/// touches: at least `min_locals` slots, `n + 1` for a one-word local `n`,
/// and `n + 2` for a `long` or `double` at `n`, which takes slots `n` and
/// `n + 1`.
pub proof fn lemma_max_locals_cover_locals(
    cb: CodeBuilder,
    pool: PoolView,
    min_locals: u16,
    pool_after: PoolView,
    c: CodeAttribute,
    k: int,
)
    requires
        finish_result(cb, pool, min_locals, pool_after, Ok(c)),
        cb.locals_limit() is None,
        ops_fit(cb.ops()),
        0 <= k < cb.ops().len(),
    ensures
        c.max_locals >= min_locals,
        cb.ops()[k] matches Op::Raw(Instruction::Lload(n)) ==> c.max_locals >= n + 2,
        cb.ops()[k] == Op::Raw(Instruction::Lload0) ==> c.max_locals >= 2,
        cb.ops()[k] == Op::Raw(Instruction::Lload1) ==> c.max_locals >= 3,
        cb.ops()[k] == Op::Raw(Instruction::Lload2) ==> c.max_locals >= 4,
        cb.ops()[k] == Op::Raw(Instruction::Lload3) ==> c.max_locals >= 5,
        cb.ops()[k] matches Op::Raw(Instruction::Wide(WideInstruction::Lload(n))) ==> c.max_locals >= n + 2,
        cb.ops()[k] matches Op::Raw(Instruction::Dload(n)) ==> c.max_locals >= n + 2,
        cb.ops()[k] == Op::Raw(Instruction::Dload0) ==> c.max_locals >= 2,
        cb.ops()[k] == Op::Raw(Instruction::Dload1) ==> c.max_locals >= 3,
        cb.ops()[k] == Op::Raw(Instruction::Dload2) ==> c.max_locals >= 4,
        cb.ops()[k] == Op::Raw(Instruction::Dload3) ==> c.max_locals >= 5,
        cb.ops()[k] matches Op::Raw(Instruction::Wide(WideInstruction::Dload(n))) ==> c.max_locals >= n + 2,
        cb.ops()[k] matches Op::Raw(Instruction::Lstore(n)) ==> c.max_locals >= n + 2,
        cb.ops()[k] == Op::Raw(Instruction::Lstore0) ==> c.max_locals >= 2,
        cb.ops()[k] == Op::Raw(Instruction::Lstore1) ==> c.max_locals >= 3,
        cb.ops()[k] == Op::Raw(Instruction::Lstore2) ==> c.max_locals >= 4,
        cb.ops()[k] == Op::Raw(Instruction::Lstore3) ==> c.max_locals >= 5,
        cb.ops()[k] matches Op::Raw(Instruction::Wide(WideInstruction::Lstore(n))) ==> c.max_locals >= n + 2,
        cb.ops()[k] matches Op::Raw(Instruction::Dstore(n)) ==> c.max_locals >= n + 2,
        cb.ops()[k] == Op::Raw(Instruction::Dstore0) ==> c.max_locals >= 2,
        cb.ops()[k] == Op::Raw(Instruction::Dstore1) ==> c.max_locals >= 3,
        cb.ops()[k] == Op::Raw(Instruction::Dstore2) ==> c.max_locals >= 4,
        cb.ops()[k] == Op::Raw(Instruction::Dstore3) ==> c.max_locals >= 5,
        cb.ops()[k] matches Op::Raw(Instruction::Wide(WideInstruction::Dstore(n))) ==> c.max_locals >= n + 2,
        cb.ops()[k] matches Op::Raw(Instruction::Iload(n)) ==> c.max_locals >= n + 1,
        cb.ops()[k] matches Op::Raw(Instruction::Wide(WideInstruction::Iload(n))) ==> c.max_locals >= n + 1,
        cb.ops()[k] matches Op::Raw(Instruction::Fload(n)) ==> c.max_locals >= n + 1,
        cb.ops()[k] matches Op::Raw(Instruction::Wide(WideInstruction::Fload(n))) ==> c.max_locals >= n + 1,
        cb.ops()[k] matches Op::Raw(Instruction::Aload(n)) ==> c.max_locals >= n + 1,
        cb.ops()[k] matches Op::Raw(Instruction::Wide(WideInstruction::Aload(n))) ==> c.max_locals >= n + 1,
        cb.ops()[k] matches Op::Raw(Instruction::Istore(n)) ==> c.max_locals >= n + 1,
        cb.ops()[k] matches Op::Raw(Instruction::Wide(WideInstruction::Istore(n))) ==> c.max_locals >= n + 1,
        cb.ops()[k] matches Op::Raw(Instruction::Fstore(n)) ==> c.max_locals >= n + 1,
        cb.ops()[k] matches Op::Raw(Instruction::Wide(WideInstruction::Fstore(n))) ==> c.max_locals >= n + 1,
        cb.ops()[k] matches Op::Raw(Instruction::Astore(n)) ==> c.max_locals >= n + 1,
        cb.ops()[k] matches Op::Raw(Instruction::Wide(WideInstruction::Astore(n))) ==> c.max_locals >= n + 1,
{
    reveal(finish_result);
    let ops = cb.ops();
    lemma_max_width_ge(ops, ops.len() as int, k);
    lemma_max_width_fits(ops, ops.len() as int);
    assert(c.max_locals == finished_locals(cb, min_locals));
}

/// The `iinc` that the builder records adds exactly the requested delta to
/// the requested local: its operands read back as `index` and `delta`, and
/// the one-byte form is used only when both fit it.
pub proof fn lemma_iinc_operands(index: u16, delta: i16)
    ensures
        match iinc_instruction(index, delta) {
            Instruction::Iinc { index: i, delta: d } => i as int == index as int && d as int == delta as int
                && index < 256 && -128 <= delta <= 127,
            Instruction::Wide(WideInstruction::Iinc { index: i, delta: d }) => i == index && d == delta
                && !(index < 256 && -128 <= delta <= 127),
            _ => false,
        },
{
}

} // verus!

verus! {

/// Without a `max_locals` set, a finished body has at least `min_locals`
/// local slots.
pub proof fn lemma_max_locals_floor(cb: CodeBuilder, pool: PoolView, min_locals: u16, pool_after: PoolView, c: CodeAttribute)
    requires
        finish_result(cb, pool, min_locals, pool_after, Ok(c)),
        cb.locals_limit() is None,
        ops_fit(cb.ops()),
    ensures
        c.max_locals >= min_locals,
{
    reveal(finish_result);
    lemma_max_width_fits(cb.ops(), cb.ops().len() as int);
    assert(c.max_locals == finished_locals(cb, min_locals));
}

} // verus!
