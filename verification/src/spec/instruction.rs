//! JVM bytecode instructions.
//!
//! The [`Instruction`] enum is exhaustive: every opcode defined by the
//! specification, including the reserved `breakpoint`/`impdep1`/`impdep2`
//! opcodes, has a dedicated variant. Each instruction knows how to encode
//! itself into the `code` byte array of a `Code` attribute.
//!
//! Branch instructions carry already-resolved byte offsets (`i16` for short
//! branches, `i32` for `goto_w`/`jsr_w`).
use vstd::prelude::*;
use crate::spec::error::{Error, Result};
use crate::spec::wire::{be16, be32, bits16, bits32, bits8, i16_bits, i32_bits, i8_bits, push_u16_be, push_u32_be};

verus! {

/// `newarray` atype operand.
#[derive(Debug, Clone, Copy, PartialEq, Eq, Hash, Structural)]
pub enum ArrayType {
    Boolean,
    Char,
    Float,
    Double,
    Byte,
    Short,
    Int,
    Long,
}

pub open spec fn array_type_byte(a: ArrayType) -> u8 {
    match a {
        ArrayType::Boolean => 4,
        ArrayType::Char => 5,
        ArrayType::Float => 6,
        ArrayType::Double => 7,
        ArrayType::Byte => 8,
        ArrayType::Short => 9,
        ArrayType::Int => 10,
        ArrayType::Long => 11,
    }
}

impl ArrayType {
    /// The atype byte.
    pub fn to_u8(self) -> (b: u8)
        ensures
            b == array_type_byte(self),
    {
        match self {
            ArrayType::Boolean => 4,
            ArrayType::Char => 5,
            ArrayType::Float => 6,
            ArrayType::Double => 7,
            ArrayType::Byte => 8,
            ArrayType::Short => 9,
            ArrayType::Int => 10,
            ArrayType::Long => 11,
        }
    }
}

/// Operand payload of the `wide` prefix instruction.
#[derive(Debug, Clone, Copy, PartialEq, Eq, Hash, Structural)]
pub enum WideInstruction {
    Iload(u16),
    Lload(u16),
    Fload(u16),
    Dload(u16),
    Aload(u16),
    Istore(u16),
    Lstore(u16),
    Fstore(u16),
    Dstore(u16),
    Astore(u16),
    Ret(u16),
    Iinc { index: u16, delta: i16 },
}

/// Opcode of the instruction that `wide` modifies.
pub open spec fn wide_inner_opcode(w: WideInstruction) -> u8 {
    match w {
        WideInstruction::Iload(_) => 0x15,
        WideInstruction::Lload(_) => 0x16,
        WideInstruction::Fload(_) => 0x17,
        WideInstruction::Dload(_) => 0x18,
        WideInstruction::Aload(_) => 0x19,
        WideInstruction::Istore(_) => 0x36,
        WideInstruction::Lstore(_) => 0x37,
        WideInstruction::Fstore(_) => 0x38,
        WideInstruction::Dstore(_) => 0x39,
        WideInstruction::Astore(_) => 0x3a,
        WideInstruction::Ret(_) => 0xa9,
        WideInstruction::Iinc { .. } => 0x84,
    }
}

/// The local variable index that a `wide` payload names.
pub open spec fn wide_index(w: WideInstruction) -> u16 {
    match w {
        WideInstruction::Iload(i) | WideInstruction::Lload(i) | WideInstruction::Fload(i)
        | WideInstruction::Dload(i) | WideInstruction::Aload(i) | WideInstruction::Istore(i)
        | WideInstruction::Lstore(i) | WideInstruction::Fstore(i) | WideInstruction::Dstore(i)
        | WideInstruction::Astore(i) | WideInstruction::Ret(i) => i,
        WideInstruction::Iinc { index, .. } => index,
    }
}

impl WideInstruction {
    fn inner_opcode(self) -> (b: u8)
        ensures
            b == wide_inner_opcode(self),
    {
        match self {
            WideInstruction::Iload(_) => 0x15,
            WideInstruction::Lload(_) => 0x16,
            WideInstruction::Fload(_) => 0x17,
            WideInstruction::Dload(_) => 0x18,
            WideInstruction::Aload(_) => 0x19,
            WideInstruction::Istore(_) => 0x36,
            WideInstruction::Lstore(_) => 0x37,
            WideInstruction::Fstore(_) => 0x38,
            WideInstruction::Dstore(_) => 0x39,
            WideInstruction::Astore(_) => 0x3a,
            WideInstruction::Ret(_) => 0xa9,
            WideInstruction::Iinc { .. } => 0x84,
        }
    }
}

/// A single JVM instruction.
///
/// All variants carry JVM-native operand representations. Constant pool
/// indices are `u16`, branches are signed offsets relative to the start of
/// the instruction.
#[derive(Debug, Clone, PartialEq, Eq)]
pub enum Instruction {
    Nop,
    AconstNull,
    IconstM1,
    Iconst0,
    Iconst1,
    Iconst2,
    Iconst3,
    Iconst4,
    Iconst5,
    Lconst0,
    Lconst1,
    Fconst0,
    Fconst1,
    Fconst2,
    Dconst0,
    Dconst1,
    Bipush(i8),
    Sipush(i16),
    Ldc(u8),
    LdcW(u16),
    Ldc2W(u16),
    Iload(u8),
    Lload(u8),
    Fload(u8),
    Dload(u8),
    Aload(u8),
    Iload0,
    Iload1,
    Iload2,
    Iload3,
    Lload0,
    Lload1,
    Lload2,
    Lload3,
    Fload0,
    Fload1,
    Fload2,
    Fload3,
    Dload0,
    Dload1,
    Dload2,
    Dload3,
    Aload0,
    Aload1,
    Aload2,
    Aload3,
    Iaload,
    Laload,
    Faload,
    Daload,
    Aaload,
    Baload,
    Caload,
    Saload,
    Istore(u8),
    Lstore(u8),
    Fstore(u8),
    Dstore(u8),
    Astore(u8),
    Istore0,
    Istore1,
    Istore2,
    Istore3,
    Lstore0,
    Lstore1,
    Lstore2,
    Lstore3,
    Fstore0,
    Fstore1,
    Fstore2,
    Fstore3,
    Dstore0,
    Dstore1,
    Dstore2,
    Dstore3,
    Astore0,
    Astore1,
    Astore2,
    Astore3,
    Iastore,
    Lastore,
    Fastore,
    Dastore,
    Aastore,
    Bastore,
    Castore,
    Sastore,
    Pop,
    Pop2,
    Dup,
    DupX1,
    DupX2,
    Dup2,
    Dup2X1,
    Dup2X2,
    Swap,
    Iadd,
    Ladd,
    Fadd,
    Dadd,
    Isub,
    Lsub,
    Fsub,
    Dsub,
    Imul,
    Lmul,
    Fmul,
    Dmul,
    Idiv,
    Ldiv,
    Fdiv,
    Ddiv,
    Irem,
    Lrem,
    Frem,
    Drem,
    Ineg,
    Lneg,
    Fneg,
    Dneg,
    Ishl,
    Lshl,
    Ishr,
    Lshr,
    Iushr,
    Lushr,
    Iand,
    Land,
    Ior,
    Lor,
    Ixor,
    Lxor,
    Iinc { index: u8, delta: i8 },
    I2l,
    I2f,
    I2d,
    L2i,
    L2f,
    L2d,
    F2i,
    F2l,
    F2d,
    D2i,
    D2l,
    D2f,
    I2b,
    I2c,
    I2s,
    Lcmp,
    Fcmpl,
    Fcmpg,
    Dcmpl,
    Dcmpg,
    Ifeq(i16),
    Ifne(i16),
    Iflt(i16),
    Ifge(i16),
    Ifgt(i16),
    Ifle(i16),
    IfIcmpeq(i16),
    IfIcmpne(i16),
    IfIcmplt(i16),
    IfIcmpge(i16),
    IfIcmpgt(i16),
    IfIcmple(i16),
    IfAcmpeq(i16),
    IfAcmpne(i16),
    Goto(i16),
    Jsr(i16),
    Ret(u8),
    Tableswitch { default: i32, low: i32, high: i32, offsets: Vec<i32> },
    Lookupswitch { default: i32, pairs: Vec<(i32, i32)> },
    Ireturn,
    Lreturn,
    Freturn,
    Dreturn,
    Areturn,
    Return,
    Getstatic(u16),
    Putstatic(u16),
    Getfield(u16),
    Putfield(u16),
    Invokevirtual(u16),
    Invokespecial(u16),
    Invokestatic(u16),
    Invokeinterface { index: u16, count: u8 },
    Invokedynamic(u16),
    New(u16),
    Newarray(ArrayType),
    Anewarray(u16),
    Arraylength,
    Athrow,
    Checkcast(u16),
    Instanceof(u16),
    Monitorenter,
    Monitorexit,
    Wide(WideInstruction),
    Multianewarray { index: u16, dimensions: u8 },
    Ifnull(i16),
    Ifnonnull(i16),
    GotoW(i32),
    JsrW(i32),
    Breakpoint,
    Impdep1,
    Impdep2,
}

/// Opcode byte written first in the encoded form. For `wide` the outer
/// `0xc4` byte; the modified instruction's own opcode follows it.
pub open spec fn opcode_of(i: Instruction) -> u8 {
    match i {
        Instruction::Nop => 0x00,
        Instruction::AconstNull => 0x01,
        Instruction::IconstM1 => 0x02,
        Instruction::Iconst0 => 0x03,
        Instruction::Iconst1 => 0x04,
        Instruction::Iconst2 => 0x05,
        Instruction::Iconst3 => 0x06,
        Instruction::Iconst4 => 0x07,
        Instruction::Iconst5 => 0x08,
        Instruction::Lconst0 => 0x09,
        Instruction::Lconst1 => 0x0a,
        Instruction::Fconst0 => 0x0b,
        Instruction::Fconst1 => 0x0c,
        Instruction::Fconst2 => 0x0d,
        Instruction::Dconst0 => 0x0e,
        Instruction::Dconst1 => 0x0f,
        Instruction::Bipush(_) => 0x10,
        Instruction::Sipush(_) => 0x11,
        Instruction::Ldc(_) => 0x12,
        Instruction::LdcW(_) => 0x13,
        Instruction::Ldc2W(_) => 0x14,
        Instruction::Iload(_) => 0x15,
        Instruction::Lload(_) => 0x16,
        Instruction::Fload(_) => 0x17,
        Instruction::Dload(_) => 0x18,
        Instruction::Aload(_) => 0x19,
        Instruction::Iload0 => 0x1a,
        Instruction::Iload1 => 0x1b,
        Instruction::Iload2 => 0x1c,
        Instruction::Iload3 => 0x1d,
        Instruction::Lload0 => 0x1e,
        Instruction::Lload1 => 0x1f,
        Instruction::Lload2 => 0x20,
        Instruction::Lload3 => 0x21,
        Instruction::Fload0 => 0x22,
        Instruction::Fload1 => 0x23,
        Instruction::Fload2 => 0x24,
        Instruction::Fload3 => 0x25,
        Instruction::Dload0 => 0x26,
        Instruction::Dload1 => 0x27,
        Instruction::Dload2 => 0x28,
        Instruction::Dload3 => 0x29,
        Instruction::Aload0 => 0x2a,
        Instruction::Aload1 => 0x2b,
        Instruction::Aload2 => 0x2c,
        Instruction::Aload3 => 0x2d,
        Instruction::Iaload => 0x2e,
        Instruction::Laload => 0x2f,
        Instruction::Faload => 0x30,
        Instruction::Daload => 0x31,
        Instruction::Aaload => 0x32,
        Instruction::Baload => 0x33,
        Instruction::Caload => 0x34,
        Instruction::Saload => 0x35,
        Instruction::Istore(_) => 0x36,
        Instruction::Lstore(_) => 0x37,
        Instruction::Fstore(_) => 0x38,
        Instruction::Dstore(_) => 0x39,
        Instruction::Astore(_) => 0x3a,
        Instruction::Istore0 => 0x3b,
        Instruction::Istore1 => 0x3c,
        Instruction::Istore2 => 0x3d,
        Instruction::Istore3 => 0x3e,
        Instruction::Lstore0 => 0x3f,
        Instruction::Lstore1 => 0x40,
        Instruction::Lstore2 => 0x41,
        Instruction::Lstore3 => 0x42,
        Instruction::Fstore0 => 0x43,
        Instruction::Fstore1 => 0x44,
        Instruction::Fstore2 => 0x45,
        Instruction::Fstore3 => 0x46,
        Instruction::Dstore0 => 0x47,
        Instruction::Dstore1 => 0x48,
        Instruction::Dstore2 => 0x49,
        Instruction::Dstore3 => 0x4a,
        Instruction::Astore0 => 0x4b,
        Instruction::Astore1 => 0x4c,
        Instruction::Astore2 => 0x4d,
        Instruction::Astore3 => 0x4e,
        Instruction::Iastore => 0x4f,
        Instruction::Lastore => 0x50,
        Instruction::Fastore => 0x51,
        Instruction::Dastore => 0x52,
        Instruction::Aastore => 0x53,
        Instruction::Bastore => 0x54,
        Instruction::Castore => 0x55,
        Instruction::Sastore => 0x56,
        Instruction::Pop => 0x57,
        Instruction::Pop2 => 0x58,
        Instruction::Dup => 0x59,
        Instruction::DupX1 => 0x5a,
        Instruction::DupX2 => 0x5b,
        Instruction::Dup2 => 0x5c,
        Instruction::Dup2X1 => 0x5d,
        Instruction::Dup2X2 => 0x5e,
        Instruction::Swap => 0x5f,
        Instruction::Iadd => 0x60,
        Instruction::Ladd => 0x61,
        Instruction::Fadd => 0x62,
        Instruction::Dadd => 0x63,
        Instruction::Isub => 0x64,
        Instruction::Lsub => 0x65,
        Instruction::Fsub => 0x66,
        Instruction::Dsub => 0x67,
        Instruction::Imul => 0x68,
        Instruction::Lmul => 0x69,
        Instruction::Fmul => 0x6a,
        Instruction::Dmul => 0x6b,
        Instruction::Idiv => 0x6c,
        Instruction::Ldiv => 0x6d,
        Instruction::Fdiv => 0x6e,
        Instruction::Ddiv => 0x6f,
        Instruction::Irem => 0x70,
        Instruction::Lrem => 0x71,
        Instruction::Frem => 0x72,
        Instruction::Drem => 0x73,
        Instruction::Ineg => 0x74,
        Instruction::Lneg => 0x75,
        Instruction::Fneg => 0x76,
        Instruction::Dneg => 0x77,
        Instruction::Ishl => 0x78,
        Instruction::Lshl => 0x79,
        Instruction::Ishr => 0x7a,
        Instruction::Lshr => 0x7b,
        Instruction::Iushr => 0x7c,
        Instruction::Lushr => 0x7d,
        Instruction::Iand => 0x7e,
        Instruction::Land => 0x7f,
        Instruction::Ior => 0x80,
        Instruction::Lor => 0x81,
        Instruction::Ixor => 0x82,
        Instruction::Lxor => 0x83,
        Instruction::Iinc { .. } => 0x84,
        Instruction::I2l => 0x85,
        Instruction::I2f => 0x86,
        Instruction::I2d => 0x87,
        Instruction::L2i => 0x88,
        Instruction::L2f => 0x89,
        Instruction::L2d => 0x8a,
        Instruction::F2i => 0x8b,
        Instruction::F2l => 0x8c,
        Instruction::F2d => 0x8d,
        Instruction::D2i => 0x8e,
        Instruction::D2l => 0x8f,
        Instruction::D2f => 0x90,
        Instruction::I2b => 0x91,
        Instruction::I2c => 0x92,
        Instruction::I2s => 0x93,
        Instruction::Lcmp => 0x94,
        Instruction::Fcmpl => 0x95,
        Instruction::Fcmpg => 0x96,
        Instruction::Dcmpl => 0x97,
        Instruction::Dcmpg => 0x98,
        Instruction::Ifeq(_) => 0x99,
        Instruction::Ifne(_) => 0x9a,
        Instruction::Iflt(_) => 0x9b,
        Instruction::Ifge(_) => 0x9c,
        Instruction::Ifgt(_) => 0x9d,
        Instruction::Ifle(_) => 0x9e,
        Instruction::IfIcmpeq(_) => 0x9f,
        Instruction::IfIcmpne(_) => 0xa0,
        Instruction::IfIcmplt(_) => 0xa1,
        Instruction::IfIcmpge(_) => 0xa2,
        Instruction::IfIcmpgt(_) => 0xa3,
        Instruction::IfIcmple(_) => 0xa4,
        Instruction::IfAcmpeq(_) => 0xa5,
        Instruction::IfAcmpne(_) => 0xa6,
        Instruction::Goto(_) => 0xa7,
        Instruction::Jsr(_) => 0xa8,
        Instruction::Ret(_) => 0xa9,
        Instruction::Tableswitch { .. } => 0xaa,
        Instruction::Lookupswitch { .. } => 0xab,
        Instruction::Ireturn => 0xac,
        Instruction::Lreturn => 0xad,
        Instruction::Freturn => 0xae,
        Instruction::Dreturn => 0xaf,
        Instruction::Areturn => 0xb0,
        Instruction::Return => 0xb1,
        Instruction::Getstatic(_) => 0xb2,
        Instruction::Putstatic(_) => 0xb3,
        Instruction::Getfield(_) => 0xb4,
        Instruction::Putfield(_) => 0xb5,
        Instruction::Invokevirtual(_) => 0xb6,
        Instruction::Invokespecial(_) => 0xb7,
        Instruction::Invokestatic(_) => 0xb8,
        Instruction::Invokeinterface { .. } => 0xb9,
        Instruction::Invokedynamic(_) => 0xba,
        Instruction::New(_) => 0xbb,
        Instruction::Newarray(_) => 0xbc,
        Instruction::Anewarray(_) => 0xbd,
        Instruction::Arraylength => 0xbe,
        Instruction::Athrow => 0xbf,
        Instruction::Checkcast(_) => 0xc0,
        Instruction::Instanceof(_) => 0xc1,
        Instruction::Monitorenter => 0xc2,
        Instruction::Monitorexit => 0xc3,
        Instruction::Wide(_) => 0xc4,
        Instruction::Multianewarray { .. } => 0xc5,
        Instruction::Ifnull(_) => 0xc6,
        Instruction::Ifnonnull(_) => 0xc7,
        Instruction::GotoW(_) => 0xc8,
        Instruction::JsrW(_) => 0xc9,
        Instruction::Breakpoint => 0xca,
        Instruction::Impdep1 => 0xfe,
        Instruction::Impdep2 => 0xff,
    }
}

/// Padding that puts a switch's first 32-bit operand on a 4 byte boundary
/// when the opcode sits at `offset`.
pub open spec fn switch_pad(offset: nat) -> int {
    (4 - ((offset + 1) % 4)) % 4
}

/// Size in bytes of the encoded instruction starting at `offset`.
pub open spec fn size_of(i: Instruction, offset: nat) -> int {
    match i {
        Instruction::Bipush(_)
        | Instruction::Ldc(_)
        | Instruction::Iload(_)
        | Instruction::Lload(_)
        | Instruction::Fload(_)
        | Instruction::Dload(_)
        | Instruction::Aload(_)
        | Instruction::Istore(_)
        | Instruction::Lstore(_)
        | Instruction::Fstore(_)
        | Instruction::Dstore(_)
        | Instruction::Astore(_)
        | Instruction::Ret(_)
        | Instruction::Newarray(_) => 2,
        Instruction::Sipush(_)
        | Instruction::LdcW(_)
        | Instruction::Ldc2W(_)
        | Instruction::Iinc { .. }
        | Instruction::Ifeq(_)
        | Instruction::Ifne(_)
        | Instruction::Iflt(_)
        | Instruction::Ifge(_)
        | Instruction::Ifgt(_)
        | Instruction::Ifle(_)
        | Instruction::IfIcmpeq(_)
        | Instruction::IfIcmpne(_)
        | Instruction::IfIcmplt(_)
        | Instruction::IfIcmpge(_)
        | Instruction::IfIcmpgt(_)
        | Instruction::IfIcmple(_)
        | Instruction::IfAcmpeq(_)
        | Instruction::IfAcmpne(_)
        | Instruction::Goto(_)
        | Instruction::Jsr(_)
        | Instruction::Ifnull(_)
        | Instruction::Ifnonnull(_)
        | Instruction::Getstatic(_)
        | Instruction::Putstatic(_)
        | Instruction::Getfield(_)
        | Instruction::Putfield(_)
        | Instruction::Invokevirtual(_)
        | Instruction::Invokespecial(_)
        | Instruction::Invokestatic(_)
        | Instruction::New(_)
        | Instruction::Anewarray(_)
        | Instruction::Checkcast(_)
        | Instruction::Instanceof(_) => 3,
        Instruction::Multianewarray { .. } => 4,
        Instruction::Invokeinterface { .. }
        | Instruction::Invokedynamic(_)
        | Instruction::GotoW(_)
        | Instruction::JsrW(_) => 5,
        Instruction::Wide(w) => if w is Iinc { 6 } else { 4 },
        Instruction::Tableswitch { low, high, .. } => 1 + switch_pad(offset) + 12 + 4 * (high - low + 1),
        Instruction::Lookupswitch { pairs, .. } => 1 + switch_pad(offset) + 8 + 8 * pairs@.len(),
        _ => 1,
    }
}

/// Inputs on which `size` computes without overflow: a table switch's case
/// count `high - low + 1` fits an `i32` and is not negative, and the size
/// and `offset + 1` fit a `usize`.
pub open spec fn size_computable(i: Instruction, offset: nat) -> bool {
    &&& size_of(i, offset) <= usize::MAX
    &&& (i matches Instruction::Tableswitch { low, high, .. } ==> 0 <= high - low + 1 <= i32::MAX)
}

pub open spec fn size_at(i: Instruction, offset: usize) -> int {
    size_of(i, offset as nat)
}

pub open spec fn size_computable_at(i: Instruction, offset: usize) -> bool {
    size_computable(i, offset as nat)
}

/// Big-endian bytes of each 32-bit value, in order.
pub open spec fn be32_all(s: Seq<i32>) -> Seq<u8>
    decreases s.len(),
{
    if s.len() == 0 { Seq::empty() } else { be32_all(s.drop_last()) + be32(bits32(s.last())) }
}

/// Big-endian bytes of each match/offset pair, in order.
pub open spec fn pairs_bytes(s: Seq<(i32, i32)>) -> Seq<u8>
    decreases s.len(),
{
    if s.len() == 0 {
        Seq::empty()
    } else {
        pairs_bytes(s.drop_last()) + be32(bits32(s.last().0)) + be32(bits32(s.last().1))
    }
}

/// `n` zero bytes.
pub open spec fn zeros(n: int) -> Seq<u8> {
    Seq::new(n as nat, |k: int| 0u8)
}

/// Operands of a table switch at `offset`: padding, default, low, high and,
/// when their count is `high - low + 1`, the offsets.
pub open spec fn table_operands(offset: nat, default: i32, low: i32, high: i32, offsets: Seq<i32>) -> Seq<u8> {
    let head = zeros(switch_pad(offset)) + be32(bits32(default)) + be32(bits32(low)) + be32(bits32(high));
    if offsets.len() == high - low + 1 { head + be32_all(offsets) } else { head }
}

/// Operands of a lookup switch at `offset`: padding, default, pair count and pairs.
pub open spec fn lookup_operands(offset: nat, default: i32, pairs: Seq<(i32, i32)>) -> Seq<u8> {
    zeros(switch_pad(offset)) + be32(bits32(default)) + be32((pairs.len() % 0x1_0000_0000) as u32) + pairs_bytes(pairs)
}

/// Whether encoding succeeds: only a table switch whose offset count is not
/// `high - low + 1` is refused.
pub open spec fn encodes_ok(i: Instruction) -> bool {
    match i {
        Instruction::Tableswitch { low, high, offsets, .. } => offsets@.len() == high - low + 1,
        _ => true,
    }
}

/// Operand bytes of a `wide` payload.
pub open spec fn wide_operands(w: WideInstruction) -> Seq<u8> {
    match w {
        WideInstruction::Iinc { index, delta } => be16(index) + be16(bits16(delta)),
        _ => be16(wide_index(w)),
    }
}

/// Bytes following the opcode, for an instruction whose opcode sits at
/// `offset`. A refused table switch stops after its `high` operand.
pub open spec fn operand_bytes(i: Instruction, offset: nat) -> Seq<u8> {
    match i {
        Instruction::Bipush(b) => seq![bits8(b)],
        Instruction::Sipush(s) => be16(bits16(s)),
        Instruction::Ldc(x) => seq![x],
        Instruction::LdcW(x) | Instruction::Ldc2W(x) => be16(x),
        Instruction::Iload(x)
        | Instruction::Lload(x)
        | Instruction::Fload(x)
        | Instruction::Dload(x)
        | Instruction::Aload(x)
        | Instruction::Istore(x)
        | Instruction::Lstore(x)
        | Instruction::Fstore(x)
        | Instruction::Dstore(x)
        | Instruction::Astore(x)
        | Instruction::Ret(x) => seq![x],
        Instruction::Iinc { index, delta } => seq![index, bits8(delta)],
        Instruction::Ifeq(b)
        | Instruction::Ifne(b)
        | Instruction::Iflt(b)
        | Instruction::Ifge(b)
        | Instruction::Ifgt(b)
        | Instruction::Ifle(b)
        | Instruction::IfIcmpeq(b)
        | Instruction::IfIcmpne(b)
        | Instruction::IfIcmplt(b)
        | Instruction::IfIcmpge(b)
        | Instruction::IfIcmpgt(b)
        | Instruction::IfIcmple(b)
        | Instruction::IfAcmpeq(b)
        | Instruction::IfAcmpne(b)
        | Instruction::Goto(b)
        | Instruction::Jsr(b)
        | Instruction::Ifnull(b)
        | Instruction::Ifnonnull(b) => be16(bits16(b)),
        Instruction::Tableswitch { default, low, high, offsets } => table_operands(offset, default, low, high, offsets@),
        Instruction::Lookupswitch { default, pairs } => lookup_operands(offset, default, pairs@),
        Instruction::Getstatic(x)
        | Instruction::Putstatic(x)
        | Instruction::Getfield(x)
        | Instruction::Putfield(x)
        | Instruction::Invokevirtual(x)
        | Instruction::Invokespecial(x)
        | Instruction::Invokestatic(x)
        | Instruction::New(x)
        | Instruction::Anewarray(x)
        | Instruction::Checkcast(x)
        | Instruction::Instanceof(x) => be16(x),
        Instruction::Invokeinterface { index, count } => be16(index) + seq![count, 0u8],
        Instruction::Invokedynamic(x) => be16(x) + seq![0u8, 0u8],
        Instruction::Newarray(a) => seq![array_type_byte(a)],
        Instruction::Multianewarray { index, dimensions } => be16(index) + seq![dimensions],
        Instruction::GotoW(o) | Instruction::JsrW(o) => be32(bits32(o)),
        Instruction::Wide(w) => seq![wide_inner_opcode(w)] + wide_operands(w),
        _ => Seq::empty(),
    }
}

/// Encoded bytes of the instruction whose opcode sits at `offset`.
pub open spec fn encoding_of(i: Instruction, offset: nat) -> Seq<u8> {
    seq![opcode_of(i)] + operand_bytes(i, offset)
}

/// The bytes of a table switch: its opcode, then its operands.
pub proof fn lemma_table_encoding(i: Instruction, offset: nat)
    ensures
        i matches Instruction::Tableswitch { default, low, high, offsets }
            ==> encoding_of(i, offset) == seq![0xaau8] + table_operands(offset, default, low, high, offsets@),
{
}

impl Instruction {
    /// Opcode byte written first in the encoded form. For `wide` the outer
    /// `0xc4` byte is returned; the modified instruction uses its own opcode
    /// as a second byte.
    pub fn opcode(&self) -> (b: u8)
        ensures
            b == opcode_of(*self),
    {
        match self {
            Instruction::Nop => 0x00,
            Instruction::AconstNull => 0x01,
            Instruction::IconstM1 => 0x02,
            Instruction::Iconst0 => 0x03,
            Instruction::Iconst1 => 0x04,
            Instruction::Iconst2 => 0x05,
            Instruction::Iconst3 => 0x06,
            Instruction::Iconst4 => 0x07,
            Instruction::Iconst5 => 0x08,
            Instruction::Lconst0 => 0x09,
            Instruction::Lconst1 => 0x0a,
            Instruction::Fconst0 => 0x0b,
            Instruction::Fconst1 => 0x0c,
            Instruction::Fconst2 => 0x0d,
            Instruction::Dconst0 => 0x0e,
            Instruction::Dconst1 => 0x0f,
            Instruction::Bipush(_) => 0x10,
            Instruction::Sipush(_) => 0x11,
            Instruction::Ldc(_) => 0x12,
            Instruction::LdcW(_) => 0x13,
            Instruction::Ldc2W(_) => 0x14,
            Instruction::Iload(_) => 0x15,
            Instruction::Lload(_) => 0x16,
            Instruction::Fload(_) => 0x17,
            Instruction::Dload(_) => 0x18,
            Instruction::Aload(_) => 0x19,
            Instruction::Iload0 => 0x1a,
            Instruction::Iload1 => 0x1b,
            Instruction::Iload2 => 0x1c,
            Instruction::Iload3 => 0x1d,
            Instruction::Lload0 => 0x1e,
            Instruction::Lload1 => 0x1f,
            Instruction::Lload2 => 0x20,
            Instruction::Lload3 => 0x21,
            Instruction::Fload0 => 0x22,
            Instruction::Fload1 => 0x23,
            Instruction::Fload2 => 0x24,
            Instruction::Fload3 => 0x25,
            Instruction::Dload0 => 0x26,
            Instruction::Dload1 => 0x27,
            Instruction::Dload2 => 0x28,
            Instruction::Dload3 => 0x29,
            Instruction::Aload0 => 0x2a,
            Instruction::Aload1 => 0x2b,
            Instruction::Aload2 => 0x2c,
            Instruction::Aload3 => 0x2d,
            Instruction::Iaload => 0x2e,
            Instruction::Laload => 0x2f,
            Instruction::Faload => 0x30,
            Instruction::Daload => 0x31,
            Instruction::Aaload => 0x32,
            Instruction::Baload => 0x33,
            Instruction::Caload => 0x34,
            Instruction::Saload => 0x35,
            Instruction::Istore(_) => 0x36,
            Instruction::Lstore(_) => 0x37,
            Instruction::Fstore(_) => 0x38,
            Instruction::Dstore(_) => 0x39,
            Instruction::Astore(_) => 0x3a,
            Instruction::Istore0 => 0x3b,
            Instruction::Istore1 => 0x3c,
            Instruction::Istore2 => 0x3d,
            Instruction::Istore3 => 0x3e,
            Instruction::Lstore0 => 0x3f,
            Instruction::Lstore1 => 0x40,
            Instruction::Lstore2 => 0x41,
            Instruction::Lstore3 => 0x42,
            Instruction::Fstore0 => 0x43,
            Instruction::Fstore1 => 0x44,
            Instruction::Fstore2 => 0x45,
            Instruction::Fstore3 => 0x46,
            Instruction::Dstore0 => 0x47,
            Instruction::Dstore1 => 0x48,
            Instruction::Dstore2 => 0x49,
            Instruction::Dstore3 => 0x4a,
            Instruction::Astore0 => 0x4b,
            Instruction::Astore1 => 0x4c,
            Instruction::Astore2 => 0x4d,
            Instruction::Astore3 => 0x4e,
            Instruction::Iastore => 0x4f,
            Instruction::Lastore => 0x50,
            Instruction::Fastore => 0x51,
            Instruction::Dastore => 0x52,
            Instruction::Aastore => 0x53,
            Instruction::Bastore => 0x54,
            Instruction::Castore => 0x55,
            Instruction::Sastore => 0x56,
            Instruction::Pop => 0x57,
            Instruction::Pop2 => 0x58,
            Instruction::Dup => 0x59,
            Instruction::DupX1 => 0x5a,
            Instruction::DupX2 => 0x5b,
            Instruction::Dup2 => 0x5c,
            Instruction::Dup2X1 => 0x5d,
            Instruction::Dup2X2 => 0x5e,
            Instruction::Swap => 0x5f,
            Instruction::Iadd => 0x60,
            Instruction::Ladd => 0x61,
            Instruction::Fadd => 0x62,
            Instruction::Dadd => 0x63,
            Instruction::Isub => 0x64,
            Instruction::Lsub => 0x65,
            Instruction::Fsub => 0x66,
            Instruction::Dsub => 0x67,
            Instruction::Imul => 0x68,
            Instruction::Lmul => 0x69,
            Instruction::Fmul => 0x6a,
            Instruction::Dmul => 0x6b,
            Instruction::Idiv => 0x6c,
            Instruction::Ldiv => 0x6d,
            Instruction::Fdiv => 0x6e,
            Instruction::Ddiv => 0x6f,
            Instruction::Irem => 0x70,
            Instruction::Lrem => 0x71,
            Instruction::Frem => 0x72,
            Instruction::Drem => 0x73,
            Instruction::Ineg => 0x74,
            Instruction::Lneg => 0x75,
            Instruction::Fneg => 0x76,
            Instruction::Dneg => 0x77,
            Instruction::Ishl => 0x78,
            Instruction::Lshl => 0x79,
            Instruction::Ishr => 0x7a,
            Instruction::Lshr => 0x7b,
            Instruction::Iushr => 0x7c,
            Instruction::Lushr => 0x7d,
            Instruction::Iand => 0x7e,
            Instruction::Land => 0x7f,
            Instruction::Ior => 0x80,
            Instruction::Lor => 0x81,
            Instruction::Ixor => 0x82,
            Instruction::Lxor => 0x83,
            Instruction::Iinc { .. } => 0x84,
            Instruction::I2l => 0x85,
            Instruction::I2f => 0x86,
            Instruction::I2d => 0x87,
            Instruction::L2i => 0x88,
            Instruction::L2f => 0x89,
            Instruction::L2d => 0x8a,
            Instruction::F2i => 0x8b,
            Instruction::F2l => 0x8c,
            Instruction::F2d => 0x8d,
            Instruction::D2i => 0x8e,
            Instruction::D2l => 0x8f,
            Instruction::D2f => 0x90,
            Instruction::I2b => 0x91,
            Instruction::I2c => 0x92,
            Instruction::I2s => 0x93,
            Instruction::Lcmp => 0x94,
            Instruction::Fcmpl => 0x95,
            Instruction::Fcmpg => 0x96,
            Instruction::Dcmpl => 0x97,
            Instruction::Dcmpg => 0x98,
            Instruction::Ifeq(_) => 0x99,
            Instruction::Ifne(_) => 0x9a,
            Instruction::Iflt(_) => 0x9b,
            Instruction::Ifge(_) => 0x9c,
            Instruction::Ifgt(_) => 0x9d,
            Instruction::Ifle(_) => 0x9e,
            Instruction::IfIcmpeq(_) => 0x9f,
            Instruction::IfIcmpne(_) => 0xa0,
            Instruction::IfIcmplt(_) => 0xa1,
            Instruction::IfIcmpge(_) => 0xa2,
            Instruction::IfIcmpgt(_) => 0xa3,
            Instruction::IfIcmple(_) => 0xa4,
            Instruction::IfAcmpeq(_) => 0xa5,
            Instruction::IfAcmpne(_) => 0xa6,
            Instruction::Goto(_) => 0xa7,
            Instruction::Jsr(_) => 0xa8,
            Instruction::Ret(_) => 0xa9,
            Instruction::Tableswitch { .. } => 0xaa,
            Instruction::Lookupswitch { .. } => 0xab,
            Instruction::Ireturn => 0xac,
            Instruction::Lreturn => 0xad,
            Instruction::Freturn => 0xae,
            Instruction::Dreturn => 0xaf,
            Instruction::Areturn => 0xb0,
            Instruction::Return => 0xb1,
            Instruction::Getstatic(_) => 0xb2,
            Instruction::Putstatic(_) => 0xb3,
            Instruction::Getfield(_) => 0xb4,
            Instruction::Putfield(_) => 0xb5,
            Instruction::Invokevirtual(_) => 0xb6,
            Instruction::Invokespecial(_) => 0xb7,
            Instruction::Invokestatic(_) => 0xb8,
            Instruction::Invokeinterface { .. } => 0xb9,
            Instruction::Invokedynamic(_) => 0xba,
            Instruction::New(_) => 0xbb,
            Instruction::Newarray(_) => 0xbc,
            Instruction::Anewarray(_) => 0xbd,
            Instruction::Arraylength => 0xbe,
            Instruction::Athrow => 0xbf,
            Instruction::Checkcast(_) => 0xc0,
            Instruction::Instanceof(_) => 0xc1,
            Instruction::Monitorenter => 0xc2,
            Instruction::Monitorexit => 0xc3,
            Instruction::Wide(_) => 0xc4,
            Instruction::Multianewarray { .. } => 0xc5,
            Instruction::Ifnull(_) => 0xc6,
            Instruction::Ifnonnull(_) => 0xc7,
            Instruction::GotoW(_) => 0xc8,
            Instruction::JsrW(_) => 0xc9,
            Instruction::Breakpoint => 0xca,
            Instruction::Impdep1 => 0xfe,
            Instruction::Impdep2 => 0xff,
        }
    }

    /// Size in bytes of the encoded instruction starting at `offset` within
    /// the enclosing `Code` array. The offset is only consulted for
    /// `tableswitch`/`lookupswitch`, which require 0-3 padding bytes so the
    /// first 32-bit operand lies on a 4 byte boundary.
    pub fn size(&self, offset: usize) -> (n: usize)
        requires
            size_computable_at(*self, offset),
        ensures
            n == size_at(*self, offset),
    {
        match self {
            Instruction::Bipush(_)
            | Instruction::Ldc(_)
            | Instruction::Iload(_)
            | Instruction::Lload(_)
            | Instruction::Fload(_)
            | Instruction::Dload(_)
            | Instruction::Aload(_)
            | Instruction::Istore(_)
            | Instruction::Lstore(_)
            | Instruction::Fstore(_)
            | Instruction::Dstore(_)
            | Instruction::Astore(_)
            | Instruction::Ret(_)
            | Instruction::Newarray(_) => 2,
            Instruction::Sipush(_)
            | Instruction::LdcW(_)
            | Instruction::Ldc2W(_)
            | Instruction::Iinc { .. }
            | Instruction::Ifeq(_)
            | Instruction::Ifne(_)
            | Instruction::Iflt(_)
            | Instruction::Ifge(_)
            | Instruction::Ifgt(_)
            | Instruction::Ifle(_)
            | Instruction::IfIcmpeq(_)
            | Instruction::IfIcmpne(_)
            | Instruction::IfIcmplt(_)
            | Instruction::IfIcmpge(_)
            | Instruction::IfIcmpgt(_)
            | Instruction::IfIcmple(_)
            | Instruction::IfAcmpeq(_)
            | Instruction::IfAcmpne(_)
            | Instruction::Goto(_)
            | Instruction::Jsr(_)
            | Instruction::Ifnull(_)
            | Instruction::Ifnonnull(_)
            | Instruction::Getstatic(_)
            | Instruction::Putstatic(_)
            | Instruction::Getfield(_)
            | Instruction::Putfield(_)
            | Instruction::Invokevirtual(_)
            | Instruction::Invokespecial(_)
            | Instruction::Invokestatic(_)
            | Instruction::New(_)
            | Instruction::Anewarray(_)
            | Instruction::Checkcast(_)
            | Instruction::Instanceof(_) => 3,
            Instruction::Multianewarray { .. } => 4,
            Instruction::Invokeinterface { .. }
            | Instruction::Invokedynamic(_)
            | Instruction::GotoW(_)
            | Instruction::JsrW(_) => 5,
            Instruction::Wide(w) => match w {
                WideInstruction::Iinc { .. } => 6,
                _ => 4,
            },
            Instruction::Tableswitch { low, high, .. } => table_size(offset, *low, *high),
            Instruction::Lookupswitch { pairs, .. } => lookup_size(offset, pairs.len()),
            _ => 1,
        }
    }
}

} // verus!

verus! {

/// Message of the error for a table switch whose offset count is wrong.
pub open spec fn tableswitch_len_message(n: nat) -> Seq<char> {
    "tableswitch offsets length "@ + crate::spec::text::decimal_chars(n) + " != high-low+1"@
}

fn push_be32_all(out: &mut Vec<u8>, s: &Vec<i32>)
    ensures
        final(out)@ == old(out)@ + be32_all(s@),
{
    let mut i: usize = 0;
    while i < s.len()
        invariant
            i <= s@.len(),
            out@ == old(out)@ + be32_all(s@.subrange(0, i as int)),
        decreases s@.len() - i,
    {
        push_u32_be(out, i32_bits(s[i]));
        proof {
            assert(s@.subrange(0, i + 1).drop_last() =~= s@.subrange(0, i as int));
        }
        i += 1;
        assert(out@ =~= old(out)@ + be32_all(s@.subrange(0, i as int)));
    }
    assert(s@.subrange(0, i as int) =~= s@);
}

fn push_pairs(out: &mut Vec<u8>, s: &Vec<(i32, i32)>)
    ensures
        final(out)@ == old(out)@ + pairs_bytes(s@),
{
    let mut i: usize = 0;
    while i < s.len()
        invariant
            i <= s@.len(),
            out@ == old(out)@ + pairs_bytes(s@.subrange(0, i as int)),
        decreases s@.len() - i,
    {
        let (m, off) = s[i];
        push_u32_be(out, i32_bits(m));
        push_u32_be(out, i32_bits(off));
        proof {
            assert(s@.subrange(0, i + 1).drop_last() =~= s@.subrange(0, i as int));
        }
        i += 1;
        assert(out@ =~= old(out)@ + pairs_bytes(s@.subrange(0, i as int)));
    }
    assert(s@.subrange(0, i as int) =~= s@);
}

fn push_zeros(out: &mut Vec<u8>, n: usize)
    ensures
        final(out)@ == old(out)@ + zeros(n as int),
{
    let mut i: usize = 0;
    while i < n
        invariant
            i <= n,
            out@ == old(out)@ + zeros(i as int),
        decreases n - i,
    {
        out.push(0);
        i += 1;
        assert(out@ =~= old(out)@ + zeros(i as int));
    }
}

fn lookup_size(offset: usize, n: usize) -> (r: usize)
    requires
        1 + switch_pad(offset as nat) + 8 + 8 * n <= usize::MAX,
    ensures
        r == 1 + switch_pad(offset as nat) + 8 + 8 * n,
{
    let pad = (4 - ((offset % 4 + 1) % 4)) % 4;
    assert(pad == switch_pad(offset as nat));
    1 + pad + 8 + 8 * n
}

fn table_size(offset: usize, low: i32, high: i32) -> (n: usize)
    requires
        0 <= high - low + 1 <= i32::MAX,
        1 + switch_pad(offset as nat) + 12 + 4 * (high - low + 1) <= usize::MAX,
    ensures
        n == 1 + switch_pad(offset as nat) + 12 + 4 * (high - low + 1),
{
    let pad = (4 - ((offset % 4 + 1) % 4)) % 4;
    assert(pad == switch_pad(offset as nat));
    1 + pad + 12 + 4 * ((high - low + 1) as usize)
}

/// The message of a table switch whose offset count is `n`, wrongly.
fn table_len_message(n: usize) -> (m: String)
    ensures
        m@ == tableswitch_len_message(n as nat),
{
    let mut msg = String::new();
    crate::spec::text::push_str(&mut msg, "tableswitch offsets length ");
    crate::spec::text::push_decimal(&mut msg, n as u64);
    crate::spec::text::push_str(&mut msg, " != high-low+1");
    msg
}

/// Padding, then the default, low and high words of a table switch.
fn encode_table_head(out: &mut Vec<u8>, offset: usize, default: i32, low: i32, high: i32)
    requires
        old(out)@.len() == offset + 1,
    ensures
        final(out)@ == old(out)@ + zeros(switch_pad(offset as nat)) + be32(bits32(default)) + be32(bits32(low))
            + be32(bits32(high)),
{
    let pad = (4 - ((offset % 4 + 1) % 4)) % 4;
    assert(pad == switch_pad(offset as nat));
    push_zeros(out, pad);
    push_u32_be(out, i32_bits(default));
    push_u32_be(out, i32_bits(low));
    push_u32_be(out, i32_bits(high));
    assert(out@ =~= old(out)@ + zeros(switch_pad(offset as nat)) + be32(bits32(default)) + be32(bits32(low))
        + be32(bits32(high)));
}

fn encode_table(out: &mut Vec<u8>, offset: usize, default: i32, low: i32, high: i32, offsets: &Vec<i32>) -> (r: Result<()>)
    requires
        old(out)@.len() == offset + 1,
    ensures
        final(out)@ == old(out)@ + table_operands(offset as nat, default, low, high, offsets@),
        r is Ok <==> offsets@.len() == high - low + 1,
        r matches Err(e) ==> (e matches Error::Encoding(m) && m@ == tableswitch_len_message(offsets@.len())),
{
    encode_table_head(out, offset, default, low, high);
    if offsets.len() as i128 != (high as i128 - low as i128 + 1) {
        let msg = table_len_message(offsets.len());
        proof {
            assert(out@ =~= old(out)@ + table_operands(offset as nat, default, low, high, offsets@));
        }
        return Err(Error::Encoding(msg));
    }
    push_be32_all(out, offsets);
    assert(out@ =~= old(out)@ + table_operands(offset as nat, default, low, high, offsets@));
    Ok(())
}

fn encode_lookup(out: &mut Vec<u8>, offset: usize, default: i32, pairs: &Vec<(i32, i32)>)
    requires
        old(out)@.len() == offset + 1,
    ensures
        final(out)@ == old(out)@ + lookup_operands(offset as nat, default, pairs@),
{
    let pad = (4 - ((offset % 4 + 1) % 4)) % 4;
    assert(pad == switch_pad(offset as nat));
    push_zeros(out, pad);
    push_u32_be(out, i32_bits(default));
    push_u32_be(out, ((pairs.len() as u64) % 0x1_0000_0000) as u32);
    push_pairs(out, pairs);
    assert(out@ =~= old(out)@ + lookup_operands(offset as nat, default, pairs@));
}

impl Instruction {
    /// Append the encoded bytes of this instruction to `out`. The starting
    /// offset is the current `out.len()` (pass a dedicated buffer).
    pub fn encode(&self, out: &mut Vec<u8>) -> (r: Result<()>)
        ensures
            final(out)@ == old(out)@ + encoding_of(*self, old(out)@.len()),
            r is Ok <==> encodes_ok(*self),
            r matches Err(e) ==> (e matches Error::Encoding(m) && (self matches Instruction::Tableswitch { offsets, .. }
                && m@ == tableswitch_len_message(offsets@.len()))),
    {
        let ghost start = out@;
        let offset = out.len();
        out.push(self.opcode());
        let ghost after_op = out@;
        match self {
            Instruction::Bipush(b) => out.push(i8_bits(*b)),
            Instruction::Sipush(v) => push_u16_be(out, i16_bits(*v)),
            Instruction::Ldc(i) => out.push(*i),
            Instruction::LdcW(i) | Instruction::Ldc2W(i) => push_u16_be(out, *i),
            Instruction::Iload(i)
            | Instruction::Lload(i)
            | Instruction::Fload(i)
            | Instruction::Dload(i)
            | Instruction::Aload(i)
            | Instruction::Istore(i)
            | Instruction::Lstore(i)
            | Instruction::Fstore(i)
            | Instruction::Dstore(i)
            | Instruction::Astore(i)
            | Instruction::Ret(i) => out.push(*i),
            Instruction::Iinc { index, delta } => {
                out.push(*index);
                out.push(i8_bits(*delta));
            },
            Instruction::Ifeq(b)
            | Instruction::Ifne(b)
            | Instruction::Iflt(b)
            | Instruction::Ifge(b)
            | Instruction::Ifgt(b)
            | Instruction::Ifle(b)
            | Instruction::IfIcmpeq(b)
            | Instruction::IfIcmpne(b)
            | Instruction::IfIcmplt(b)
            | Instruction::IfIcmpge(b)
            | Instruction::IfIcmpgt(b)
            | Instruction::IfIcmple(b)
            | Instruction::IfAcmpeq(b)
            | Instruction::IfAcmpne(b)
            | Instruction::Goto(b)
            | Instruction::Jsr(b)
            | Instruction::Ifnull(b)
            | Instruction::Ifnonnull(b) => push_u16_be(out, i16_bits(*b)),
            Instruction::Tableswitch { default, low, high, offsets } => {
                let r = encode_table(out, offset, *default, *low, *high, offsets);
                if r.is_err() {
                    proof {
                        assert(out@ =~= start + encoding_of(*self, start.len()));
                    }
                    return r;
                }
            },
            Instruction::Lookupswitch { default, pairs } => encode_lookup(out, offset, *default, pairs),
            Instruction::Getstatic(i)
            | Instruction::Putstatic(i)
            | Instruction::Getfield(i)
            | Instruction::Putfield(i)
            | Instruction::Invokevirtual(i)
            | Instruction::Invokespecial(i)
            | Instruction::Invokestatic(i)
            | Instruction::New(i)
            | Instruction::Anewarray(i)
            | Instruction::Checkcast(i)
            | Instruction::Instanceof(i) => push_u16_be(out, *i),
            Instruction::Invokeinterface { index, count } => {
                push_u16_be(out, *index);
                out.push(*count);
                out.push(0);
            },
            Instruction::Invokedynamic(i) => {
                push_u16_be(out, *i);
                out.push(0);
                out.push(0);
            },
            Instruction::Newarray(a) => out.push(a.to_u8()),
            Instruction::Multianewarray { index, dimensions } => {
                push_u16_be(out, *index);
                out.push(*dimensions);
            },
            Instruction::GotoW(o) | Instruction::JsrW(o) => push_u32_be(out, i32_bits(*o)),
            Instruction::Wide(w) => {
                out.push(w.inner_opcode());
                match w {
                    WideInstruction::Iinc { index, delta } => {
                        push_u16_be(out, *index);
                        push_u16_be(out, i16_bits(*delta));
                    },
                    WideInstruction::Iload(i) | WideInstruction::Lload(i) | WideInstruction::Fload(i)
                    | WideInstruction::Dload(i) | WideInstruction::Aload(i) | WideInstruction::Istore(i)
                    | WideInstruction::Lstore(i) | WideInstruction::Fstore(i) | WideInstruction::Dstore(i)
                    | WideInstruction::Astore(i) | WideInstruction::Ret(i) => push_u16_be(out, *i),
                }
            },
            _ => {},
        }
        proof {
            assert(out@ =~= start + encoding_of(*self, start.len()));
        }
        Ok(())
    }
}

} // verus!

verus! {

pub(crate) proof fn lemma_be32_all_len(s: Seq<i32>)
    ensures
        be32_all(s).len() == 4 * s.len(),
    decreases s.len(),
{
    if s.len() > 0 {
        lemma_be32_all_len(s.drop_last());
    }
}

pub(crate) proof fn lemma_pairs_bytes_len(s: Seq<(i32, i32)>)
    ensures
        pairs_bytes(s).len() == 8 * s.len(),
    decreases s.len(),
{
    if s.len() > 0 {
        lemma_pairs_bytes_len(s.drop_last());
    }
}

/// An instruction that encodes writes exactly `size` bytes, opcode first.
pub proof fn lemma_encoding_matches_size(i: Instruction, offset: nat)
    requires
        encodes_ok(i),
    ensures
        encoding_of(i, offset).len() == size_of(i, offset),
        encoding_of(i, offset)[0] == opcode_of(i),
{
    match i {
        Instruction::Tableswitch { offsets, .. } => lemma_be32_all_len(offsets@),
        Instruction::Lookupswitch { pairs, .. } => lemma_pairs_bytes_len(pairs@),
        _ => {},
    }
}

} // verus!
