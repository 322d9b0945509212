use crustf::spec::error::Error;
use crustf::spec::instruction::{ArrayType, Instruction, WideInstruction};

#[test]
fn opcode_is_consistent_with_size() {
    let cases: &[(Instruction, usize)] = &[
        (Instruction::Nop, 1),
        (Instruction::Bipush(5), 2),
        (Instruction::Sipush(500), 3),
        (Instruction::Iinc { index: 1, delta: 1 }, 3),
        (
            Instruction::Multianewarray {
                index: 1,
                dimensions: 2,
            },
            4,
        ),
        (Instruction::Invokeinterface { index: 1, count: 1 }, 5),
        (Instruction::Invokedynamic(1), 5),
        (Instruction::GotoW(0), 5),
        (Instruction::Wide(WideInstruction::Iload(100)), 4),
        (
            Instruction::Wide(WideInstruction::Iinc { index: 1, delta: 1 }),
            6,
        ),
    ];
    for (ins, expected) in cases {
        assert_eq!(ins.size(0), *expected, "{ins:?}");
    }
}

#[test]
fn tableswitch_padding_depends_on_offset() {
    let ts = Instruction::Tableswitch {
        default: 0,
        low: 0,
        high: 1,
        offsets: vec![10, 20],
    };
    // opcode + pad + 3*4 (default, low, high) + 2*4 (offsets)
    // offset 0: pad=3, total=1+3+12+8=24
    assert_eq!(ts.size(0), 24);
    // offset 3: pad=0, total=1+0+12+8=21
    assert_eq!(ts.size(3), 21);
}

#[test]
fn encode_bipush() {
    let mut buf = Vec::new();
    Instruction::Bipush(-3).encode(&mut buf).unwrap();
    assert_eq!(buf, [0x10, 0xfd]);
}

#[test]
fn encode_invokevirtual() {
    let mut buf = Vec::new();
    Instruction::Invokevirtual(0x1234).encode(&mut buf).unwrap();
    assert_eq!(buf, [0xb6, 0x12, 0x34]);
}

#[test]
fn encode_invokeinterface_trailing_zero() {
    let mut buf = Vec::new();
    Instruction::Invokeinterface {
        index: 0x0102,
        count: 3,
    }
    .encode(&mut buf)
    .unwrap();
    assert_eq!(buf, [0xb9, 0x01, 0x02, 0x03, 0x00]);
}

#[test]
fn encode_tableswitch_pads_to_four() {
    // First emit a nop so the tableswitch sits at offset 1.
    let mut buf = Vec::new();
    Instruction::Nop.encode(&mut buf).unwrap();
    let ts = Instruction::Tableswitch {
        default: 0x0a,
        low: 0,
        high: 1,
        offsets: vec![0x14, 0x1e],
    };
    ts.encode(&mut buf).unwrap();
    // nop + 0xaa + 2 padding bytes (offset 1+1=2, need 2 bytes) + 4*5 bytes.
    assert_eq!(buf[0], 0x00);
    assert_eq!(buf[1], 0xaa);
    assert_eq!(&buf[2..4], &[0, 0]);
    assert_eq!(&buf[4..8], &0x0a_i32.to_be_bytes());
}

#[test]
fn encode_wide_iinc() {
    let mut buf = Vec::new();
    Instruction::Wide(WideInstruction::Iinc {
        index: 0x0102,
        delta: -1,
    })
    .encode(&mut buf)
    .unwrap();
    assert_eq!(buf, [0xc4, 0x84, 0x01, 0x02, 0xff, 0xff]);
}

/// Every encoded instruction starts with its declared opcode and is as
/// long as its declared size.
#[test]
fn every_opcode_round_trips_to_its_leading_byte() {
    let cases: Vec<Instruction> = vec![
        Instruction::Nop,
        Instruction::AconstNull,
        Instruction::IconstM1,
        Instruction::Iconst0,
        Instruction::Iconst1,
        Instruction::Iconst2,
        Instruction::Iconst3,
        Instruction::Iconst4,
        Instruction::Iconst5,
        Instruction::Lconst0,
        Instruction::Lconst1,
        Instruction::Fconst0,
        Instruction::Fconst1,
        Instruction::Fconst2,
        Instruction::Dconst0,
        Instruction::Dconst1,
        Instruction::Bipush(0),
        Instruction::Sipush(0),
        Instruction::Ldc(0),
        Instruction::LdcW(0),
        Instruction::Ldc2W(0),
        Instruction::Iload(0),
        Instruction::Lload(0),
        Instruction::Fload(0),
        Instruction::Dload(0),
        Instruction::Aload(0),
        Instruction::Iload0,
        Instruction::Iload1,
        Instruction::Iload2,
        Instruction::Iload3,
        Instruction::Lload0,
        Instruction::Lload1,
        Instruction::Lload2,
        Instruction::Lload3,
        Instruction::Fload0,
        Instruction::Fload1,
        Instruction::Fload2,
        Instruction::Fload3,
        Instruction::Dload0,
        Instruction::Dload1,
        Instruction::Dload2,
        Instruction::Dload3,
        Instruction::Aload0,
        Instruction::Aload1,
        Instruction::Aload2,
        Instruction::Aload3,
        Instruction::Iaload,
        Instruction::Laload,
        Instruction::Faload,
        Instruction::Daload,
        Instruction::Aaload,
        Instruction::Baload,
        Instruction::Caload,
        Instruction::Saload,
        Instruction::Istore(0),
        Instruction::Lstore(0),
        Instruction::Fstore(0),
        Instruction::Dstore(0),
        Instruction::Astore(0),
        Instruction::Istore0,
        Instruction::Istore1,
        Instruction::Istore2,
        Instruction::Istore3,
        Instruction::Lstore0,
        Instruction::Lstore1,
        Instruction::Lstore2,
        Instruction::Lstore3,
        Instruction::Fstore0,
        Instruction::Fstore1,
        Instruction::Fstore2,
        Instruction::Fstore3,
        Instruction::Dstore0,
        Instruction::Dstore1,
        Instruction::Dstore2,
        Instruction::Dstore3,
        Instruction::Astore0,
        Instruction::Astore1,
        Instruction::Astore2,
        Instruction::Astore3,
        Instruction::Iastore,
        Instruction::Lastore,
        Instruction::Fastore,
        Instruction::Dastore,
        Instruction::Aastore,
        Instruction::Bastore,
        Instruction::Castore,
        Instruction::Sastore,
        Instruction::Pop,
        Instruction::Pop2,
        Instruction::Dup,
        Instruction::DupX1,
        Instruction::DupX2,
        Instruction::Dup2,
        Instruction::Dup2X1,
        Instruction::Dup2X2,
        Instruction::Swap,
        Instruction::Iadd,
        Instruction::Ladd,
        Instruction::Fadd,
        Instruction::Dadd,
        Instruction::Isub,
        Instruction::Lsub,
        Instruction::Fsub,
        Instruction::Dsub,
        Instruction::Imul,
        Instruction::Lmul,
        Instruction::Fmul,
        Instruction::Dmul,
        Instruction::Idiv,
        Instruction::Ldiv,
        Instruction::Fdiv,
        Instruction::Ddiv,
        Instruction::Irem,
        Instruction::Lrem,
        Instruction::Frem,
        Instruction::Drem,
        Instruction::Ineg,
        Instruction::Lneg,
        Instruction::Fneg,
        Instruction::Dneg,
        Instruction::Ishl,
        Instruction::Lshl,
        Instruction::Ishr,
        Instruction::Lshr,
        Instruction::Iushr,
        Instruction::Lushr,
        Instruction::Iand,
        Instruction::Land,
        Instruction::Ior,
        Instruction::Lor,
        Instruction::Ixor,
        Instruction::Lxor,
        Instruction::Iinc { index: 0, delta: 0 },
        Instruction::I2l,
        Instruction::I2f,
        Instruction::I2d,
        Instruction::L2i,
        Instruction::L2f,
        Instruction::L2d,
        Instruction::F2i,
        Instruction::F2l,
        Instruction::F2d,
        Instruction::D2i,
        Instruction::D2l,
        Instruction::D2f,
        Instruction::I2b,
        Instruction::I2c,
        Instruction::I2s,
        Instruction::Lcmp,
        Instruction::Fcmpl,
        Instruction::Fcmpg,
        Instruction::Dcmpl,
        Instruction::Dcmpg,
        Instruction::Ifeq(0),
        Instruction::Ifne(0),
        Instruction::Iflt(0),
        Instruction::Ifge(0),
        Instruction::Ifgt(0),
        Instruction::Ifle(0),
        Instruction::IfIcmpeq(0),
        Instruction::IfIcmpne(0),
        Instruction::IfIcmplt(0),
        Instruction::IfIcmpge(0),
        Instruction::IfIcmpgt(0),
        Instruction::IfIcmple(0),
        Instruction::IfAcmpeq(0),
        Instruction::IfAcmpne(0),
        Instruction::Goto(0),
        Instruction::Jsr(0),
        Instruction::Ret(0),
        Instruction::Tableswitch {
        default: 0,
        low: 0,
        high: 0,
        offsets: vec![0]
        },
        Instruction::Lookupswitch {
        default: 0,
        pairs: vec![]
        },
        Instruction::Ireturn,
        Instruction::Lreturn,
        Instruction::Freturn,
        Instruction::Dreturn,
        Instruction::Areturn,
        Instruction::Return,
        Instruction::Getstatic(0),
        Instruction::Putstatic(0),
        Instruction::Getfield(0),
        Instruction::Putfield(0),
        Instruction::Invokevirtual(0),
        Instruction::Invokespecial(0),
        Instruction::Invokestatic(0),
        Instruction::Invokeinterface { index: 0, count: 1 },
        Instruction::Invokedynamic(0),
        Instruction::New(0),
        Instruction::Newarray(ArrayType::Int),
        Instruction::Anewarray(0),
        Instruction::Arraylength,
        Instruction::Athrow,
        Instruction::Checkcast(0),
        Instruction::Instanceof(0),
        Instruction::Monitorenter,
        Instruction::Monitorexit,
        Instruction::Wide(WideInstruction::Iload(0)),
        Instruction::Multianewarray {
        index: 0,
        dimensions: 1
        },
        Instruction::Ifnull(0),
        Instruction::Ifnonnull(0),
        Instruction::GotoW(0),
        Instruction::JsrW(0),
        Instruction::Breakpoint,
        Instruction::Impdep1,
        Instruction::Impdep2,
    ];
    for ins in &cases {
        let mut buf = Vec::new();
        ins.encode(&mut buf).unwrap();
        assert_eq!(buf[0], ins.opcode(), "opcode mismatch for {ins:?}");
        assert_eq!(buf.len(), ins.size(0), "size mismatch for {ins:?}");
    }
}

/// Covers every `wide`-modified operand (load/store/ret and iinc).
#[test]
fn wide_opcodes_all_emit_0xc4_prefix() {
    let cases: Vec<WideInstruction> = vec![
        WideInstruction::Iload(0),
        WideInstruction::Lload(0),
        WideInstruction::Fload(0),
        WideInstruction::Dload(0),
        WideInstruction::Aload(0),
        WideInstruction::Istore(0),
        WideInstruction::Lstore(0),
        WideInstruction::Fstore(0),
        WideInstruction::Dstore(0),
        WideInstruction::Astore(0),
        WideInstruction::Ret(0),
        WideInstruction::Iinc { index: 0, delta: 0 },
    ];
    for w in &cases {
        let mut buf = Vec::new();
        Instruction::Wide(*w).encode(&mut buf).unwrap();
        assert_eq!(buf[0], 0xc4);
        assert!(buf.len() == 4 || buf.len() == 6);
    }
}

#[test]
fn tableswitch_with_wrong_offset_count_is_refused() {
    let mut buf = vec![0u8];
    let ts = Instruction::Tableswitch { default: 1, low: 0, high: 2, offsets: vec![5] };
    let err = ts.encode(&mut buf).unwrap_err();
    assert!(matches!(err, Error::Encoding(_)));
    // The opcode, the padding and the three header words were written.
    assert_eq!(buf.len(), 1 + 1 + 2 + 12);
}

#[test]
fn lookupswitch_bytes_are_exact() {
    let mut buf = Vec::new();
    Instruction::Lookupswitch { default: -1, pairs: vec![(1, 2)] }.encode(&mut buf).unwrap();
    assert_eq!(buf, [0xab, 0, 0, 0, 0xff, 0xff, 0xff, 0xff, 0, 0, 0, 1, 0, 0, 0, 1, 0, 0, 0, 2]);
    assert_eq!(Instruction::Lookupswitch { default: -1, pairs: vec![(1, 2)] }.size(0), 20);
}

#[test]
fn newarray_and_sipush_operands() {
    let mut buf = Vec::new();
    Instruction::Newarray(ArrayType::Int).encode(&mut buf).unwrap();
    Instruction::Sipush(-2).encode(&mut buf).unwrap();
    assert_eq!(buf, [0xbc, 10, 0x11, 0xff, 0xfe]);
}
