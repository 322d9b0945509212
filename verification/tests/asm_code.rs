use crustf::assembler::code::CodeBuilder;
use crustf::spec::attribute::{Attribute, LineNumberEntry};
use crustf::spec::constant::{Constant, ConstantPool};
use crustf::spec::error::Error;

#[test]
fn forward_and_backward_short_branches() {
    let mut pool = ConstantPool::new();
    let mut cb = CodeBuilder::new();
    let top = cb.label();
    let end = cb.label();
    cb.place(top).iconst_0().ifeq(end).goto(top).place(end).return_void();
    let code = cb.finish(&mut pool, 0).unwrap();
    // iconst_0 @0, ifeq @1 -> +6 (end @7), goto @4 -> -4, return @7
    assert_eq!(code.code, vec![0x03, 0x99, 0x00, 0x06, 0xa7, 0xff, 0xfc, 0xb1]);
    // Only iconst_0 adds to the operand stack.
    assert_eq!(code.max_stack, 1);
    assert_eq!(code.max_locals, 0);
    assert!(code.attributes.is_empty());
    assert!(code.exception_table.is_empty());
}

#[test]
fn unplaced_label_is_reported() {
    let mut pool = ConstantPool::new();
    let mut cb = CodeBuilder::new();
    let nowhere = cb.label();
    cb.goto(nowhere);
    assert_eq!(cb.finish(&mut pool, 0).unwrap_err(), Error::UnresolvedLabel(0));
}

#[test]
fn far_branch_is_out_of_range() {
    let mut pool = ConstantPool::new();
    let mut cb = CodeBuilder::new();
    let far = cb.label();
    cb.goto(far);
    for _ in 0..40_000 {
        cb.nop();
    }
    cb.place(far).return_void();
    let err = cb.finish(&mut pool, 0).unwrap_err();
    assert_eq!(err, Error::BranchOutOfRange { offset: 40_003, width_bits: 16 });
}

#[test]
fn goto_w_reaches_far_targets() {
    let mut pool = ConstantPool::new();
    let mut cb = CodeBuilder::new();
    let far = cb.label();
    cb.goto_w(far);
    for _ in 0..40_000 {
        cb.nop();
    }
    cb.place(far).return_void();
    let code = cb.finish(&mut pool, 0).unwrap();
    assert_eq!(&code.code[..5], &[0xc8, 0x00, 0x00, 0x9c, 0x45]);
    assert_eq!(code.code.len(), 40_006);
}

#[test]
fn tableswitch_is_padded_and_resolved() {
    let mut pool = ConstantPool::new();
    let mut cb = CodeBuilder::new();
    let a = cb.label();
    let b = cb.label();
    let d = cb.label();
    cb.iconst_0().tableswitch(d, 1, vec![a, b]).place(a).place(b).place(d).return_void();
    let code = cb.finish(&mut pool, 0).unwrap();
    // iconst_0 @0, tableswitch @1, pad 2, default/low/high, 2 offsets -> next op @24
    assert_eq!(code.code.len(), 25);
    assert_eq!(&code.code[1..4], &[0xaa, 0, 0]);
    assert_eq!(&code.code[4..8], &23i32.to_be_bytes());
    assert_eq!(&code.code[8..12], &1i32.to_be_bytes());
    assert_eq!(&code.code[12..16], &2i32.to_be_bytes());
    assert_eq!(&code.code[16..20], &23i32.to_be_bytes());
    assert_eq!(&code.code[20..24], &23i32.to_be_bytes());
    assert_eq!(code.code[24], 0xb1);
}

#[test]
fn lookupswitch_is_resolved() {
    let mut pool = ConstantPool::new();
    let mut cb = CodeBuilder::new();
    let a = cb.label();
    cb.lookupswitch(a, vec![(42, a)]).place(a).return_void();
    let code = cb.finish(&mut pool, 0).unwrap();
    assert_eq!(
        code.code,
        vec![0xab, 0, 0, 0, 0, 0, 0, 20, 0, 0, 0, 1, 0, 0, 0, 42, 0, 0, 0, 20, 0xb1]
    );
}

#[test]
fn line_numbers_mark_the_next_instruction() {
    let mut pool = ConstantPool::new();
    let mut cb = CodeBuilder::new();
    cb.line(7).iconst_1().line(8).line(9).pop().return_void().line(10);
    let code = cb.finish(&mut pool, 0).unwrap();
    assert_eq!(code.attributes.len(), 1);
    match &code.attributes[0] {
        Attribute::LineNumberTable(v) => assert_eq!(
            v,
            &vec![
                LineNumberEntry { start_pc: 0, line_number: 7 },
                LineNumberEntry { start_pc: 1, line_number: 9 },
            ]
        ),
        other => panic!("unexpected {other:?}"),
    }
    assert_eq!(pool.find_utf8("LineNumberTable"), Some(1));
}

#[test]
fn max_locals_is_inferred_from_loads_and_stores() {
    let mut pool = ConstantPool::new();
    let mut cb = CodeBuilder::new();
    cb.lload(3).iinc(1, 1).astore(300).return_void();
    let code = cb.finish(&mut pool, 2).unwrap();
    assert_eq!(code.max_locals, 301);
    let mut cb = CodeBuilder::new();
    cb.dload(6).return_void();
    assert_eq!(cb.finish(&mut pool, 9).unwrap().max_locals, 9);
    let mut cb = CodeBuilder::new();
    cb.dload(6).max_locals(2).max_stack(4).return_void();
    let code = cb.finish(&mut pool, 9).unwrap();
    assert_eq!((code.max_locals, code.max_stack), (2, 4));
}

#[test]
fn constant_loads_pick_their_form_from_the_pool_index() {
    let mut pool = ConstantPool::new();
    let mut cb = CodeBuilder::new();
    cb.ldc_int(100_000).ldc_long(5).ldc_string("s").ldc_class("C").return_void();
    let code = cb.finish(&mut pool, 0).unwrap();
    assert_eq!(code.code, vec![0x12, 1, 0x14, 0, 2, 0x12, 5, 0x12, 7, 0xb1]);
    assert_eq!(pool.get(1), Some(&Constant::Integer(100_000)));
    assert_eq!(pool.get(2), Some(&Constant::Long(5)));
    assert_eq!(pool.get(5), Some(&Constant::String { string_index: 4 }));
    assert_eq!(pool.get(7), Some(&Constant::Class { name_index: 6 }));
}

#[test]
fn single_int_load_is_narrow() {
    let mut pool = ConstantPool::new();
    let mut cb = CodeBuilder::new();
    cb.ldc_int(100_000).return_void();
    let code = cb.finish(&mut pool, 0).unwrap();
    assert_eq!(code.code, vec![0x12, 0x01, 0xb1]);
    assert_eq!(pool.get(1), Some(&Constant::Integer(100_000)));
}

#[test]
fn loads_past_index_255_are_wide() {
    let mut pool = ConstantPool::new();
    for v in 0..300 {
        pool.intern(Constant::Integer(v)).unwrap();
    }
    let mut cb = CodeBuilder::new();
    cb.ldc_int(7).ldc_int(1_000_000).return_void();
    let code = cb.finish(&mut pool, 0).unwrap();
    // 7 is already at index 8; the new constant lands at index 301.
    assert_eq!(code.code, vec![0x12, 8, 0x13, 0x01, 0x2d, 0xb1]);
}

#[test]
fn branches_account_for_narrow_loads() {
    let mut pool = ConstantPool::new();
    let mut cb = CodeBuilder::new();
    let end = cb.label();
    cb.goto(end).ldc_int(7).place(end).return_void();
    let code = cb.finish(&mut pool, 0).unwrap();
    assert_eq!(code.code, vec![0xa7, 0, 5, 0x12, 1, 0xb1]);
}

#[test]
fn narrowest_local_encodings() {
    let mut pool = ConstantPool::new();
    let mut cb = CodeBuilder::new();
    cb.iload(2).iload(4).iload(300).iinc(1, 1000).bipush(-1).sipush(300).return_void();
    let code = cb.finish(&mut pool, 0).unwrap();
    assert_eq!(
        code.code,
        vec![0x1c, 0x15, 4, 0xc4, 0x15, 0x01, 0x2c, 0xc4, 0x84, 0, 1, 0x03, 0xe8, 0x10, 0xff, 0x11, 0x01, 0x2c, 0xb1]
    );
}

#[test]
fn invokeinterface_counts_argument_slots() {
    let mut pool = ConstantPool::new();
    let mut cb = CodeBuilder::new();
    cb.invokeinterface("I", "m", "(JI)V").return_void();
    let code = cb.finish(&mut pool, 0).unwrap();
    assert_eq!(code.code[0], 0xb9);
    assert_eq!(code.code[3], 4);
    assert_eq!(code.code[4], 0);
    let mut cb = CodeBuilder::new();
    cb.invokeinterface("I", "m", "bad");
    let err = cb.finish(&mut pool, 0).unwrap_err();
    assert_eq!(err, Error::Encoding("method descriptor must start with '('".to_string()));
}

#[test]
fn unset_max_stack_is_taken_from_the_instructions() {
    let mut pool = ConstantPool::new();
    let mut cb = CodeBuilder::new();
    cb.getstatic("java/lang/System", "out", "Ljava/io/PrintStream;")
        .ldc_string("x")
        .invokevirtual("java/io/PrintStream", "println", "(Ljava/lang/String;)V")
        .return_void();
    assert_eq!(cb.finish(&mut pool, 1).unwrap().max_stack, 2);
    // new, dup, ldc, invokespecial: the depth reaches 3, which the ceiling covers.
    let mut cb = CodeBuilder::new();
    cb.new_class("java/lang/StringBuilder")
        .dup()
        .ldc_string("a")
        .invokespecial("java/lang/StringBuilder", "<init>", "(Ljava/lang/String;)V")
        .lconst_1()
        .pop2()
        .return_void();
    assert_eq!(cb.finish(&mut pool, 1).unwrap().max_stack, 5);
    let mut cb = CodeBuilder::new();
    cb.getstatic("java/lang/System", "out", "Ljava/io/PrintStream;")
        .max_stack(9)
        .return_void();
    assert_eq!(cb.finish(&mut pool, 1).unwrap().max_stack, 9);
}
