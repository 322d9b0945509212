use crustf::spec::descriptor::{BaseType, FieldDescriptor, MethodDescriptor};

#[test]
fn base_roundtrip() {
    let d = FieldDescriptor::parse("I").unwrap();
    assert_eq!(d.to_string(), "I");
    assert_eq!(d, FieldDescriptor::Base(BaseType::Int));
}

#[test]
fn object_roundtrip() {
    let d = FieldDescriptor::parse("Ljava/lang/String;").unwrap();
    assert_eq!(d.to_string(), "Ljava/lang/String;");
}

#[test]
fn array_roundtrip() {
    let d = FieldDescriptor::parse("[[Ljava/lang/Object;").unwrap();
    assert_eq!(d.to_string(), "[[Ljava/lang/Object;");
}

#[test]
fn method_void() {
    let m = MethodDescriptor::parse("([Ljava/lang/String;)V").unwrap();
    assert_eq!(m.params.len(), 1);
    assert!(m.ret.is_none());
    assert_eq!(m.to_string(), "([Ljava/lang/String;)V");
    assert_eq!(m.param_slots(), 1);
}

#[test]
fn method_long_double_slots() {
    let m = MethodDescriptor::parse("(JDI)V").unwrap();
    assert_eq!(m.param_slots(), 2 + 2 + 1);
}

#[test]
fn descriptor_errors_carry_messages() {
    let e = FieldDescriptor::parse("").unwrap_err();
    assert_eq!(e.to_string(), "empty field descriptor");
    let e = FieldDescriptor::parse("Q").unwrap_err();
    assert_eq!(e.to_string(), "unknown descriptor token 'Q'");
    let e = FieldDescriptor::parse("Ljava/lang/String").unwrap_err();
    assert_eq!(e.to_string(), "unterminated 'L' in descriptor");
    let e = FieldDescriptor::parse("II").unwrap_err();
    assert_eq!(e.to_string(), "trailing bytes in field descriptor: \"I\"");
    let e = MethodDescriptor::parse("I)V").unwrap_err();
    assert_eq!(e.to_string(), "method descriptor must start with '('");
    let e = MethodDescriptor::parse("()II").unwrap_err();
    assert_eq!(e.to_string(), "trailing: \"I\"");
    let e = MethodDescriptor::parse("()VV").unwrap_err();
    assert_eq!(e.to_string(), "unknown descriptor token 'V'");
}

#[test]
fn method_with_return_and_wide_slots() {
    let m = MethodDescriptor::parse("(Ljava/lang/Object;[JZ)D").unwrap();
    assert_eq!(m.params.len(), 3);
    assert_eq!(m.ret, Some(FieldDescriptor::Base(BaseType::Double)));
    assert_eq!(m.param_slots(), 3);
    assert_eq!(m.to_string(), "(Ljava/lang/Object;[JZ)D");
}

#[test]
fn base_letters_and_slots() {
    assert_eq!(BaseType::Long.letter(), 'J');
    assert_eq!(BaseType::Boolean.letter(), 'Z');
    assert_eq!(BaseType::Double.slots(), 2);
    assert_eq!(BaseType::Byte.slots(), 1);
    assert_eq!(FieldDescriptor::parse("[D").unwrap().slots(), 1);
}
