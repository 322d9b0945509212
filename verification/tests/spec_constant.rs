use crustf::spec::constant::{Constant, ConstantPool, ConstantTag, ReferenceKind};

#[test]
fn intern_deduplicates_utf8() {
    let mut p = ConstantPool::new();
    let a = p.intern_utf8("java/lang/String").unwrap();
    let b = p.intern_utf8("java/lang/String").unwrap();
    assert_eq!(a, b);
}

#[test]
fn long_occupies_two_slots() {
    let mut p = ConstantPool::new();
    let idx = p.push(Constant::Long(42)).unwrap();
    let next = p.push(Constant::Integer(1)).unwrap();
    assert_eq!(next, idx + 2);
    assert!(p.get(idx + 1).is_none());
}

#[test]
fn intern_methodref_chains() {
    let mut p = ConstantPool::new();
    let idx = p
        .intern_methodref("java/io/PrintStream", "println", "(Ljava/lang/String;)V")
        .unwrap();
    assert!(matches!(p.get(idx), Some(Constant::Methodref { .. })));
    // Shared utf8 entries.
    assert_eq!(
        p.find_utf8("java/io/PrintStream"),
        Some(p.find_utf8("java/io/PrintStream").unwrap())
    );
}

#[test]
fn float_equality_uses_bits() {
    let mut p = ConstantPool::new();
    let a = p.intern(Constant::Float(f32::NAN.to_bits())).unwrap();
    let b = p.intern(Constant::Float(f32::NAN.to_bits())).unwrap();
    assert_eq!(a, b);
}

#[test]
fn fresh_pool_counts_the_reserved_slot() {
    let p = ConstantPool::new();
    assert_eq!(p.count(), 1);
    assert!(p.get(0).is_none());
    assert!(p.iter().is_empty());
}

#[test]
fn intern_class_reuses_its_name_entry() {
    let mut p = ConstantPool::new();
    let name = p.intern_utf8("Foo").unwrap();
    let class = p.intern_class("Foo").unwrap();
    assert_eq!(name, 1);
    assert_eq!(class, 2);
    assert_eq!(p.get(class), Some(&Constant::Class { name_index: name }));
    assert_eq!(p.intern_class("Foo").unwrap(), class);
    assert_eq!(p.count(), 3);
}

#[test]
fn push_does_not_deduplicate() {
    let mut p = ConstantPool::new();
    let a = p.push(Constant::Integer(7)).unwrap();
    let b = p.push(Constant::Integer(7)).unwrap();
    assert_eq!((a, b), (1, 2));
    assert_eq!(p.intern(Constant::Integer(7)).unwrap(), 1);
}

#[test]
fn double_entry_is_wide() {
    let c = Constant::Double(1);
    assert!(c.is_wide());
    assert_eq!(c.tag(), ConstantTag::Double);
    assert!(!Constant::Integer(0).is_wide());
}

#[test]
fn utf8_lookup_by_index() {
    let mut p = ConstantPool::new();
    let i = p.intern_utf8("hello").unwrap();
    assert_eq!(p.utf8(i), Some("hello"));
    assert_eq!(p.utf8(0), None);
    assert_eq!(p.find_utf8("absent"), None);
}

#[test]
fn method_handle_chains_its_reference() {
    let mut p = ConstantPool::new();
    let m = p.intern_methodref("A", "b", "()V").unwrap();
    let h = p.intern_method_handle(ReferenceKind::InvokeStatic, m).unwrap();
    assert_eq!(
        p.get(h),
        Some(&Constant::MethodHandle { reference_kind: ReferenceKind::InvokeStatic, reference_index: m })
    );
}

#[test]
fn full_pool_reports_too_many_entries() {
    let mut p = ConstantPool::new();
    let mut i: i32 = 0;
    while p.count() < u16::MAX - 1 {
        p.push(Constant::Integer(i)).unwrap();
        i += 1;
    }
    // 65534 slots: a wide entry would make the count 65536, which a `u2`
    // cannot hold; a narrow one takes index 65534 and fills the pool.
    assert!(matches!(
        p.push(Constant::Long(1)).unwrap_err(),
        crustf::spec::error::Error::TooManyEntries { what: "constant pool", count: 65534 }
    ));
    assert_eq!(p.push(Constant::Integer(-2)).unwrap(), 65534);
    assert_eq!(p.count(), 65535);
    let err = p.push(Constant::Integer(-3)).unwrap_err();
    assert!(matches!(err, crustf::spec::error::Error::TooManyEntries { what: "constant pool", count: 65535 }));
    assert_eq!(p.count(), 65535);
    // Interning an entry that is already present still succeeds.
    assert_eq!(p.intern(Constant::Integer(0)).unwrap(), 1);
}
