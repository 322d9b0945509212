use crustf::spec::access::{ClassAccess, MethodAccess};
use crustf::spec::attribute::{Annotation, Attribute, CodeAttribute, ElementValue};
use crustf::spec::classfile::{ClassFile, MAGIC};
use crustf::spec::constant::{Constant, ConstantPool, ReferenceKind};
use crustf::spec::encode::encode;
use crustf::spec::error::Error;
use crustf::spec::method::Method;
use crustf::spec::version::JAVA_17;

fn empty_class(name: &str) -> ClassFile {
    let mut pool = ConstantPool::new();
    let this_class = pool.intern_class(name).unwrap();
    let super_class = pool.intern_class("java/lang/Object").unwrap();
    ClassFile {
        version: JAVA_17(),
        constant_pool: pool,
        access_flags: ClassAccess::PUBLIC() | ClassAccess::SUPER(),
        this_class,
        super_class,
        interfaces: Vec::new(),
        fields: Vec::new(),
        methods: Vec::new(),
        attributes: Vec::new(),
    }
}

#[test]
fn header_matches_spec() {
    let cf = empty_class("Foo");
    let bytes = encode(&cf).unwrap();
    assert_eq!(&bytes[..4], &MAGIC.to_be_bytes());
    assert_eq!(&bytes[4..6], &0u16.to_be_bytes()); // minor
    assert_eq!(&bytes[6..8], &JAVA_17().major.to_be_bytes());
}

#[test]
fn counts_are_encoded_when_empty() {
    let cf = empty_class("Foo");
    let bytes = encode(&cf).unwrap();
    // After the fixed 24 byte prelude (magic+ver+cp_count+cp+access+this+super),
    // we expect interfaces_count=0, fields_count=0, methods_count=0, attributes_count=0.
    assert_eq!(&bytes[bytes.len() - 8..], &[0, 0, 0, 0, 0, 0, 0, 0]);
}

#[test]
fn every_constant_pool_kind_encodes() {
    let mut pool = ConstantPool::new();
    let u = pool.intern(Constant::Utf8("x".into())).unwrap();
    pool.intern(Constant::Integer(1)).unwrap();
    pool.intern(Constant::Float(2.0f32.to_bits())).unwrap();
    pool.intern(Constant::Long(3)).unwrap();
    pool.intern(Constant::Double(4.0f64.to_bits())).unwrap();
    let c = pool.intern(Constant::Class { name_index: u }).unwrap();
    pool.intern(Constant::String { string_index: u }).unwrap();
    let nt = pool
        .intern(Constant::NameAndType {
            name_index: u,
            descriptor_index: u,
        })
        .unwrap();
    pool.intern(Constant::Fieldref {
        class_index: c,
        name_and_type_index: nt,
    })
    .unwrap();
    pool.intern(Constant::Methodref {
        class_index: c,
        name_and_type_index: nt,
    })
    .unwrap();
    pool.intern(Constant::InterfaceMethodref {
        class_index: c,
        name_and_type_index: nt,
    })
    .unwrap();
    let mref = pool
        .intern(Constant::Methodref {
            class_index: c,
            name_and_type_index: nt,
        })
        .unwrap();
    pool.intern(Constant::MethodHandle {
        reference_kind: ReferenceKind::InvokeStatic,
        reference_index: mref,
    })
    .unwrap();
    pool.intern(Constant::MethodType {
        descriptor_index: u,
    })
    .unwrap();
    pool.intern(Constant::Dynamic {
        bootstrap_method_attr_index: 0,
        name_and_type_index: nt,
    })
    .unwrap();
    pool.intern(Constant::InvokeDynamic {
        bootstrap_method_attr_index: 0,
        name_and_type_index: nt,
    })
    .unwrap();
    pool.intern(Constant::Module { name_index: u }).unwrap();
    pool.intern(Constant::Package { name_index: u }).unwrap();

    let cf = ClassFile {
        version: JAVA_17(),
        constant_pool: pool,
        access_flags: ClassAccess::PUBLIC(),
        this_class: c,
        super_class: c,
        interfaces: Vec::new(),
        fields: Vec::new(),
        methods: Vec::new(),
        attributes: Vec::new(),
    };
    let bytes = encode(&cf).unwrap();
    assert_eq!(&bytes[..4], &MAGIC.to_be_bytes());
}

#[test]
fn method_with_code_round_trips_through_encoder() {
    let mut pool = ConstantPool::new();
    let this_class = pool.intern_class("Foo").unwrap();
    let super_class = pool.intern_class("java/lang/Object").unwrap();
    let code_name = pool.intern_utf8("Code").unwrap();
    let _ = code_name;
    let name = pool.intern_utf8("m").unwrap();
    let desc = pool.intern_utf8("()V").unwrap();

    let code_bytes = vec![0xb1]; // return
    let cf = ClassFile {
        version: JAVA_17(),
        constant_pool: pool,
        access_flags: ClassAccess::PUBLIC(),
        this_class,
        super_class,
        interfaces: Vec::new(),
        fields: Vec::new(),
        methods: vec![Method {
            access_flags: MethodAccess::PUBLIC(),
            name_index: name,
            descriptor_index: desc,
            attributes: vec![Attribute::Code(CodeAttribute {
                max_stack: 0,
                max_locals: 1,
                code: code_bytes,
                exception_table: Vec::new(),
                attributes: Vec::new(),
            })],
        }],
        attributes: Vec::new(),
    };
    let bytes = encode(&cf).unwrap();
    // Magic + version sanity
    assert_eq!(&bytes[..4], &MAGIC.to_be_bytes());
    // Class file contains the "Code" attribute name string as mUTF-8.
    assert!(bytes.windows(4).any(|w| w == b"Code"));
}

#[test]
fn empty_class_bytes_are_exact() {
    let cf = empty_class("A");
    let bytes = encode(&cf).unwrap();
    let mut expected: Vec<u8> = vec![0xCA, 0xFE, 0xBA, 0xBE, 0, 0, 0, 61, 0, 5];
    expected.extend_from_slice(&[1, 0, 1, b'A']);
    expected.extend_from_slice(&[7, 0, 1]);
    expected.extend_from_slice(&[1, 0, 16]);
    expected.extend_from_slice(b"java/lang/Object");
    expected.extend_from_slice(&[7, 0, 3]);
    expected.extend_from_slice(&[0, 0x21, 0, 2, 0, 4]);
    expected.extend_from_slice(&[0, 0, 0, 0, 0, 0, 0, 0]);
    assert_eq!(bytes, expected);
}

#[test]
fn attribute_without_its_name_in_the_pool_is_refused() {
    let mut cf = empty_class("A");
    cf.attributes.push(Attribute::Synthetic);
    let err = encode(&cf).unwrap_err();
    assert_eq!(err, Error::MissingUtf8("Synthetic".to_string()));
    assert_eq!(err.to_string(), "CONSTANT_Utf8 \"Synthetic\" is not in the pool");
}

#[test]
fn error_messages_read_as_documented() {
    assert_eq!(
        Error::TooManyEntries { what: "constant pool", count: 65536 }.to_string(),
        "too many entries for constant pool: 65536 > 65535"
    );
    assert_eq!(Error::CodeTooLarge(5).to_string(), "code array of 5 bytes exceeds u4 bounds");
    assert_eq!(
        Error::BranchOutOfRange { offset: -40000, width_bits: 16 }.to_string(),
        "branch offset -40000 does not fit in 16 bits"
    );
    assert_eq!(Error::UnresolvedLabel(3).to_string(), "label #3 was never placed");
    assert_eq!(
        Error::InvalidUtf8 { offset: 2, reason: "bare NUL byte" }.to_string(),
        "invalid modified UTF-8 at byte 2: bare NUL byte"
    );
    assert_eq!(Error::Encoding("boom".to_string()).to_string(), "boom");
}

#[test]
fn cloned_class_file_encodes_identically() {
    let mut cf = empty_class("Copy");
    let code_name = cf.constant_pool.intern_utf8("Code").unwrap();
    let ann_name = cf.constant_pool.intern_utf8("RuntimeVisibleAnnotations").unwrap();
    let _ = (code_name, ann_name);
    let inner = Attribute::RuntimeVisibleAnnotations(vec![Annotation {
        type_index: 3,
        element_value_pairs: vec![(
            4,
            ElementValue::Array(vec![
                ElementValue::Int(5),
                ElementValue::Annotation(Box::new(Annotation { type_index: 6, element_value_pairs: vec![] })),
            ]),
        )],
    }]);
    let code = Attribute::Code(CodeAttribute {
        max_stack: 1,
        max_locals: 1,
        code: vec![0xB1],
        exception_table: vec![],
        attributes: vec![inner.clone()],
    });
    assert_eq!(code.clone(), code);
    cf.attributes.push(inner);
    let copy = cf.clone();
    assert_eq!(encode(&copy).unwrap(), encode(&cf).unwrap());
}

#[test]
fn utf8_entry_longer_than_a_u2_is_refused() {
    let mut cf = empty_class("Big");
    let long = "a".repeat(70_000);
    cf.constant_pool.intern_utf8(&long).unwrap();
    assert!(matches!(
        encode(&cf).unwrap_err(),
        Error::TooManyEntries { what: "CONSTANT_Utf8 bytes", count: 70_000 }
    ));
}
