use hackbc::adata::AdataId;
use hackbc::names::ClassName;
use hackbc::names::ConstName;
use hackbc::names::FunctionName;
use hackbc::names::FunctionNameSet;
use hackbc::names::MethodName;
use hackbc::names::PropName;
use hackbc::value_id::ConstantId;
use hackbc::value_id::FullInstrId;
use hackbc::value_id::GlobalId;
use hackbc::value_id::InstrId;
use hackbc::value_id::ValueId;
use hackbc::interner::Interner;
use hackbc::interner::UnitBytesId;

#[test]
fn test_from_unsafe_as_str() {
    assert_eq!(b"Foo", ClassName::from_bytes(b"Foo").as_bytes().as_slice());
}

#[test]
fn test_add_suffix() {
    let id = FunctionName::intern(b"Some");
    let id = FunctionName::add_suffix(&id, b"Func");
    assert_eq!(b"SomeFunc", id.as_bytes().as_slice());
}

#[test]
fn test_from_ast_name() {
    let id = MethodName::from_ast_name(b"meth");
    assert_eq!(b"meth", id.as_bytes().as_slice());
}

#[test]
fn test_eq_function_name() {
    let id1 = FunctionName::from_ast_name(b"foo2$memoize_impl");
    let id2 = FunctionName::from_ast_name(b"Foo2$memoize_impl");
    assert_eq!(id1, id2);
}

#[test]
fn test_ord_function_name() {
    let mut ids = FunctionNameSet::new();
    ids.insert(FunctionName::from_ast_name(b"foo"));
    ids.insert(FunctionName::from_ast_name(b"Foo"));
    ids.insert(FunctionName::from_ast_name(b"foo2"));
    ids.insert(FunctionName::from_ast_name(b"Bar"));
    ids.insert(FunctionName::from_ast_name(b"bar"));
    let expected: [&[u8]; 3] = [b"Bar", b"foo", b"foo2"];
    let names = ids.names();
    assert_eq!(names.len(), 3);
    for (i, n) in names.iter().enumerate() {
        assert_eq!(expected[i], n.as_bytes().as_slice());
    }
}

#[test]
fn test_function_name_hash_matches_case_insensitively() {
    let a = FunctionName::intern(b"foo");
    let b = FunctionName::intern(b"FOO");
    assert_eq!(a, b);
    assert_eq!(a.hash_code(), b.hash_code());
    let c = FunctionName::intern(b"bar");
    assert_ne!(a.hash_code(), c.hash_code());
}

#[test]
fn test_strip_global_ns() {
    assert_eq!(b"x", PropName::from_ast_name(b"\\x").as_bytes().as_slice());
    assert_eq!(b"C", ConstName::from_ast_name(b"\\\\C").as_bytes().as_slice());
    assert_eq!(b"plain", FunctionName::from_ast_name(b"plain").as_bytes().as_slice());
}

#[test]
fn test_value_id_instr_round_trip() {
    let v = ValueId::from_instr(InstrId(7));
    assert!(v.is_instr());
    assert!(!v.is_constant());
    assert!(!v.is_none());
    assert_eq!(v.instr(), Some(InstrId(7)));
    assert_eq!(v.constant(), None);
    assert_eq!(v.expect_instr("expected instr"), InstrId(7));
    assert_eq!(v.raw(), 7);
    assert!(matches!(v.full(), FullInstrId::Instr(InstrId(7))));
}

#[test]
fn test_value_id_constant_round_trip() {
    let v = ValueId::from_constant(ConstantId(42));
    assert!(v.is_constant());
    assert!(!v.is_instr());
    assert!(!v.is_none());
    assert_eq!(v.constant(), Some(ConstantId(42)));
    assert_eq!(v.instr(), None);
    assert_eq!(v.raw(), -43);
    assert!(matches!(v.full(), FullInstrId::Constant(ConstantId(42))));
}

#[test]
fn test_value_id_none() {
    let v = ValueId::none();
    assert!(v.is_none());
    assert!(!v.is_instr());
    assert!(!v.is_constant());
    assert!(matches!(v.full(), FullInstrId::Absent));
    assert_eq!(v.raw(), i32::MIN);
}

#[test]
fn test_adata_id_text_round_trip() {
    let id = AdataId::new(42);
    let text = id.to_text();
    assert_eq!(text.as_slice(), b"A_42");
    let back = AdataId::parse(text.as_slice()).unwrap();
    assert_eq!(back.id(), 42);
}

#[test]
fn test_adata_id_parse_rejects_malformed() {
    assert!(AdataId::parse(b"B_1").is_err());
    assert!(AdataId::parse(b"A_").is_err());
    assert!(AdataId::parse(b"A_x7").is_err());
    assert!(AdataId::parse(b"A_12x").is_err());
    assert!(AdataId::parse(b"").is_err());
    // The id is stored as 32 bits: the first value past that range fails.
    assert!(AdataId::parse(b"A_4294967296").is_err());
    assert_eq!(AdataId::parse(b"A_4294967295").unwrap().id(), 0xFFFF_FFFF);
    assert_eq!(AdataId::parse(b"A_0").unwrap().id(), 0);
}

#[test]
fn test_interner_dedup_and_lookup() {
    let mut i = Interner::new();
    let a = i.intern_bytes(b"hello");
    let b = i.intern_bytes(b"world");
    let a2 = i.intern_bytes(b"hello");
    assert_eq!(a, a2);
    assert_ne!(a, b);
    assert_eq!(i.lookup(a).as_slice(), b"hello");
    assert_eq!(i.lookup(b).as_slice(), b"world");
    assert_eq!(i.len(), 2);
}

#[test]
fn test_global_id_as_bytes() {
    let mut i = Interner::new();
    let id = i.intern_bytes(b"gbl");
    let g = GlobalId::new(UnitBytesId(id));
    assert_eq!(g.as_bytes(&i).as_slice(), b"gbl");
}

#[test]
fn test_utf8_checker() {
    assert!(hackbc::utf8::check_utf8(b"plain ascii"));
    assert!(hackbc::utf8::check_utf8("héllo ✓".as_bytes()));
    assert!(!hackbc::utf8::check_utf8(&[0xFF, 0x20]));
    assert!(!hackbc::utf8::check_utf8(&[0xC2]));
    assert!(!hackbc::utf8::check_utf8(&[0xED, 0xA0, 0x80]));
    assert!(hackbc::utf8::check_utf8(&[0xF0, 0x9F, 0x98, 0x80]));
}
