use hackbc::bc_to_ir::bc_to_ir;
use hackbc::errors::ConvError;
use hackbc::interner::Interner;
use hackbc::interner::StringId;
use hackbc::interner::UnitBytesId;
use hackbc::ir_to_bc::ir_to_bc;
use hackbc::ir_unit::IrBody;
use hackbc::ir_unit::IrFunction;
use hackbc::names::ClassName;
use hackbc::names::ConstName;
use hackbc::names::FunctionName;
use hackbc::names::MethodName;
use hackbc::names::ModuleName;
use hackbc::names::PropName;
use hackbc::strings::StringCache;
use hackbc::tv_convert::convert_tv_bc_to_ir;
use hackbc::tv_convert::convert_typed_value;
use hackbc::typed_value::ArrayKey;
use hackbc::typed_value::IrTypedValue;
use hackbc::typed_value::TypedValue;
use hackbc::unit::Attribute;
use hackbc::unit::Body;
use hackbc::unit::Class;
use hackbc::unit::Method;
use hackbc::unit::Module;
use hackbc::unit::Param;
use hackbc::unit::Property;
use hackbc::unit::Span;
use hackbc::unit::Constant;
use hackbc::unit::Fatal;
use hackbc::unit::FatalOp;
use hackbc::unit::Function;
use hackbc::unit::FunctionFlags;
use hackbc::unit::SrcLoc;
use hackbc::unit::SymbolRefs;
use hackbc::unit::Unit;

fn empty_symbol_refs() -> SymbolRefs {
    SymbolRefs { classes: Vec::new(), constants: Vec::new(), functions: Vec::new(), includes: Vec::new() }
}

/// A nested dict constant in the IR domain converts to the bytecode domain
/// with element order and key/value pairing intact, and converts back.
#[test]
fn test_constant_conversion_round_trip() {
    let mut ir = Interner::new();
    let k_name = UnitBytesId(ir.intern_bytes(b"key"));
    let s_val = UnitBytesId(ir.intern_bytes(b"value"));
    let tv = IrTypedValue::Dict(vec![
        (ArrayKey::Int(3), IrTypedValue::Vec(vec![
            IrTypedValue::Int(1),
            IrTypedValue::Keyset(vec![ArrayKey::String(k_name), ArrayKey::Int(9)]),
        ])),
        (ArrayKey::String(k_name), IrTypedValue::String(s_val)),
    ]);
    let globals = Interner::new();
    let mut sc = StringCache::new(ir, globals);
    let bc = match convert_typed_value(&tv, &mut sc) {
        Ok(v) => v,
        Err(_) => panic!("conversion should succeed"),
    };
    let (ir2, globals2) = sc.finish();
    // The structure carried over in order.
    match &bc {
        TypedValue::Dict(es) => {
            assert_eq!(es.len(), 2);
            match &es[0].key {
                TypedValue::Int(3) => {}
                _ => panic!("first key"),
            }
            match &es[0].value {
                TypedValue::Vec(vs) => {
                    assert_eq!(vs.len(), 2);
                    assert!(matches!(vs[0], TypedValue::Int(1)));
                    match &vs[1] {
                        TypedValue::Keyset(ks) => {
                            assert_eq!(ks.len(), 2);
                            match &ks[0] {
                                TypedValue::String(StringId(id)) => {
                                    assert_eq!(globals2.lookup(*id).as_slice(), b"key");
                                }
                                _ => panic!("keyset[0]"),
                            }
                            assert!(matches!(ks[1], TypedValue::Int(9)));
                        }
                        _ => panic!("vec[1]"),
                    }
                }
                _ => panic!("first value"),
            }
            match &es[1].key {
                TypedValue::String(StringId(id)) => {
                    assert_eq!(globals2.lookup(*id).as_slice(), b"key");
                }
                _ => panic!("second key"),
            }
        }
        _ => panic!("expected a dict"),
    }
    // And back: the bytecode value narrows its keys into the IR key type.
    let mut ir3 = Interner::new();
    let back = match convert_tv_bc_to_ir(&bc, &globals2, &mut ir3) {
        Ok(v) => v,
        Err(_) => panic!("narrowing should succeed"),
    };
    match &back {
        IrTypedValue::Dict(es) => {
            assert_eq!(es.len(), 2);
            assert!(matches!(es[0].0, ArrayKey::Int(3)));
            match es[1].0 {
                ArrayKey::String(UnitBytesId(id)) => {
                    assert_eq!(ir3.lookup(id).as_slice(), b"key");
                }
                _ => panic!("second key back"),
            }
        }
        _ => panic!("expected a dict back"),
    }
    let _ = ir2;
}

/// A lazy class reference whose bytes are not text aborts the conversion.
#[test]
fn test_non_text_lazy_class_fails() {
    let mut ir = Interner::new();
    let bad = UnitBytesId(ir.intern_bytes(&[0xFF, 0xFE]));
    let tv = IrTypedValue::LazyClass(bad);
    let mut sc = StringCache::new(ir, Interner::new());
    match convert_typed_value(&tv, &mut sc) {
        Err(e) => assert_eq!(e, ConvError::NotUtf8),
        Ok(_) => panic!("conversion should fail"),
    }
}

/// A plain string constant may hold any bytes; only class references must
/// be text.
#[test]
fn test_non_text_string_is_fine() {
    let mut ir = Interner::new();
    let raw = UnitBytesId(ir.intern_bytes(&[0xFF, 0xFE]));
    let tv = IrTypedValue::String(raw);
    let mut sc = StringCache::new(ir, Interner::new());
    let bc = match convert_typed_value(&tv, &mut sc) {
        Ok(v) => v,
        Err(_) => panic!("conversion should succeed"),
    };
    let (_, globals) = sc.finish();
    match bc {
        TypedValue::String(StringId(id)) => assert_eq!(globals.lookup(id).as_slice(), &[0xFF, 0xFE]),
        _ => panic!("expected a string"),
    }
}

/// A disallowed shape in key position aborts the narrowing conversion.
#[test]
fn test_bad_array_key_fails() {
    let globals = Interner::new();
    let tv = TypedValue::Keyset(vec![TypedValue::Vec(Vec::new())]);
    let mut ir = Interner::new();
    match convert_tv_bc_to_ir(&tv, &globals, &mut ir) {
        Err(e) => assert_eq!(e, ConvError::InvalidArrayKey),
        Ok(_) => panic!("narrowing should fail"),
    }
}

/// The string cache translates a handle once and keeps handing out the same
/// destination handle.
#[test]
fn test_string_cache_memoizes() {
    let mut ir = Interner::new();
    let a = UnitBytesId(ir.intern_bytes(b"alpha"));
    let mut sc = StringCache::new(ir, Interner::new());
    let g1 = sc.intern_bytes_id(a);
    let g2 = sc.intern_bytes_id(a);
    assert_eq!(g1, g2);
    assert_eq!(sc.lookup_ffi_str(a).as_slice(), b"alpha");
    let name = sc.lookup_class_name(a).unwrap();
    assert_eq!(name.as_bytes().as_slice(), b"alpha");
    let (_, globals) = sc.finish();
    assert_eq!(globals.lookup(g1.0).as_slice(), b"alpha");
}

/// A whole persisted unit survives the round trip through the IR: same
/// functions, classes and constants, modulo pool reordering, deduplication
/// and freshly assigned handles.
#[test]
fn test_unit_round_trip() {
    let mut globals = Interner::new();
    let hello = StringId(globals.intern_bytes(b"hello"));
    let unit = Unit {
        adata: vec![
            TypedValue::Vec(vec![TypedValue::String(hello), TypedValue::Int(5)]),
            TypedValue::Vec(vec![TypedValue::String(hello), TypedValue::Int(5)]),
        ],
        functions: vec![Function {
            attributes: vec![Attribute {
                name: ClassName::from_bytes(b"__Memoize"),
                arguments: vec![TypedValue::Int(1)],
            }],
            name: FunctionName::intern(b"main"),
            body: Body {
                params: Vec::new(),
                adata_refs: vec![hackbc::adata::AdataId::new(0), hackbc::adata::AdataId::new(1)],
            },
            flags: FunctionFlags { bits: 1 },
            attrs: 0,
        }],
        classes: vec![Class {
            attributes: Vec::new(),
            name: ClassName::from_bytes(b"C"),
            properties: vec![Property {
                name: PropName::from_bytes(b"p"),
                initial_value: Some(TypedValue::Int(7)),
                attrs: 0,
            }],
            constants: vec![Constant {
                name: ConstName::from_bytes(b"CK"),
                value: None,
                attrs: 0,
            }],
            methods: vec![Method {
                name: MethodName::from_bytes(b"m"),
                body: Body {
                    params: vec![Param { name: b"$x".to_vec(), is_variadic: false, is_inout: true }],
                    adata_refs: vec![hackbc::adata::AdataId::new(1)],
                },
                flags: FunctionFlags { bits: 2 },
                attrs: 0,
            }],
            attrs: 3,
        }],
        modules: vec![Module {
            attributes: Vec::new(),
            name: ModuleName::from_bytes(b"mod.a"),
            span: Span { line_begin: 10, line_end: 20 },
            doc_comment: Some(b"doc".to_vec()),
        }],
        typedefs: Vec::new(),
        file_attributes: Vec::new(),
        module_use: Some(ModuleName::from_bytes(b"mod.use")),
        symbol_refs: SymbolRefs {
            classes: vec![ClassName::from_bytes(b"Ext")],
            constants: Vec::new(),
            functions: vec![FunctionName::intern(b"ext_fn")],
            includes: vec![b"inc.php".to_vec()],
        },
        constants: vec![Constant {
            name: ConstName::from_bytes(b"K"),
            value: Some(TypedValue::Bool(true)),
            attrs: 0,
        }],
        fatal: Some(Fatal {
            op: FatalOp::Parse,
            loc: SrcLoc { line_begin: 1, col_begin: 2, line_end: 3, col_end: 4 },
            message: b"boom".to_vec(),
        }),
        missing_symbols: Vec::new(),
        error_symbols: Vec::new(),
        valid_utf8: true,
        invalid_utf8_offset: 0,
    };
    let ir_unit = bc_to_ir(&unit, &globals);
    // The forward pass carried the function over with its flags and the
    // adata references resolved into the body's own constant pool.
    assert_eq!(ir_unit.functions.len(), 1);
    assert!(matches!(ir_unit.constants[0].value, Some(IrTypedValue::Bool(true))));
    assert_eq!(ir_unit.functions[0].body.constants.len(), 2);
    let (w, g2) = match ir_to_bc(ir_unit, Interner::new()) {
        Ok(p) => p,
        Err(_) => panic!("reverse conversion should succeed"),
    };
    // The pool deduplicated the two equal constants; both references now
    // name the single pooled entry.
    assert_eq!(w.adata.len(), 1);
    assert_eq!(w.functions.len(), 1);
    assert_eq!(w.functions[0].name.as_bytes().as_slice(), b"main");
    assert!(w.functions[0].is_async());
    assert!(!w.functions[0].is_generator());
    assert_eq!(w.functions[0].body.adata_refs.len(), 2);
    assert_eq!(w.functions[0].body.adata_refs[0].id(), 0);
    assert_eq!(w.functions[0].body.adata_refs[1].id(), 0);
    match &w.adata[0] {
        TypedValue::Vec(vs) => match &vs[0] {
            TypedValue::String(StringId(id)) => {
                assert_eq!(g2.lookup(*id).as_slice(), b"hello");
            }
            _ => panic!("pool entry shape"),
        },
        _ => panic!("pool entry"),
    }
    assert_eq!(w.constants.len(), 1);
    assert_eq!(w.constants[0].name.as_bytes().as_slice(), b"K");
    // The class came back whole: containers and its method, in order.
    assert_eq!(w.classes.len(), 1);
    let cls = &w.classes[0];
    assert_eq!(cls.name.as_bytes().as_slice(), b"C");
    assert_eq!(cls.attrs, 3);
    assert_eq!(cls.properties.len(), 1);
    assert_eq!(cls.properties[0].name.as_bytes().as_slice(), b"p");
    assert!(matches!(cls.properties[0].initial_value, Some(TypedValue::Int(7))));
    assert_eq!(cls.constants[0].name.as_bytes().as_slice(), b"CK");
    assert!(cls.constants[0].value.is_none());
    assert_eq!(cls.methods.len(), 1);
    assert_eq!(cls.methods[0].name.as_bytes().as_slice(), b"m");
    assert_eq!(cls.methods[0].flags.bits, 2);
    assert_eq!(cls.methods[0].body.params.len(), 1);
    assert_eq!(cls.methods[0].body.params[0].name.as_slice(), b"$x");
    assert!(cls.methods[0].body.params[0].is_inout);
    assert_eq!(cls.methods[0].body.adata_refs.len(), 1);
    // The method's single pooled constant denotes the same value as the
    // function's, so dedup made them share one entry.
    assert_eq!(cls.methods[0].body.adata_refs[0].id(), 0);
    // Modules, module use and symbol references carried over.
    assert_eq!(w.modules.len(), 1);
    assert_eq!(w.modules[0].name.as_bytes().as_slice(), b"mod.a");
    assert_eq!(w.modules[0].span.line_begin, 10);
    assert_eq!(w.modules[0].doc_comment.as_ref().unwrap().as_slice(), b"doc");
    assert_eq!(w.module_use.as_ref().unwrap().as_bytes().as_slice(), b"mod.use");
    assert_eq!(w.symbol_refs.classes[0].as_bytes().as_slice(), b"Ext");
    assert_eq!(w.symbol_refs.functions[0].as_bytes().as_slice(), b"ext_fn");
    assert_eq!(w.symbol_refs.includes[0].as_slice(), b"inc.php");
    match &w.fatal {
        Some(f) => {
            assert_eq!(f.op, FatalOp::Parse);
            assert_eq!(f.loc.line_begin, 1);
            assert_eq!(f.message.as_slice(), b"boom");
        }
        None => panic!("fatal lost"),
    }
    assert!(w.valid_utf8);
}

/// An IR function whose name is not text aborts the reverse conversion;
/// no partial unit is returned.
#[test]
fn test_ir_to_bc_rejects_non_text_name() {
    let mut strings = Interner::new();
    let bad = UnitBytesId(strings.intern_bytes(&[0x80, 0x81]));
    let ir_unit = hackbc::ir_unit::IrUnit {
        strings,
        classes: Vec::new(),
        constants: Vec::new(),
        fatal: None,
        file_attributes: Vec::new(),
        functions: vec![IrFunction {
            attributes: Vec::new(),
            name: bad,
            body: IrBody { params: Vec::new(), constants: Vec::new() },
            flags: FunctionFlags { bits: 0 },
            attrs: 0,
        }],
        module_use: None,
        modules: Vec::new(),
        symbol_refs: empty_symbol_refs(),
        typedefs: Vec::new(),
    };
    match ir_to_bc(ir_unit, Interner::new()) {
        Err(e) => assert_eq!(e, ConvError::NotUtf8),
        Ok(_) => panic!("conversion should fail"),
    }
}

/// Method names carry arbitrary bytes in both domains, so a non-text
/// method name does not abort the reverse conversion.
#[test]
fn test_non_text_method_name_is_fine() {
    let mut strings = Interner::new();
    let cls = UnitBytesId(strings.intern_bytes(b"C"));
    let raw = UnitBytesId(strings.intern_bytes(&[0x90, 0x91]));
    let ir_unit = hackbc::ir_unit::IrUnit {
        strings,
        classes: vec![hackbc::ir_unit::IrClass {
            attributes: Vec::new(),
            name: cls,
            properties: Vec::new(),
            constants: Vec::new(),
            methods: vec![hackbc::ir_unit::IrMethod {
                name: raw,
                body: IrBody { params: Vec::new(), constants: Vec::new() },
                flags: FunctionFlags { bits: 0 },
                attrs: 0,
            }],
            attrs: 0,
        }],
        constants: Vec::new(),
        fatal: None,
        file_attributes: Vec::new(),
        functions: Vec::new(),
        module_use: None,
        modules: Vec::new(),
        symbol_refs: empty_symbol_refs(),
        typedefs: Vec::new(),
    };
    let (w, _) = match ir_to_bc(ir_unit, Interner::new()) {
        Ok(p) => p,
        Err(_) => panic!("conversion should succeed"),
    };
    assert_eq!(w.classes[0].methods[0].name.as_bytes().as_slice(), &[0x90, 0x91]);
}

/// Float constants cross the domains bit for bit.
#[test]
fn test_float_bits_cross_unchanged() {
    let bits = 2.5f64.to_bits();
    let mut sc = StringCache::new(Interner::new(), Interner::new());
    let bc = match convert_typed_value(&IrTypedValue::Float(bits), &mut sc) {
        Ok(v) => v,
        Err(_) => panic!("conversion should succeed"),
    };
    match bc {
        TypedValue::Float(b) => assert_eq!(f64::from_bits(b), 2.5f64),
        _ => panic!("expected float"),
    }
}
