use hackbc::assemble::assemble_adata_id;
use hackbc::assemble::assemble_bool_list;
use hackbc::assemble::assemble_fcall_args;
use hackbc::assemble::assemble_i64;
use hackbc::assemble::assemble_iter_args;
use hackbc::assemble::assemble_label;
use hackbc::assemble::assemble_label_list;
use hackbc::assemble::assemble_local;
use hackbc::assemble::assemble_local_range;
use hackbc::assemble::assemble_member_key;
use hackbc::assemble::assemble_string_list;
use hackbc::assemble::assemble_u32;
use hackbc::assemble::assemble_unescaped_unquoted;
use hackbc::assemble::DeclMap;
use hackbc::assemble::Label;
use hackbc::assemble::MemberKey;
use hackbc::assemble::ParseErrorKind;
use hackbc::assemble::Pos;
use hackbc::assemble::Token;
use hackbc::assemble::TokenCursor;
use hackbc::config::hhbc_flags;
use hackbc::config::parser_options;
use hackbc::config::HhvmConfig;
use hackbc::opcodes::assemble_fatal_op_kw;
use hackbc::opcodes::assemble_is_type_op;
use hackbc::opcodes::assemble_m_op_mode;
use hackbc::opcodes::assemble_readonly_op;
use hackbc::opcodes::assemble_switch_kind;
use hackbc::opcodes::IsTypeOp;
use hackbc::opcodes::MOpMode;
use hackbc::opcodes::ReadonlyOp;
use hackbc::opcodes::SwitchKind;

fn p() -> Pos {
    Pos { line: 1, col: 1 }
}

fn ident(s: &[u8]) -> Token {
    Token::Identifier(s.to_vec(), p())
}

fn num(s: &[u8]) -> Token {
    Token::Number(s.to_vec(), p())
}

fn var(s: &[u8]) -> Token {
    Token::Variable(s.to_vec(), p())
}

fn table_ab() -> DeclMap {
    let mut m = DeclMap::new();
    m.declare(b"$a", 0);
    m.declare(b"$b", 1);
    m
}

/// Decoding `$a` with table `{$a:0, $b:1}` yields local index 0.
#[test]
fn test_local_from_table() {
    let mut c = TokenCursor::new(vec![var(b"$a"), var(b"$b")]);
    let m = table_ab();
    assert_eq!(assemble_local(&mut c, &m).unwrap().idx, 0);
    assert_eq!(assemble_local(&mut c, &m).unwrap().idx, 1);
}

/// Decoding `_3` yields local index 3 without consulting the table.
#[test]
fn test_local_unnamed() {
    let mut c = TokenCursor::new(vec![ident(b"_3")]);
    let m = DeclMap::new();
    assert_eq!(assemble_local(&mut c, &m).unwrap().idx, 3);
}

/// Decoding `$z` fails with an unresolved-local parse error naming `$z`
/// and its position.
#[test]
fn test_local_unknown_fails() {
    let mut c = TokenCursor::new(vec![var(b"$z")]);
    let m = table_ab();
    let e = assemble_local(&mut c, &m).unwrap_err();
    assert_eq!(e.kind, ParseErrorKind::UnknownLocal);
    assert_eq!(e.pos, p());
    match e.tok {
        Some(Token::Variable(v, q)) => {
            assert_eq!(v.as_slice(), b"$z");
            assert_eq!(q, p());
        }
        _ => panic!("the error must name the offending token"),
    }
}

/// Decoding `EC:5 Any` yields the EC member key with stack index 5 and
/// read-only operator `Any`.
#[test]
fn test_member_key_ec() {
    let mut c = TokenCursor::new(vec![ident(b"EC"), Token::Colon(p()), num(b"5"), ident(b"Any")]);
    let m = DeclMap::new();
    match assemble_member_key(&mut c, &m).unwrap() {
        MemberKey::EC(idx, ro) => {
            assert_eq!(idx, 5);
            assert_eq!(ro, ReadonlyOp::Any);
        }
        _ => panic!("expected EC"),
    }
}

#[test]
fn test_member_key_et_unescapes() {
    let mut c = TokenCursor::new(vec![
        ident(b"ET"),
        Token::Colon(p()),
        Token::StrLiteral(b"\"a\\nb\"".to_vec(), p()),
        ident(b"Mutable"),
    ]);
    let m = DeclMap::new();
    match assemble_member_key(&mut c, &m).unwrap() {
        MemberKey::ET(bytes, ro) => {
            assert_eq!(bytes.as_slice(), b"a\nb");
            assert_eq!(ro, ReadonlyOp::Mutable);
        }
        _ => panic!("expected ET"),
    }
}

#[test]
fn test_member_key_w_and_unknown() {
    let m = DeclMap::new();
    let mut c = TokenCursor::new(vec![ident(b"W")]);
    assert!(matches!(assemble_member_key(&mut c, &m).unwrap(), MemberKey::W));
    let mut c2 = TokenCursor::new(vec![ident(b"XX"), Token::Colon(p())]);
    let e = assemble_member_key(&mut c2, &m).unwrap_err();
    assert_eq!(e.kind, ParseErrorKind::UnknownKeyword);
}

/// A local range is `L:` start length.
#[test]
fn test_local_range() {
    let mut c = TokenCursor::new(vec![ident(b"L"), Token::Colon(p()), num(b"2"), num(b"3")]);
    let lr = assemble_local_range(&mut c).unwrap();
    assert_eq!(lr.start.idx, 2);
    assert_eq!(lr.len, 3);
}

/// Iterator args: index, `NK` or `K:` local, then `V:` local.
#[test]
fn test_iter_args() {
    let m = table_ab();
    let mut c = TokenCursor::new(vec![
        num(b"0"),
        ident(b"NK"),
        ident(b"V"),
        Token::Colon(p()),
        var(b"$b"),
    ]);
    let ia = assemble_iter_args(&mut c, &m).unwrap();
    assert_eq!(ia.iter_id.idx, 0);
    assert_eq!(ia.key_id.idx, u32::MAX);
    assert_eq!(ia.val_id.idx, 1);
    let mut c2 = TokenCursor::new(vec![
        num(b"7"),
        ident(b"K"),
        Token::Colon(p()),
        var(b"$a"),
        ident(b"V"),
        Token::Colon(p()),
        var(b"$b"),
    ]);
    let ia2 = assemble_iter_args(&mut c2, &m).unwrap();
    assert_eq!(ia2.iter_id.idx, 7);
    assert_eq!(ia2.key_id.idx, 0);
    assert_eq!(ia2.val_id.idx, 1);
}

#[test]
fn test_label_and_lists() {
    let mut c = TokenCursor::new(vec![
        Token::Lt(p()),
        ident(b"L0"),
        ident(b"L12"),
        Token::Gt(p()),
    ]);
    let ls = assemble_label_list(&mut c).unwrap();
    assert_eq!(ls.len(), 2);
    assert_eq!(ls[0], Label { id: 0 });
    assert_eq!(ls[1], Label { id: 12 });
    let mut c2 = TokenCursor::new(vec![
        Token::Lt(p()),
        Token::StrLiteral(b"\"x\"".to_vec(), p()),
        Token::StrLiteral(b"\"y z\"".to_vec(), p()),
        Token::Gt(p()),
    ]);
    let ss = assemble_string_list(&mut c2).unwrap();
    assert_eq!(ss.len(), 2);
    assert_eq!(ss[0].as_slice(), b"x");
    assert_eq!(ss[1].as_slice(), b"y z");
}

#[test]
fn test_numbers() {
    let mut c = TokenCursor::new(vec![num(b"-9"), num(b"12"), num(b"abc")]);
    assert_eq!(assemble_i64(&mut c).unwrap(), -9);
    assert_eq!(assemble_u32(&mut c).unwrap(), 12);
    let e = assemble_u32(&mut c).unwrap_err();
    assert_eq!(e.kind, ParseErrorKind::BadNumber);
}

#[test]
fn test_adata_id_operand() {
    let mut c = TokenCursor::new(vec![Token::Global(b"@A_42".to_vec(), p())]);
    assert_eq!(assemble_adata_id(&mut c).unwrap().id(), 42);
    let mut c2 = TokenCursor::new(vec![Token::Global(b"@B_1".to_vec(), p())]);
    assert!(assemble_adata_id(&mut c2).is_err());
}

#[test]
fn test_unescaped_unquoted() {
    let mut c = TokenCursor::new(vec![Token::StrLiteral(b"\"a\\\\b\\\"c\"".to_vec(), p())]);
    let s = assemble_unescaped_unquoted(&mut c).unwrap();
    assert_eq!(s.as_slice(), b"a\\b\"c");
    let mut c2 = TokenCursor::new(vec![Token::StrLiteral(b"\"bad\\q\"".to_vec(), p())]);
    let e = assemble_unescaped_unquoted(&mut c2).unwrap_err();
    assert_eq!(e.kind, ParseErrorKind::BadString);
}

#[test]
fn test_enum_keywords() {
    let mut c = TokenCursor::new(vec![ident(b"Obj"), ident(b"Unset"), ident(b"Bounded")]);
    assert_eq!(assemble_is_type_op(&mut c).unwrap(), IsTypeOp::Obj);
    assert_eq!(assemble_m_op_mode(&mut c).unwrap(), MOpMode::Unset);
    assert_eq!(assemble_switch_kind(&mut c).unwrap(), SwitchKind::Bounded);
    let mut c2 = TokenCursor::new(vec![ident(b"Bogus")]);
    let e = assemble_readonly_op(&mut c2).unwrap_err();
    assert_eq!(e.kind, ParseErrorKind::UnknownKeyword);
}

#[test]
fn test_fatal_op_keyword() {
    let mut c = TokenCursor::new(vec![ident(b"RuntimeOmitFrame")]);
    assert_eq!(
        assemble_fatal_op_kw(&mut c).unwrap(),
        hackbc::unit::FatalOp::RuntimeOmitFrame
    );
}

#[test]
fn test_bool_list() {
    let mut c = TokenCursor::new(vec![ident(b"101"), ident(b"-")]);
    let v = assemble_bool_list(&mut c).unwrap();
    assert_eq!(v, vec![true, false, true]);
    let v2 = assemble_bool_list(&mut c).unwrap();
    assert!(v2.is_empty());
}

#[test]
fn test_fcall_args() {
    let mut c = TokenCursor::new(vec![
        Token::Lt(p()),
        ident(b"HasGenerics"),
        ident(b"SkipRepack"),
        Token::Gt(p()),
        num(b"2"),
        num(b"1"),
        ident(b"10"),
        ident(b"-"),
        ident(b"L3"),
        Token::StrLiteral(b"\"ctx\"".to_vec(), p()),
    ]);
    let f = assemble_fcall_args(&mut c).unwrap();
    assert_eq!(f.flags.bits, 2 | 32);
    assert_eq!(f.num_args, 2);
    assert_eq!(f.num_rets, 1);
    assert_eq!(f.inouts, vec![true, false]);
    assert!(f.readonly.is_empty());
    assert_eq!(f.async_eager_target, Some(Label { id: 3 }));
    assert_eq!(f.context.unwrap().as_slice(), b"ctx");
}

#[test]
fn test_name_operand() {
    let mut c = TokenCursor::new(vec![Token::StrLiteral(b"\"Cls\"".to_vec(), p())]);
    let n = hackbc::assemble::assemble_class_name(&mut c).unwrap();
    assert_eq!(n.as_bytes().as_slice(), b"Cls");
}

#[test]
fn test_function_name_order_operator() {
    let a = hackbc::names::FunctionName::intern(b"Bar");
    let b = hackbc::names::FunctionName::intern(b"foo");
    assert!(a < b);
    let c1 = hackbc::names::FunctionName::intern(b"BAZ");
    let c2 = hackbc::names::FunctionName::intern(b"baz");
    assert_eq!(c1.partial_cmp(&c2), Some(std::cmp::Ordering::Equal));
}

#[test]
fn test_config_flags() {
    let mut cfg = HhvmConfig::new();
    cfg.set(b"php7.ltr_assign", true);
    cfg.set(b"Eval.FoldLazyClassKeys", false);
    let flags = hhbc_flags(&cfg);
    assert!(flags.ltr_assign);
    assert!(!flags.uvs);
    assert!(!flags.fold_lazy_class_keys);
    let defaults = hhbc_flags(&HhvmConfig::new());
    assert!(defaults.fold_lazy_class_keys);
    assert!(!defaults.ltr_assign);
}

#[test]
fn test_parser_options() {
    let mut cfg = HhvmConfig::new();
    cfg.set(b"Hack.Lang.AbstractStaticProps", true);
    let po = parser_options(&cfg);
    assert!(po.po_abstract_static_props);
    assert!(!po.po_allow_unstable_features);
}
