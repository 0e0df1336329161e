use refraction::ast::{Decl, Expr, Member, Stmt, TypeRef, WhenPattern};
use refraction::lexer::tokenize_source;
use refraction::parser::{
    pascal_attr_case, pascal_case_methods_in_string, raw_pascal_case, should_insert_raw_space,
    token_to_source_text, Parser,
};
use refraction::token::TokenKind;

fn parse(source: &str) -> (refraction::ast::File, Vec<String>) {
    let mut parser = Parser::new(tokenize_source(source));
    let file = parser.parse_file();
    let errors = parser.errors().iter().map(|e| e.message.clone()).collect();
    (file, errors)
}

#[test]
fn second_top_level_declaration_is_reported() {
    let (_file, errors) = parse("component A : MonoBehaviour {}\ncomponent B : MonoBehaviour {}");
    assert_eq!(errors.len(), 1);
    assert!(errors[0].starts_with("E189: Multiple top-level declarations"));
}

#[test]
fn top_level_func_becomes_globals_class() {
    let (file, errors) = parse("func greet(): String = \"hi\"");
    assert!(errors.is_empty(), "{:?}", errors);
    match file.decl {
        Decl::Class { name, is_partial, members, .. } => {
            assert_eq!(name, "Globals");
            assert!(is_partial);
            match &members[0] {
                Member::Func { is_static, name, .. } => {
                    assert!(*is_static);
                    assert_eq!(name, "greet");
                }
                _ => panic!("expected func"),
            }
        }
        _ => panic!("expected Globals class"),
    }
}

#[test]
fn missing_declaration_is_reported_with_placeholder() {
    let (file, errors) = parse("val x = 1");
    assert!(!errors.is_empty());
    assert!(errors[0].starts_with("Expected declaration"));
    match file.decl {
        Decl::Component { name, .. } => assert_eq!(name, "<error>"),
        _ => panic!("expected placeholder component"),
    }
}

#[test]
fn intrinsic_block_is_rebuilt_as_csharp() {
    let (file, errors) = parse("component A : MonoBehaviour {\n  intrinsic func run() {\n    player.getHp();\n    Debug.Log(\"x\")\n  }\n}");
    assert!(errors.is_empty(), "{:?}", errors);
    match file.decl {
        Decl::Component { members, .. } => match &members[0] {
            Member::IntrinsicFunc { code, .. } => {
                assert_eq!(code, "player.GetHp();\nDebug.Log(\"x\")");
            }
            _ => panic!("expected intrinsic func"),
        },
        _ => panic!("expected component"),
    }
}

#[test]
fn unterminated_intrinsic_block_leaves_the_component_open() {
    let (_file, errors) = parse("component A : MonoBehaviour {\n  intrinsic func run() {\n    x");
    assert_eq!(errors.len(), 1);
    assert!(errors[0].starts_with("Expected RBrace, found Eof"));
}

#[test]
fn pascal_helpers() {
    assert_eq!(pascal_attr_case("serializeField"), "SerializeField");
    assert_eq!(pascal_attr_case(""), "");
    assert_eq!(raw_pascal_case("getHp"), "GetHp");
    assert_eq!(pascal_case_methods_in_string("HP: {player.getHp()} {a.b}"), "HP: {player.GetHp()} {a.b}");
}

#[test]
fn raw_spacing_rules() {
    assert!(!should_insert_raw_space(None, &TokenKind::Plus));
    assert!(!should_insert_raw_space(Some(&TokenKind::Identifier("f".into())), &TokenKind::LParen));
    assert!(should_insert_raw_space(Some(&TokenKind::Plus), &TokenKind::LParen));
    assert!(!should_insert_raw_space(Some(&TokenKind::Dot), &TokenKind::Identifier("x".into())));
    assert!(should_insert_raw_space(Some(&TokenKind::Identifier("a".into())), &TokenKind::Identifier("b".into())));
    assert!(!should_insert_raw_space(Some(&TokenKind::Error("Unexpected character: '$'".into())), &TokenKind::StringLiteral("s".into())));
}

#[test]
fn token_source_texts() {
    assert_eq!(token_to_source_text(&TokenKind::IntLiteral(-12)), "-12");
    assert_eq!(token_to_source_text(&TokenKind::FloatLiteral("1.5".into())), "1.5f");
    assert_eq!(token_to_source_text(&TokenKind::DurationLiteral("2".into())), "2s");
    assert_eq!(token_to_source_text(&TokenKind::ElvisAssign), "??=");
    assert_eq!(token_to_source_text(&TokenKind::StringLiteral("a.b()".into())), "\"a.B()\"");
    assert_eq!(token_to_source_text(&TokenKind::StringLiteral("a.b".into())), "\"a.b\"");
    assert_eq!(token_to_source_text(&TokenKind::Error("Unexpected character: '$'".into())), "$");
    assert_eq!(token_to_source_text(&TokenKind::Error("odd".into())), "/* odd */");
}

#[test]
fn generic_and_function_types() {
    let (file, errors) = parse("component A : MonoBehaviour {\n  var xs: List<Int> = []\n  event onHit: (Int, String) => Unit\n}");
    assert!(errors.is_empty(), "{:?}", errors);
    match file.decl {
        Decl::Component { members, .. } => {
            match &members[0] {
                Member::Field { ty: Some(TypeRef::Generic { name, type_args, .. }), .. } => {
                    assert_eq!(name, "List");
                    assert_eq!(type_args.len(), 1);
                }
                _ => panic!("expected generic field"),
            }
            match &members[1] {
                Member::Event { ty: TypeRef::Function { param_types, .. }, .. } => assert_eq!(param_types.len(), 2),
                _ => panic!("expected event"),
            }
        }
        _ => panic!("expected component"),
    }
}

#[test]
fn when_patterns_combine() {
    let (file, errors) = parse("component A : MonoBehaviour {\n  func f(x: Int) {\n    when x {\n      > 0 and < 10 => log(1)\n      not 5, 6 => log(2)\n      else => log(3)\n    }\n  }\n}");
    assert!(errors.is_empty(), "{:?}", errors);
    match file.decl {
        Decl::Component { members, .. } => match &members[0] {
            Member::Func { body: refraction::ast::FuncBody::Block(b), .. } => match &b.stmts[0] {
                Stmt::When { branches, .. } => {
                    assert_eq!(branches.len(), 3);
                    assert!(matches!(branches[0].pattern, WhenPattern::And { .. }));
                    assert!(matches!(branches[1].pattern, WhenPattern::Or { .. }));
                    assert!(matches!(branches[2].pattern, WhenPattern::Else));
                }
                _ => panic!("expected when"),
            },
            _ => panic!("expected func"),
        },
        _ => panic!("expected component"),
    }
}

#[test]
fn trailing_lambda_and_range_parse() {
    let (file, errors) = parse("component A : MonoBehaviour {\n  func f() {\n    val ys = xs.filter { it > 1 }\n    for i in 0 until 10 step 2 {\n    }\n  }\n}");
    assert!(errors.is_empty(), "{:?}", errors);
    match file.decl {
        Decl::Component { members, .. } => match &members[0] {
            Member::Func { body: refraction::ast::FuncBody::Block(b), .. } => {
                match &b.stmts[0] {
                    Stmt::ValDecl { init: Expr::Call { name, args, .. }, .. } => {
                        assert_eq!(name, "filter");
                        assert_eq!(args.len(), 1);
                    }
                    _ => panic!("expected call"),
                }
                match &b.stmts[1] {
                    Stmt::For { iterable: Expr::Range { inclusive, step, .. }, .. } => {
                        assert!(!inclusive);
                        assert!(step.is_some());
                    }
                    _ => panic!("expected for"),
                }
            }
            _ => panic!("expected func"),
        },
        _ => panic!("expected component"),
    }
}

#[test]
fn errors_accumulate_and_clean_parse_reaches_end() {
    let (_f, errors) = parse("component A : MonoBehaviour {\n  ??? bad\n  !!! worse\n}");
    assert_eq!(errors.len(), 2);
    let (_g, none) = parse("enum E { A, B }");
    assert!(none.is_empty());
}

#[test]
fn incomplete_using_is_reported_and_skipped() {
    let (file, errors) = parse("using A.\nusing B.C\ncomponent X : MonoBehaviour {}");
    assert_eq!(errors.len(), 1);
    assert_eq!(file.usings.len(), 1);
    assert_eq!(file.usings[0].path, "B.C");
}

#[test]
fn tokens_after_an_earlier_eof_are_not_read() {
    let mut toks = tokenize_source("component X : MonoBehaviour {}");
    let tail = tokenize_source("component Y : MonoBehaviour {}");
    toks.extend(tail);
    let mut parser = Parser::new(toks);
    let file = parser.parse_file();
    assert!(parser.errors().is_empty());
    match file.decl {
        Decl::Component { name, .. } => assert_eq!(name, "X"),
        _ => panic!("expected component"),
    }
}

#[test]
fn member_chain_continues_on_the_next_line() {
    let (file, errors) = parse("component A : MonoBehaviour {\n  func f() {\n    val x = a\n      .b?.c\n  }\n}");
    assert!(errors.is_empty(), "{:?}", errors);
    let Decl::Component { members, .. } = file.decl else { panic!("expected component") };
    let Member::Func { body: refraction::ast::FuncBody::Block(b), .. } = &members[0] else { panic!("expected func") };
    match &b.stmts[0] {
        Stmt::ValDecl { name, init: Expr::SafeCall { receiver, name: c, .. }, .. } => {
            assert_eq!(name, "x");
            assert_eq!(c, "c");
            match &**receiver {
                Expr::MemberAccess { receiver: a, name: bname, .. } => {
                    assert_eq!(bname, "b");
                    assert!(matches!(&**a, Expr::Ident(n, _) if n == "a"));
                }
                _ => panic!("expected member access"),
            }
        }
        _ => panic!("expected val"),
    }
}

#[test]
fn serialize_field_keeps_name_and_type() {
    let (file, errors) = parse("component A : MonoBehaviour {\n  serialize var speed: Float\n  require body: Rigidbody\n}");
    assert!(errors.is_empty(), "{:?}", errors);
    let Decl::Component { members, .. } = file.decl else { panic!("expected component") };
    match &members[0] {
        Member::SerializeField { name, ty: TypeRef::Simple { name: tn, nullable, .. }, init, .. } => {
            assert_eq!(name, "speed");
            assert_eq!(tn, "Float");
            assert!(!nullable);
            assert!(init.is_none());
        }
        _ => panic!("expected serialize field"),
    }
    match &members[1] {
        Member::Require { name, ty: TypeRef::Simple { name: tn, .. }, .. } => {
            assert_eq!(name, "body");
            assert_eq!(tn, "Rigidbody");
        }
        _ => panic!("expected require"),
    }
}

fn check_first_stmt_expr(source: &str, check: fn(&Expr)) {
    let (file, errors) = parse(source);
    assert!(errors.is_empty(), "{:?}", errors);
    let Decl::Component { members, .. } = file.decl else { panic!("expected component") };
    let Member::Func { body: refraction::ast::FuncBody::Block(b), .. } = &members[0] else { panic!("expected func") };
    match &b.stmts[0] {
        Stmt::ValDecl { init, .. } => check(init),
        Stmt::Expr { expr, .. } => check(expr),
        _ => panic!("expected val or expression"),
    }
}

#[test]
fn arithmetic_binds_products_tighter_and_left_to_right() {
    check_first_stmt_expr("component A : MonoBehaviour {\n  func f() {\n    val x = a - b - c * d\n  }\n}", |e| match e {
        Expr::Binary { op: refraction::ast::BinOp::Sub, left, right, .. } => {
            assert!(matches!(&**left, Expr::Binary { op: refraction::ast::BinOp::Sub, .. }));
            assert!(matches!(&**right, Expr::Binary { op: refraction::ast::BinOp::Mul, .. }));
        }
        _ => panic!("expected subtraction"),
    });
}

#[test]
fn free_call_keeps_its_literal_arguments() {
    check_first_stmt_expr("component A : MonoBehaviour {\n  func f() {\n    g(1, 2.5, \"s\")\n  }\n}", |e| match e {
        Expr::Call { receiver: None, name, args, .. } => {
            assert_eq!(name, "g");
            assert_eq!(args.len(), 3);
            assert!(matches!(args[0].value, Expr::IntLit(1, _)));
            assert!(matches!(&args[2].value, Expr::StringLit(s, _) if s == "s"));
        }
        _ => panic!("expected call"),
    });
}

#[test]
fn less_than_after_a_name_is_a_comparison() {
    check_first_stmt_expr("component A : MonoBehaviour {\n  func f() {\n    val x = a < b\n  }\n}", |e| match e {
        Expr::Binary { op: refraction::ast::BinOp::Lt, left, .. } => {
            assert!(matches!(&**left, Expr::Ident(n, _) if n == "a"));
        }
        _ => panic!("expected comparison"),
    });
}

#[test]
fn qualified_tuple_and_function_types() {
    let (file, errors) = parse("component A : MonoBehaviour {\n  serialize a: UnityEngine.Vector3\n  var p: (Int, String)\n  var f: (Int) => Bool\n  var g: () => Unit\n}");
    assert!(errors.is_empty(), "{:?}", errors);
    let Decl::Component { members, .. } = file.decl else { panic!("expected component") };
    match &members[0] {
        Member::SerializeField { ty: TypeRef::Qualified { qualifier, name, .. }, .. } => {
            assert_eq!(qualifier, "UnityEngine");
            assert_eq!(name, "Vector3");
        }
        _ => panic!("expected qualified type"),
    }
    assert!(matches!(&members[1], Member::Field { ty: Some(TypeRef::Tuple { types, .. }), .. } if types.len() == 2));
    assert!(matches!(&members[2], Member::Field { ty: Some(TypeRef::Function { param_types, .. }), .. } if param_types.len() == 1));
    assert!(matches!(&members[3], Member::Field { ty: Some(TypeRef::Function { param_types, .. }), .. } if param_types.is_empty()));
}

#[test]
fn stray_member_lines_are_reported_and_skipped() {
    let (file, errors) = parse("component A : MonoBehaviour {\n  ??? bad\n  serialize speed: Float = 5.0\n  , x\n  require body: Rigidbody\n}");
    assert_eq!(errors.len(), 2);
    assert!(errors.iter().all(|m| m.starts_with("Expected member declaration, found ")));
    let Decl::Component { members, .. } = file.decl else { panic!("expected component") };
    assert_eq!(members.len(), 2);
    assert!(matches!(&members[0], Member::SerializeField { name, init: Some(Expr::FloatLit(v, _)), .. } if name == "speed" && v == "5.0"));
    assert!(matches!(&members[1], Member::Require { name, .. } if name == "body"));
}

#[test]
fn leading_literal_gets_one_expected_declaration_diagnostic() {
    let (file, errors) = parse("42\ncomponent A : MonoBehaviour {}");
    assert_eq!(errors.len(), 1);
    assert!(errors[0].starts_with("Expected declaration"));
    assert!(matches!(file.decl, Decl::Component { ref name, .. } if name == "<error>"));
}
