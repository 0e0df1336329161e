use refraction::lexer::Lexer;
use refraction::parser::{Parser, ParseError};
use refraction::ast::{File, Decl, Member, Stmt, Expr, FuncBody, LifecycleKind, Visibility, BinOp, AssignOp, WaitForm, InterfaceMember, Block};

fn parse(input: &str) -> (File, Vec<ParseError>) {
    let mut lexer = Lexer::new(input);
    let tokens = lexer.tokenize();
    let mut parser = Parser::new(tokens);
    let file = parser.parse_file();
    let errors = parser.errors().to_vec();
    (file, errors)
}

fn parse_ok(input: &str) -> File {
    let (file, errors) = parse(input);
    if !errors.is_empty() {
        panic!("Parse errors: {:?}", errors);
    }
    file
}

// === Using declarations ===

#[test]
fn test_using_single() {
    let file = parse_ok("using UnityEngine\ncomponent Foo : MonoBehaviour {}");
    assert_eq!(file.usings.len(), 1);
    assert_eq!(file.usings[0].path, "UnityEngine");
}

#[test]
fn test_using_qualified() {
    let file = parse_ok("using UnityEngine.UI\ncomponent Foo : MonoBehaviour {}");
    assert_eq!(file.usings[0].path, "UnityEngine.UI");
}

#[test]
fn test_multiple_usings() {
    let file = parse_ok("using UnityEngine\nusing UnityEngine.UI\ncomponent Foo : MonoBehaviour {}");
    assert_eq!(file.usings.len(), 2);
}

// === Component declaration ===

#[test]
fn test_empty_component() {
    let file = parse_ok("component Player : MonoBehaviour {}");
    match &file.decl {
        Decl::Component { name, base_class, .. } => {
            assert_eq!(name, "Player");
            assert_eq!(base_class, "MonoBehaviour");
        }
        _ => panic!("Expected component"),
    }
}

#[test]
fn test_component_with_serialize() {
    let file = parse_ok("component Player : MonoBehaviour {\n  serialize speed: Float = 5.0\n}");
    match &file.decl {
        Decl::Component { members, .. } => {
            assert_eq!(members.len(), 1);
            match &members[0] {
                Member::SerializeField { name, .. } => assert_eq!(name, "speed"),
                _ => panic!("Expected SerializeField"),
            }
        }
        _ => panic!("Expected component"),
    }
}

#[test]
fn test_component_with_require() {
    let file = parse_ok("component Player : MonoBehaviour {\n  require rb: Rigidbody\n}");
    match &file.decl {
        Decl::Component { members, .. } => {
            assert_eq!(members.len(), 1);
            match &members[0] {
                Member::Require { name, .. } => assert_eq!(name, "rb"),
                _ => panic!("Expected Require"),
            }
        }
        _ => panic!("Expected component"),
    }
}

#[test]
fn test_component_with_lifecycle() {
    let file = parse_ok("component Foo : MonoBehaviour {\n  update {\n    move()\n  }\n}");
    match &file.decl {
        Decl::Component { members, .. } => {
            assert_eq!(members.len(), 1);
            match &members[0] {
                Member::Lifecycle { kind, .. } => assert_eq!(*kind, LifecycleKind::Update),
                _ => panic!("Expected Lifecycle"),
            }
        }
        _ => panic!("Expected component"),
    }
}

#[test]
fn test_lifecycle_with_param() {
    let file = parse_ok("component Foo : MonoBehaviour {\n  onTriggerEnter(other: Collider) {\n    print(other)\n  }\n}");
    match &file.decl {
        Decl::Component { members, .. } => {
            match &members[0] {
                Member::Lifecycle { kind, params, .. } => {
                    assert_eq!(*kind, LifecycleKind::OnTriggerEnter);
                    assert_eq!(params.len(), 1);
                    assert_eq!(params[0].name, "other");
                }
                _ => panic!("Expected Lifecycle"),
            }
        }
        _ => panic!("Expected component"),
    }
}

// === Asset declaration ===

#[test]
fn test_asset() {
    let file = parse_ok("asset WeaponData : ScriptableObject {\n  serialize damage: Int = 10\n}");
    match &file.decl {
        Decl::Asset { name, base_class, members, .. } => {
            assert_eq!(name, "WeaponData");
            assert_eq!(base_class, "ScriptableObject");
            assert_eq!(members.len(), 1);
        }
        _ => panic!("Expected asset"),
    }
}

// === Class declaration ===

#[test]
fn test_simple_class() {
    let file = parse_ok("class Helper {\n  func doStuff() {\n  }\n}");
    match &file.decl {
        Decl::Class { name, super_class, interfaces, .. } => {
            assert_eq!(name, "Helper");
            assert!(super_class.is_none());
            assert!(interfaces.is_empty());
        }
        _ => panic!("Expected class"),
    }
}

#[test]
fn test_component_with_interfaces() {
    let file = parse_ok("component Foo : MonoBehaviour, IFoo, IBar {\n}");
    match &file.decl {
        Decl::Component { base_class, interfaces, .. } => {
            assert_eq!(base_class, "MonoBehaviour");
            assert_eq!(interfaces, &vec!["IFoo".to_string(), "IBar".to_string()]);
        }
        _ => panic!("Expected component"),
    }
}

#[test]
fn test_class_with_interfaces() {
    let file = parse_ok("class Helper : BaseHelper, IDisposable, IComparable {\n}\n");
    match &file.decl {
        Decl::Class { super_class, interfaces, .. } => {
            assert_eq!(super_class.as_deref(), Some("BaseHelper"));
            assert_eq!(interfaces, &vec!["IDisposable".to_string(), "IComparable".to_string()]);
        }
        _ => panic!("Expected class"),
    }
}

// === Data class ===

#[test]
fn test_data_class() {
    let file = parse_ok("data class DamageInfo(\n  val amount: Int,\n  val crit: Bool\n)");
    match &file.decl {
        Decl::DataClass { name, fields, .. } => {
            assert_eq!(name, "DamageInfo");
            assert_eq!(fields.len(), 2);
            assert_eq!(fields[0].name, "amount");
            assert_eq!(fields[1].name, "crit");
        }
        _ => panic!("Expected data class"),
    }
}

// === Enum declaration ===

#[test]
fn test_simple_enum() {
    let file = parse_ok("enum EnemyState {\n  Idle,\n  Chase,\n  Attack\n}");
    match &file.decl {
        Decl::Enum { name, entries, .. } => {
            assert_eq!(name, "EnemyState");
            assert_eq!(entries.len(), 3);
            assert_eq!(entries[0].name, "Idle");
            assert_eq!(entries[1].name, "Chase");
            assert_eq!(entries[2].name, "Attack");
        }
        _ => panic!("Expected enum"),
    }
}

#[test]
fn test_parameterized_enum() {
    let file = parse_ok("enum Weapon(val damage: Int) {\n  Sword(10),\n  Bow(7)\n}");
    match &file.decl {
        Decl::Enum { name, params, entries, .. } => {
            assert_eq!(name, "Weapon");
            assert_eq!(params.len(), 1);
            assert_eq!(params[0].name, "damage");
            assert_eq!(entries.len(), 2);
            assert_eq!(entries[0].args.len(), 1);
        }
        _ => panic!("Expected enum"),
    }
}

// === Function declaration ===

#[test]
fn test_func_block_body() {
    let file = parse_ok("component Foo : MonoBehaviour {\n  func move() {\n    print(1)\n  }\n}");
    match &file.decl {
        Decl::Component { members, .. } => {
            match &members[0] {
                Member::Func { name, body, .. } => {
                    assert_eq!(name, "move");
                    assert!(matches!(body, FuncBody::Block(_)));
                }
                _ => panic!("Expected func"),
            }
        }
        _ => panic!("Expected component"),
    }
}

#[test]
fn test_func_expr_body() {
    let file = parse_ok("component Foo : MonoBehaviour {\n  func isDead(): Bool = hp <= 0\n}");
    match &file.decl {
        Decl::Component { members, .. } => {
            match &members[0] {
                Member::Func { name, body, return_ty, .. } => {
                    assert_eq!(name, "isDead");
                    assert!(return_ty.is_some());
                    assert!(matches!(body, FuncBody::ExprBody(_)));
                }
                _ => panic!("Expected func"),
            }
        }
        _ => panic!("Expected component"),
    }
}

// === Coroutine ===

#[test]
fn test_coroutine() {
    let file = parse_ok("component Foo : MonoBehaviour {\n  coroutine blink() {\n    wait 0.2s\n  }\n}");
    match &file.decl {
        Decl::Component { members, .. } => {
            match &members[0] {
                Member::Coroutine { name, .. } => assert_eq!(name, "blink"),
                _ => panic!("Expected coroutine"),
            }
        }
        _ => panic!("Expected component"),
    }
}

// === Statements ===

#[test]
fn test_val_decl() {
    let file = parse_ok("component Foo : MonoBehaviour {\n  update {\n    val x = 5\n  }\n}");
    match &file.decl {
        Decl::Component { members, .. } => {
            if let Member::Lifecycle { body, .. } = &members[0] {
                assert_eq!(body.stmts.len(), 1);
                assert!(matches!(&body.stmts[0], Stmt::ValDecl { name, .. } if name == "x"));
            }
        }
        _ => panic!("Expected component"),
    }
}

#[test]
fn test_if_else() {
    let file = parse_ok("component Foo : MonoBehaviour {\n  update {\n    if hp <= 0 {\n      die()\n    } else {\n      run()\n    }\n  }\n}");
    match &file.decl {
        Decl::Component { members, .. } => {
            if let Member::Lifecycle { body, .. } = &members[0] {
                assert!(matches!(&body.stmts[0], Stmt::If { else_branch: Some(_), .. }));
            }
        }
        _ => panic!("Expected component"),
    }
}

#[test]
fn test_if_expr() {
    let file = parse_ok("component Foo : MonoBehaviour {\n  func score(): Int = if hp <= 0 { 0 } else { 100 }\n}");
    match &file.decl {
        Decl::Component { members, .. } => {
            match &members[0] {
                Member::Func { body: FuncBody::ExprBody(Expr::IfExpr { .. }), .. } => {}
                _ => panic!("Expected if expression body"),
            }
        }
        _ => panic!("Expected component"),
    }
}

#[test]
fn test_for_loop() {
    let file = parse_ok("component Foo : MonoBehaviour {\n  update {\n    for enemy in enemies {\n      attack(enemy)\n    }\n  }\n}");
    match &file.decl {
        Decl::Component { members, .. } => {
            if let Member::Lifecycle { body, .. } = &members[0] {
                assert!(matches!(&body.stmts[0], Stmt::For { var_name, .. } if var_name == "enemy"));
            }
        }
        _ => panic!("Expected component"),
    }
}

#[test]
fn test_when_stmt() {
    let src = "component Foo : MonoBehaviour {\n  update {\n    when state {\n      State.Idle => idle()\n      else => attack()\n    }\n  }\n}";
    let file = parse_ok(src);
    match &file.decl {
        Decl::Component { members, .. } => {
            if let Member::Lifecycle { body, .. } = &members[0] {
                if let Stmt::When { branches, .. } = &body.stmts[0] {
                    assert_eq!(branches.len(), 2);
                } else {
                    panic!("Expected when");
                }
            }
        }
        _ => panic!("Expected component"),
    }
}

#[test]
fn test_when_expr() {
    let src = "component Foo : MonoBehaviour {\n  func score(): Int = when state {\n    State.Idle => 0\n    else => 100\n  }\n}";
    let file = parse_ok(src);
    match &file.decl {
        Decl::Component { members, .. } => {
            match &members[0] {
                Member::Func { body: FuncBody::ExprBody(Expr::WhenExpr { branches, .. }), .. } => {
                    assert_eq!(branches.len(), 2);
                }
                _ => panic!("Expected when expression body"),
            }
        }
        _ => panic!("Expected component"),
    }
}

#[test]
fn test_wait_duration() {
    let file = parse_ok("component Foo : MonoBehaviour {\n  coroutine blink() {\n    wait 1.0s\n  }\n}");
    match &file.decl {
        Decl::Component { members, .. } => {
            if let Member::Coroutine { body, .. } = &members[0] {
                assert!(matches!(&body.stmts[0], Stmt::Wait { form: WaitForm::Duration(_), .. }));
            }
        }
        _ => panic!("Expected component"),
    }
}

#[test]
fn test_wait_next_frame() {
    let file = parse_ok("component Foo : MonoBehaviour {\n  coroutine blink() {\n    wait nextFrame\n  }\n}");
    match &file.decl {
        Decl::Component { members, .. } => {
            if let Member::Coroutine { body, .. } = &members[0] {
                assert!(matches!(&body.stmts[0], Stmt::Wait { form: WaitForm::NextFrame, .. }));
            }
        }
        _ => panic!("Expected component"),
    }
}

#[test]
fn test_wait_until() {
    let file = parse_ok("component Foo : MonoBehaviour {\n  coroutine waitDead() {\n    wait until hp <= 0\n  }\n}");
    match &file.decl {
        Decl::Component { members, .. } => {
            if let Member::Coroutine { body, .. } = &members[0] {
                assert!(matches!(&body.stmts[0], Stmt::Wait { form: WaitForm::Until(_), .. }));
            }
        }
        _ => panic!("Expected component"),
    }
}

#[test]
fn test_start_stop() {
    let file = parse_ok("component Foo : MonoBehaviour {\n  func go() {\n    start blink()\n    stopAll()\n  }\n}");
    match &file.decl {
        Decl::Component { members, .. } => {
            if let Member::Func { body: FuncBody::Block(block), .. } = &members[0] {
                assert!(matches!(&block.stmts[0], Stmt::Start { .. }));
                assert!(matches!(&block.stmts[1], Stmt::StopAll { .. }));
            }
        }
        _ => panic!("Expected component"),
    }
}

#[test]
fn test_listen_stmt() {
    let file = parse_ok("component Foo : MonoBehaviour {\n  start {\n    listen button.onClick {\n      play()\n    }\n  }\n}");
    match &file.decl {
        Decl::Component { members, .. } => {
            if let Member::Lifecycle { body, .. } = &members[0] {
                assert!(matches!(&body.stmts[0], Stmt::Listen { .. }));
            }
        }
        _ => panic!("Expected component"),
    }
}

// === Expressions ===

#[test]
fn test_binary_expr() {
    let file = parse_ok("component Foo : MonoBehaviour {\n  func f() {\n    val x = a + b * c\n  }\n}");
    match &file.decl {
        Decl::Component { members, .. } => {
            if let Member::Func { body: FuncBody::Block(block), .. } = &members[0] {
                if let Stmt::ValDecl { init, .. } = &block.stmts[0] {
                    // a + (b * c) — mul has higher precedence
                    assert!(matches!(init, Expr::Binary { op: BinOp::Add, .. }));
                }
            }
        }
        _ => panic!("Expected component"),
    }
}

#[test]
fn test_safe_call() {
    let file = parse_ok("component Foo : MonoBehaviour {\n  func f() {\n    animator?.play(\"Run\")\n  }\n}");
    // Should parse without errors
    match &file.decl {
        Decl::Component { members, .. } => {
            if let Member::Func { body: FuncBody::Block(block), .. } = &members[0] {
                assert_eq!(block.stmts.len(), 1);
            }
        }
        _ => panic!("Expected component"),
    }
}

#[test]
fn test_elvis_expr() {
    let file = parse_ok("component Foo : MonoBehaviour {\n  func f() {\n    val name = playerName ?: \"Unknown\"\n  }\n}");
    match &file.decl {
        Decl::Component { members, .. } => {
            if let Member::Func { body: FuncBody::Block(block), .. } = &members[0] {
                if let Stmt::ValDecl { init, .. } = &block.stmts[0] {
                    assert!(matches!(init, Expr::Elvis { .. }));
                }
            }
        }
        _ => panic!("Expected component"),
    }
}

#[test]
fn test_assignment() {
    let file = parse_ok("component Foo : MonoBehaviour {\n  func f() {\n    hp -= 10\n  }\n}");
    match &file.decl {
        Decl::Component { members, .. } => {
            if let Member::Func { body: FuncBody::Block(block), .. } = &members[0] {
                assert!(matches!(&block.stmts[0], Stmt::Assignment { op: AssignOp::MinusAssign, .. }));
            }
        }
        _ => panic!("Expected component"),
    }
}

// === Full sample parsing ===

#[test]
fn test_parse_player_controller_sample() {
    let src = r#"using UnityEngine

component PlayerController : MonoBehaviour {
@header("Movement")
serialize speed: Float = 5.0
serialize jumpForce: Float = 8.0

require rb: Rigidbody
optional animator: Animator

update {
    val h = input.axis("Horizontal")
    val v = input.axis("Vertical")
    val move = vec3(h, 0, v)
    rb.velocity = move * speed
}

func jump() {
    rb.addForce(vec3(0, jumpForce, 0))
    animator?.play("Jump")
}
}"#;
    let file = parse_ok(src);
    assert_eq!(file.usings.len(), 1);
    match &file.decl {
        Decl::Component { name, members, .. } => {
            assert_eq!(name, "PlayerController");
            // serialize x2, require, optional, update, func = 6 members
            assert_eq!(members.len(), 6);
        }
        _ => panic!("Expected component"),
    }
}

#[test]
fn test_parse_player_health_sample() {
    let src = r#"using UnityEngine

component PlayerHealth : MonoBehaviour {
serialize maxHp: Int = 100
serialize invincibleTime: Float = 1.0

var hp: Int = 100
var invincible: Bool = false

func damage(amount: Int) {
    if invincible { return }
    hp -= amount
    start hitInvincible()
    if hp <= 0 {
        die()
    }
}

coroutine hitInvincible() {
    invincible = true
    wait invincibleTime.s
    invincible = false
}

func die() {
    gameObject.setActive(false)
}
}"#;
    let file = parse_ok(src);
    match &file.decl {
        Decl::Component { name, members, .. } => {
            assert_eq!(name, "PlayerHealth");
            // 2 serialize + 2 var + 2 func + 1 coroutine = 7
            assert_eq!(members.len(), 7);
        }
        _ => panic!("Expected component"),
    }
}

#[test]
fn test_parse_enum_with_when() {
    let src = r#"enum EnemyState {
Idle,
Chase,
Attack
}"#;
    let file = parse_ok(src);
    match &file.decl {
        Decl::Enum { name, entries, .. } => {
            assert_eq!(name, "EnemyState");
            assert_eq!(entries.len(), 3);
        }
        _ => panic!("Expected enum"),
    }
}

// === Error recovery ===

#[test]
fn test_error_recovery() {
    let src = "component Foo : MonoBehaviour {\n  ??? bad\n  serialize speed: Float = 5.0\n}";
    let (file, errors) = parse(src);
    assert!(!errors.is_empty());
    // Should still have parsed some members
    match &file.decl {
        Decl::Component { members, .. } => {
            // The serialize field should still be parsed after error recovery
            assert!(members.iter().any(|m| matches!(m, Member::SerializeField { name, .. } if name == "speed")));
        }
        _ => {}
    }
}

// ── v4 Phase 4 — event, use, collection literals, DIM ─────────

#[test]
fn test_parse_event_member() {
    let file = parse_ok(r#"component Boss : MonoBehaviour {
  event onDamaged: (Int) => Unit
}"#);
    match file.decl {
        Decl::Component { members, .. } => {
            assert!(members.iter().any(|m| matches!(m, Member::Event { name, .. } if name == "onDamaged")));
        }
        _ => panic!("expected component"),
    }
}

#[test]
fn test_parse_event_with_visibility() {
    let file = parse_ok(r#"component Boss : MonoBehaviour {
  private event onDeath: () => Unit
}"#);
    match file.decl {
        Decl::Component { members, .. } => {
            let event = members.iter().find_map(|m| match m {
                Member::Event { name, visibility, .. } if name == "onDeath" => Some(*visibility),
                _ => None,
            }).expect("event member");
            assert_eq!(event, Visibility::Private);
        }
        _ => panic!("expected component"),
    }
}

#[test]
fn test_parse_use_declaration_form() {
    let src = r#"component Foo : MonoBehaviour {
  func test() {
use val s = openFile()
  }
}"#;
    let file = parse_ok(src);
    // Drill down to find the Use stmt
    let mut found = false;
    if let Decl::Component { members, .. } = file.decl {
        for m in &members {
            if let Member::Func { body: FuncBody::Block(b), .. } = m {
                for s in &b.stmts {
                    if matches!(s, Stmt::Use { name, body: None, .. } if name == "s") {
                        found = true;
                    }
                }
            }
        }
    }
    assert!(found, "Use declaration not parsed");
}

#[test]
fn test_parse_use_block_form() {
    let src = r#"component Foo : MonoBehaviour {
  func test() {
use s = openFile() {
  log(s)
}
  }
}"#;
    let file = parse_ok(src);
    let mut found = false;
    if let Decl::Component { members, .. } = file.decl {
        for m in &members {
            if let Member::Func { body: FuncBody::Block(b), .. } = m {
                for s in &b.stmts {
                    if matches!(s, Stmt::Use { name, body: Some(_), .. } if name == "s") {
                        found = true;
                    }
                }
            }
        }
    }
    assert!(found, "Use block form not parsed");
}

#[test]
fn test_parse_list_literal() {
    let src = r#"component Foo : MonoBehaviour {
  func test() {
val xs = [1, 2, 3]
  }
}"#;
    let file = parse_ok(src);
    let mut found = false;
    if let Decl::Component { members, .. } = file.decl {
        for m in &members {
            if let Member::Func { body: FuncBody::Block(b), .. } = m {
                for s in &b.stmts {
                    if let Stmt::ValDecl { init: Expr::ListLit { elements, .. }, .. } = s {
                        assert_eq!(elements.len(), 3);
                        found = true;
                    }
                }
            }
        }
    }
    assert!(found, "List literal not parsed");
}

#[test]
fn test_parse_map_literal() {
    let src = r#"component Foo : MonoBehaviour {
  func test() {
val m = {"a": 1, "b": 2}
  }
}"#;
    let file = parse_ok(src);
    let mut found = false;
    if let Decl::Component { members, .. } = file.decl {
        for m in &members {
            if let Member::Func { body: FuncBody::Block(b), .. } = m {
                for s in &b.stmts {
                    if let Stmt::ValDecl { init: Expr::MapLit { entries, .. }, .. } = s {
                        assert_eq!(entries.len(), 2);
                        found = true;
                    }
                }
            }
        }
    }
    assert!(found, "Map literal not parsed");
}

#[test]
fn test_parse_empty_list_literal() {
    let src = r#"component Foo : MonoBehaviour {
  func test() {
val xs: List<Int> = []
  }
}"#;
    let file = parse_ok(src);
    let mut found = false;
    if let Decl::Component { members, .. } = file.decl {
        for m in &members {
            if let Member::Func { body: FuncBody::Block(b), .. } = m {
                for s in &b.stmts {
                    if let Stmt::ValDecl { init: Expr::ListLit { elements, .. }, .. } = s {
                        assert!(elements.is_empty());
                        found = true;
                    }
                }
            }
        }
    }
    assert!(found, "Empty list literal not parsed");
}

#[test]
fn test_parse_lambda_still_works_after_brace_disambiguation() {
    // Make sure adding map literal support didn't break lambda parsing.
    let src = r#"component Foo : MonoBehaviour {
  func test() {
val handler = { x => x + 1 }
  }
}"#;
    let file = parse_ok(src);
    // Just ensure no parse errors occurred (parse_ok asserts that).
    let _ = file;
}

#[test]
fn test_parse_default_interface_method() {
    let src = r#"interface IMovable {
  func move() {
log("default")
  }
}"#;
    let file = parse_ok(src);
    if let Decl::Interface { members, .. } = file.decl {
        let func = members.iter().find_map(|m| match m {
            InterfaceMember::Func { name, default_body, .. } if name == "move" => {
                Some(default_body.is_some())
            }
            _ => None,
        }).expect("interface func");
        assert!(func, "expected default body");
    } else {
        panic!("expected interface");
    }
}

#[test]
fn test_parse_interface_signature_only() {
    let src = r#"interface IMovable {
  func move()
}"#;
    let file = parse_ok(src);
    if let Decl::Interface { members, .. } = file.decl {
        let no_default = members.iter().any(|m| matches!(m,
            InterfaceMember::Func { name, default_body, .. }
            if name == "move" && default_body.is_none()
        ));
        assert!(no_default, "expected no default body");
    } else {
        panic!("expected interface");
    }
}

// ── Phase 5: async / state machine / command / bind ──────────

#[test]
fn test_parse_async_func() {
    let src = r#"component Loader : MonoBehaviour {
  async func loadProfile(): String {
val payload = await fetch("/api/profile")
return payload
  }
}"#;
    let file = parse_ok(src);
    if let Decl::Component { members, .. } = file.decl {
        let mut found = false;
        for m in &members {
            if let Member::Func { name, is_async, .. } = m {
                if name == "loadProfile" {
                    assert!(*is_async, "loadProfile must be async");
                    found = true;
                }
            }
        }
        assert!(found, "loadProfile not found");
    } else {
        panic!("expected component");
    }
}

#[test]
fn test_parse_await_inside_async() {
    let src = r#"component Loader : MonoBehaviour {
  async func ping() {
await delay(1)
  }
}"#;
    let file = parse_ok(src);
    let _ = file;
}

#[test]
fn test_parse_state_machine_basic() {
    let src = r#"component EnemyAI : MonoBehaviour {
  state machine aiState {
state Idle {
  on playerDetected => Chase
}
state Chase {
  on playerLost => Idle
}
  }
}"#;
    let file = parse_ok(src);
    if let Decl::Component { members, .. } = file.decl {
        let sm = members.iter().find_map(|m| match m {
            Member::StateMachine { name, states, .. } if name == "aiState" => Some(states),
            _ => None,
        }).expect("state machine");
        assert_eq!(sm.len(), 2, "two states");
        assert_eq!(sm[0].name, "Idle");
        assert_eq!(sm[0].transitions.len(), 1);
        assert_eq!(sm[0].transitions[0].event, "playerDetected");
        assert_eq!(sm[0].transitions[0].target, "Chase");
    } else {
        panic!("expected component");
    }
}

#[test]
fn test_parse_state_machine_enter_exit() {
    let src = r#"component EnemyAI : MonoBehaviour {
  state machine aiState {
state Idle {
  enter { log("idle") }
  exit { log("leaving idle") }
  on go => Run
}
state Run {
  on stopRun => Idle
}
  }
}"#;
    let file = parse_ok(src);
    if let Decl::Component { members, .. } = file.decl {
        let sm = members.iter().find_map(|m| match m {
            Member::StateMachine { states, .. } => Some(states),
            _ => None,
        }).expect("state machine");
        let idle = sm.iter().find(|s| s.name == "Idle").expect("Idle state");
        assert!(idle.enter.is_some(), "Idle.enter present");
        assert!(idle.exit.is_some(), "Idle.exit present");
    } else {
        panic!("expected component");
    }
}

#[test]
fn test_parse_command_basic() {
    let src = r#"component Unit : MonoBehaviour {
  command moveTo(target: Vector3) {
log("execute")
  }
}"#;
    let file = parse_ok(src);
    if let Decl::Component { members, .. } = file.decl {
        let cmd = members.iter().find_map(|m| match m {
            Member::Command { name, params, .. } if name == "moveTo" => Some(params.len()),
            _ => None,
        }).expect("command");
        assert_eq!(cmd, 1, "moveTo has one param");
    } else {
        panic!("expected component");
    }
}

#[test]
fn test_parse_command_with_undo_and_canexecute() {
    let src = r#"component Unit : MonoBehaviour {
  command damage(amount: Int) {
log("dealing damage")
  } undo {
log("undo")
  } canExecute = true
}"#;
    let file = parse_ok(src);
    if let Decl::Component { members, .. } = file.decl {
        let (has_undo, has_can) = members.iter().find_map(|m| match m {
            Member::Command { name, undo, can_execute, .. } if name == "damage" => {
                Some((undo.is_some(), can_execute.is_some()))
            }
            _ => None,
        }).expect("command");
        assert!(has_undo, "undo block present");
        assert!(has_can, "canExecute present");
    } else {
        panic!("expected component");
    }
}

#[test]
fn test_parse_bind_property() {
    let src = r#"component HUD : MonoBehaviour {
  bind hp: Int = 100
}"#;
    let file = parse_ok(src);
    if let Decl::Component { members, .. } = file.decl {
        let found = members.iter().any(|m| matches!(m,
            Member::BindProperty { name, .. } if name == "hp"
        ));
        assert!(found, "bind property hp present");
    } else {
        panic!("expected component");
    }
}

#[test]
fn test_parse_bind_to_statement() {
    let src = r#"component HUD : MonoBehaviour {
  bind hp: Int = 100
  awake {
bind hp to label.text
  }
}"#;
    let file = parse_ok(src);
    if let Decl::Component { members, .. } = file.decl {
        let mut saw_bind_to = false;
        for m in &members {
            if let Member::Lifecycle { body, .. } = m {
                for s in &body.stmts {
                    if matches!(s, Stmt::BindTo { source, .. } if source == "hp") {
                        saw_bind_to = true;
                    }
                }
            }
        }
        assert!(saw_bind_to, "bind hp to statement present");
    } else {
        panic!("expected component");
    }
}

// Issue #98: the parser must reject duplicate `enter { }` or
// `exit { }` blocks within a single state. Previously the
// second block silently overwrote the first, losing user code.
#[test]
fn test_duplicate_enter_block_rejected() {
    let src = r#"component AI : MonoBehaviour {
  state machine ai {
state Idle {
  enter { log("first") }
  enter { log("second") }
}
  }
}"#;
    let (_file, errors) = parse(src);
    assert!(
        errors.iter().any(|e| e.message.contains("E212") && e.message.contains("enter")),
        "expected E212 duplicate enter block, got {:?}",
        errors
    );
}

#[test]
fn test_duplicate_exit_block_rejected() {
    let src = r#"component AI : MonoBehaviour {
  state machine ai {
state Idle {
  exit { log("first") }
  exit { log("second") }
}
  }
}"#;
    let (_file, errors) = parse(src);
    assert!(
        errors.iter().any(|e| e.message.contains("E212") && e.message.contains("exit")),
        "expected E212 duplicate exit block, got {:?}",
        errors
    );
}

#[test]
fn test_single_enter_exit_block_still_parses() {
    let src = r#"component AI : MonoBehaviour {
  state machine ai {
state Idle {
  enter { log("enter") }
  exit { log("exit") }
  on go => Active
}
state Active {
  on stop => Idle
}
  }
}"#;
    let _ = parse_ok(src);
}
