use refraction::lsp::completion::{
    builtin_receiver_type, builtin_snippet, completion_context_at, completion_item_kind_number,
    completion_snippet_for_signature, identifier_prefix, is_static_receiver, line_prefix_at,
    parse_member_completion_context, parse_named_type_annotation, parse_parameter_type_annotation,
    parse_type_completion_context, read_type_fragment, resolve_receiver_type_from_text, signature_result_type,
    strip_identifier_prefix, text_lines, type_prefers_sidecar, CompletionContext, CompletionEntryKind,
};
use refraction::lsp::symbols::{DeclarationKind, DeclarationSummary, FileSummary, MemberKind, MemberSummary, ProjectIndex};
use refraction::token::{Position, Span};

fn span(l1: u32, c1: u32, l2: u32, c2: u32) -> Span {
    Span { start: Position { line: l1, col: c1 }, end: Position { line: l2, col: c2 } }
}

fn member(name: &str, kind: MemberKind, signature: &str) -> MemberSummary {
    MemberSummary { name: name.to_string(), kind, signature: signature.to_string(), span: span(2, 5, 2, 30) }
}

fn player_file() -> FileSummary {
    FileSummary {
        path: "src/Player.prsm".to_string(),
        declaration: DeclarationSummary {
            name: "Player".to_string(),
            kind: DeclarationKind::Component,
            signature: "component Player : Actor".to_string(),
            base_type: Some("Actor".to_string()),
            interfaces: vec![],
            members: vec![
                member("speed", MemberKind::SerializeField, "speed: Float"),
                member("jump", MemberKind::Function, "jump(): Unit"),
                member("body", MemberKind::RequiredComponent, "body: Rigidbody"),
            ],
            span: span(1, 1, 1, 30),
        },
    }
}

#[test]
fn completion_line_prefix_cuts_at_the_caret() {
    let text = "first\r\nsecond line\n\nlast";
    assert_eq!(line_prefix_at(text, 1, 4), "fir");
    assert_eq!(line_prefix_at(text, 1, 99), "first");
    assert_eq!(line_prefix_at(text, 2, 7), "second");
    assert_eq!(line_prefix_at(text, 3, 5), "");
    assert_eq!(line_prefix_at(text, 4, 3), "la");
    assert_eq!(line_prefix_at(text, 5, 1), "");
    assert_eq!(line_prefix_at(text, 0, 0), "");
    assert_eq!(text_lines("a\r\nb\n"), vec!["a", "b"]);
    assert_eq!(text_lines("a\r"), vec!["a\r"]);
    assert!(text_lines("").is_empty());
}

#[test]
fn completion_member_context_reads_the_receiver_chain() {
    let context = parse_member_completion_context("    val x = this.rigidbody?.vel").expect("member context");
    assert_eq!(context.receiver, "rigidbody");
    assert_eq!(context.receiver_chain, vec!["this", "rigidbody"]);
    assert_eq!(context.prefix, "vel");
    assert_eq!(context.receiver_col, 18);
    assert!(parse_member_completion_context("val x = 3 + vel").is_none());
    assert!(parse_member_completion_context(".vel").is_none());
}

#[test]
fn completion_type_context_follows_colon_or_angle() {
    assert_eq!(parse_type_completion_context("val body: Rig").expect("type context").prefix, "Rig");
    assert_eq!(parse_type_completion_context("val list: List<").expect("type context").prefix, "");
    assert!(parse_type_completion_context("val body = Rig").is_none());
    assert_eq!(identifier_prefix("val body = Rig"), "Rig");
}

#[test]
fn completion_context_prefers_member_then_type() {
    let text = "component Player {\n    val body: Rig\n    update { transform.pos }\n}";
    match completion_context_at(text, 2, 18) {
        CompletionContext::Type(t) => assert_eq!(t.prefix, "Rig"),
        _ => panic!("expected a type context"),
    }
    match completion_context_at(text, 3, 27) {
        CompletionContext::Member(m) => {
            assert_eq!(m.receiver, "transform");
            assert_eq!(m.prefix, "pos");
        }
        _ => panic!("expected a member context"),
    }
    match completion_context_at(text, 1, 5) {
        CompletionContext::General(g) => assert_eq!(g.prefix, "comp"),
        _ => panic!("expected a general context"),
    }
}

#[test]
fn completion_receiver_types_come_from_declarations_and_parameters() {
    assert_eq!(strip_identifier_prefix("body: Rigidbody", "body").as_deref(), Some(": Rigidbody"));
    assert_eq!(strip_identifier_prefix("bodyPart: X", "body"), None);
    assert_eq!(read_type_fragment("List<Item>? = x"), "List<Item>?");
    assert_eq!(
        parse_named_type_annotation("require body: UnityEngine.Rigidbody?", "require", "body").as_deref(),
        Some("Rigidbody")
    );
    assert_eq!(parse_named_type_annotation("require body = 3", "require", "body"), None);
    assert_eq!(parse_parameter_type_annotation("func hit(other: Collider, x: Int)", "other").as_deref(), Some("Collider"));
    assert_eq!(parse_parameter_type_annotation("func hit(x: Int, other: Collider)", "other"), None);
    let text = "component Player {\n  serialize speed: Float = 3\n  func hit(other: Collider) {\n  }\n}";
    assert_eq!(resolve_receiver_type_from_text(text, "speed").as_deref(), Some("Float"));
    assert_eq!(resolve_receiver_type_from_text(text, "other").as_deref(), Some("Collider"));
    assert_eq!(resolve_receiver_type_from_text(text, "missing"), None);
}

#[test]
fn completion_signatures_and_snippets() {
    assert_eq!(signature_result_type("getComponent<T>(): T").as_deref(), Some("T"));
    assert_eq!(signature_result_type("transform: Transform").as_deref(), Some("Transform"));
    assert_eq!(signature_result_type("invoke(name: String, time: Float): Unit").as_deref(), Some("Unit"));
    assert_eq!(signature_result_type("plain"), None);
    assert_eq!(
        completion_snippet_for_signature("getComponent", "getComponent<T>(): T", CompletionEntryKind::Method).as_deref(),
        Some("getComponent<$1>()")
    );
    assert_eq!(completion_snippet_for_signature("reset", "reset(): Unit", CompletionEntryKind::Function).as_deref(), Some("reset()"));
    assert_eq!(completion_snippet_for_signature("move", "move(x: Float): Unit", CompletionEntryKind::Method).as_deref(), Some("move($1)"));
    assert_eq!(completion_snippet_for_signature("speed", "speed: Float", CompletionEntryKind::Property), None);
    assert_eq!(builtin_snippet("get", "<T>()"), "get<$1>()");
    assert_eq!(builtin_snippet("vec2", "(x, y)"), "vec2($1)");
    assert_eq!(completion_item_kind_number(CompletionEntryKind::TypeParameter), 25);
    assert_eq!(completion_item_kind_number(CompletionEntryKind::Keyword), 14);
}

#[test]
fn completion_receivers_and_sidecar_preference() {
    assert_eq!(builtin_receiver_type("transform"), Some("Transform"));
    assert_eq!(builtin_receiver_type("body"), None);
    assert!(is_static_receiver("input", "Input"));
    assert!(is_static_receiver("Time", "Time"));
    assert!(is_static_receiver("Physics", "Whatever"));
    assert!(!is_static_receiver("body", "Rigidbody"));
    let index = ProjectIndex { files: vec![player_file()] };
    assert!(!type_prefers_sidecar("Int", &index));
    assert!(!type_prefers_sidecar("Game.Player", &index));
    assert!(type_prefers_sidecar("Rigidbody", &index));
    assert!(!type_prefers_sidecar("Bool?", &index));
    assert!(type_prefers_sidecar("Vendor.Widget", &index));
}

use refraction::lsp::completion::{
    builtin_completion_entries, keyword_completion_entries, primitive_type_completion_entries,
    rank_completion_entries, CompletionEntry,
};

fn entry(label: &str, group: u8) -> CompletionEntry {
    CompletionEntry {
        label: label.to_string(),
        kind: CompletionEntryKind::Field,
        detail: String::new(),
        documentation: None,
        insert_text: None,
        sort_group: group,
    }
}

#[test]
fn completion_entries_are_filtered_deduplicated_and_ordered() {
    let entries = vec![
        entry("transform", 1),
        entry("Translate", 0),
        entry("TRANSFORM", 0),
        entry("tag", 1),
        entry("enabled", 0),
        entry("Time", 1),
    ];
    let ranked = rank_completion_entries(&entries, "T");
    assert_eq!(ranked, vec![1, 3, 5, 0]);
    let all = rank_completion_entries(&entries, "");
    assert_eq!(all, vec![4, 1, 3, 5, 0]);
    let many: Vec<CompletionEntry> = (0..250).map(|i| entry(&format!("item{:03}", i), 0)).collect();
    let capped = rank_completion_entries(&many, "item");
    assert_eq!(capped.len(), 200);
    assert_eq!(capped[0], 0);
    assert_eq!(capped[199], 199);
}

#[test]
fn completion_builtin_tables_become_entries() {
    let keywords = keyword_completion_entries();
    assert_eq!(keywords.len(), 52);
    assert_eq!(keywords[0].label, "component");
    assert_eq!(keywords[0].detail, "Keyword (prsm)");
    assert_eq!(keywords[0].sort_group, 2);
    let primitives = primitive_type_completion_entries();
    assert_eq!(primitives.len(), 8);
    assert_eq!(primitives[7].label, "Unit");
    let builtins = builtin_completion_entries();
    assert_eq!(builtins.len(), 10);
    assert_eq!(builtins[3].label, "get");
    assert_eq!(builtins[3].insert_text.as_deref(), Some("get<$1>()"));
    assert_eq!(builtins[3].documentation.as_deref(), Some("```prsm\nget<T>()\n```\n\nGetComponent<T>()"));
    assert_eq!(builtins[5].detail, "Builtin");
    assert_eq!(builtins[5].insert_text.as_deref(), Some("Destroy($1)"));
}
