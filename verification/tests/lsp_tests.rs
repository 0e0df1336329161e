use refraction::lsp::kinds::{
    code_action_kind_matches, collect_code_actions, requested_code_action_allows,
    CODE_ACTION_KIND_REFACTOR_REWRITE, CODE_ACTION_KIND_SOURCE_ORGANIZE_IMPORTS,
};
use refraction::lsp::organize::{
    collect_organize_usings_action_for_source, detect_line_ending, offset_for_position,
    source_text_for_span, supports_unused_using_cleanup, using_block_contains_comments,
};
use refraction::lsp::type_args::{
    collect_explicit_type_arg_actions_for_source, selection_targets_span, ExplicitTypeArgCodeAction,
};
use refraction::token::{Position, Span};

fn explicit_type_arg_actions_from_marked_source(marked: &str) -> Vec<ExplicitTypeArgCodeAction> {
    let (source, selection) = source_and_selection_from_markers(marked);
    collect_explicit_type_arg_actions_for_source(&source, selection)
}

fn source_and_selection_from_markers(marked: &str) -> (String, Span) {
    let mut source = String::new();
    let mut start = None;
    let mut end = None;
    let mut line = 1u32;
    let mut col = 1u32;

    for ch in marked.chars() {
        if ch == '|' {
            if start.is_none() {
                let position = Position { line, col };
                start = Some(position);
                end = Some(position);
            } else {
                end = Some(Position { line, col });
            }
            continue;
        }

        source.push(ch);
        if ch == '\n' {
            line += 1;
            col = 1;
        } else {
            col += 1;
        }
    }

    (
        source,
        Span {
            start: start.expect("missing start marker"),
            end: end.expect("missing end marker"),
        },
    )
}

#[test]
fn lsp_code_actions_add_explicit_type_arg_for_typed_initializer() {
    let actions = explicit_type_arg_actions_from_marked_source(
        r#"component Player : MonoBehaviour {
    awake {
        val weapon: WeaponData = |get|()
    }
}"#,
    );

    assert_eq!(actions.len(), 1);
    assert_eq!(actions[0].title, "Add explicit type argument <WeaponData>");
    assert_eq!(actions[0].insert_text, "<WeaponData>");
}

#[test]
fn lsp_code_actions_add_explicit_type_arg_for_expr_body_return() {
    let actions = explicit_type_arg_actions_from_marked_source(
        r#"component Player : MonoBehaviour {
    func load(): WeaponData = |get|()
}"#,
    );

    assert_eq!(actions.len(), 1);
    assert_eq!(actions[0].insert_text, "<WeaponData>");
}

#[test]
fn lsp_code_actions_add_explicit_type_arg_for_argument_context() {
    let actions = explicit_type_arg_actions_from_marked_source(
        r#"component Player : MonoBehaviour {
    func equip() {
        setCurrent(|get|())
    }

    func setCurrent(weapon: WeaponData) {
    }
}"#,
    );

    assert_eq!(actions.len(), 1);
    assert_eq!(actions[0].insert_text, "<WeaponData>");
}

#[test]
fn lsp_code_actions_skip_calls_with_existing_type_args() {
    let actions = explicit_type_arg_actions_from_marked_source(
        r#"component Player : MonoBehaviour {
    func awake() {
        val weapon: WeaponData = |get|<WeaponData>()
    }
}"#,
    );

    assert!(actions.is_empty());
}

#[test]
fn lsp_code_actions_offer_organize_usings_when_sort_or_dedupe_needed() {
    let action = collect_organize_usings_action_for_source(
        r#"using UnityEngine.UI
using UnityEngine
using UnityEngine.UI
component Player : MonoBehaviour {
}"#,
    )
    .expect("organize imports action should exist");

    assert_eq!(action.new_text, "using UnityEngine\n\n");
}

#[test]
fn lsp_code_actions_keep_used_unity_type_namespaces() {
    let action = collect_organize_usings_action_for_source(
        r#"using UnityEngine.Events
using UnityEngine.UI
using UnityEngine
component Player : MonoBehaviour {
    func bind(button: Button) {
    }
}"#,
    )
    .expect("organize imports action should exist");

    assert_eq!(action.new_text, "using UnityEngine\nusing UnityEngine.UI\n\n");
}

#[test]
fn lsp_code_actions_keep_input_system_for_input_action_sugar() {
    let action = collect_organize_usings_action_for_source(
        r#"using UnityEngine.InputSystem
using UnityEngine.UI
using UnityEngine
component Player : MonoBehaviour {
    update {
        if input.action("Jump").pressed {
        }
    }
}"#,
    )
    .expect("organize imports action should exist");

    assert_eq!(action.new_text, "using UnityEngine\nusing UnityEngine.InputSystem\n\n");
}

#[test]
fn lsp_code_actions_skip_unused_pruning_when_intrinsic_code_is_present() {
    let action = collect_organize_usings_action_for_source(
        r#"using UnityEngine.UI
using UnityEngine
component Player : MonoBehaviour {
    func bind() {
        intrinsic {
            Debug.Log("raw");
        }
    }
}"#,
    )
    .expect("organize imports action should exist");

    assert_eq!(action.new_text, "using UnityEngine\nusing UnityEngine.UI\n\n");
}

#[test]
fn lsp_code_actions_skip_organize_usings_when_already_normalized() {
    let action = collect_organize_usings_action_for_source(
        r#"using UnityEngine
using UnityEngine.UI

component Player : MonoBehaviour {
    func bind(button: Button) {
    }
}"#,
    );

    assert!(action.is_none());
}

#[test]
fn lsp_code_actions_skip_organize_usings_when_comments_would_be_lost() {
    let action = collect_organize_usings_action_for_source(
        r#"using UnityEngine
// keep this note
using UnityEngine.UI
component Player : MonoBehaviour {
}"#,
    );

    assert!(action.is_none());
}

#[test]
fn lsp_code_action_kind_matching_allows_parent_kinds() {
    assert!(requested_code_action_allows(
        Some(&["source".to_string()]),
        CODE_ACTION_KIND_SOURCE_ORGANIZE_IMPORTS,
    ));
    assert!(requested_code_action_allows(
        Some(&["refactor".to_string()]),
        CODE_ACTION_KIND_REFACTOR_REWRITE,
    ));
    assert!(!requested_code_action_allows(
        Some(&["quickfix".to_string()]),
        CODE_ACTION_KIND_SOURCE_ORGANIZE_IMPORTS,
    ));
}

#[test]
fn lsp_kind_matching_needs_a_dot_boundary() {
    assert!(code_action_kind_matches("source.organizeImports", "source.organizeImports"));
    assert!(!code_action_kind_matches("sour", "source.organizeImports"));
    assert!(!code_action_kind_matches("source.organizeImports.more", "source.organizeImports"));
    assert!(requested_code_action_allows(None, CODE_ACTION_KIND_REFACTOR_REWRITE));
    assert!(!requested_code_action_allows(Some(&[]), CODE_ACTION_KIND_REFACTOR_REWRITE));
}

#[test]
fn lsp_offsets_count_characters_from_line_one_column_one() {
    let source = "ab\ncd";
    assert_eq!(offset_for_position(source, Position { line: 1, col: 1 }), Some(0));
    assert_eq!(offset_for_position(source, Position { line: 1, col: 3 }), Some(2));
    assert_eq!(offset_for_position(source, Position { line: 2, col: 1 }), Some(3));
    assert_eq!(offset_for_position(source, Position { line: 2, col: 3 }), Some(5));
    assert_eq!(offset_for_position(source, Position { line: 2, col: 4 }), None);
    assert_eq!(offset_for_position(source, Position { line: 3, col: 1 }), None);
    let span = Span { start: Position { line: 1, col: 2 }, end: Position { line: 2, col: 2 } };
    assert_eq!(source_text_for_span(source, span).as_deref(), Some("b\nc"));
    let backwards = Span { start: Position { line: 2, col: 2 }, end: Position { line: 1, col: 2 } };
    assert_eq!(source_text_for_span(source, backwards), None);
}

#[test]
fn lsp_line_endings_and_comment_detection() {
    assert_eq!(detect_line_ending("a\r\nb"), "\r\n");
    assert_eq!(detect_line_ending("a\nb"), "\n");
    assert!(using_block_contains_comments("using A // note"));
    assert!(using_block_contains_comments("using A /* note */"));
    assert!(!using_block_contains_comments("using A"));
    assert!(supports_unused_using_cleanup("UnityEngine.UI"));
    assert!(!supports_unused_using_cleanup("System.Linq"));
}

#[test]
fn lsp_organize_usings_keeps_crlf_and_unprunable_namespaces() {
    let action = collect_organize_usings_action_for_source(
        "using System.Linq\r\nusing UnityEngine.UI\r\nusing Game.Core\r\ncomponent Player : MonoBehaviour {\r\n}",
    )
    .expect("organize imports action should exist");
    assert_eq!(action.new_text, "using Game.Core\r\nusing System.Linq\r\n\r\n");
    assert_eq!(action.range.start, Position { line: 1, col: 1 });
    assert_eq!(action.range.end, Position { line: 4, col: 1 });
}

#[test]
fn lsp_organize_usings_needs_usings() {
    assert!(collect_organize_usings_action_for_source("component Player : MonoBehaviour {\n}").is_none());
}

#[test]
fn lsp_explicit_type_arg_needs_a_targeting_selection() {
    let source = "component Player : MonoBehaviour {\n    awake {\n        val weapon: WeaponData = get()\n    }\n}";
    let far = Span { start: Position { line: 1, col: 1 }, end: Position { line: 1, col: 1 } };
    assert!(collect_explicit_type_arg_actions_for_source(source, far).is_empty());
    let on_name = Span { start: Position { line: 3, col: 34 }, end: Position { line: 3, col: 34 } };
    let actions = collect_explicit_type_arg_actions_for_source(source, on_name);
    assert_eq!(actions.len(), 1);
    assert_eq!(actions[0].insert_at, Position { line: 3, col: 37 });
}

#[test]
fn lsp_explicit_type_arg_strips_nullable_and_skips_unit() {
    let nullable = explicit_type_arg_actions_from_marked_source(
        "component Player : MonoBehaviour {\n    awake {\n        val weapon: WeaponData? = |get|()\n    }\n}",
    );
    assert_eq!(nullable.len(), 1);
    assert_eq!(nullable[0].insert_text, "<WeaponData>");
    let generic = explicit_type_arg_actions_from_marked_source(
        "component Player : MonoBehaviour {\n    awake {\n        val items: List<Item?> = |find|()\n    }\n}",
    );
    assert_eq!(generic.len(), 1);
    assert_eq!(generic[0].insert_text, "<List<Item?>>");
    let unit = explicit_type_arg_actions_from_marked_source(
        "component Player : MonoBehaviour {\n    awake {\n        val nothing: Unit = |get|()\n    }\n}",
    );
    assert!(unit.is_empty());
}

#[test]
fn lsp_selection_targets_overlapping_spans() {
    let target = Span { start: Position { line: 2, col: 5 }, end: Position { line: 2, col: 8 } };
    let caret_inside = Span { start: Position { line: 2, col: 8 }, end: Position { line: 2, col: 8 } };
    let caret_after = Span { start: Position { line: 2, col: 9 }, end: Position { line: 2, col: 9 } };
    let across = Span { start: Position { line: 1, col: 1 }, end: Position { line: 2, col: 5 } };
    assert!(selection_targets_span(caret_inside, target));
    assert!(!selection_targets_span(caret_after, target));
    assert!(selection_targets_span(across, target));
}

#[test]
fn lsp_code_actions_respect_requested_kinds() {
    let source = "using UnityEngine.UI\nusing UnityEngine\ncomponent Player : MonoBehaviour {\n}";
    let caret = Span { start: Position { line: 1, col: 1 }, end: Position { line: 1, col: 1 } };
    let only_refactor = vec!["refactor".to_string()];
    let actions = collect_code_actions(source, caret, Some(&only_refactor));
    assert!(actions.organize_usings.is_none());
    let all = collect_code_actions(source, caret, None);
    assert_eq!(all.organize_usings.expect("organize imports action should exist").new_text, "using UnityEngine\n\n");
}

use refraction::lsp::names::{
    capitalize_ascii, container_type_name, csharp_member_name, is_reserved_keyword, is_valid_identifier,
    last_qualified_segment, lifecycle_csharp_name, lower_camel_case, qualified_segments, symbol_kind_number,
    validate_rename_target, workspace_symbol_score,
};
use refraction::lsp::sidecar::{
    core_type_is_unity, format_prsm_hover_signature, format_sidecar_hover_section, format_unity_hover_section,
    join_hover_sections, prsm_completion_snippet_for_sidecar_item, prsm_label_for_sidecar_item,
    should_query_sidecar_for_type, sidecar_completion_detail, sidecar_completion_documentation, sidecar_completion_item_kind_number,
    unity_docs_url_for_type, SidecarCompletionItemKind, SidecarSymbolKind, SidecarSymbolSource, UnityCompletionItem,
    UnityHoverResult,
};

fn method_item(label: &str, signature: Option<&str>) -> UnityCompletionItem {
    UnityCompletionItem {
        label: label.to_string(),
        kind: SidecarCompletionItemKind::Method,
        detail: None,
        documentation: None,
        signature: signature.map(|s| s.to_string()),
        insert_text: None,
        namespace: None,
        assembly: None,
        is_static: false,
    }
}

#[test]
fn lsp_sidecar_method_labels_are_lower_camel_case() {
    let label = prsm_label_for_sidecar_item(&UnityCompletionItem {
        label: "SetActive".to_string(),
        kind: SidecarCompletionItemKind::Method,
        detail: None,
        documentation: None,
        signature: None,
        insert_text: None,
        namespace: None,
        assembly: None,
        is_static: false,
    });

    assert_eq!(label, "setActive");
}

#[test]
fn lsp_sidecar_hover_sections_use_compact_layout() {
    let markdown = format_sidecar_hover_section(
        "Generated C#",
        &UnityHoverResult {
            display_name: "Player".to_string(),
            kind: SidecarSymbolKind::Class,
            source: SidecarSymbolSource::Generated,
            namespace: Some("Game".to_string()),
            signature: Some("public class Player : MonoBehaviour".to_string()),
            documentation: Some("Unity script".to_string()),
            assembly: Some("Game.Assembly".to_string()),
            docs_url: Some("https://example.com/player".to_string()),
            is_static: false,
        },
    );

    assert!(markdown.contains("**[Generated C#]**"));
    assert!(markdown.contains("public class Player : MonoBehaviour"));
    assert!(markdown.contains("Unity script"));
    assert!(markdown.contains("[Docs](https://example.com/player)"));
    assert!(!markdown.contains("**Symbol:**"));
    assert!(!markdown.contains("**Assembly:**"));
}

#[test]
fn lsp_sidecar_hover_falls_back_to_display_name() {
    let markdown = format_sidecar_hover_section(
        "Unity",
        &UnityHoverResult {
            display_name: "Transform".to_string(),
            kind: SidecarSymbolKind::Class,
            source: SidecarSymbolSource::Generated,
            namespace: None,
            signature: Some("   ".to_string()),
            documentation: None,
            assembly: None,
            docs_url: None,
            is_static: false,
        },
    );
    assert_eq!(markdown, "**[Unity]**\n\nTransform");
}

#[test]
fn lsp_sidecar_items_labels_snippets_and_docs() {
    let class_item = UnityCompletionItem {
        label: "Rigidbody".to_string(),
        kind: SidecarCompletionItemKind::Class,
        detail: None,
        documentation: Some("Physics body".to_string()),
        signature: None,
        insert_text: None,
        namespace: None,
        assembly: None,
        is_static: false,
    };
    assert_eq!(prsm_label_for_sidecar_item(&class_item), "Rigidbody");
    assert_eq!(prsm_completion_snippet_for_sidecar_item(&class_item, "Rigidbody"), None);
    assert_eq!(sidecar_completion_documentation(&class_item).as_deref(), Some("Physics body"));
    let no_args = method_item("Reset", Some("void Reset()"));
    assert_eq!(prsm_completion_snippet_for_sidecar_item(&no_args, "reset").as_deref(), Some("reset()"));
    let with_args = method_item("SetActive", Some("void SetActive(bool value)"));
    assert_eq!(prsm_completion_snippet_for_sidecar_item(&with_args, "setActive").as_deref(), Some("setActive($1)"));
    assert_eq!(
        sidecar_completion_documentation(&with_args).as_deref(),
        Some("```csharp\nvoid SetActive(bool value)\n```")
    );
    assert_eq!(sidecar_completion_item_kind_number(SidecarCompletionItemKind::Constructor), 2);
    assert_eq!(sidecar_completion_item_kind_number(SidecarCompletionItemKind::Interface), 8);
}

#[test]
fn lsp_unity_hover_sections_link_the_script_reference() {
    assert_eq!(
        unity_docs_url_for_type("UnityEngine.Transform?").as_deref(),
        Some("https://docs.unity3d.com/6000.3/Documentation/ScriptReference/Transform.html")
    );
    assert_eq!(unity_docs_url_for_type("Int"), None);
    assert_eq!(
        format_unity_hover_section("Type", "button").as_deref(),
        Some("**[Unity API]**\n\nUnityEngine.UI.button\n\n[Docs](https://docs.unity3d.com/6000.3/Documentation/ScriptReference/Button.html)")
    );
    assert_eq!(
        format_unity_hover_section("Base Type", "MonoBehaviour").as_deref(),
        Some("**[Unity API]**\n\nUnityEngine.MonoBehaviour (Base Type)\n\n[Docs](https://docs.unity3d.com/6000.3/Documentation/ScriptReference/MonoBehaviour.html)")
    );
    assert!(core_type_is_unity("GameObject"));
    assert!(!core_type_is_unity("Float"));
}

#[test]
fn lsp_sidecar_is_asked_about_unity_and_foreign_qualified_types() {
    let index = ProjectIndex {
        files: vec![FileSummary {
            path: "src/Player.prsm".to_string(),
            declaration: DeclarationSummary {
                name: "Player".to_string(),
                kind: DeclarationKind::Component,
                signature: "component Player".to_string(),
                base_type: None,
                interfaces: vec![],
                members: vec![],
                span: Span { start: Position { line: 1, col: 1 }, end: Position { line: 3, col: 2 } },
            },
        }],
    };
    assert!(!should_query_sidecar_for_type("Int", &index));
    assert!(should_query_sidecar_for_type("Rigidbody", &index));
    assert!(should_query_sidecar_for_type("Vendor.Widget", &index));
    assert!(!should_query_sidecar_for_type("Game.player", &index));
    assert!(!should_query_sidecar_for_type("Widget", &index));
}

#[test]
fn lsp_hover_sections_skip_blank_parts() {
    assert_eq!(format_prsm_hover_signature("  func jump()  "), "```prsm\nfunc jump()\n```");
    let joined = join_hover_sections(vec![Some("a".to_string()), None, Some("  ".to_string()), Some("b".to_string())]);
    assert_eq!(joined, "a\n\nb");
    assert_eq!(join_hover_sections(vec![None]), "");
}

#[test]
fn lsp_names_case_and_segments() {
    assert_eq!(lower_camel_case("SetActive"), "setActive");
    assert_eq!(lower_camel_case(""), "");
    assert_eq!(capitalize_ascii("awake"), "Awake");
    assert_eq!(lifecycle_csharp_name("FIXEDUPDATE"), Some("FixedUpdate"));
    assert_eq!(lifecycle_csharp_name("jump"), None);
    assert_eq!(csharp_member_name("lifecycle", "onDestroy"), "OnDestroy");
    assert_eq!(csharp_member_name("lifecycle", "custom"), "Custom");
    assert_eq!(csharp_member_name("function", "jump"), "jump");
    assert_eq!(qualified_segments("..Game..Player.jump."), vec!["Game", "Player", "jump"]);
    assert_eq!(container_type_name("Game.Player.jump").as_deref(), Some("Player"));
    assert_eq!(container_type_name("jump"), None);
    assert_eq!(last_qualified_segment("Game.Player"), "Player");
    assert_eq!(last_qualified_segment("..."), "...");
}

#[test]
fn lsp_rename_targets_are_checked() {
    assert_eq!(validate_rename_target("  ").as_deref(), Some("Rename target cannot be empty."));
    assert_eq!(validate_rename_target(" hero").as_deref(), Some("Rename target cannot start or end with whitespace."));
    assert_eq!(validate_rename_target("9lives").as_deref(), Some("Rename target must be a valid PrSM identifier."));
    assert_eq!(validate_rename_target("Update").as_deref(), Some("'Update' is a reserved PrSM keyword."));
    assert_eq!(validate_rename_target("hero_2"), None);
    assert!(is_valid_identifier("_x1"));
    assert!(!is_valid_identifier("a-b"));
    assert!(is_reserved_keyword("WHEN"));
    assert!(!is_reserved_keyword("whenever"));
}

#[test]
fn lsp_symbol_kinds_and_scores() {
    assert_eq!(symbol_kind_number("data class"), 5);
    assert_eq!(symbol_kind_number("enum-entry"), 22);
    assert_eq!(symbol_kind_number("parent-component"), 8);
    assert_eq!(symbol_kind_number("mystery"), 13);
    assert_eq!(workspace_symbol_score("Player", "Game.Player", "component Player", ""), Some(4));
    assert_eq!(workspace_symbol_score("Player", "Game.Player", "component Player", "player"), Some(0));
    assert_eq!(workspace_symbol_score("Player", "Game.Player", "component Player", "game.player"), Some(1));
    assert_eq!(workspace_symbol_score("Player", "Game.Player", "component Player", "pla"), Some(2));
    assert_eq!(workspace_symbol_score("Player", "Game.Player", "component Player", "e.pl"), Some(3));
    assert_eq!(workspace_symbol_score("Player", "Game.Player", "component Player", "component"), Some(4));
    assert_eq!(workspace_symbol_score("Player", "Game.Player", "component Player", "zzz"), None);
}

use refraction::lsp::sidecar::{merge_completion_items, parse_sidecar_args, split_whitespace};

#[test]
fn lsp_parse_sidecar_args_json_array() {
    let args = parse_sidecar_args(r#"["C:/Program Files/PrSM/prism-roslyn-sidecar.dll","--stdio"]"#)
        .expect("args should parse");
    assert_eq!(args, vec!["C:/Program Files/PrSM/prism-roslyn-sidecar.dll", "--stdio"]);
}

#[test]
fn lsp_sidecar_args_split_on_whitespace_or_report_bad_json() {
    assert_eq!(parse_sidecar_args("   ").expect("blank is fine"), Vec::<String>::new());
    assert_eq!(parse_sidecar_args(" sidecar.dll  --stdio\t-v ").expect("words"), vec!["sidecar.dll", "--stdio", "-v"]);
    let error = parse_sidecar_args("[1, 2]").expect_err("not strings");
    assert!(error.starts_with("Invalid PRISM_ROSLYN_SIDECAR_ARGS JSON array: "));
    assert_eq!(split_whitespace("a\u{a0}b c"), vec!["a", "b", "c"]);
}

#[test]
fn lsp_merge_completion_items_prefers_sidecar_entries() {
    let labels = vec![
        Some("setActive".to_string()),
        Some("setActive".to_string()),
        Some("transform".to_string()),
    ];
    let merged = merge_completion_items(&labels);
    assert_eq!(merged.len(), 2);
    assert_eq!(merged, vec![0, 2]);
}

#[test]
fn lsp_merge_skips_unlabelled_items_and_ignores_case() {
    let labels = vec![None, Some("Foo".to_string()), Some("fOO".to_string()), Some("bar".to_string())];
    assert_eq!(merge_completion_items(&labels), vec![1, 3]);
}

use refraction::lsp::ranges::{diagnostic_range, lsp_range, lsp_text_edit_range, LspRange};
use refraction::lsp::symbols::{
    declaration_completion_kind, declaration_kind_name, member_completion_kind, member_kind_name, DeclarationKind,
    DeclarationSummary, FileSummary, MemberKind, ProjectIndex,
};
use refraction::lsp::workspace::{candidate_unity_managed_directories, choose_workspace_roots, normalize_path};
use refraction::lsp::completion::CompletionEntryKind as EntryKind;

#[test]
fn lsp_ranges_are_zero_based_and_never_empty() {
    let span = Span { start: Position { line: 3, col: 5 }, end: Position { line: 3, col: 9 } };
    assert_eq!(lsp_range(span), LspRange { start_line: 2, start_character: 4, end_line: 2, end_character: 8 });
    let empty = Span { start: Position { line: 3, col: 5 }, end: Position { line: 3, col: 5 } };
    assert_eq!(lsp_range(empty), LspRange { start_line: 2, start_character: 4, end_line: 2, end_character: 5 });
    let zero = Span { start: Position { line: 0, col: 0 }, end: Position { line: 0, col: 0 } };
    assert_eq!(lsp_range(zero), LspRange { start_line: 0, start_character: 0, end_line: 0, end_character: 1 });
    assert_eq!(
        lsp_text_edit_range(Position { line: 1, col: 1 }, Position { line: 4, col: 1 }),
        LspRange { start_line: 0, start_character: 0, end_line: 3, end_character: 0 }
    );
}

#[test]
fn lsp_diagnostic_ranges_are_clamped_to_the_document() {
    let lengths = vec![10usize, 0, 4];
    let span = Span { start: Position { line: 1, col: 3 }, end: Position { line: 9, col: 99 } };
    assert_eq!(diagnostic_range(span, &lengths), (0, 2, 2, 4));
    let at_end = Span { start: Position { line: 1, col: 11 }, end: Position { line: 1, col: 11 } };
    assert_eq!(diagnostic_range(at_end, &lengths), (0, 10, 0, 10));
    let point = Span { start: Position { line: 3, col: 2 }, end: Position { line: 3, col: 2 } };
    assert_eq!(diagnostic_range(point, &lengths), (2, 1, 2, 2));
    let blank_line = Span { start: Position { line: 2, col: 1 }, end: Position { line: 2, col: 1 } };
    assert_eq!(diagnostic_range(blank_line, &lengths), (1, 0, 1, 0));
    assert_eq!(diagnostic_range(point, &Vec::new()), (0, 0, 0, 0));
}

#[test]
fn lsp_symbol_kind_names_and_completion_kinds() {
    assert_eq!(declaration_kind_name(DeclarationKind::DataClass), "data class");
    assert_eq!(member_kind_name(MemberKind::RequiredComponent), "required-component");
    assert_eq!(symbol_kind_number(declaration_kind_name(DeclarationKind::Asset)), 19);
    assert_eq!(symbol_kind_number(member_kind_name(MemberKind::EnumEntry)), 22);
    assert_eq!(declaration_completion_kind(DeclarationKind::DataClass), EntryKind::Struct);
    assert_eq!(declaration_completion_kind(DeclarationKind::Interface), EntryKind::Class);
    assert_eq!(member_completion_kind(MemberKind::Lifecycle), EntryKind::Method);
    assert_eq!(member_completion_kind(MemberKind::ParentComponent), EntryKind::Field);
}

#[test]
fn lsp_workspace_roots_prefer_folders_then_root_uri_then_root_path() {
    let folders = vec!["/b".to_string(), "/a".to_string(), "/b".to_string()];
    assert_eq!(choose_workspace_roots(&folders, Some("/c".to_string()), None, "/cwd"), vec!["/a", "/b"]);
    assert_eq!(choose_workspace_roots(&Vec::new(), Some("/c".to_string()), Some("d".to_string()), "/cwd"), vec!["/c"]);
    assert_eq!(choose_workspace_roots(&Vec::new(), None, Some("d".to_string()), "/cwd"), vec!["/cwd/d"]);
    assert!(choose_workspace_roots(&Vec::new(), None, None, "/cwd").is_empty());
    assert_eq!(normalize_path("rel/x", "/cwd/"), "/cwd/rel/x");
}

#[test]
fn lsp_unity_managed_directories_cover_editor_and_installation() {
    let dirs = candidate_unity_managed_directories(Some("/m".to_string()), Some("/e".to_string()), "  /u ", "/cwd");
    assert_eq!(
        dirs,
        vec![
            "/e/Data/Managed",
            "/e/Data/Managed/UnityEngine",
            "/e/Managed",
            "/e/Managed/UnityEngine",
            "/m",
            "/u",
            "/u/Data/Managed",
            "/u/Data/Managed/UnityEngine",
            "/u/Editor/Data/Managed",
            "/u/Editor/Data/Managed/UnityEngine",
        ]
    );
    assert!(candidate_unity_managed_directories(None, None, "   ", "/cwd").is_empty());
    assert_eq!(candidate_unity_managed_directories(None, None, "Unity", "/cwd")[0], "/cwd/Unity");
}

#[test]
fn lsp_sidecar_completion_detail_prefers_the_detail() {
    let mut item = method_item("AddForce", Some("void AddForce(Vector3 force)"));
    assert_eq!(sidecar_completion_detail(&item).as_deref(), Some("void AddForce(Vector3 force)"));
    item.detail = Some("method".to_string());
    assert_eq!(sidecar_completion_detail(&item).as_deref(), Some("method"));
    item.detail = None;
    item.signature = None;
    assert!(sidecar_completion_detail(&item).is_none());
}

#[test]
fn lsp_organized_usings_text_sorts_dedupes_and_prunes() {
    let (file, errors) = refraction::lsp::organize::parse_prsm_file(
        "using UnityEngine.UI\nusing UnityEngine\nusing UnityEngine\nusing System\ncomponent Player : MonoBehaviour {\n}",
    );
    assert!(!errors);
    assert_eq!(
        refraction::lsp::organize::organized_usings_text(&file, "\n", false),
        "using System\nusing UnityEngine\nusing UnityEngine.UI\n\n"
    );
    assert_eq!(
        refraction::lsp::organize::organized_usings_text(&file, "\r\n", true),
        "using System\r\nusing UnityEngine\r\n\r\n"
    );
}
