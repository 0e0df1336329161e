use refraction::lsp::catalog::{
    core_member_completion_entry, core_type_by_name, core_type_completion_entries, core_type_completion_entry,
    core_types,
};
use refraction::lsp::completion::{CompletionEntry, CompletionEntryKind};
use refraction::lsp::items::{
    build_general_completion_entries, build_type_completion_entries, completion_items, sidecar_completion_query,
};
use refraction::lsp::members::{
    collect_member_completion_entries, project_declaration_by_name, project_declaration_completion_entry,
    project_member_completion_entry, resolve_chain_root_type, resolve_identifier_type, resolve_member_result_type,
};
use refraction::lsp::symbols::{
    declaration_range, find_file_summary, DeclarationKind, DeclarationSummary, FileSummary, MemberKind,
    MemberSummary, ProjectIndex,
};
use refraction::token::{Position, Span};

fn span(l1: u32, c1: u32, l2: u32, c2: u32) -> Span {
    Span { start: Position { line: l1, col: c1 }, end: Position { line: l2, col: c2 } }
}

fn member(name: &str, kind: MemberKind, signature: &str, line: u32) -> MemberSummary {
    MemberSummary { name: name.to_string(), kind, signature: signature.to_string(), span: span(line, 5, line, 30) }
}

fn file(path: &str, name: &str, kind: DeclarationKind, base: Option<&str>, members: Vec<MemberSummary>) -> FileSummary {
    FileSummary {
        path: path.to_string(),
        declaration: DeclarationSummary {
            name: name.to_string(),
            kind,
            signature: format!("component {}", name),
            base_type: base.map(|b| b.to_string()),
            interfaces: vec![],
            members,
            span: span(1, 1, 1, 40),
        },
    }
}

fn sample_index() -> ProjectIndex {
    ProjectIndex {
        files: vec![
            file(
                "src/Player.prsm",
                "Player",
                DeclarationKind::Component,
                Some("Actor"),
                vec![
                    member("speed", MemberKind::SerializeField, "speed: Float", 2),
                    member("jump", MemberKind::Function, "jump(): Unit", 3),
                    member("body", MemberKind::RequiredComponent, "body: Rigidbody", 4),
                ],
            ),
            file(
                "src/Actor.prsm",
                "Actor",
                DeclarationKind::Class,
                None,
                vec![
                    member("health", MemberKind::Field, "health: Int", 2),
                    member("heal", MemberKind::Function, "heal(amount: Int): Unit", 3),
                ],
            ),
            file("src/Mode.prsm", "Mode", DeclarationKind::Enum, None, vec![member("Idle", MemberKind::EnumEntry, "Idle", 2)]),
        ],
    }
}

fn labels(entries: &[CompletionEntry]) -> Vec<String> {
    entries.iter().map(|e| e.label.clone()).collect()
}

#[test]
fn index_finds_declarations_and_files() {
    let index = sample_index();
    assert_eq!(project_declaration_by_name(&index, "Game.Player?").map(|d| d.name.clone()), Some("Player".to_string()));
    assert!(project_declaration_by_name(&index, "player").is_none());
    assert_eq!(find_file_summary(&index, "src/Mode.prsm").map(|f| f.declaration.name.clone()), Some("Mode".to_string()));
    assert!(find_file_summary(&index, "src/Other.prsm").is_none());
}

#[test]
fn index_declaration_range_reaches_the_last_member() {
    let mut decl = sample_index().files.remove(0).declaration;
    decl.members[1].span = span(9, 1, 12, 3);
    let range = declaration_range(&decl);
    assert_eq!(range.start, Position { line: 1, col: 1 });
    assert_eq!(range.end, Position { line: 12, col: 3 });
    decl.members.clear();
    assert_eq!(declaration_range(&decl).end, Position { line: 1, col: 40 });
}

#[test]
fn index_member_result_types_follow_base_types_and_core_types() {
    let index = sample_index();
    assert_eq!(resolve_member_result_type("Player", "SPEED", &index), Some("Float".to_string()));
    assert_eq!(resolve_member_result_type("Player", "health", &index), Some("Int".to_string()));
    assert_eq!(resolve_member_result_type("Player", "position", &index), None);
    assert_eq!(resolve_member_result_type("Transform", "position", &index), Some("Vector3".to_string()));
    assert_eq!(resolve_member_result_type("UnityEngine.Rigidbody", "velocity", &index), Some("Vector3".to_string()));
    assert_eq!(resolve_member_result_type("Rigidbody", "nothing", &index), None);
}

#[test]
fn index_member_result_type_ends_on_a_cycle_of_base_types() {
    let index = ProjectIndex {
        files: vec![
            file("a.prsm", "A", DeclarationKind::Class, Some("B"), vec![]),
            file("b.prsm", "B", DeclarationKind::Class, Some("A"), vec![]),
        ],
    };
    assert_eq!(resolve_member_result_type("A", "missing", &index), None);
}

#[test]
fn index_identifier_types() {
    let index = sample_index();
    let text = "val target: Transform = find()\n";
    assert_eq!(resolve_identifier_type("this", text, "src/Player.prsm", &index, None), Some("Player".to_string()));
    assert_eq!(resolve_identifier_type("this", text, "src/Elsewhere.prsm", &index, None), None);
    assert_eq!(resolve_identifier_type("Time", text, "src/Player.prsm", &index, None), Some("Time".to_string()));
    assert_eq!(resolve_identifier_type("enemy", text, "src/Player.prsm", &index, Some("Game.Enemy?")), Some("Enemy".to_string()));
    assert_eq!(resolve_identifier_type("target", text, "src/Player.prsm", &index, None), Some("Transform".to_string()));
    assert_eq!(resolve_identifier_type("vector3", text, "src/Player.prsm", &index, None), Some("Vector3".to_string()));
    assert_eq!(resolve_identifier_type("Mode", text, "src/Player.prsm", &index, None), Some("Mode".to_string()));
    assert_eq!(resolve_identifier_type("Actor", text, "src/Player.prsm", &index, None), None);
    assert_eq!(resolve_chain_root_type("this", text, "src/Player.prsm", &index), Some("Player".to_string()));
    assert_eq!(resolve_chain_root_type("Mode", text, "src/Player.prsm", &index), None);
}

#[test]
fn index_collects_members_of_the_type_and_its_bases() {
    let index = sample_index();
    let mut visited = Vec::new();
    let mut entries = Vec::new();
    collect_member_completion_entries("Player", &index, &mut visited, &mut entries);
    assert_eq!(labels(&entries), vec!["speed", "jump", "body", "health", "heal"]);
    assert_eq!(visited, vec!["Player".to_string(), "Actor".to_string()]);
    assert_eq!(entries[1].insert_text.as_deref(), Some("jump()"));
    assert_eq!(entries[3].documentation.as_deref(), Some("```prsm\nhealth: Int\n```\n\nDefined on Actor."));
    let before = entries.len();
    collect_member_completion_entries("Actor", &index, &mut visited, &mut entries);
    assert_eq!(entries.len(), before);
    let mut visited = Vec::new();
    let mut entries = Vec::new();
    collect_member_completion_entries("Transform", &index, &mut visited, &mut entries);
    assert_eq!(entries[0].label, "position");
    assert_eq!(entries[0].kind, CompletionEntryKind::Property);
    assert_eq!(entries[0].documentation.as_deref(), Some("```prsm\nposition: Vector3\n```\n\nWorld space position.\n\n_Transform_."));
}

#[test]
fn index_collects_members_across_a_cycle_once() {
    let index = ProjectIndex {
        files: vec![
            file("a.prsm", "A", DeclarationKind::Class, Some("B"), vec![member("x", MemberKind::Field, "x: Int", 2)]),
            file("b.prsm", "B", DeclarationKind::Class, Some("A"), vec![member("y", MemberKind::Field, "y: Int", 2)]),
        ],
    };
    let mut visited = Vec::new();
    let mut entries = Vec::new();
    collect_member_completion_entries("A", &index, &mut visited, &mut entries);
    assert_eq!(labels(&entries), vec!["x", "y"]);
}

#[test]
fn catalog_core_types_and_their_entries() {
    let types = core_types();
    assert_eq!(types.len(), 35);
    assert_eq!(types[0].name, "MonoBehaviour");
    let rb = core_type_by_name("unityengine.rigidbody").expect("rigidbody");
    assert_eq!(rb.name, "Rigidbody");
    assert_eq!(rb.members.len(), 14);
    assert!(core_type_by_name("Widget").is_none());
    let e = core_type_completion_entry(&rb);
    assert_eq!(e.detail, "Class (UnityEngine)");
    assert_eq!(e.documentation.as_deref(), Some("```prsm\nclass Rigidbody\n```\n\nPhysics body for 3D objects."));
    assert_eq!(e.sort_group, 5);
    let add_force = rb.members.iter().find(|m| m.name == "addForce").unwrap();
    let m = core_member_completion_entry(add_force, &rb);
    assert_eq!(m.insert_text.as_deref(), Some("addForce($1)"));
    let offered = core_type_completion_entries();
    assert_eq!(offered.len(), 28);
    assert!(offered.iter().all(|e| e.label != "Int" && e.label != "String"));
}

#[test]
fn index_declaration_and_member_entries() {
    let mut index = sample_index();
    index.files[0].declaration.interfaces = vec!["IDamageable".to_string(), "ISaveable".to_string()];
    let e = project_declaration_completion_entry(&index.files[0].declaration);
    assert_eq!(e.label, "Player");
    assert_eq!(e.kind, CompletionEntryKind::Class);
    assert_eq!(e.detail, "component");
    assert_eq!(
        e.documentation.as_deref(),
        Some("```prsm\ncomponent Player\n```\n\nExtends Actor\n\nImplements IDamageable, ISaveable\n\nMembers: 3")
    );
    let m = project_member_completion_entry(&index.files[0].declaration.members[0], "Player", 7);
    assert_eq!(m.kind, CompletionEntryKind::Field);
    assert_eq!(m.detail, "speed: Float");
    assert_eq!(m.sort_group, 7);
    assert!(m.insert_text.is_none());
}

#[test]
fn index_type_and_general_entries() {
    let index = sample_index();
    let types = build_type_completion_entries(&index);
    assert_eq!(types.len(), 8 + 28 + 3);
    assert_eq!(types[0].label, "Int");
    assert_eq!(types[8].label, "MonoBehaviour");
    assert_eq!(types[36].label, "Player");
    let general = build_general_completion_entries(&index, "src/Actor.prsm");
    let n = general.len();
    assert_eq!(general[0].label, "component");
    assert_eq!(labels(&general[n - 2..]), vec!["health", "heal"]);
}

#[test]
fn index_completion_items_for_each_context() {
    let index = sample_index();
    let members = completion_items("this.", 1, 6, "src/Player.prsm", &index, None);
    assert_eq!(labels(&members), vec!["body", "heal", "health", "jump", "speed"]);
    let general = completion_items("pla", 1, 4, "src/Player.prsm", &index, None);
    assert_eq!(labels(&general), vec!["Player", "PlayerPrefs"]);
    let types = completion_items("val v: Vec", 1, 11, "src/Player.prsm", &index, None);
    assert_eq!(labels(&types), vec!["Vector2", "Vector3"]);
    let none = completion_items("nobody.", 1, 8, "src/Player.prsm", &index, None);
    assert!(none.is_empty());
}

#[test]
fn index_sidecar_query_for_unity_receivers() {
    let index = sample_index();
    let text = "val body: Rigidbody = get()\nbody.ve";
    let q = sidecar_completion_query(text, 2, 8, "src/Player.prsm", &index, None).expect("query");
    assert_eq!(q.ty_name, "Rigidbody");
    assert_eq!(q.prefix, "ve");
    assert!(q.include_instance_members);
    assert!(!q.include_static_members);
    let q = sidecar_completion_query("Physics.ra", 1, 11, "src/Player.prsm", &index, None).expect("static query");
    assert!(q.include_static_members);
    assert!(sidecar_completion_query("this.", 1, 6, "src/Player.prsm", &index, None).is_none());
    assert!(sidecar_completion_query("pla", 1, 4, "src/Player.prsm", &index, None).is_none());
}

use refraction::lsp::search::{document_symbol_tree, rank_workspace_symbols, IndexedSymbol};

fn symbol(name: &str, qualified: &str, container: Option<&str>, kind: &str, signature: &str, file: &str, line: u32) -> IndexedSymbol {
    IndexedSymbol {
        name: name.to_string(),
        qualified_name: qualified.to_string(),
        container_name: container.map(|c| c.to_string()),
        kind: kind.to_string(),
        signature: signature.to_string(),
        file_path: file.to_string(),
        span: span(line, 1, line, 10),
    }
}

fn sample_symbols() -> Vec<IndexedSymbol> {
    vec![
        symbol("Player", "Player", None, "component", "component Player", "src/Player.prsm", 1),
        symbol("speed", "Player.speed", Some("Player"), "field", "speed: Float", "src/Player.prsm", 2),
        symbol("jump", "Player.jump", Some("Player"), "function", "jump(): Unit", "src/Player.prsm", 3),
        symbol("Enemy", "Enemy", None, "component", "component Enemy", "src/Enemy.prsm", 1),
        symbol("playerSpeed", "Enemy.playerSpeed", Some("Enemy"), "field", "playerSpeed: Float", "src/Enemy.prsm", 2),
        symbol("speed", "Enemy.speed", Some("Enemy"), "field", "speed: Float", "src/Enemy.prsm", 3),
    ]
}

#[test]
fn search_ranks_matches_by_score_then_position() {
    let symbols = sample_symbols();
    let names = |r: Vec<usize>| r.into_iter().map(|i| symbols[i].qualified_name.clone()).collect::<Vec<_>>();
    assert_eq!(names(rank_workspace_symbols(&symbols, "  SPEED ")), vec!["Enemy.speed", "Player.speed", "Enemy.playerSpeed"]);
    assert_eq!(names(rank_workspace_symbols(&symbols, "player")), vec!["Player", "Enemy.playerSpeed", "Player.speed", "Player.jump"]);
    assert_eq!(names(rank_workspace_symbols(&symbols, "unit")), vec!["Player.jump"]);
    assert!(rank_workspace_symbols(&symbols, "zzz").is_empty());
    assert_eq!(rank_workspace_symbols(&symbols, "").len(), 6);
    assert_eq!(names(rank_workspace_symbols(&symbols, ""))[0], "Enemy");
}

#[test]
fn search_keeps_at_most_the_limit() {
    let symbols = (0..250)
        .map(|i| symbol(&format!("s{}", i), &format!("T.s{}", i), Some("T"), "field", "x: Int", "a.prsm", i as u32 + 1))
        .collect::<Vec<_>>();
    let ranked = rank_workspace_symbols(&symbols, "");
    assert_eq!(ranked.len(), 200);
    assert_eq!(ranked[0], 0);
    assert_eq!(ranked[199], 199);
}

#[test]
fn search_outline_groups_members_under_their_declaration() {
    let symbols = sample_symbols();
    let tree = document_symbol_tree(&symbols, "src/Enemy.prsm");
    assert_eq!(tree, vec![(3, vec![4, 5])]);
    let tree = document_symbol_tree(&symbols, "src/Player.prsm");
    assert_eq!(tree, vec![(0, vec![1, 2])]);
    assert!(document_symbol_tree(&symbols, "src/None.prsm").is_empty());
}

use refraction::lsp::hover::{build_hover_markdown, find_symbol_summary, HirDefinition, IndexedReference};

fn reference(name: &str, kind: &str) -> IndexedReference {
    IndexedReference { name: name.to_string(), kind: kind.to_string(), file_path: "src/Player.prsm".to_string(), span: span(5, 3, 5, 9) }
}

#[test]
fn hover_finds_symbol_summaries() {
    let index = sample_index();
    let symbols = sample_symbols();
    let (decl, member) = find_symbol_summary(&index, &symbols[0]).expect("player");
    assert_eq!(decl.name, "Player");
    assert!(member.is_none());
    let (_, member) = find_symbol_summary(&index, &symbols[1]).expect("speed");
    assert_eq!(member.map(|m| m.signature.clone()), Some("speed: Float".to_string()));
    assert!(find_symbol_summary(&index, &symbols[3]).is_none());
}

#[test]
fn hover_markdown_for_each_kind_of_target() {
    let mut index = sample_index();
    let symbols = sample_symbols();
    assert_eq!(
        build_hover_markdown(Some(&symbols[0]), None, None, None, &index, None).as_deref(),
        Some("```prsm\ncomponent Player\n```")
    );
    index.files[0].declaration.base_type = Some("MonoBehaviour".to_string());
    assert_eq!(
        build_hover_markdown(Some(&symbols[0]), None, None, None, &index, None).as_deref(),
        Some("```prsm\ncomponent Player\n```\n\n**[Unity API]**\n\nUnityEngine.MonoBehaviour (Base Type)\n\n[Docs](https://docs.unity3d.com/6000.3/Documentation/ScriptReference/MonoBehaviour.html)")
    );
    assert_eq!(
        build_hover_markdown(Some(&symbols[0]), None, None, None, &index, Some("From sidecar".to_string())).as_deref(),
        Some("```prsm\ncomponent Player\n```\n\nFrom sidecar")
    );
    assert_eq!(
        build_hover_markdown(None, Some(&reference("Widget", "type")), None, None, &index, None).as_deref(),
        Some("```prsm\nWidget\n```\n\n_Definition not found in the current PrSM project index._")
    );
    assert_eq!(
        build_hover_markdown(None, Some(&reference("Rigidbody", "type")), None, None, &index, None).as_deref(),
        Some("```prsm\nRigidbody\n```\n\n**[Unity API]**\n\nUnityEngine.Rigidbody\n\n[Docs](https://docs.unity3d.com/6000.3/Documentation/ScriptReference/Rigidbody.html)")
    );
    assert_eq!(
        build_hover_markdown(None, Some(&reference("speed", "field")), Some(&symbols[1]), None, &index, None).as_deref(),
        Some("```prsm\nspeed: Float\n```")
    );
    let definition = HirDefinition {
        name: "body".to_string(),
        qualified_name: "Player.body".to_string(),
        kind: "field".to_string(),
        ty: "Rigidbody?".to_string(),
        file_path: "src/Player.prsm".to_string(),
        span: span(4, 5, 4, 9),
    };
    assert_eq!(
        build_hover_markdown(None, None, None, Some(&definition), &index, None).as_deref(),
        Some("```prsm\nfield Player.body\n```\n\n**[Unity API]**\n\nUnityEngine.Rigidbody\n\n[Docs](https://docs.unity3d.com/6000.3/Documentation/ScriptReference/Rigidbody.html)")
    );
    assert!(build_hover_markdown(None, None, None, None, &index, None).is_none());
}

use refraction::lsp::rename::{plan_rename, RenameLocation};

fn place(path: &str, line: u32) -> RenameLocation {
    RenameLocation { file_path: path.to_string(), span: span(line, 5, line, 10) }
}

#[test]
fn rename_plan_lists_each_place_once_definition_first() {
    let definition = HirDefinition {
        name: "speed".to_string(),
        qualified_name: "Player.speed".to_string(),
        kind: "field".to_string(),
        ty: "Float".to_string(),
        file_path: "src/Player.prsm".to_string(),
        span: span(2, 5, 2, 10),
    };
    let refs = vec![place("src/Enemy.prsm", 7), place("src/Player.prsm", 2), place("src/Enemy.prsm", 7), place("src/Enemy.prsm", 9)];
    let plan = plan_rename(&definition, &refs).expect("plan");
    assert_eq!(plan.placeholder, "speed");
    let got = plan.locations.iter().map(|l| (l.file_path.clone(), l.span.start.line)).collect::<Vec<_>>();
    assert_eq!(
        got,
        vec![("src/Player.prsm".to_string(), 2), ("src/Enemy.prsm".to_string(), 7), ("src/Enemy.prsm".to_string(), 9)]
    );
    let lifecycle = HirDefinition { kind: "lifecycle".to_string(), ..definition };
    assert_eq!(
        plan_rename(&lifecycle, &refs).err().as_deref(),
        Some("Lifecycle blocks map to fixed Unity callback names and cannot be renamed.")
    );
}

use refraction::lsp::organize::parse_prsm_file;
use refraction::lsp::used_namespaces_for_file;

#[test]
fn usage_collects_the_namespaces_a_file_uses() {
    let (file, errors) = parse_prsm_file(
        "component Player : MonoBehaviour {\n  require rb: Rigidbody\n  update {\n    val xs = [1, 2]\n    if input.action(\"Jump\").pressed {\n    }\n    log(\"hi\")\n  }\n}",
    );
    assert!(!errors);
    let mut used = used_namespaces_for_file(&file);
    used.sort();
    assert_eq!(used, vec!["System.Collections.Generic", "UnityEngine", "UnityEngine.InputSystem"]);
    let (plain, _) = parse_prsm_file("data class Point(x: Int, y: Int)");
    assert_eq!(used_namespaces_for_file(&plain), vec!["prsm"]);
}

use refraction::lsp::context::QueryContext;

#[test]
fn context_maps_open_buffers_there_and_back() {
    let sources = vec!["src/A.prsm".to_string(), "/p/B.prsm".to_string(), "src/A.prsm".to_string()];
    let overlays = vec![("/p/B.prsm".to_string(), "/tmp/o/B_1.prsm".to_string())];
    let ctx = QueryContext::from_source_files(&sources, &overlays, Some("src/C.prsm"), "/p");
    assert_eq!(ctx.source_files, vec!["/p/src/A.prsm", "/tmp/o/B_1.prsm", "/p/src/C.prsm"]);
    assert_eq!(ctx.runtime_path("/p/B.prsm", "/p"), "/tmp/o/B_1.prsm");
    assert_eq!(ctx.original_path("/tmp/o/B_1.prsm", "/p"), "/p/B.prsm");
    assert_eq!(ctx.original_path(&ctx.runtime_path("src/A.prsm", "/p"), "/p"), "/p/src/A.prsm");
    assert_eq!(ctx.original_path("/x/Y.prsm", "/p"), "/x/Y.prsm");
    assert_eq!(ctx.runtime_path("src/A.prsm", "/p"), "/p/src/A.prsm");
    assert!(ctx.output_dir.is_none());
}
