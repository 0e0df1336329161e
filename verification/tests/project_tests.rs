use refraction::project::{
    is_prism_source_file, choose_project_file, ProjectFileChoice, SourceCandidate, CompilerSection, FeaturesSection, LanguageSection, PrismProject, ProjectSection,
    SourceSection,
};
use refraction::project_graph::{
    collect_watch_roots, detect_unity_capabilities, join_path, parse_language_features, path_less,
    watch_root_candidates, unity_capabilities_from_manifest, manifest_from_text, LanguageFeature, LanguageVersion, PackageManifest, ProjectGraph,
};

fn project(version: &str, features: &[&str], includes: &[&str], output_dir: &str) -> PrismProject {
    PrismProject {
        project: ProjectSection { name: "GraphProject".to_string(), prsm_version: "0.1.0".to_string() },
        compiler: CompilerSection { output_dir: output_dir.to_string(), ..CompilerSection::default() },
        source: SourceSection { includes: includes.iter().map(|s| s.to_string()).collect(), exclude: Vec::new() },
        language: LanguageSection { version: version.to_string(), features: features.iter().map(|s| s.to_string()).collect() },
        features: FeaturesSection::default(),
    }
}

#[test]
fn section_defaults_match_documented_values() {
    let c = CompilerSection::default();
    assert_eq!(c.prism_path, "prism");
    assert_eq!(c.output_dir, "Assets/Generated/PrSM");
    assert_eq!(c.target_unity, "");
    let s = SourceSection::default();
    assert_eq!(s.includes, vec!["**/*.prsm".to_string()]);
    assert!(s.exclude.is_empty());
    let l = LanguageSection::default();
    assert_eq!(l.version, "1.0");
    assert!(l.features.is_empty());
    let f = FeaturesSection::default();
    assert!(f.auto_compile_on_save && !f.generate_meta_files && f.pascal_case_methods);
}

#[test]
fn prism_source_extensions() {
    assert!(is_prism_source_file("Assets/Current.prsm"));
    assert!(is_prism_source_file("Assets/Legacy.mn"));
    assert!(!is_prism_source_file("Assets/Other.cs"));
    assert!(!is_prism_source_file("Assets/.prsm"));
    assert!(is_prism_source_file("Assets/.hidden.prsm"));
    assert!(!is_prism_source_file("Assets.prsm/file"));
    assert!(!is_prism_source_file("noext"));
}

#[test]
fn language_version_parse_and_spelling_round_trip() {
    assert_eq!(LanguageVersion::parse("1.0"), Ok(LanguageVersion::V1));
    assert_eq!(LanguageVersion::parse("2.0"), Ok(LanguageVersion::V2));
    for v in [LanguageVersion::V1, LanguageVersion::V2] {
        assert_eq!(LanguageVersion::parse(v.as_str()), Ok(v));
    }
    assert_eq!(
        LanguageVersion::parse("3.0"),
        Err("Unsupported language version '3.0'. Supported versions: 1.0, 2.0".to_string())
    );
}

#[test]
fn language_feature_parse_and_spelling_round_trip() {
    for f in [LanguageFeature::AutoUnlisten, LanguageFeature::InputSystem, LanguageFeature::PatternBindings] {
        assert_eq!(LanguageFeature::parse(f.as_str()), Ok(f));
    }
    let err = LanguageFeature::parse("unknown-feature").unwrap_err();
    assert_eq!(
        err,
        "Unsupported language feature 'unknown-feature'. Supported features: auto-unlisten, input-system, pattern-bindings"
    );
}

#[test]
fn features_are_sorted_and_deduplicated() {
    let values: Vec<String> = ["pattern-bindings", "input-system", "pattern-bindings"].iter().map(|s| s.to_string()).collect();
    let fs = parse_language_features(&values).unwrap();
    assert_eq!(fs, vec![LanguageFeature::InputSystem, LanguageFeature::PatternBindings]);
}

#[test]
fn features_stop_at_first_unknown() {
    let values: Vec<String> = ["input-system", "bogus", "other"].iter().map(|s| s.to_string()).collect();
    let err = parse_language_features(&values).unwrap_err();
    assert!(err.contains("'bogus'"));
}

#[test]
fn join_path_follows_path_join() {
    assert_eq!(join_path("/p", "Assets"), "/p/Assets");
    assert_eq!(join_path("/p/", "Assets"), "/p/Assets");
    assert_eq!(join_path("/p", "/abs"), "/abs");
    assert_eq!(join_path("", "x"), "x");
}

#[test]
fn watch_candidates_cut_at_double_star() {
    let cfg = project("1.0", &[], &["Assets/**/*.prsm", "**/*.prsm", "Scripts/*.prsm"], "Out");
    let c = watch_root_candidates(&cfg, "/root");
    assert_eq!(c, vec!["/root/Assets".to_string(), "/root".to_string(), "/root/Scripts/*.prsm".to_string()]);
}

#[test]
fn watch_roots_are_sorted_unique_or_the_root() {
    let cands = vec!["/r/b".to_string(), "/r/a".to_string(), "/r/b".to_string(), "/r/c".to_string()];
    let roots = collect_watch_roots(&cands, &vec![true, true, true, false], "/r");
    assert_eq!(roots, vec!["/r/a".to_string(), "/r/b".to_string()]);
    let none = collect_watch_roots(&cands, &vec![false, false, false, false], "/r");
    assert_eq!(none, vec!["/r".to_string()]);
}

#[test]
fn path_order_puts_children_right_after_parent() {
    assert!(path_less("/r/a", "/r/a/b"));
    assert!(path_less("/r/a/b", "/r/a-b"));
    assert!(!path_less("/r/a", "/r/a"));
}

#[test]
fn unity_capabilities_from_package_list() {
    let with = PackageManifest { dependencies: Some(vec!["com.unity.ugui".to_string(), "com.unity.inputsystem".to_string()]) };
    assert!(detect_unity_capabilities(Some(&with)).input_system_package);
    let without = PackageManifest { dependencies: Some(vec!["com.unity.ugui".to_string()]) };
    assert!(!detect_unity_capabilities(Some(&without)).input_system_package);
    assert!(!detect_unity_capabilities(None).input_system_package);
    let no_deps = PackageManifest { dependencies: None };
    assert!(!detect_unity_capabilities(Some(&no_deps)).input_system_package);
}

#[test]
fn discover_collects_language_and_capabilities() {
    let cfg = project("2.0", &["pattern-bindings", "input-system"], &["Assets/**/*.prsm"], "Generated/PrSM");
    let manifest = r#"{ "dependencies": { "com.unity.inputsystem": "1.7.0", "com.unity.ugui": "1.0.0" } }"#.to_string();
    let graph = ProjectGraph::discover(
        cfg,
        "/proj".to_string(),
        vec!["/proj/Assets/Hero.prsm".to_string()],
        vec![true],
        Some(manifest),
    )
    .unwrap();
    assert_eq!(graph.language_version, LanguageVersion::V2);
    assert_eq!(graph.feature_names(), vec!["input-system", "pattern-bindings"]);
    assert!(graph.unity_capabilities.input_system_package);
    assert_eq!(graph.output_dir, "/proj/Generated/PrSM");
    assert_eq!(graph.output_dir_display, "Generated/PrSM");
    assert_eq!(graph.cache_dir, "/proj/.prsm/cache");
    assert_eq!(graph.source_files, vec!["/proj/Assets/Hero.prsm".to_string()]);
    assert_eq!(graph.watch_roots, vec!["/proj/Assets".to_string()]);
}

#[test]
fn discover_rejects_unknown_feature_and_version() {
    let cfg = project("1.0", &["unknown-feature"], &["**/*.prsm"], "Out");
    let err = ProjectGraph::discover(cfg, "/p".to_string(), Vec::new(), vec![true], None).unwrap_err();
    assert!(err.contains("unknown-feature"));
    let cfg2 = project("9.9", &[], &["**/*.prsm"], "Out");
    let err2 = ProjectGraph::discover(cfg2, "/p".to_string(), Vec::new(), vec![true], None).unwrap_err();
    assert!(err2.contains("'9.9'"));
}

#[test]
fn discover_applies_defaults() {
    let mut cfg = project("1.0", &[], &["**/*.prsm"], "Assets/Generated/PrSM");
    cfg.source = SourceSection::default();
    let graph = ProjectGraph::discover(cfg, "/d".to_string(), vec!["/d/Scene.prsm".to_string()], vec![false], None).unwrap();
    assert_eq!(graph.language_version, LanguageVersion::V1);
    assert!(graph.enabled_features.is_empty());
    assert_eq!(graph.output_dir, "/d/Assets/Generated/PrSM");
    assert_eq!(graph.watch_roots, vec!["/d".to_string()]);
    assert!(!graph.unity_capabilities.input_system_package);
}


fn candidate(path: &str, relative: &str) -> SourceCandidate {
    SourceCandidate { path: path.to_string(), relative: relative.to_string() }
}

#[test]
fn project_sources_are_filtered_excluded_sorted_and_unique() {
    let mut project = project("1.0", &[], &["**/*.prsm"], "Out");
    project.source.exclude = vec!["Scripts/Generated/**".to_string(), "[".to_string()];
    assert!(project.is_excluded("Scripts/Generated/a.prsm"));
    assert!(!project.is_excluded("Scripts/a.prsm"));
    let candidates = vec![
        candidate("/p/Scripts/b.prsm", "Scripts/b.prsm"),
        candidate("/p/Scripts/a.mn", "Scripts/a.mn"),
        candidate("/p/Scripts/readme.md", "Scripts/readme.md"),
        candidate("/p/Scripts/Generated/c.prsm", "Scripts/Generated/c.prsm"),
        candidate("/p/Scripts/b.prsm", "Scripts/b.prsm"),
    ];
    assert_eq!(project.select_sources(&candidates), vec!["/p/Scripts/a.mn", "/p/Scripts/b.prsm"]);
}

#[test]
fn manifest_text_decides_the_input_system_capability() {
    assert!(unity_capabilities_from_manifest(Some(r#"{"dependencies":{"com.unity.inputsystem":"1.0"}}"#)).input_system_package);
    assert!(!unity_capabilities_from_manifest(Some(r#"{"dependencies":{"com.unity.ugui":"1.0"}}"#)).input_system_package);
    assert!(!unity_capabilities_from_manifest(Some(r#"{"dependencies":["com.unity.inputsystem"]}"#)).input_system_package);
    assert!(!unity_capabilities_from_manifest(Some("not json")).input_system_package);
    assert!(!unity_capabilities_from_manifest(None).input_system_package);
    assert!(manifest_from_text("not json").is_none());
    let m = manifest_from_text(r#"{"name":"x"}"#).unwrap();
    assert!(m.dependencies.is_none());
    let m2 = manifest_from_text(r#"{"dependencies":{"b":"1","a":"2"}}"#).unwrap();
    assert_eq!(m2.dependencies.unwrap().len(), 2);
}

#[test]
fn project_file_search_prefers_the_current_file() {
    assert_eq!(choose_project_file(true, true), ProjectFileChoice::Current);
    assert_eq!(choose_project_file(false, true), ProjectFileChoice::Legacy);
    assert_eq!(choose_project_file(false, false), ProjectFileChoice::Parent);
}
