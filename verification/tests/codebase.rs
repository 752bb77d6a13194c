use amp::codebase::{
    try_map_windows_mount,
    best_path_match, detect_language, distinct_paths, extract_basename, extract_basename_raw,
    is_ambiguous, is_basename_only, language_for, new_file_id, normalize_file_content_path,
    normalize_lookup_path, parse_object_id, record_change, sync_summary,
};
use amp::parser::{FileDependencies, FileLog};
use sha2::Digest;

#[test]
fn paths_are_normalized_for_lookup() {
    assert_eq!(normalize_file_content_path("./src/Main.rs"), "src\\Main.rs");
    assert_eq!(normalize_file_content_path("\\\\?\\C:\\Repo\\a.rs"), "C:\\Repo\\a.rs");
    assert_eq!(normalize_lookup_path("\\\\?\\C:/Repo/A.rs"), "c:\\repo\\a.rs");
    assert_eq!(normalize_lookup_path(".\\Dir/File.TS"), "dir\\file.ts");
}

#[test]
fn lookup_names_are_lowercase_without_forward_slashes() {
    assert_eq!(normalize_lookup_path("./src/Main.RS"), "src\\main.rs");
    assert!(!normalize_lookup_path("A/B/C/D.Txt").contains('/'));
    assert_eq!(detect_language("App.TSX"), "typescript");
}

#[test]
fn basenames() {
    assert_eq!(extract_basename_raw("C:\\repo\\src/Main.rs"), "Main.rs");
    assert_eq!(extract_basename("C:\\repo\\src/Main.rs"), "main.rs");
    assert_eq!(extract_basename_raw("plain.txt"), "plain.txt");
    assert_eq!(extract_basename_raw("dir/"), "");
    assert!(is_basename_only("lib.rs"));
    assert!(!is_basename_only("src/lib.rs"));
    assert!(!is_basename_only("src\\lib.rs"));
}

#[test]
fn object_ids_are_read_as_uuids() {
    assert_eq!(
        parse_object_id("  objects:6F9619FF-8B86-D011-B42D-00C04FC964FF "),
        Some("6f9619ff-8b86-d011-b42d-00c04fc964ff".to_string())
    );
    assert_eq!(parse_object_id("src/main.rs"), None);
}

#[test]
fn languages_by_extension_and_name() {
    assert_eq!(detect_language("src/main.rs"), "rust");
    assert_eq!(detect_language("README.MD"), "markdown");
    assert_eq!(detect_language("web/app.tsx"), "typescript");
    assert_eq!(detect_language("build/Makefile"), "makefile");
    assert_eq!(detect_language(".gitignore"), "git");
    assert_eq!(detect_language("tools/unknown"), "config");
    assert_eq!(detect_language("data.xyz"), "config");
    assert_eq!(language_for(Some("PYI"), None), "python");
    assert_eq!(language_for(None, Some("Dockerfile")), "dockerfile");
    assert_eq!(language_for(None, None), "config");
}

#[test]
fn fallback_picks_the_best_scoring_path() {
    let paths = vec![
        Some("C:\\repo\\src\\main.rs".to_string()),
        None,
        Some("other/main.rs".to_string()),
    ];
    let norm = normalize_lookup_path("src/main.rs");
    let base = extract_basename("src/main.rs");
    assert_eq!(best_path_match(&paths, "src/main.rs", &norm, &base), Some(0));
    let exact = vec![Some("x/main.rs".to_string()), Some("SRC/MAIN.RS".to_string())];
    assert_eq!(best_path_match(&exact, "src/main.rs", &norm, &base), Some(1));
    let none = vec![Some("lib.rs".to_string())];
    assert_eq!(best_path_match(&none, "src/main.rs", &norm, &base), None);
}

#[test]
fn ambiguity_counts_distinct_paths() {
    let same = vec![Some("a/x.rs".to_string()), None, Some("a/x.rs".to_string())];
    assert_eq!(distinct_paths(&same), vec!["a/x.rs".to_string()]);
    assert!(!is_ambiguous(&same));
    let two = vec![Some("a/x.rs".to_string()), Some("b/x.rs".to_string()), Some("a/x.rs".to_string())];
    assert_eq!(distinct_paths(&two), vec!["a/x.rs".to_string(), "b/x.rs".to_string()]);
    assert!(is_ambiguous(&two));
}

#[test]
fn new_file_ids_hash_the_path() {
    let digest = sha2::Sha256::digest(b"src/a.rs");
    let expected = format!("file-{}", hex::encode(&digest[..16]));
    assert_eq!(new_file_id("src/a.rs"), expected);
    assert_eq!(new_file_id("src/a.rs").len(), 5 + 32);
}

#[test]
fn sync_summaries_list_five_symbols() {
    let names: Vec<String> = ["a", "b", "c", "d", "e", "f"].iter().map(|s| s.to_string()).collect();
    assert_eq!(sync_summary("rust", &names), "rust file with: a, b, c, d, e");
    assert_eq!(sync_summary("python", &vec![]), "python file");
}

fn empty_log() -> FileLog {
    FileLog {
        path: "a.py".to_string(),
        language: "python".to_string(),
        last_indexed: String::new(),
        content_hash: String::new(),
        symbols: vec![],
        dependencies: FileDependencies { imports: vec![], exports: vec![] },
        recent_changes: vec![],
        linked_decisions: vec![],
        notes: vec![],
    }
}

#[test]
fn recorded_changes_keep_ten_newest_first() {
    let mut log = empty_log();
    log.recent_changes = (0..10).map(|i| format!("old {}", i)).collect();
    record_change(&mut log, "2026-02-01", "Fixed parser", Some("r1"), None, Some("d1"));
    assert_eq!(log.recent_changes.len(), 10);
    assert_eq!(log.recent_changes[0], "2026-02-01 · Fixed parser (run: r1)(decision: d1)");
    assert_eq!(log.recent_changes[9], "old 8");
    assert_eq!(log.linked_decisions, vec!["d1".to_string()]);
    record_change(&mut log, "2026-02-02", "Again", None, Some("c9"), Some("d1"));
    assert_eq!(log.recent_changes[0], "2026-02-02 · Again (cs: c9)(decision: d1)");
    assert_eq!(log.linked_decisions, vec!["d1".to_string()]);
}

#[test]
fn windows_paths_map_into_the_workspace() {
    assert_eq!(
        try_map_windows_mount("C:\\Users\\bob\\proj\\a.rs", "C:\\Users", "/workspace"),
        Some(Some("/workspace/bob/proj/a.rs".to_string()))
    );
    assert_eq!(
        try_map_windows_mount("\\\\?\\c:/users/bob", "C:\\Users", "/workspace/"),
        Some(Some("/workspace/bob".to_string()))
    );
    assert_eq!(try_map_windows_mount("C:\\Users", "C:/Users", "/w"), Some(Some("/w".to_string())));
    assert_eq!(try_map_windows_mount("/home/bob/a.rs", "C:\\Users", "/workspace"), Some(None));
}

#[test]
fn windows_mapping_refuses_a_cut_inside_a_character() {
    assert_eq!(try_map_windows_mount("i\u{307}x", "\u{130}", "/w"), None);
}
