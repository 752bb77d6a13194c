use amp::filelog::{FileLogGenerator, Symbol};
use amp::models::SymbolKind;
use amp::parser::{
    import_text, parsed_language, symbol_from_captures, unsupported_file_log, CodebaseParser,
    FileDependencies, FileLog, ParsedSymbol, QueryCapture,
};

fn sample_log() -> FileLog {
    FileLog {
        path: "test.py".to_string(),
        language: "python".to_string(),
        last_indexed: "2026-01-17T10:00:00Z".to_string(),
        content_hash: "abc123".to_string(),
        symbols: vec![ParsedSymbol {
            name: "hello".to_string(),
            symbol_type: "function".to_string(),
            start_line: 0,
            end_line: 2,
            start_byte: 0,
            end_byte: 30,
            file_path: "test.py".to_string(),
            language: "python".to_string(),
        }],
        dependencies: FileDependencies {
            imports: vec!["os".to_string()],
            exports: vec!["hello".to_string()],
        },
        recent_changes: vec!["Added hello function".to_string()],
        linked_decisions: vec!["dec_001".to_string()],
        notes: vec!["Main entry point".to_string()],
    }
}

#[test]
fn test_generate_markdown() {
    let parser = CodebaseParser::new().unwrap();
    let file_log = sample_log();
    let markdown = parser.generate_file_log_markdown(&file_log);

    assert!(markdown.contains("# FILE_LOG v1"));
    assert!(markdown.contains("path: test.py"));
    assert!(markdown.contains("## Symbols"));
    assert!(markdown.contains("function: hello"));
}

#[test]
fn markdown_is_rendered_exactly() {
    let parser = CodebaseParser::new().unwrap();
    let markdown = parser.generate_file_log_markdown(&sample_log());
    let expected = "# FILE_LOG v1\npath: test.py\nlanguage: python\nlast_indexed: 2026-01-17T10:00:00Z\ncontent_hash: sha256:abc123\n\n## Symbols\n- function: hello (lines 1-3)\n\n## Dependencies\nimports:\n- os\n\nexports:\n- hello\n\n## Recent Changes\n- Added hello function\n\n## Linked Decisions\n- dec_001\n\n## Notes\n- Main entry point\n";
    assert_eq!(markdown, expected);
}

#[test]
fn content_hash_is_lowercase_hex_sha256() {
    let parser = CodebaseParser::new().unwrap();
    assert_eq!(
        parser.compute_hash("abc"),
        "ba7816bf8f01cfea414140de5dae2223b00361a396177a9cb410ff61f20015ad"
    );
}

#[test]
fn summary_from_parsed_symbols() {
    let parser = CodebaseParser::new().unwrap();
    let log = sample_log();
    let (summary, keys, deps) = parser.generate_filelog_summary("test.py", &log.symbols, "python");
    assert_eq!(
        summary,
        "# test.py\n\n**Language**: python\n\n## Purpose\nFunction definitions (1 functions)\n\n## Symbols\n- `hello` (function)\n\n## Dependencies\nNo dependencies detected"
    );
    assert_eq!(keys, vec!["function:hello".to_string()]);
    assert!(deps.is_empty());
}

fn symbol(name: &str, kind: SymbolKind, doc: Option<&str>) -> Symbol {
    Symbol {
        name: name.to_string(),
        kind,
        path: "m.py".to_string(),
        language: "python".to_string(),
        content_hash: None,
        signature: None,
        documentation: doc.map(|d| d.to_string()),
    }
}

#[test]
fn generator_reads_imports_from_documentation() {
    let generator = FileLogGenerator::new();
    assert_eq!(
        generator.extract_imports_from_doc("  import os\nplain line\r\nfrom x import y \n"),
        vec!["import os".to_string(), "from x import y".to_string()]
    );
    let symbols = vec![
        symbol("A", SymbolKind::Class, Some("uses\nimport json")),
        symbol("f", SymbolKind::Function, None),
        symbol("g", SymbolKind::Function, Some("from a import b")),
    ];
    assert_eq!(generator.extract_dependencies(&symbols), vec!["import json".to_string(), "from a import b".to_string()]);
    assert_eq!(generator.infer_purpose(&symbols), "Module containing 1 classes and 2 functions");
    assert_eq!(generator.format_symbols(&symbols), "- `A` (class)\n- `f` (function)\n- `g` (function)");
    assert_eq!(generator.format_dependencies(&symbols), "- import json\n- from a import b");
    assert_eq!(
        generator.extract_key_symbols(&symbols),
        vec!["class:A".to_string(), "function:f".to_string(), "function:g".to_string()]
    );
}

#[test]
fn purpose_without_classes_or_functions() {
    let generator = FileLogGenerator::new();
    assert_eq!(generator.infer_purpose(&vec![]), "No symbols found");
    assert_eq!(generator.infer_purpose(&vec![symbol("v", SymbolKind::Variable, None)]), "Code file with various symbols");
    assert_eq!(generator.infer_purpose(&vec![symbol("C", SymbolKind::Class, None)]), "Class definitions (1 classes)");
    assert_eq!(generator.format_symbols(&vec![]), "No symbols");
    assert_eq!(generator.format_dependencies(&vec![]), "No dependencies detected");
}

#[test]
fn symbol_list_is_cut_at_twenty() {
    let generator = FileLogGenerator::new();
    let symbols: Vec<Symbol> = (0..25).map(|i| symbol(&format!("s{}", i), SymbolKind::Function, None)).collect();
    let listed = generator.format_symbols(&symbols);
    assert_eq!(listed.lines().count(), 20);
    assert!(listed.ends_with("- `s19` (function)"));
}

fn cap(name: &str, text: &str, row: usize) -> QueryCapture {
    QueryCapture {
        name: name.to_string(),
        text: text.to_string(),
        start_row: row,
        end_row: row + 1,
        start_byte: row * 10,
        end_byte: row * 10 + 5,
    }
}

#[test]
fn symbol_from_name_capture() {
    let caps = vec![cap("function.definition", "def f(): pass", 1), cap("function.name", "f", 2)];
    let s = symbol_from_captures(&caps, "a.py", "python").unwrap();
    assert_eq!(s.name, "f");
    assert_eq!(s.symbol_type, "function");
    assert_eq!((s.start_line, s.end_line, s.start_byte, s.end_byte), (2, 3, 20, 25));
    assert_eq!(s.file_path, "a.py");
    assert_eq!(s.language, "python");
}

#[test]
fn symbol_needs_a_name() {
    assert!(symbol_from_captures(&vec![cap("arrow_function.definition", "() => 1", 0)], "a.ts", "typescript").is_none());
    assert!(symbol_from_captures(&vec![cap("variable.name", "", 0)], "a.ts", "typescript").is_none());
    assert!(symbol_from_captures(&Vec::new(), "a.ts", "typescript").is_none());
}

#[test]
fn import_quotes_are_trimmed() {
    assert_eq!(import_text("\"./utils\""), "./utils");
    assert_eq!(import_text("os.path"), "os.path");
}

#[test]
fn parsed_languages_by_extension() {
    assert_eq!(parsed_language("py"), Some("python"));
    assert_eq!(parsed_language("ts"), Some("typescript"));
    assert_eq!(parsed_language("tsx"), Some("typescript"));
    assert_eq!(parsed_language("rs"), None);
}

#[test]
fn unsupported_language_log() {
    let log = unsupported_file_log("main.rs", "rust", "t", "h");
    assert_eq!(log.notes, vec!["Language 'rust' not yet supported for parsing".to_string()]);
    assert!(log.symbols.is_empty());
    assert_eq!(log.content_hash, "h");
}

#[test]
fn parser_chunks_small_content_whole() {
    let parser = CodebaseParser::new().unwrap();
    let chunks = parser.chunk_file_content("def f():\n    return 1\n", "python");
    assert_eq!(chunks.len(), 1);
    assert_eq!(chunks[0].content, "def f():\n    return 1\n");
    assert_eq!(chunks[0].end_line, 2);
    assert_eq!(chunks[0].hash, parser.compute_hash("def f():\n    return 1\n"));
}
