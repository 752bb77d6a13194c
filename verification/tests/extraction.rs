use amp::extraction::{file_log_from_matches, RawCapture, RawMatches};
use amp::parser::CodebaseParser;
use sha2::Digest;

fn raw(index: usize, row: usize, start: usize, end: usize) -> RawCapture {
    RawCapture { index, start_row: row, end_row: row, start_byte: start, end_byte: end }
}

fn hex_sha256(text: &str) -> String {
    hex::encode(sha2::Sha256::digest(text.as_bytes()))
}

#[test]
fn matches_become_symbols_and_dependencies() {
    let content = "def run():\n    pass\n";
    let symbols = RawMatches {
        capture_names: vec!["function.name".to_string(), "function.definition".to_string()],
        matches: vec![vec![raw(1, 0, 0, 19), raw(0, 0, 4, 7)]],
    };
    let imports = RawMatches {
        capture_names: vec!["import.source".to_string()],
        matches: vec![vec![raw(0, 0, 4, 7)]],
    };
    let exports = RawMatches {
        capture_names: vec!["export.name".to_string()],
        matches: vec![vec![raw(0, 0, 4, 7)], vec![raw(0, 0, 5, 6)]],
    };
    let log = file_log_from_matches("a.py", "python", "t0", content, &symbols, &imports, &exports).ok().unwrap();
    assert_eq!(log.path, "a.py");
    assert_eq!(log.last_indexed, "t0");
    assert_eq!(log.content_hash, hex_sha256(content));
    assert_eq!(log.symbols.len(), 1);
    let s = &log.symbols[0];
    assert_eq!(s.name, "run");
    assert_eq!(s.symbol_type, "function");
    assert_eq!((s.start_byte, s.end_byte), (4, 7));
    assert_eq!(log.dependencies.imports, vec!["run".to_string()]);
    assert_eq!(log.dependencies.exports, vec!["run".to_string(), "u".to_string()]);
    assert!(log.notes.is_empty());
}

#[test]
fn quoted_imports_lose_their_quotes() {
    let content = "import x from \"lib\";";
    let none = RawMatches { capture_names: vec![], matches: vec![] };
    let imports = RawMatches {
        capture_names: vec!["import.source".to_string()],
        matches: vec![vec![raw(0, 0, 14, 19)]],
    };
    let log = file_log_from_matches("a.ts", "typescript", "t", content, &none, &imports, &none).ok().unwrap();
    assert_eq!(log.dependencies.imports, vec!["lib".to_string()]);
    assert!(log.symbols.is_empty());
}

#[test]
fn unreadable_captures_are_errors() {
    let content = "h\u{e9}llo";
    let bad_index = RawMatches { capture_names: vec![], matches: vec![vec![raw(0, 0, 0, 1)]] };
    let none = RawMatches { capture_names: vec![], matches: vec![] };
    assert!(file_log_from_matches("f", "python", "t", content, &bad_index, &none, &none).is_err());
    // Byte 2 falls inside the two-byte character.
    let split = RawMatches { capture_names: vec!["x.name".to_string()], matches: vec![vec![raw(0, 0, 0, 2)]] };
    assert!(file_log_from_matches("f", "python", "t", content, &split, &none, &none).is_err());
    // An import that splits a character is skipped.
    let log = file_log_from_matches("f", "python", "t", content, &none, &split, &none).ok().unwrap();
    assert!(log.dependencies.imports.is_empty());
}

#[test]
fn python_source_is_parsed() {
    let parser = CodebaseParser::new().ok().unwrap();
    let content = "import os\n\ndef greet(name):\n    return name\n\nclass Box:\n    pass\n";
    let log = parser.parse_source("m.py", "python", content, "now").ok().unwrap();
    let names: Vec<(String, String)> =
        log.symbols.iter().map(|s| (s.name.clone(), s.symbol_type.clone())).collect();
    assert!(names.contains(&("greet".to_string(), "function".to_string())));
    assert!(names.contains(&("Box".to_string(), "class".to_string())));
    assert_eq!(log.dependencies.imports, vec!["os".to_string()]);
    assert_eq!(log.dependencies.exports, vec!["greet".to_string(), "Box".to_string()]);
    assert_eq!(log.content_hash, hex_sha256(content));
}

#[test]
fn typescript_source_is_parsed() {
    let parser = CodebaseParser::new().ok().unwrap();
    let content = "import { a } from \"./lib\";\nexport function go(): void {}\ninterface Shape { w: number }\n";
    let log = parser.parse_source("m.ts", "typescript", content, "now").ok().unwrap();
    let names: Vec<String> = log.symbols.iter().map(|s| s.name.clone()).collect();
    assert!(names.contains(&"go".to_string()));
    assert!(names.contains(&"Shape".to_string()));
    assert!(log.dependencies.imports.contains(&"./lib".to_string()));
    assert!(log.dependencies.imports.contains(&"a".to_string()));
    assert_eq!(log.dependencies.exports, vec!["go".to_string()]);
}

#[test]
fn other_languages_get_a_note() {
    let parser = CodebaseParser::new().ok().unwrap();
    let log = parser.parse_source("x.rs", "rust", "fn main() {}", "now").ok().unwrap();
    assert!(log.symbols.is_empty());
    assert_eq!(log.notes, vec!["Language 'rust' not yet supported for parsing".to_string()]);
    assert_eq!(log.content_hash, hex_sha256("fn main() {}"));
}

#[test]
fn test_parse_python_file() {
    let parser = CodebaseParser::new().ok().unwrap();
    let content = r#"
def hello_world():
    print("Hello, world!")

class MyClass:
    def method(self):
        pass

import os
from typing import List
"#;
    let file_log = parser.parse_source("test.py", "python", content, "2026-01-17T10:00:00Z").ok().unwrap();
    assert_eq!(file_log.language, "python");
    assert!(file_log.symbols.len() >= 3); // function, class, method
    assert!(file_log.dependencies.imports.len() >= 1);
}

#[test]
fn test_parse_typescript_file() {
    let parser = CodebaseParser::new().ok().unwrap();
    let content = r#"
import { Component } from 'react';

interface User {
    name: string;
    age: number;
}

class UserComponent extends Component {
    render() {
        return null;
    }
}

export function createUser(name: string): User {
    return { name, age: 0 };
}
"#;
    let file_log = parser.parse_source("test.ts", "typescript", content, "2026-01-17T10:00:00Z").ok().unwrap();
    assert_eq!(file_log.language, "typescript");
    assert!(file_log.symbols.len() >= 3); // interface, class, function
}

#[test]
fn updating_a_file_log_records_the_change() {
    let parser = CodebaseParser::new().ok().unwrap();
    let content = "def hello():\n    pass\n";
    let (log, markdown) = parser
        .update_file_log("m.py", "python", content, "t1", "2026-01-17", "Added hello function", None, None, Some("dec_001"))
        .ok()
        .unwrap();
    assert_eq!(log.recent_changes, vec!["2026-01-17 · Added hello function (decision: dec_001)".to_string()]);
    assert_eq!(log.linked_decisions, vec!["dec_001".to_string()]);
    assert!(markdown.starts_with("# FILE_LOG v1\npath: m.py\n"));
    assert!(markdown.contains("- 2026-01-17 · Added hello function (decision: dec_001)"));
    assert!(markdown.contains("hello"));
}
