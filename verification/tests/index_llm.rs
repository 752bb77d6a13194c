use amp::index_llm::{
    build_filelog_prompt, dependency_entries, extract_json_block, list_from_text,
    plan_index_request, trimmed_nonempty, AiFileLogInput, IndexProvider,
};
use amp::models::SettingsConfig;

#[test]
fn json_in_fences_or_braces() {
    assert_eq!(extract_json_block("text ```json\n {\"a\":1} \n``` tail"), Some("{\"a\":1}".to_string()));
    assert_eq!(extract_json_block("```\n[1]\n```"), Some("[1]".to_string()));
    assert_eq!(extract_json_block("pre {\"x\": {\"y\": 2}} post"), Some("{\"x\": {\"y\": 2}}".to_string()));
    assert_eq!(extract_json_block("} nothing {"), None);
    assert_eq!(extract_json_block("no json"), None);
    assert_eq!(extract_json_block("```json but never closed {\"k\":0}"), Some("{\"k\":0}".to_string()));
}

#[test]
fn prompt_fills_the_template() {
    let input = AiFileLogInput {
        path: "src/a.rs".to_string(),
        language: "rust".to_string(),
        content_hash: "h1".to_string(),
        content: "fn main() {}".to_string(),
        symbols: vec!["main".to_string(), "helper".to_string()],
        dependencies: vec![],
    };
    let p = build_filelog_prompt(&input);
    assert!(p.starts_with("Generate a FILE_LOG in JSON with keys: summary_markdown, purpose, key_symbols, dependencies, notes.\n"));
    assert!(p.contains("# FILE_LOG v1\npath: src/a.rs\nlanguage: rust\nlast_indexed: <ISO8601>\ncontent_hash: h1\n"));
    assert!(p.contains("File path: src/a.rs\nLanguage: rust\nSymbols:\n- main\n- helper\n\nDependencies:\n- None\n\nFile content:\nfn main() {}\n"));
    assert!(p.ends_with("fn main() {}\n"));
}

#[test]
fn lists_from_text_and_objects() {
    assert_eq!(list_from_text("- a\n  -- b  \n\n-\nc"), vec!["a".to_string(), "b".to_string(), "c".to_string()]);
    assert_eq!(trimmed_nonempty(&vec![" x ".to_string(), "  ".to_string()]), vec!["x".to_string()]);
    assert_eq!(
        dependency_entries(&vec!["os".to_string(), " ".to_string()], &vec!["main".to_string()]),
        vec!["imports: os".to_string(), "exports: main".to_string()]
    );
}

#[test]
fn provider_plans() {
    let mut s = SettingsConfig::default();
    assert_eq!(plan_index_request(&s).err().unwrap(), "Index model provider is disabled");
    s.index_provider = "openai".to_string();
    assert_eq!(plan_index_request(&s).err().unwrap(), "API key is missing for index model provider");
    s.openai_api_key = "k1".to_string();
    let p = plan_index_request(&s).ok().unwrap();
    assert_eq!(p.provider, IndexProvider::OpenAi);
    assert_eq!(p.url, "https://api.openai.com/v1/chat/completions");
    assert_eq!(p.model, "gpt-4o-mini");
    assert_eq!(p.api_key, Some("k1".to_string()));
    assert!(!p.openrouter_headers);
    s.index_provider = "openrouter".to_string();
    s.openrouter_api_key = "k2".to_string();
    let p = plan_index_request(&s).ok().unwrap();
    assert_eq!(p.model, "openai/gpt-4o-mini");
    assert!(p.openrouter_headers);
    s.index_provider = "ollama".to_string();
    s.ollama_url = "http://h:1//".to_string();
    let p = plan_index_request(&s).ok().unwrap();
    assert_eq!(p.url, "http://h:1/api/chat");
    assert_eq!(p.model, "llama3.1");
    assert_eq!(p.api_key, None);
}
