use amp::embedding::{
    choose_embedding_backend, EmbeddingBackend, NoneEmbedding, OPENAI_BASE_URL, OPENROUTER_BASE_URL,
};
use amp::models::{
    validate_max_embedding_dimension, validate_port, RelationType, SettingsConfig, SymbolKind,
};
use amp::models::{ChangeSetStatus, DecisionOption, DecisionStatus, RunOutputType, RunStatus, TestResult, TestStatus};
use amp::objects::{object_embedding_text, BatchSummary, ObjectContent};

#[test]
fn symbol_kind_names() {
    assert_eq!(SymbolKind::File.as_str(), "file");
    assert_eq!(SymbolKind::Module.as_str(), "module");
    assert_eq!(SymbolKind::Class.as_str(), "class");
    assert_eq!(SymbolKind::Function.as_str(), "function");
    assert_eq!(SymbolKind::Variable.as_str(), "variable");
    assert_eq!(SymbolKind::Type.as_str(), "type");
}

#[test]
fn relation_tables() {
    assert_eq!(RelationType::DependsOn.table(), "depends_on");
    assert_eq!(RelationType::DefinedIn.table(), "defined_in");
    assert_eq!(RelationType::Calls.table(), "calls");
    assert_eq!(RelationType::JustifiedBy.table(), "justified_by");
    assert_eq!(RelationType::Modifies.table(), "modifies");
    assert_eq!(RelationType::Implements.table(), "implements");
    assert_eq!(RelationType::Produced.table(), "produced");
}

#[test]
fn default_settings() {
    let s = SettingsConfig::default();
    assert_eq!(s.port, 8105);
    assert_eq!(s.bind_address, "127.0.0.1");
    assert_eq!(s.database_url, "ws://localhost:7505/rpc");
    assert_eq!(s.embedding_provider, "none");
    assert_eq!(s.openai_dimension, 1536);
    assert_eq!(s.ollama_dimension, 768);
    assert_eq!(s.ollama_url, "http://localhost:11434");
    assert_eq!(s.index_openrouter_model, "openai/gpt-4o-mini");
    assert_eq!(s.index_workers, 4);
    assert_eq!(s.max_embedding_dimension, 1536);
}

#[test]
fn batch_tally_counts_outcomes() {
    let s = BatchSummary::tally(&vec![true, false, true, true]);
    assert_eq!(s.total, 4);
    assert_eq!(s.succeeded, 3);
    assert_eq!(s.failed, 1);
    let e = BatchSummary::tally(&Vec::new());
    assert_eq!((e.total, e.succeeded, e.failed), (0, 0, 0));
}

#[test]
fn none_embedding_is_disabled() {
    let n = NoneEmbedding;
    assert_eq!(n.dimension(), 0);
    assert!(!n.is_enabled());
}

#[test]
fn backend_follows_provider_ignoring_case() {
    match choose_embedding_backend("OpenAI", Some("k1".to_string()), None) {
        EmbeddingBackend::OpenAi { api_key, base_url } => {
            assert_eq!(api_key, "k1");
            assert_eq!(base_url, OPENAI_BASE_URL);
        },
        _ => panic!("expected OpenAI"),
    }
    match choose_embedding_backend("openrouter", None, Some("k2".to_string())) {
        EmbeddingBackend::OpenAi { api_key, base_url } => {
            assert_eq!(api_key, "k2");
            assert_eq!(base_url, OPENROUTER_BASE_URL);
        },
        _ => panic!("expected OpenRouter"),
    }
    assert!(matches!(choose_embedding_backend("OLLAMA", None, None), EmbeddingBackend::Ollama));
    assert!(matches!(choose_embedding_backend("openai", None, Some("k".to_string())), EmbeddingBackend::Disabled));
    assert!(matches!(choose_embedding_backend("none", Some("k".to_string()), None), EmbeddingBackend::Disabled));
}

#[test]
fn config_limits() {
    assert_eq!(validate_port(8105), Ok(8105));
    assert_eq!(validate_port(0), Err("PORT must be greater than 0".to_string()));
    assert_eq!(validate_max_embedding_dimension(1536), Ok(1536));
    assert_eq!(validate_max_embedding_dimension(10000), Ok(10000));
    assert_eq!(
        validate_max_embedding_dimension(0),
        Err("MAX_EMBEDDING_DIMENSION must be between 1 and 10000".to_string())
    );
    assert!(validate_max_embedding_dimension(10001).is_err());
}

#[test]
fn symbol_embedding_text_skips_blank_parts() {
    let c = ObjectContent::Symbol {
        summary: "Parsed from main.py".to_string(),
        name: "main".to_string(),
        kind: SymbolKind::Function,
        path: "main.py".to_string(),
        language: "python".to_string(),
        signature: Some("def main()".to_string()),
        documentation: Some("   ".to_string()),
        content_hash: None,
    };
    assert_eq!(object_embedding_text(&c), "Parsed from main.py\nmain\nFunction\nmain.py\npython\ndef main()");
}

#[test]
fn decision_and_changeset_embedding_text() {
    let d = ObjectContent::Decision {
        summary: "".to_string(),
        title: "Use SQLite".to_string(),
        problem: "Storage".to_string(),
        rationale: "Simple".to_string(),
        outcome: "Adopted".to_string(),
        status: Some(DecisionStatus::Accepted),
        options: Some(vec![DecisionOption {
            name: "SQLite".to_string(),
            description: "embedded".to_string(),
            pros: Some(vec!["small".to_string()]),
            cons: None,
        }]),
    };
    assert_eq!(
        object_embedding_text(&d),
        "Use SQLite\nStorage\nSimple\nAdopted\nAccepted\nSQLite\nembedded\nsmall"
    );
    let c = ObjectContent::ChangeSet {
        summary: "s".to_string(),
        title: "t".to_string(),
        description: None,
        diff: Some("+x".to_string()),
        files_changed: vec!["a.rs".to_string()],
        status: ChangeSetStatus::Merged,
        commit_hash: None,
        tests: Some(vec![TestResult { name: "t1".to_string(), status: TestStatus::Passed, output: None }]),
    };
    assert_eq!(object_embedding_text(&c), "s\nt\n+x\na.rs\nMerged\nt1\nPassed");
}

#[test]
fn run_embedding_text() {
    let r = ObjectContent::Run {
        summary: "run".to_string(),
        input_summary: "fix".to_string(),
        status: RunStatus::Failed,
        outputs: Some(vec![(RunOutputType::Command, "cargo test".to_string())]),
        errors: Some(vec![("boom".to_string(), Some("E1".to_string()))]),
    };
    assert_eq!(object_embedding_text(&r), "run\nfix\nFailed\nCommand\ncargo test\nboom\nE1");
}
