use amp::cache::{
    compacted_sequence, create_block_statement, default_search_limit, default_token_budget,
    escape_block_id, fanout_scopes, new_block_record_id, normalize_run_id, open_block_match,
    plan_block_read, plan_block_write, should_evict, summarize_block_items, BlockItem,
    BlockReadPlan, BlockReadQuery, BlockReadRequest, CacheError, CacheFrame, CacheItemKind,
    CacheService, OpenBlock, PackCandidate, MAX_BLOCKS, TOKEN_THRESHOLD,
};

#[test]
fn test_estimate_tokens() {
    assert_eq!(CacheService::estimate_tokens("hello"), 1);
    assert_eq!(CacheService::estimate_tokens("hello world!"), 3);
    assert_eq!(CacheService::estimate_tokens(""), 0);
}

#[test]
fn test_cache_item_kind_serialization() {
    let kind = CacheItemKind::Fact;
    let json = serde_json::to_string(kind.as_str()).unwrap();
    assert_eq!(json, "\"fact\"");

    let name: String = serde_json::from_str("\"decision\"").unwrap();
    let kind = CacheItemKind::parse(&name).unwrap();
    assert_eq!(kind, CacheItemKind::Decision);
}

#[test]
fn estimate_counts_bytes_not_chars() {
    // "é" is two bytes in UTF-8.
    assert_eq!(CacheService::estimate_tokens("éééé"), 2);
}

#[test]
fn kind_names_round_trip() {
    for k in [CacheItemKind::Fact, CacheItemKind::Decision, CacheItemKind::Snippet, CacheItemKind::Warning] {
        assert_eq!(CacheItemKind::parse(k.as_str()), Some(k));
    }
    assert_eq!(CacheItemKind::parse("Fact"), None);
    assert_eq!(CacheItemKind::from_input("WARNING"), CacheItemKind::Warning);
    assert_eq!(CacheItemKind::from_input("other"), CacheItemKind::Fact);
}

#[test]
fn error_messages() {
    assert_eq!(CacheError::CacheMiss("s1".to_string()).to_display_string(), "Cache miss for scope: s1");
    assert_eq!(CacheError::DatabaseError("down".to_string()).to_display_string(), "Database error: down");
    assert_eq!(CacheError::EmbeddingError("x".to_string()).to_display_string(), "Embedding error: x");
}

fn candidate(kind: CacheItemKind, preview: &str, artifact: Option<&str>) -> PackCandidate {
    PackCandidate {
        kind,
        preview: preview.to_string(),
        facts: vec![],
        artifact_id: artifact.map(|a| a.to_string()),
    }
}

#[test]
fn pack_takes_items_while_they_fit() {
    let service = CacheService::new();
    // budget 50: 10 for the summary, 40 for the items.
    let items = vec![
        candidate(CacheItemKind::Fact, &"a".repeat(80), Some("art-1")), // 20 tokens
        candidate(CacheItemKind::Decision, &"b".repeat(100), None),       // 25 tokens: does not fit
        candidate(CacheItemKind::Warning, &"c".repeat(60), Some("art-1")), // 15 tokens
        candidate(CacheItemKind::Fact, &"d".repeat(40), None),            // 10 tokens: does not fit
    ];
    let frame = Some(CacheFrame {
        scope_id: "s".to_string(),
        summary: "x".repeat(20),
        version: 3,
        token_count: 5,
        updated_at: "2026-01-01T00:00:00Z".to_string(),
    });
    let plan = service.build_pack("s", &frame, &items, 50, true);
    assert_eq!(plan.facts, vec![0]);
    assert!(plan.decisions.is_empty());
    assert_eq!(plan.warnings, vec![2]);
    assert_eq!(plan.artifact_pointers, vec!["art-1".to_string()]);
    assert_eq!(plan.token_count, 5 + 20 + 15);
    assert_eq!(plan.version, 3);
    assert_eq!(plan.summary, "x".repeat(20));
    assert!(!plan.needs_frame_update());
}

#[test]
fn pack_cuts_a_long_summary() {
    let service = CacheService::new();
    let frame = Some(CacheFrame {
        scope_id: "s".to_string(),
        summary: "y".repeat(100),
        version: 1,
        token_count: 25,
        updated_at: String::new(),
    });
    let plan = service.build_pack("s", &frame, &vec![], 50, false);
    // The summary's share is 10 tokens, so it is cut to 40 characters.
    assert_eq!(plan.summary, "y".repeat(40));
    assert_eq!(plan.token_count, 10);
    assert!(plan.facts.is_empty());
}

#[test]
fn pack_cuts_a_wide_summary_by_bytes() {
    let service = CacheService::new();
    let frame = Some(CacheFrame {
        scope_id: "s".to_string(),
        summary: "\u{e9}".repeat(100),
        version: 1,
        token_count: 50,
        updated_at: String::new(),
    });
    let plan = service.build_pack("s", &frame, &vec![], 50, false);
    // Each character takes two bytes: 40 bytes hold 20 of them.
    assert_eq!(plan.summary, "\u{e9}".repeat(20));
    assert_eq!(plan.token_count, 10);
    assert!(plan.token_count <= 50);
}

#[test]
fn pack_cut_stops_before_a_split_character() {
    let service = CacheService::new();
    let mut summary = "a".repeat(39);
    summary.push_str(&"\u{20ac}".repeat(10));
    let frame = Some(CacheFrame {
        scope_id: "s".to_string(),
        summary,
        version: 1,
        token_count: 17,
        updated_at: String::new(),
    });
    let plan = service.build_pack("s", &frame, &vec![], 50, false);
    // 39 bytes of 'a' fit; the next character takes three more, past 40.
    assert_eq!(plan.summary, "a".repeat(39));
    assert_eq!(plan.token_count, 9);
}

#[test]
fn stale_pack_with_facts_updates_the_frame() {
    let service = CacheService::new();
    let items = vec![candidate(CacheItemKind::Fact, "tiny", None)];
    let plan = service.build_pack("s", &None, &items, 600, false);
    assert_eq!(plan.facts, vec![0]);
    assert!(plan.needs_frame_update());
    assert_eq!(plan.version, 0);
}

#[test]
fn freshness_and_defaults() {
    let service = CacheService::new();
    assert_eq!(service.default_ttl_minutes, 30);
    assert!(service.is_fresh(299));
    assert!(!service.is_fresh(300));
    assert_eq!(default_token_budget(), 600);
    assert_eq!(default_search_limit(), 5);
}

#[test]
fn block_write_rotates_at_the_threshold() {
    assert_eq!(TOKEN_THRESHOLD, 1800);
    let open = Some(OpenBlock { block_id: "b".to_string(), token_count: 1790, item_count: 4, sequence: 2 });
    let plan = plan_block_write(&open, &"z".repeat(40)); // 10 tokens
    assert!(plan.rotate);
    assert_eq!(plan.sequence, 3);
    assert_eq!(plan.token_count, 10);
    assert_eq!(plan.items_in_block, 1);
    assert_eq!(plan.block_status, "closed");

    let plan = plan_block_write(&open, "abc");
    assert!(!plan.rotate);
    assert_eq!(plan.token_count, 1790);
    assert_eq!(plan.items_in_block, 5);
    assert_eq!(plan.block_status, "open");

    let first = plan_block_write(&None, "hello world!");
    assert!(first.create_first);
    assert_eq!(first.sequence, 1);
    assert_eq!(first.token_count, 3);
}

#[test]
fn eviction_past_twenty_blocks() {
    assert_eq!(MAX_BLOCKS, 20);
    assert!(!should_evict(20));
    assert!(should_evict(21));
}

#[test]
fn block_ids_are_escaped_once() {
    assert_eq!(escape_block_id("cache_block:⟨abc-1⟩"), "cache_block:`abc-1`");
    assert_eq!(escape_block_id("abc"), "cache_block:`abc`");
    let once = escape_block_id("xyz");
    assert_eq!(escape_block_id(&once), once);
}

#[test]
fn run_ids_are_cleaned() {
    assert_eq!(normalize_run_id("  ⟨objects:run-1⟩ "), "run-1");
    assert_eq!(normalize_run_id("`objects:r2`"), "r2");
}

#[test]
fn project_writes_fan_out_to_runs() {
    let runs = vec!["objects:r1".to_string(), "  ".to_string(), "r2".to_string()];
    assert_eq!(
        fanout_scopes("project:p", &runs),
        vec!["run:r1", "session:r1", "run:r2", "session:r2"]
    );
    assert!(fanout_scopes("run:x", &runs).is_empty());
}

fn item(kind: Option<&str>, content: Option<&str>) -> BlockItem {
    BlockItem { kind: kind.map(|s| s.to_string()), content: content.map(|s| s.to_string()) }
}

#[test]
fn closing_summary_joins_parts_within_budget() {
    let items = vec![item(Some("fact"), Some("alpha")), item(None, None), item(None, Some("beta"))];
    assert_eq!(summarize_block_items(&items), "[fact] alpha; [item] beta");
    let long = "q".repeat(800);
    let items = vec![item(Some("fact"), Some("short")), item(Some("fact"), Some(&long)), item(Some("fact"), Some("after"))];
    assert_eq!(summarize_block_items(&items), "[fact] short");
}

#[test]
fn open_block_matches_ignore_case() {
    let items = vec![item(Some("fact"), Some("Deploy ROLLBACK plan")), item(Some("note"), Some("other"))];
    assert_eq!(open_block_match(&items, "rollback"), Some("[fact] Deploy ROLLBACK plan; [note] other".to_string()));
    assert_eq!(open_block_match(&items, "missing"), None);
    assert_eq!(open_block_match(&vec![], "*"), Some("[open block - no items yet]".to_string()));
}

fn read_request(list_all: Option<bool>, query: Option<&str>, block_id: Option<&str>) -> BlockReadRequest {
    BlockReadRequest {
        scope_id: "s".to_string(),
        list_all,
        query: query.map(|q| q.to_string()),
        include_content: None,
        include_open: None,
        limit: None,
        block_id: block_id.map(|b| b.to_string()),
    }
}

#[test]
fn block_reads_are_planned_by_precedence() {
    match plan_block_read(&read_request(Some(true), Some("q"), Some("b1"))) {
        BlockReadPlan::ById(id) => assert_eq!(id, "b1"),
        _ => panic!("expected a read by id"),
    }
    match plan_block_read(&read_request(Some(true), Some("q"), None)) {
        BlockReadPlan::Search { query, limit, include_open, include_content } => {
            assert_eq!(query, "*");
            assert_eq!(limit, 5);
            assert!(include_open);
            assert!(!include_content);
        }
        _ => panic!("expected a listing"),
    }
    match plan_block_read(&read_request(None, Some("q"), None)) {
        BlockReadPlan::Search { query, include_open, .. } => {
            assert_eq!(query, "q");
            assert!(!include_open);
        }
        _ => panic!("expected a search"),
    }
    assert!(matches!(plan_block_read(&read_request(None, None, None)), BlockReadPlan::CurrentOpen));
}

#[test]
fn list_requests_drop_query_and_id() {
    let q = BlockReadQuery {
        scope_id: "s".to_string(),
        list_all: None,
        query: Some("x".to_string()),
        include_content: Some(true),
        include_open: None,
        limit: Some(3),
        block_id: Some("b".to_string()),
    };
    let r = q.into_list_request();
    assert_eq!(r.list_all, Some(true));
    assert!(r.query.is_none());
    assert!(r.block_id.is_none());
    assert_eq!(r.limit, Some(3));
}

#[test]
fn compaction_sequences_and_statements() {
    assert_eq!(compacted_sequence(Some(Some(4))), 5);
    assert_eq!(compacted_sequence(Some(None)), 2);
    assert_eq!(compacted_sequence(None), 1);
    let id = new_block_record_id("u-1");
    assert_eq!(id, "cache_block:`u-1`");
    assert_eq!(
        create_block_statement(&id),
        "CREATE cache_block:`u-1` SET scope_id = $scope_id, sequence = $seq, status = 'open', items = [], token_count = 0, created_at = time::now()"
    );
}

#[test]
fn read_query_becomes_request() {
    let q = BlockReadQuery {
        scope_id: "project:p".to_string(),
        list_all: None,
        query: Some("auth".to_string()),
        include_content: Some(true),
        include_open: None,
        limit: Some(3),
        block_id: None,
    };
    let r = q.into_read_request();
    assert_eq!(r.scope_id, "project:p");
    assert_eq!(r.query, Some("auth".to_string()));
    assert_eq!(r.include_content, Some(true));
    assert_eq!(r.limit, Some(3));
    assert_eq!(r.list_all, None);
}
