use amp::codebase::{assemble_file_content, first_text, sort_chunks, texts_at, texts_of};
use amp::connections::{extract_connection_info, extract_datetime, lease_parties, release_statement};
use amp::models::activity_items;
use amp::index_llm::{coerce_dependencies, coerce_filelog_value, coerce_string, coerce_string_list};
use amp::json::{normalize_object_id, normalize_object_ids, JsonValue};
use amp::objects::{extract_text_for_embedding, fill_timestamps};
use amp::focus::stored_focus_title;
use amp::graph::neighbor_nodes;
use amp::query::connected_objects;

fn st(s: &str) -> JsonValue {
    JsonValue::Str(s.to_string())
}

fn num(n: u64) -> JsonValue {
    JsonValue::Number(n.to_string(), Some(n))
}

fn obj(entries: Vec<(&str, JsonValue)>) -> JsonValue {
    JsonValue::Object(entries.into_iter().map(|(k, v)| (k.to_string(), v)).collect())
}

fn arr(items: Vec<JsonValue>) -> JsonValue {
    JsonValue::Array(items)
}

fn lookup<'a>(v: &'a JsonValue, key: &str) -> Option<&'a JsonValue> {
    match v {
        JsonValue::Object(m) => m.iter().find(|(k, _)| k == key).map(|(_, v)| v),
        _ => None,
    }
}

fn text_at(v: &JsonValue, key: &str) -> Option<String> {
    match lookup(v, key) {
        Some(JsonValue::Str(s)) => Some(s.clone()),
        _ => None,
    }
}

#[test]
fn coerce_string_reads_scalars_and_arrays() {
    assert_eq!(coerce_string(Some(&st("  hi  "))), Some("hi".to_string()));
    assert_eq!(coerce_string(Some(&JsonValue::Number("1.5".to_string(), None))), Some("1.5".to_string()));
    assert_eq!(coerce_string(Some(&JsonValue::Bool(true))), Some("true".to_string()));
    assert_eq!(coerce_string(Some(&arr(vec![st("a"), num(1), st(" b")]))), Some("a,  b".to_string()));
    assert_eq!(coerce_string(Some(&JsonValue::Null)), None);
    assert_eq!(coerce_string(None), None);
}

#[test]
fn coerce_lists() {
    assert_eq!(
        coerce_string_list(Some(&arr(vec![st(" x "), st(""), num(3), st("y")]))),
        vec!["x", "y"]
    );
    assert_eq!(coerce_string_list(Some(&st("- one\n\n  -- two \n"))), vec!["one", "two"]);
    assert!(coerce_string_list(Some(&JsonValue::Bool(false))).is_empty());
}

#[test]
fn coerce_dependency_objects() {
    let deps = obj(vec![
        ("imports", arr(vec![st(" std::fs "), st("")])),
        ("exports", arr(vec![st("main")])),
    ]);
    assert_eq!(coerce_dependencies(Some(&deps)), vec!["imports: std::fs", "exports: main"]);
    assert_eq!(coerce_dependencies(Some(&arr(vec![st("a")]))), vec!["a"]);
    assert!(coerce_dependencies(None).is_empty());
}

#[test]
fn filelog_from_loose_json() {
    let v = obj(vec![
        ("summaryMarkdown", st(" # FILE_LOG v1 ")),
        ("purpose", st("Parses things")),
        ("symbols", arr(vec![st("parse"), st("lex")])),
        ("dependencies", st("- serde\n- regex")),
    ]);
    let out = coerce_filelog_value(&v).unwrap();
    assert_eq!(out.summary_markdown, "# FILE_LOG v1");
    assert_eq!(out.purpose, Some("Parses things".to_string()));
    assert_eq!(out.key_symbols, vec!["parse", "lex"]);
    assert_eq!(out.dependencies, vec!["serde", "regex"]);
    assert_eq!(out.notes, None);
}

#[test]
fn filelog_errors() {
    assert_eq!(
        coerce_filelog_value(&arr(vec![])).err(),
        Some("Expected JSON object for file log".to_string())
    );
    assert_eq!(
        coerce_filelog_value(&obj(vec![("summary_markdown", JsonValue::Null), ("summary", st("x"))])).err(),
        Some("Missing summary_markdown in index model JSON".to_string())
    );
    assert_eq!(
        coerce_filelog_value(&obj(vec![("summary", st("   "))])).err(),
        Some("Missing summary_markdown in index model JSON".to_string())
    );
}

#[test]
fn object_id_from_id_string() {
    let mut v = obj(vec![("id_string", st("objects:`⟨abc⟩`")), ("name", st("n"))]);
    normalize_object_id(&mut v);
    assert_eq!(text_at(&v, "id"), Some("abc".to_string()));
    assert!(lookup(&v, "id_string").is_none());
    assert_eq!(text_at(&v, "name"), Some("n".to_string()));
}

#[test]
fn object_id_from_prefixed_id() {
    let mut v = obj(vec![("id", st("objects:⟨u-1⟩"))]);
    normalize_object_id(&mut v);
    assert_eq!(text_at(&v, "id"), Some("u-1".to_string()));
    let mut plain = obj(vec![("id", st("u-2"))]);
    normalize_object_id(&mut plain);
    assert_eq!(text_at(&plain, "id"), Some("u-2".to_string()));
    let mut nested = obj(vec![("id", obj(vec![("tb", st("objects")), ("id", st("`u-3`"))]))]);
    normalize_object_id(&mut nested);
    assert_eq!(text_at(&nested, "id"), Some("u-3".to_string()));
}

#[test]
fn object_ids_of_many_values() {
    let mut vs = vec![obj(vec![("id", st("t:a"))]), st("not an object"), obj(vec![("id_string", num(4))])];
    normalize_object_ids(&mut vs);
    assert_eq!(text_at(&vs[0], "id"), Some("a".to_string()));
    assert!(matches!(&vs[1], JsonValue::Str(s) if s == "not an object"));
    assert!(matches!(&vs[2], JsonValue::Object(m) if m.is_empty()));
}

#[test]
fn datetimes_are_read_as_text() {
    assert_eq!(extract_datetime(Some(&st("2024-01-01T00:00:00Z"))), "2024-01-01T00:00:00Z");
    assert_eq!(extract_datetime(Some(&obj(vec![("$datetime", st("d"))]))), "d");
    assert_eq!(extract_datetime(Some(&obj(vec![("time", st("t"))]))), "t");
    assert_eq!(extract_datetime(Some(&num(5))), "");
    assert_eq!(extract_datetime(None), "");
}

#[test]
fn connection_info_from_record() {
    let v = obj(vec![
        ("id", st("agent_connections:`c1`")),
        ("agent_id", st("a")),
        ("agent_name", st("Agent A")),
        ("run_id", st("r")),
        ("last_heartbeat", obj(vec![("$datetime", st("hb"))])),
        ("expires_at", st("exp")),
    ]);
    let c = extract_connection_info(&v).unwrap();
    assert_eq!(c.connection_id, "c1");
    assert_eq!(c.agent_name, "Agent A");
    assert_eq!(c.run_id, Some("r".to_string()));
    assert_eq!(c.project_id, None);
    assert_eq!(c.status, "unknown");
    assert_eq!(c.last_heartbeat, "hb");
    assert_eq!(c.connected_at, "");
    assert_eq!(c.expires_at, "exp");
    assert!(extract_connection_info(&obj(vec![("id", st("x")), ("agent_id", st("a"))])).is_none());
}

#[test]
fn chunks_sort_stably_by_index() {
    let vs = vec![
        obj(vec![("chunk_index", num(2)), ("content", st("c"))]),
        obj(vec![("content", st("a"))]),
        obj(vec![("chunk_index", num(1)), ("content", st("b"))]),
        obj(vec![("chunk_index", num(0)), ("content", st("a2"))]),
    ];
    let sorted = sort_chunks(vs);
    let texts: Vec<Option<String>> = sorted.iter().map(|v| text_at(v, "content")).collect();
    assert_eq!(
        texts,
        vec![Some("a".to_string()), Some("a2".to_string()), Some("b".to_string()), Some("c".to_string())]
    );
}

#[test]
fn file_content_is_assembled_in_order() {
    let vs = vec![
        obj(vec![("chunk_index", num(1)), ("content", st("world"))]),
        obj(vec![("chunk_index", num(0)), ("content", st("hello "))]),
        obj(vec![("chunk_index", num(2))]),
    ];
    let (content, chunks) = assemble_file_content(vs, None);
    assert_eq!(content, "hello world");
    assert_eq!(chunks, vec!["hello ", "world"]);
    let vs2 = vec![obj(vec![("content", st("héllo"))])];
    let (limited, _) = assemble_file_content(vs2, Some(2));
    assert_eq!(limited, "hé");
}

#[test]
fn record_texts_and_first_text() {
    let vs = vec![obj(vec![("file_path", st("a.rs")), ("file_id", st("f1"))]), obj(vec![("file_path", num(1))])];
    assert_eq!(texts_at(&vs, "file_path"), vec![Some("a.rs".to_string()), None]);
    assert_eq!(first_text(&vs, "file_id"), Some("f1".to_string()));
    assert_eq!(first_text(&vs, "file_path"), Some("a.rs".to_string()));
    assert_eq!(first_text(&Vec::new(), "file_id"), None);
    assert_eq!(texts_of(&vec![st("p"), num(2)]), vec![Some("p".to_string()), None]);
}

#[test]
fn embedding_text_by_type() {
    let sym = obj(vec![
        ("type", st("Symbol")),
        ("name", st("parse")),
        ("kind", st("function")),
        ("signature", num(5)),
        ("documentation", st("Parses.")),
    ]);
    assert_eq!(extract_text_for_embedding(&sym), Some("parse function Parses.".to_string()));
    let chunk = obj(vec![("type", st("filechunk")), ("content", st("fn x() {}"))]);
    assert_eq!(extract_text_for_embedding(&chunk), Some("fn x() {}".to_string()));
    let log = obj(vec![("type", st("FileLog")), ("purpose", st("p"))]);
    assert_eq!(extract_text_for_embedding(&log), Some("p".to_string()));
    assert_eq!(extract_text_for_embedding(&obj(vec![("type", st("filelog"))])), None);
    assert_eq!(extract_text_for_embedding(&obj(vec![("type", st("decision")), ("name", st("n"))])), None);
    assert_eq!(extract_text_for_embedding(&obj(vec![("name", st("n"))])), None);
}

#[test]
fn timestamps_fill_missing_and_null() {
    let v = obj(vec![("created_at", JsonValue::Null), ("updated_at", st("u")), ("x", num(1))]);
    let f = fill_timestamps(v, "NOW");
    assert_eq!(text_at(&f, "created_at"), Some("NOW".to_string()));
    assert_eq!(text_at(&f, "updated_at"), Some("u".to_string()));
    assert!(matches!(lookup(&f, "x"), Some(JsonValue::Number(t, Some(1))) if t == "1"));
    let g = fill_timestamps(obj(vec![]), "T");
    assert_eq!(text_at(&g, "created_at"), Some("T".to_string()));
    assert_eq!(text_at(&g, "updated_at"), Some("T".to_string()));
    assert!(matches!(fill_timestamps(st("s"), "T"), JsonValue::Str(s) if s == "s"));
}

#[test]
fn connected_rows_are_flattened() {
    let rows = vec![
        obj(vec![("connected", arr(vec![obj(vec![("id", st("a"))]), obj(vec![("id", st("b"))])]))]),
        obj(vec![("other", num(1))]),
        st("skip"),
        obj(vec![("connected", obj(vec![("id", st("c"))]))]),
    ];
    let out = connected_objects(rows);
    let ids: Vec<Option<String>> = out.iter().map(|v| text_at(v, "id")).collect();
    assert_eq!(ids, vec![Some("a".to_string()), Some("b".to_string()), Some("c".to_string())]);
}

#[test]
fn lease_release_and_parties() {
    assert_eq!(release_statement("l-1"), "DELETE leases:`l-1`");
    let lease = obj(vec![("resource", st("file.rs")), ("holder", st("agent"))]);
    assert_eq!(lease_parties(&lease), Some(("file.rs".to_string(), "agent".to_string())));
    assert_eq!(lease_parties(&obj(vec![("resource", st("file.rs"))])), None);
}

#[test]
fn activity_feed_entries() {
    let rows = vec![obj(vec![("type", st("Symbol")), ("created_at", st("t0"))]), obj(vec![])];
    let items = activity_items(&rows);
    assert_eq!(items.len(), 2);
    assert_eq!(items[0].id, "activity_0");
    assert_eq!(items[0].activity_type, "Symbol");
    assert_eq!(items[0].action, "Created");
    assert_eq!(items[0].timestamp, "t0");
    assert_eq!(items[0].details, "Symbol object created");
    assert_eq!(items[1].id, "activity_1");
    assert_eq!(items[1].activity_type, "unknown");
    assert_eq!(items[1].timestamp, "");
    assert_eq!(items[1].details, "unknown object created");
}

#[test]
fn neighbor_rows_in_both_directions() {
    let rows = || {
        vec![
            obj(vec![
                ("inbound", arr(vec![obj(vec![("id", st("in1"))])])),
                ("outbound", obj(vec![("id", st("out1"))])),
            ]),
            obj(vec![("outbound", arr(vec![obj(vec![("id", st("out2"))])]))]),
        ]
    };
    let ids = |vs: Vec<JsonValue>| -> Vec<Option<String>> { vs.iter().map(|v| text_at(v, "id")).collect() };
    assert_eq!(ids(neighbor_nodes(rows(), true, true)), vec![Some("out1".to_string()), Some("in1".to_string()), Some("out2".to_string())]);
    assert_eq!(ids(neighbor_nodes(rows(), true, false)), vec![Some("in1".to_string()), Some("out2".to_string())]);
    let single = vec![obj(vec![("connected", obj(vec![("id", st("c"))]))])];
    assert_eq!(ids(neighbor_nodes(single, false, false)), vec![Some("c".to_string())]);
}

#[test]
fn stored_focus_title_is_nested() {
    let run = obj(vec![("focus", obj(vec![("title", st("Fix login")), ("status", st("active"))]))]);
    assert_eq!(stored_focus_title(&run), Some("Fix login".to_string()));
    assert_eq!(stored_focus_title(&obj(vec![("focus", JsonValue::Null)])), None);
    assert_eq!(stored_focus_title(&obj(vec![])), None);
}
