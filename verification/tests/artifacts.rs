use amp::artifacts::{
    artifact_delete_id, build_artifact_fields, extract_embedding_text, file_lookup_keys,
    list_artifacts_query, normalize_surreal_id, plan_artifact_links, project_lookup_query,
    relate_statement, ArtifactType, FieldValue, LinkEnd, ListArtifactsQuery, WriteArtifactRequest,
};

fn request(kind: ArtifactType) -> WriteArtifactRequest {
    WriteArtifactRequest {
        artifact_type: kind,
        title: "Use SurrealDB".to_string(),
        project_id: None,
        agent_id: None,
        run_id: None,
        tags: Some(vec!["db".to_string(), "  ".to_string()]),
        context: Some("need a graph store".to_string()),
        decision: Some("adopt it".to_string()),
        consequences: None,
        alternatives: Some(vec!["postgres".to_string()]),
        status: Some("accepted".to_string()),
        file_path: Some("src/db.rs".to_string()),
        summary: Some("database layer".to_string()),
        symbols: Some(vec!["connect".to_string()]),
        dependencies: None,
        content: Some("note body".to_string()),
        category: None,
        description: None,
        diff_summary: None,
        files_changed: None,
        linked_objects: None,
        linked_decisions: None,
        linked_files: None,
    }
}

#[test]
fn embedding_text_by_kind() {
    assert_eq!(
        extract_embedding_text(&request(ArtifactType::Decision)),
        "Use SurrealDB\ndb\nneed a graph store\nadopt it\npostgres"
    );
    assert_eq!(
        extract_embedding_text(&request(ArtifactType::FileLog)),
        "Use SurrealDB\ndb\nsrc/db.rs\ndatabase layer\nconnect"
    );
    assert_eq!(extract_embedding_text(&request(ArtifactType::Note)), "Use SurrealDB\ndb\nnote body");
    assert_eq!(extract_embedding_text(&request(ArtifactType::ChangeSet)), "Use SurrealDB\ndb");
}

#[test]
fn kind_names() {
    assert_eq!(ArtifactType::FileLog.to_display_string(), "filelog");
    assert_eq!(ArtifactType::ChangeSet.to_display_string(), "changeset");
}

#[test]
fn stored_record_fields() {
    let mut r = request(ArtifactType::Note);
    r.agent_id = Some("agent-7".to_string());
    let fields = build_artifact_fields(&r, "2026-03-01T00:00:00Z");
    let keys: Vec<&str> = fields.iter().map(|(k, _)| k.as_str()).collect();
    assert_eq!(
        keys,
        vec!["type", "title", "created_at", "updated_at", "memory_layers", "agent_id", "provenance", "tags", "content"]
    );
    match &fields[0].1 {
        FieldValue::Text(t) => assert_eq!(t, "note"),
        _ => panic!("type is text"),
    }
    match &fields[6].1 {
        FieldValue::Provenance { agent, summary } => {
            assert_eq!(agent, "agent-7");
            assert_eq!(summary, "Created note artifact");
        }
        _ => panic!("provenance expected"),
    }
    let fl = build_artifact_fields(&request(ArtifactType::FileLog), "t");
    let keys: Vec<&str> = fl.iter().map(|(k, _)| k.as_str()).collect();
    assert_eq!(
        keys,
        vec!["type", "title", "created_at", "updated_at", "memory_layers", "tags", "file_path", "summary", "symbols", "key_symbols"]
    );
}

#[test]
fn ids_are_made_bare() {
    assert_eq!(normalize_surreal_id("  objects:`abc-1` "), "abc-1");
    assert_eq!(normalize_surreal_id("objects:⟨xyz⟩"), "xyz");
    assert_eq!(normalize_surreal_id("âŸ¨idâŸ©"), "id");
    assert_eq!(artifact_delete_id(" objects:objects:q "), "q");
}

#[test]
fn listing_query() {
    let q = ListArtifactsQuery {
        artifact_type: Some("Decision".to_string()),
        project_id: Some("p".to_string()),
        agent_id: None,
        limit: None,
    };
    assert_eq!(
        list_artifacts_query(&q),
        "SELECT * FROM objects WHERE type IN ['decision', 'filelog', 'note', 'changeset'] AND type = 'decision' AND project_id = 'p' ORDER BY created_at DESC LIMIT 100"
    );
}

#[test]
fn relationship_plan() {
    let mut r = request(ArtifactType::FileLog);
    r.project_id = Some("proj".to_string());
    r.run_id = Some("run-1".to_string());
    r.linked_objects = Some(vec!["o1".to_string()]);
    r.linked_files = Some(vec!["550e8400-e29b-41d4-a716-446655440000".to_string(), "lib.rs".to_string()]);
    let links = plan_artifact_links(&r);
    let rels: Vec<&str> = links.iter().map(|l| l.relation.as_str()).collect();
    assert_eq!(rels, vec!["defined_in", "produced", "depends_on", "modifies", "modifies", "defined_in", "defined_in"]);
    assert!(matches!(&links[0].to, LinkEnd::ProjectOf(p) if p == "proj"));
    assert!(matches!(&links[1].from, LinkEnd::Object(run) if run == "run-1"));
    assert!(matches!(&links[3].to, LinkEnd::Object(id) if id == "550e8400-e29b-41d4-a716-446655440000"));
    assert!(matches!(&links[4].to, LinkEnd::FileAt(f) if f == "lib.rs"));
    assert!(matches!(&links[5].to, LinkEnd::FileAt(f) if f == "src/db.rs"));
    assert!(matches!(&links[6].to, LinkEnd::Core));
    assert!(links[4].ties_file && !links[6].ties_file);

    let mut plain = request(ArtifactType::Note);
    plain.file_path = None;
    let links = plan_artifact_links(&plain);
    assert_eq!(links.len(), 1);
    assert!(matches!(&links[0].to, LinkEnd::Core));
}

#[test]
fn statements_and_lookup_keys() {
    assert_eq!(
        relate_statement("a", "modifies", "b"),
        "RELATE objects:`a`->modifies->objects:`b` SET created_at = time::now()"
    );
    assert_eq!(
        project_lookup_query("o'p"),
        "SELECT id FROM objects WHERE (type = 'symbol' OR type = 'project') AND kind = 'project' AND project_id = 'o\\'p' LIMIT 1"
    );
    assert_eq!(
        file_lookup_keys("  src/x/y.rs "),
        Some(("src/x/y.rs".to_string(), "src\\x\\y.rs".to_string(), "y.rs".to_string()))
    );
    assert_eq!(file_lookup_keys("   "), None);
}
