use amp::artifact_write::{write_start, write_step, WriteAction, WriteContext, WriteEvent, WritePhase};
use amp::artifacts::{ArtifactType, WriteArtifactRequest};
use amp::codebase::{new_file_id, FileSyncRequest};
use amp::lookup::{lookup_start, lookup_step, LookupAction, LookupEvent, LookupPhase};
use amp::sync::{sync_start, sync_step, SyncAction, SyncEvent, SyncPhase, SyncState};

fn s(v: &str) -> String {
    v.to_string()
}

fn some(v: &str) -> Option<String> {
    Some(v.to_string())
}

#[test]
fn lookup_of_a_path_starts_with_the_specific_query() {
    let (phase, action) = lookup_start("src/main.rs");
    assert_eq!(phase, LookupPhase::Specific);
    match action {
        LookupAction::QuerySpecific(p, n) => {
            assert_eq!(p, "src/main.rs");
            assert_eq!(n, "src\\main.rs");
        },
        _ => panic!("expected the specific query"),
    }
}

#[test]
fn lookup_of_an_ambiguous_bare_name_is_refused() {
    let (phase, action) = lookup_start("main.rs");
    assert_eq!(phase, LookupPhase::PathCheck);
    assert!(matches!(action, LookupAction::QueryPaths(ref p) if p == "main.rs"));
    let rows = LookupEvent::Rows(vec![some("a\\main.rs"), some("b\\main.rs"), some("a\\main.rs")]);
    let (phase, action) = lookup_step("main.rs", phase, &rows);
    assert_eq!(phase, LookupPhase::Finished);
    match action {
        LookupAction::Ambiguous(paths) => assert_eq!(paths, vec![s("a\\main.rs"), s("b\\main.rs")]),
        _ => panic!("expected an ambiguity"),
    }
}

#[test]
fn lookup_by_object_id_falls_back_to_the_path() {
    let id = "123e4567-e89b-12d3-a456-426614174000";
    let (phase, action) = lookup_start(id);
    assert_eq!(phase, LookupPhase::ById);
    assert!(matches!(action, LookupAction::QueryById(ref x) if x == id));
    let (phase, action) = lookup_step(id, phase, &LookupEvent::Rows(vec![]));
    assert_eq!(phase, LookupPhase::ByFileId);
    assert!(matches!(action, LookupAction::QueryByFileId(ref x) if x == id));
    let (phase, action) = lookup_step(id, phase, &LookupEvent::Rows(vec![]));
    assert_eq!(phase, LookupPhase::PathCheck);
    assert!(matches!(action, LookupAction::QueryPaths(_)));
    let (_, action) = lookup_step(id, LookupPhase::ById, &LookupEvent::Failed(s("boom")));
    assert!(matches!(action, LookupAction::Fail(ref m) if m == "Failed to query file log by id: boom"));
}

#[test]
fn failed_specific_lookup_scans_and_scores() {
    let path = "src/main.rs";
    let (phase, action) = lookup_step(path, LookupPhase::Specific, &LookupEvent::Failed(s("down")));
    assert_eq!(phase, LookupPhase::SpecificScan);
    assert!(matches!(action, LookupAction::ScanAll));
    let rows = LookupEvent::Rows(vec![some("x\\other.rs"), some("C:\\Repo\\src\\main.rs"), None]);
    let (phase, action) = lookup_step(path, phase, &rows);
    assert_eq!(phase, LookupPhase::Finished);
    assert!(matches!(action, LookupAction::Answer(1)));
    // Nothing scores: the file-name query follows.
    let (phase, action) = lookup_step(path, LookupPhase::SpecificScan, &LookupEvent::Rows(vec![some("z.txt")]));
    assert_eq!(phase, LookupPhase::Basename);
    assert!(matches!(action, LookupAction::QueryBasename(ref b) if b == "main.rs"));
}

#[test]
fn lookup_through_chunks() {
    let path = "lib/a.rs";
    let (phase, action) = lookup_step(path, LookupPhase::Basename, &LookupEvent::Rows(vec![]));
    assert_eq!(phase, LookupPhase::Chunks);
    assert!(matches!(action, LookupAction::QueryChunks(ref p, ref n, ref b) if p == "lib/a.rs" && n == "lib\\a.rs" && b == "a.rs"));
    let chunks = LookupEvent::ChunkRows(vec![(some("file-1"), some("lib\\a.rs"))]);
    let (phase, action) = lookup_step(path, phase, &chunks);
    assert_eq!(phase, LookupPhase::ChunkLog);
    assert!(matches!(action, LookupAction::QueryLogByFileId(ref f) if f == "file-1"));
    let (phase, action) = lookup_step(path, phase, &LookupEvent::Rows(vec![]));
    assert_eq!(phase, LookupPhase::Finished);
    assert!(matches!(action, LookupAction::NotFound));
    let (_, action) = lookup_step(path, LookupPhase::Chunks, &LookupEvent::ChunkRows(vec![]));
    assert!(matches!(action, LookupAction::NotFound));
}

fn sync_request(path: &str, action: &str) -> FileSyncRequest {
    FileSyncRequest { path: s(path), action: s(action), summary: s("why"), run_id: None, agent_id: None }
}

fn step(req: &FileSyncRequest, st: SyncState, ev: SyncEvent) -> (SyncState, SyncAction) {
    sync_step(req, st, ev)
}

#[test]
fn editing_a_known_file_refreshes_every_layer() {
    let req = sync_request("src/a.py", "Edit");
    let (st, action) = sync_start(&req);
    assert!(matches!(action, SyncAction::QuerySpecific(ref p, ref n) if p == "src/a.py" && n == "src\\a.py"));
    let (st, action) = step(&req, st, SyncEvent::Records(vec![(some("file-9"), some("src\\a.py"))]));
    assert!(matches!(action, SyncAction::Resolve(ref p) if p == "src\\a.py"));
    let (st, action) = step(&req, st, SyncEvent::Failed(s("missing")));
    assert_eq!(st.phase, SyncPhase::ResolveFallback);
    assert!(matches!(action, SyncAction::Resolve(ref p) if p == "src/a.py"));
    let (st, action) = step(&req, st, SyncEvent::Resolved(s("/w/src/a.py")));
    assert!(matches!(action, SyncAction::ReadAndParse(ref p) if p == "/w/src/a.py"));
    let parsed = SyncEvent::Parsed(s("python"), vec![s("f"), s("g")], vec![s("os")], 2);
    let (st, action) = step(&req, st, parsed);
    assert!(matches!(action, SyncAction::CountLogs(ref f) if f == "file-9"));
    let (st, action) = step(&req, st, SyncEvent::Count(1));
    match &action {
        SyncAction::UpdateLog(f, summary, symbols, deps) => {
            assert_eq!(f, "file-9");
            assert_eq!(summary, "python file with: f, g");
            assert_eq!(symbols, &vec![s("f"), s("g")]);
            assert_eq!(deps, &vec![s("os")]);
        },
        _ => panic!("expected a log update"),
    }
    let (st, action) = step(&req, st, SyncEvent::Done);
    assert!(matches!(action, SyncAction::DeleteChunks(ref f) if f == "file-9"));
    let (st, action) = step(&req, st, SyncEvent::Done);
    assert!(matches!(action, SyncAction::StoreChunk(ref f, 0) if f == "file-9"));
    let (st, action) = step(&req, st, SyncEvent::Done);
    assert!(matches!(action, SyncAction::StoreChunk(_, 1)));
    let (st, action) = step(&req, st, SyncEvent::Failed(s("full")));
    assert!(matches!(action, SyncAction::ClearEdges(ref t, _) if t == "depends_on"));
    let (st, action) = step(&req, st, SyncEvent::Done);
    assert!(matches!(action, SyncAction::ClearEdges(ref t, _) if t == "calls"));
    let (st, action) = step(&req, st, SyncEvent::Done);
    assert!(matches!(action, SyncAction::FindTarget(ref d) if d == "os"));
    let (st, action) = step(&req, st, SyncEvent::Target(some("objects:x")));
    assert!(matches!(action, SyncAction::Relate(ref f, ref t) if f == "file-9" && t == "objects:x"));
    let (st, action) = step(&req, st, SyncEvent::Done);
    assert_eq!(st.phase, SyncPhase::Finished);
    match action {
        SyncAction::Respond(r) => {
            assert_eq!(r.file_id, "file-9");
            assert_eq!(r.action, "edit");
            assert!(r.layers_updated.temporal && r.layers_updated.vector && r.layers_updated.graph);
            assert_eq!(r.chunks_replaced, 1);
            assert_eq!(r.relationships_updated, 1);
            assert!(r.audit_entry_added);
        },
        _ => panic!("expected the response"),
    }
}

#[test]
fn deleting_an_unknown_file_clears_under_a_new_id() {
    let req = sync_request("a/b.rs", "DELETE");
    let (st, _) = sync_start(&req);
    let (st, action) = step(&req, st, SyncEvent::Records(vec![]));
    assert!(matches!(action, SyncAction::QueryBasename(ref b) if b == "b.rs"));
    let (st, action) = step(&req, st, SyncEvent::Records(vec![]));
    let id = new_file_id("a/b.rs");
    assert!(id.starts_with("file-"));
    assert!(matches!(action, SyncAction::DeleteChunks(ref f) if *f == id));
    let (st, action) = step(&req, st, SyncEvent::Count(3));
    assert!(matches!(action, SyncAction::DeleteEdges(ref t, _) if t == "defined_in"));
    let (st, action) = step(&req, st, SyncEvent::Count(1));
    assert!(matches!(action, SyncAction::DeleteEdges(ref t, _) if t == "depends_on"));
    let (st, action) = step(&req, st, SyncEvent::Failed(s("x")));
    assert!(matches!(action, SyncAction::DeleteEdges(ref t, _) if t == "calls"));
    let (st, action) = step(&req, st, SyncEvent::Count(2));
    assert!(matches!(action, SyncAction::DeleteEdges(ref t, _) if t == "modifies"));
    let (st, action) = step(&req, st, SyncEvent::Count(0));
    assert!(matches!(action, SyncAction::AppendDeleteAudit(ref f) if *f == id));
    let (_, action) = step(&req, st, SyncEvent::Done);
    match action {
        SyncAction::Respond(r) => {
            assert_eq!(r.action, "delete");
            assert_eq!(r.chunks_replaced, 3);
            assert_eq!(r.relationships_updated, 3);
            assert!(r.layers_updated.temporal && r.layers_updated.vector && r.layers_updated.graph);
        },
        _ => panic!("expected the response"),
    }
}

#[test]
fn sync_refuses_ambiguous_and_missing_files() {
    let req = sync_request("util.py", "edit");
    let (st, action) = sync_start(&req);
    assert!(matches!(action, SyncAction::QueryPaths(ref p) if p == "util.py"));
    let (_, action) = step(&req, st, SyncEvent::Paths(vec![some("a\\util.py"), some("b\\util.py")]));
    assert!(matches!(action, SyncAction::Ambiguous(ref v) if v.len() == 2));
    let req = sync_request("src/new.py", "create");
    let (st, _) = sync_start(&req);
    let (st, _) = step(&req, st, SyncEvent::Failed(s("db")));
    let (st, action) = step(&req, st, SyncEvent::Failed(s("db")));
    assert!(matches!(action, SyncAction::Resolve(ref p) if p == "src/new.py"));
    let (_, action) = step(&req, st, SyncEvent::Failed(s("no such file")));
    assert!(matches!(action, SyncAction::NotFound(ref p, None) if p == "src/new.py"));
}

fn artifact_request() -> WriteArtifactRequest {
    WriteArtifactRequest {
        artifact_type: ArtifactType::Decision,
        title: s("Pick a store"),
        project_id: None,
        agent_id: None,
        run_id: some("run-1"),
        tags: None,
        context: None,
        decision: None,
        consequences: None,
        alternatives: None,
        status: None,
        file_path: None,
        summary: None,
        symbols: None,
        dependencies: None,
        content: None,
        category: None,
        description: None,
        diff_summary: None,
        files_changed: None,
        linked_objects: None,
        linked_decisions: None,
        linked_files: Some(vec![s("src/x.rs")]),
    }
}

fn context(embeddings: bool) -> WriteContext {
    WriteContext { object_id: s("obj-1"), core_id: s("core-1"), now: s("t0"), embeddings_enabled: embeddings }
}

#[test]
fn writing_an_artifact_links_run_and_file() {
    let req = artifact_request();
    let ctx = context(false);
    let (st, action) = write_start(&req, &ctx);
    assert!(matches!(action, WriteAction::CreateObject(false)));
    let (st, action) = write_step(&req, &ctx, st, &WriteEvent::Done);
    assert!(matches!(action, WriteAction::Relate(ref q)
        if q == "RELATE objects:`run-1`->produced->objects:`obj-1` SET created_at = time::now()"));
    let (st, action) = write_step(&req, &ctx, st, &WriteEvent::Done);
    assert!(matches!(action, WriteAction::LookupFileNode(ref t, ref n, ref b)
        if t == "src/x.rs" && n == "src\\x.rs" && b == "x.rs"));
    let (st, action) = write_step(&req, &ctx, st, &WriteEvent::Found(None));
    assert!(matches!(action, WriteAction::LookupFileLog(_, _, _)));
    assert_eq!(st.phase, WritePhase::FileLogLookup);
    let (st, action) = write_step(&req, &ctx, st, &WriteEvent::Found(some("objects:`f1`")));
    assert!(matches!(action, WriteAction::Relate(ref q)
        if q == "RELATE objects:`obj-1`->modifies->objects:`f1` SET created_at = time::now()"));
    let (st, action) = write_step(&req, &ctx, st, &WriteEvent::Done);
    assert_eq!(st.phase, WritePhase::Finished);
    match action {
        WriteAction::Respond(r) => {
            assert_eq!(r.id, "obj-1");
            assert_eq!(r.artifact_type, "decision");
            assert_eq!(r.created_at, "t0");
            assert_eq!(r.relationships_created, 2);
            assert!(r.memory_layers.graph && !r.memory_layers.vector && r.memory_layers.temporal);
        },
        _ => panic!("expected the response"),
    }
}

#[test]
fn an_artifact_without_a_file_joins_the_core() {
    let mut req = artifact_request();
    req.run_id = None;
    req.linked_files = None;
    let ctx = context(true);
    let (st, action) = write_start(&req, &ctx);
    assert!(matches!(action, WriteAction::GenerateEmbedding(ref t) if t.contains("Pick a store")));
    let (st, action) = write_step(&req, &ctx, st, &WriteEvent::Embedded(true));
    assert!(matches!(action, WriteAction::CreateObject(true)));
    let (st, action) = write_step(&req, &ctx, st, &WriteEvent::Done);
    assert!(matches!(action, WriteAction::LookupCore));
    let (st, action) = write_step(&req, &ctx, st, &WriteEvent::Found(None));
    assert!(matches!(action, WriteAction::CreateCore(ref c) if c == "core-1"));
    let (st, action) = write_step(&req, &ctx, st, &WriteEvent::Done);
    assert!(matches!(action, WriteAction::Relate(ref q) if q.contains("->defined_in->objects:`core-1`")));
    let (_, action) = write_step(&req, &ctx, st, &WriteEvent::Failed(s("x")));
    match action {
        WriteAction::Respond(r) => {
            assert_eq!(r.relationships_created, 0);
            assert!(!r.memory_layers.graph && r.memory_layers.vector);
        },
        _ => panic!("expected the response"),
    }
}

#[test]
fn a_store_that_fails_or_times_out_refuses_the_write() {
    let req = artifact_request();
    let ctx = context(false);
    let (st, _) = write_start(&req, &ctx);
    let (_, action) = write_step(&req, &ctx, st, &WriteEvent::TimedOut);
    assert!(matches!(action, WriteAction::Fail(amp::artifact_write::WriteFailure::Timeout)));
    let (_, action) = write_step(&req, &ctx, st, &WriteEvent::Failed(s("no")));
    assert!(matches!(action, WriteAction::Fail(amp::artifact_write::WriteFailure::Internal)));
}

#[test]
fn a_path_found_without_an_id_is_kept_for_resolution() {
    let req = sync_request("src/c.py", "edit");
    let (st, _) = sync_start(&req);
    let (st, action) = step(&req, st, SyncEvent::Records(vec![(None, some("C:\\w\\src\\c.py"))]));
    assert!(matches!(action, SyncAction::QueryBasename(ref b) if b == "c.py"));
    // Nothing more by file name: the stored path is resolved first.
    let (st, action) = step(&req, st, SyncEvent::Records(vec![]));
    assert!(matches!(action, SyncAction::Resolve(ref p) if p == "C:\\w\\src\\c.py"));
    assert_eq!(st.file_id, new_file_id("src/c.py"));
    let (st, _) = step(&req, st, SyncEvent::Failed(s("gone")));
    let (_, action) = step(&req, st, SyncEvent::Failed(s("gone")));
    assert!(matches!(action, SyncAction::NotFound(ref p, Some(ref q)) if p == "src/c.py" && q == "C:\\w\\src\\c.py"));
    // The file-name query failing keeps the stored path too.
    let (st, _) = sync_start(&req);
    let (st, _) = step(&req, st, SyncEvent::Records(vec![(None, some("C:\\w\\src\\c.py"))]));
    let (_, action) = step(&req, st, SyncEvent::Failed(s("db")));
    assert!(matches!(action, SyncAction::Resolve(ref p) if p == "C:\\w\\src\\c.py"));
}
