//! The decisions of a file sync: finding the file's id (checking a bare
//! name for ambiguity, then the specific and the file-name matches), and
//! then either recording a deletion in every layer, or re-reading the file
//! and refreshing its log, its chunks and its dependency edges. Each step
//! names the work to do next; the caller does it and hands back the result.
use vstd::prelude::*;

use crate::codebase::{
    distinct_paths, distinct_paths_spec, extract_basename, is_ambiguous, is_basename_only,
    new_file_id, new_file_id_spec, normalize_lookup_path, normalize_lookup_path_spec, opt_paths,
    sync_summary, sync_summary_spec, FileSyncRequest, FileSyncResponse, LayersUpdated,
};
use crate::lookup::{bare_name, lookup_basename};
use crate::text::{chars_of, eq_str, lowercase, opt_view, str_concat, string_from_str, string_views, to_lowercase};

verus! {

/// Where a sync stands: which work's result it waits for.
#[derive(Clone, Copy, Debug, PartialEq, Eq, Structural)]
pub enum SyncPhase {
    /// The paths of the logs containing a bare file name.
    PathCheck,
    /// The first record whose path matches the input.
    Specific,
    /// The records whose path contains the file name.
    Basename,
    /// Deleting the file's chunks (a deletion).
    DeleteChunks,
    /// Deleting the edges of one relation table (a deletion).
    DeleteEdges,
    /// Appending the deletion to the log's audit trail.
    DeleteAudit,
    /// Resolving the stored path of the file.
    ResolveStored,
    /// Resolving the requested path after the stored one failed.
    ResolveFallback,
    /// Resolving the requested path.
    ResolveRequest,
    /// Reading and parsing the resolved file.
    Parse,
    /// Counting the file's logs.
    CheckLog,
    /// Writing the file's log.
    WriteLog,
    /// Clearing the file's old chunks.
    ClearChunks,
    /// Storing one new chunk.
    StoreChunk,
    /// Clearing the file's outgoing edges of one relation table.
    ClearEdges,
    /// Looking up the log a dependency names.
    FindDependency,
    /// Relating the file to a dependency's log.
    RelateDependency,
    /// Nothing more to wait for.
    Finished,
}

/// What a sync carries from step to step.
pub struct SyncState {
    pub phase: SyncPhase,
    pub file_id: String,
    pub stored_path: Option<String>,
    pub summary: String,
    pub symbols: Vec<String>,
    pub dependencies: Vec<String>,
    pub chunk_total: usize,
    /// The table, chunk or dependency being worked on.
    pub next: usize,
    pub temporal: bool,
    pub vector: bool,
    pub graph: bool,
    pub chunks_replaced: usize,
    pub relationships_updated: usize,
}

#[verifier::ext_equal]
pub struct SyncStateView {
    pub phase: SyncPhase,
    pub file_id: Seq<char>,
    pub stored_path: Option<Seq<char>>,
    pub summary: Seq<char>,
    pub symbols: Seq<Seq<char>>,
    pub dependencies: Seq<Seq<char>>,
    pub chunk_total: usize,
    pub next: usize,
    pub temporal: bool,
    pub vector: bool,
    pub graph: bool,
    pub chunks_replaced: usize,
    pub relationships_updated: usize,
}

impl View for SyncState {
    type V = SyncStateView;

    open spec fn view(&self) -> SyncStateView {
        SyncStateView {
            phase: self.phase,
            file_id: self.file_id@,
            stored_path: opt_view(self.stored_path),
            summary: self.summary@,
            symbols: string_views(self.symbols@),
            dependencies: string_views(self.dependencies@),
            chunk_total: self.chunk_total,
            next: self.next,
            temporal: self.temporal,
            vector: self.vector,
            graph: self.graph,
            chunks_replaced: self.chunks_replaced,
            relationships_updated: self.relationships_updated,
        }
    }
}

/// What the work asked for returned.
pub enum SyncEvent {
    /// The paths a path query returned (none where a row has no text).
    Paths(Vec<Option<String>>),
    /// The records a query returned: each one's file id and path.
    Records(Vec<(Option<String>, Option<String>)>),
    /// How many rows a statement returned or counted.
    Count(usize),
    /// The statement succeeded.
    Done,
    /// The path resolved to this file.
    Resolved(String),
    /// The file was read and parsed: its language, symbol names, imports
    /// and number of chunks.
    Parsed(String, Vec<String>, Vec<String>, usize),
    /// The file could not be parsed.
    ParseFailed(String),
    /// The record a dependency names, if any.
    Target(Option<String>),
    /// The work failed with this message.
    Failed(String),
}

pub enum SyncEventView {
    Paths(Seq<Option<Seq<char>>>),
    Records(Seq<(Option<Seq<char>>, Option<Seq<char>>)>),
    Count(usize),
    Done,
    Resolved(Seq<char>),
    Parsed(Seq<char>, Seq<Seq<char>>, Seq<Seq<char>>, usize),
    ParseFailed(Seq<char>),
    Target(Option<Seq<char>>),
    Failed(Seq<char>),
}

impl View for SyncEvent {
    type V = SyncEventView;

    open spec fn view(&self) -> SyncEventView {
        match self {
            SyncEvent::Paths(p) => SyncEventView::Paths(opt_paths(p@)),
            SyncEvent::Records(r) => SyncEventView::Records(
                r@.map_values(|c: (Option<String>, Option<String>)| (opt_view(c.0), opt_view(c.1))),
            ),
            SyncEvent::Count(n) => SyncEventView::Count(*n),
            SyncEvent::Done => SyncEventView::Done,
            SyncEvent::Resolved(p) => SyncEventView::Resolved(p@),
            SyncEvent::Parsed(l, s, i, n) => SyncEventView::Parsed(l@, string_views(s@), string_views(i@), *n),
            SyncEvent::ParseFailed(m) => SyncEventView::ParseFailed(m@),
            SyncEvent::Target(t) => SyncEventView::Target(opt_view(*t)),
            SyncEvent::Failed(m) => SyncEventView::Failed(m@),
        }
    }
}

/// The work a sync asks for.
pub enum SyncAction {
    /// Select the paths of the file logs whose path contains this text.
    QueryPaths(String),
    /// Select the first log or chunk record whose path equals or contains
    /// the raw or the normalised path: raw, normalised.
    QuerySpecific(String, String),
    /// Select the distinct file ids and paths of the records whose path
    /// contains this file name.
    QueryBasename(String),
    /// Delete the chunks of this file id.
    DeleteChunks(String),
    /// Delete the edges of this relation table into or out of this file id.
    DeleteEdges(String, String),
    /// Append a deletion entry to the audit trail of this file id's log.
    AppendDeleteAudit(String),
    /// Resolve this path to a file on disk.
    Resolve(String),
    /// Read and parse this file.
    ReadAndParse(String),
    /// Count the logs of this file id.
    CountLogs(String),
    /// Update the log of this file id: summary, symbols, dependencies.
    UpdateLog(String, String, Vec<String>, Vec<String>),
    /// Create the log of a file at the requested path, with this file id,
    /// summary, symbols and dependencies.
    CreateLog(String, String, String, Vec<String>, Vec<String>),
    /// Store chunk number `i` of the parsed file under this file id.
    StoreChunk(String, usize),
    /// Delete the edges of this relation table out of this file id.
    ClearEdges(String, String),
    /// Find the log a dependency names.
    FindTarget(String),
    /// Relate this file id's log to the record found, by `depends_on`.
    Relate(String, String),
    /// Refuse: several files match; these are their paths.
    Ambiguous(Vec<String>),
    /// Refuse: the file is not on disk (the requested path, and the stored
    /// one when there was one).
    NotFound(String, Option<String>),
    /// Fail with this message.
    Fail(String),
    /// The sync is done; this is its outcome.
    Respond(FileSyncResponse),
}

pub enum SyncActionView {
    QueryPaths(Seq<char>),
    QuerySpecific(Seq<char>, Seq<char>),
    QueryBasename(Seq<char>),
    DeleteChunks(Seq<char>),
    DeleteEdges(Seq<char>, Seq<char>),
    AppendDeleteAudit(Seq<char>),
    Resolve(Seq<char>),
    ReadAndParse(Seq<char>),
    CountLogs(Seq<char>),
    UpdateLog(Seq<char>, Seq<char>, Seq<Seq<char>>, Seq<Seq<char>>),
    CreateLog(Seq<char>, Seq<char>, Seq<char>, Seq<Seq<char>>, Seq<Seq<char>>),
    StoreChunk(Seq<char>, usize),
    ClearEdges(Seq<char>, Seq<char>),
    FindTarget(Seq<char>),
    Relate(Seq<char>, Seq<char>),
    Ambiguous(Seq<Seq<char>>),
    NotFound(Seq<char>, Option<Seq<char>>),
    Fail(Seq<char>),
    /// File id, action, temporal, vector, graph, whether an audit entry
    /// was added, chunks replaced, relationships updated.
    Respond(Seq<char>, Seq<char>, bool, bool, bool, bool, usize, usize),
}

impl View for SyncAction {
    type V = SyncActionView;

    open spec fn view(&self) -> SyncActionView {
        match self {
            SyncAction::QueryPaths(s) => SyncActionView::QueryPaths(s@),
            SyncAction::QuerySpecific(a, b) => SyncActionView::QuerySpecific(a@, b@),
            SyncAction::QueryBasename(s) => SyncActionView::QueryBasename(s@),
            SyncAction::DeleteChunks(s) => SyncActionView::DeleteChunks(s@),
            SyncAction::DeleteEdges(t, s) => SyncActionView::DeleteEdges(t@, s@),
            SyncAction::AppendDeleteAudit(s) => SyncActionView::AppendDeleteAudit(s@),
            SyncAction::Resolve(s) => SyncActionView::Resolve(s@),
            SyncAction::ReadAndParse(s) => SyncActionView::ReadAndParse(s@),
            SyncAction::CountLogs(s) => SyncActionView::CountLogs(s@),
            SyncAction::UpdateLog(f, s, y, d) => SyncActionView::UpdateLog(f@, s@, string_views(y@), string_views(d@)),
            SyncAction::CreateLog(p, f, s, y, d) => SyncActionView::CreateLog(
                p@,
                f@,
                s@,
                string_views(y@),
                string_views(d@),
            ),
            SyncAction::StoreChunk(f, i) => SyncActionView::StoreChunk(f@, *i),
            SyncAction::ClearEdges(t, f) => SyncActionView::ClearEdges(t@, f@),
            SyncAction::FindTarget(d) => SyncActionView::FindTarget(d@),
            SyncAction::Relate(f, t) => SyncActionView::Relate(f@, t@),
            SyncAction::Ambiguous(v) => SyncActionView::Ambiguous(string_views(v@)),
            SyncAction::NotFound(p, s) => SyncActionView::NotFound(p@, opt_view(*s)),
            SyncAction::Fail(m) => SyncActionView::Fail(m@),
            SyncAction::Respond(r) => SyncActionView::Respond(
                r.file_id@,
                r.action@,
                r.layers_updated.temporal,
                r.layers_updated.vector,
                r.layers_updated.graph,
                r.audit_entry_added,
                r.chunks_replaced,
                r.relationships_updated,
            ),
        }
    }
}

/// The relation tables a deletion clears, in order.
pub open spec fn delete_table(i: int) -> Seq<char> {
    if i == 0 {
        "defined_in"@
    } else if i == 1 {
        "depends_on"@
    } else if i == 2 {
        "calls"@
    } else {
        "modifies"@
    }
}

/// The relation tables an edit clears, in order.
pub open spec fn edit_table(i: int) -> Seq<char> {
    if i == 0 {
        "depends_on"@
    } else {
        "calls"@
    }
}

/// The state a sync starts from.
pub open spec fn initial_sync_state() -> SyncStateView {
    SyncStateView {
        phase: SyncPhase::PathCheck,
        file_id: Seq::empty(),
        stored_path: None,
        summary: Seq::empty(),
        symbols: Seq::empty(),
        dependencies: Seq::empty(),
        chunk_total: 0,
        next: 0,
        temporal: false,
        vector: false,
        graph: false,
        chunks_replaced: 0,
        relationships_updated: 0,
    }
}

pub open spec fn in_phase(st: SyncStateView, phase: SyncPhase) -> SyncStateView {
    SyncStateView { phase, ..st }
}

/// The specific query for the request's path.
pub open spec fn specific_step(path: Seq<char>, st: SyncStateView) -> (SyncStateView, SyncActionView) {
    (in_phase(st, SyncPhase::Specific), SyncActionView::QuerySpecific(path, normalize_lookup_path_spec(path)))
}

/// The first sync step for `path`: a bare file name is checked for
/// ambiguity first.
pub open spec fn sync_start_spec(path: Seq<char>) -> (SyncStateView, SyncActionView) {
    if bare_name(path) {
        (initial_sync_state(), SyncActionView::QueryPaths(path))
    } else {
        specific_step(path, initial_sync_state())
    }
}

pub open spec fn first_record(r: Seq<(Option<Seq<char>>, Option<Seq<char>>)>) -> (Option<Seq<char>>, Option<Seq<char>>) {
    if r.len() > 0 {
        r[0]
    } else {
        (None, None)
    }
}

/// No record with an id matched the path: the records whose path holds
/// the file name are asked for, keeping the path of a record found without
/// an id.
pub open spec fn basename_step(path: Seq<char>, st: SyncStateView, stored: Option<Seq<char>>) -> (
    SyncStateView,
    SyncActionView,
) {
    (
        SyncStateView { phase: SyncPhase::Basename, stored_path: stored, ..st },
        SyncActionView::QueryBasename(lookup_basename(path)),
    )
}

/// With the file's id settled (the one found, or a new one from the path),
/// a deletion clears the file's chunks; anything else resolves the file,
/// by its stored path when one was found.
pub open spec fn settle_step(
    path: Seq<char>,
    action: Seq<char>,
    st: SyncStateView,
    found: (Option<Seq<char>>, Option<Seq<char>>),
) -> (SyncStateView, SyncActionView) {
    let file_id = match found.0 {
        Some(id) => id,
        None => new_file_id_spec(path),
    };
    let s = SyncStateView { file_id, stored_path: found.1, ..st };
    if lowercase(action) == "delete"@ {
        (in_phase(s, SyncPhase::DeleteChunks), SyncActionView::DeleteChunks(file_id))
    } else {
        match found.1 {
            Some(p) => (in_phase(s, SyncPhase::ResolveStored), SyncActionView::Resolve(p)),
            None => (in_phase(s, SyncPhase::ResolveRequest), SyncActionView::Resolve(path)),
        }
    }
}

pub open spec fn respond(action: Seq<char>, st: SyncStateView) -> (SyncStateView, SyncActionView) {
    (
        in_phase(st, SyncPhase::Finished),
        SyncActionView::Respond(
            st.file_id,
            lowercase(action),
            st.temporal,
            st.vector,
            st.graph,
            true,
            st.chunks_replaced,
            st.relationships_updated,
        ),
    )
}

/// After the chunks: clear the first relation table of outgoing edges.
pub open spec fn clear_edges_step(st: SyncStateView) -> (SyncStateView, SyncActionView) {
    (
        SyncStateView { phase: SyncPhase::ClearEdges, next: 0, ..st },
        SyncActionView::ClearEdges(edit_table(0), st.file_id),
    )
}

/// Dependency `i` is looked up, or, past the last, the sync responds (its
/// graph layer counts as updated when an edge was made).
pub open spec fn dependency_step(action: Seq<char>, st: SyncStateView, i: int) -> (SyncStateView, SyncActionView) {
    if 0 <= i < st.dependencies.len() {
        (
            SyncStateView { phase: SyncPhase::FindDependency, next: i as usize, ..st },
            SyncActionView::FindTarget(st.dependencies[i]),
        )
    } else {
        respond(action, SyncStateView { graph: st.graph || st.relationships_updated > 0, ..st })
    }
}

/// Chunk `i` is stored, or, past the last, the edges are cleared (the
/// vector layer counts as updated when a chunk was stored).
pub open spec fn chunk_step(st: SyncStateView, i: int) -> (SyncStateView, SyncActionView) {
    if 0 <= i < st.chunk_total {
        (
            SyncStateView { phase: SyncPhase::StoreChunk, next: i as usize, ..st },
            SyncActionView::StoreChunk(st.file_id, i as usize),
        )
    } else {
        clear_edges_step(SyncStateView { vector: st.chunks_replaced > 0, ..st })
    }
}

pub open spec fn sync_unexpected(st: SyncStateView) -> (SyncStateView, SyncActionView) {
    (in_phase(st, SyncPhase::Finished), SyncActionView::Fail("Unexpected reply to a file sync"@))
}

/// One step of a sync for `request`: from the state and what the awaited
/// work returned, the next state and the work to do.
pub open spec fn sync_step_spec(
    path: Seq<char>,
    action: Seq<char>,
    st: SyncStateView,
    event: SyncEventView,
) -> (SyncStateView, SyncActionView) {
    let done = in_phase(st, SyncPhase::Finished);
    match st.phase {
        SyncPhase::PathCheck => match event {
            SyncEventView::Paths(p) => if distinct_paths_spec(p).len() > 1 {
                (done, SyncActionView::Ambiguous(distinct_paths_spec(p)))
            } else {
                specific_step(path, st)
            },
            SyncEventView::Failed(_) => specific_step(path, st),
            _ => sync_unexpected(st),
        },
        SyncPhase::Specific => match event {
            SyncEventView::Records(r) => if first_record(r).0 is Some {
                settle_step(path, action, st, first_record(r))
            } else {
                basename_step(path, st, first_record(r).1)
            },
            SyncEventView::Failed(_) => basename_step(path, st, None),
            _ => sync_unexpected(st),
        },
        SyncPhase::Basename => match event {
            SyncEventView::Records(r) => {
                let paths = r.map_values(|c: (Option<Seq<char>>, Option<Seq<char>>)| c.1);
                if distinct_paths_spec(paths).len() > 1 {
                    (done, SyncActionView::Ambiguous(distinct_paths_spec(paths)))
                } else if r.len() > 0 {
                    settle_step(path, action, st, first_record(r))
                } else {
                    settle_step(path, action, st, (None, st.stored_path))
                }
            },
            SyncEventView::Failed(_) => settle_step(path, action, st, (None, st.stored_path)),
            _ => sync_unexpected(st),
        },
        SyncPhase::DeleteChunks => {
            let s = match event {
                SyncEventView::Count(n) => SyncStateView { chunks_replaced: n, vector: true, ..st },
                _ => st,
            };
            (
                SyncStateView { phase: SyncPhase::DeleteEdges, next: 0, ..s },
                SyncActionView::DeleteEdges(delete_table(0), st.file_id),
            )
        },
        SyncPhase::DeleteEdges => {
            let s = match event {
                SyncEventView::Count(n) => SyncStateView {
                    relationships_updated: (st.relationships_updated + n) as usize,
                    ..st
                },
                _ => st,
            };
            if st.next + 1 < 4 {
                (
                    SyncStateView { next: (st.next + 1) as usize, ..s },
                    SyncActionView::DeleteEdges(delete_table(st.next + 1), st.file_id),
                )
            } else {
                (
                    SyncStateView { phase: SyncPhase::DeleteAudit, graph: true, ..s },
                    SyncActionView::AppendDeleteAudit(st.file_id),
                )
            }
        },
        SyncPhase::DeleteAudit => match event {
            SyncEventView::Done => respond(action, SyncStateView { temporal: true, ..st }),
            _ => respond(action, st),
        },
        SyncPhase::ResolveStored => match event {
            SyncEventView::Resolved(p) => (in_phase(st, SyncPhase::Parse), SyncActionView::ReadAndParse(p)),
            _ => (in_phase(st, SyncPhase::ResolveFallback), SyncActionView::Resolve(path)),
        },
        SyncPhase::ResolveFallback => match event {
            SyncEventView::Resolved(p) => (in_phase(st, SyncPhase::Parse), SyncActionView::ReadAndParse(p)),
            _ => (done, SyncActionView::NotFound(path, st.stored_path)),
        },
        SyncPhase::ResolveRequest => match event {
            SyncEventView::Resolved(p) => (in_phase(st, SyncPhase::Parse), SyncActionView::ReadAndParse(p)),
            _ => (done, SyncActionView::NotFound(path, None)),
        },
        SyncPhase::Parse => match event {
            SyncEventView::Parsed(language, symbols, imports, chunks) => (
                SyncStateView {
                    phase: SyncPhase::CheckLog,
                    summary: sync_summary_spec(language, symbols),
                    symbols,
                    dependencies: imports,
                    chunk_total: chunks,
                    ..st
                },
                SyncActionView::CountLogs(st.file_id),
            ),
            SyncEventView::Failed(m) => (done, SyncActionView::Fail("Failed to read file: "@ + m)),
            SyncEventView::ParseFailed(m) => (done, SyncActionView::Fail("Failed to parse file: "@ + m)),
            _ => sync_unexpected(st),
        },
        SyncPhase::CheckLog => {
            let exists = match event {
                SyncEventView::Count(n) => n > 0,
                _ => false,
            };
            (
                in_phase(st, SyncPhase::WriteLog),
                if exists {
                    SyncActionView::UpdateLog(st.file_id, st.summary, st.symbols, st.dependencies)
                } else {
                    SyncActionView::CreateLog(path, st.file_id, st.summary, st.symbols, st.dependencies)
                },
            )
        },
        SyncPhase::WriteLog => {
            let s = match event {
                SyncEventView::Done => SyncStateView { temporal: true, ..st },
                _ => st,
            };
            (in_phase(s, SyncPhase::ClearChunks), SyncActionView::DeleteChunks(st.file_id))
        },
        SyncPhase::ClearChunks => chunk_step(st, 0),
        SyncPhase::StoreChunk => {
            let s = match event {
                SyncEventView::Done => SyncStateView { chunks_replaced: (st.chunks_replaced + 1) as usize, ..st },
                _ => st,
            };
            chunk_step(s, st.next + 1)
        },
        SyncPhase::ClearEdges => if st.next + 1 < 2 {
            (
                SyncStateView { next: (st.next + 1) as usize, ..st },
                SyncActionView::ClearEdges(edit_table(st.next + 1), st.file_id),
            )
        } else {
            dependency_step(action, st, 0)
        },
        SyncPhase::FindDependency => match event {
            SyncEventView::Target(Some(t)) => (
                in_phase(st, SyncPhase::RelateDependency),
                SyncActionView::Relate(st.file_id, t),
            ),
            _ => dependency_step(action, st, st.next + 1),
        },
        SyncPhase::RelateDependency => {
            let s = match event {
                SyncEventView::Done => SyncStateView {
                    relationships_updated: (st.relationships_updated + 1) as usize,
                    ..st
                },
                _ => st,
            };
            dependency_step(action, s, st.next + 1)
        },
        SyncPhase::Finished => sync_unexpected(st),
    }
}

/// The counters of a sync stay within `usize` through a step.
pub open spec fn sync_fits(st: SyncStateView, event: SyncEventView) -> bool {
    &&& st.next < usize::MAX
    &&& st.chunks_replaced < usize::MAX
    &&& st.relationships_updated < usize::MAX
    &&& event matches SyncEventView::Count(n) ==> st.relationships_updated + n <= usize::MAX
}

fn empty_state() -> (r: SyncState)
    ensures
        r@ == initial_sync_state(),
{
    let r = SyncState {
        phase: SyncPhase::PathCheck,
        file_id: String::new(),
        stored_path: None,
        summary: String::new(),
        symbols: Vec::new(),
        dependencies: Vec::new(),
        chunk_total: 0,
        next: 0,
        temporal: false,
        vector: false,
        graph: false,
        chunks_replaced: 0,
        relationships_updated: 0,
    };
    proof {
        assert(r@ =~= initial_sync_state());
    }
    r
}

/// The first step of a sync of `request`.
pub fn sync_start(request: &FileSyncRequest) -> (r: (SyncState, SyncAction))
    ensures
        (r.0@, r.1@) == sync_start_spec(request.path@),
{
    let st = empty_state();
    if is_basename_only(request.path.as_str()) {
        (st, SyncAction::QueryPaths(string_from_str(request.path.as_str())))
    } else {
        specific(request.path.as_str(), st)
    }
}

fn specific(path: &str, st: SyncState) -> (r: (SyncState, SyncAction))
    ensures
        (r.0@, r.1@) == specific_step(path@, st@),
{
    let mut s = st;
    s.phase = SyncPhase::Specific;
    proof {
        assert(s@ =~= in_phase(st@, SyncPhase::Specific));
    }
    (s, SyncAction::QuerySpecific(string_from_str(path), normalize_lookup_path(path)))
}

fn with_phase(st: SyncState, phase: SyncPhase) -> (r: SyncState)
    ensures
        r@ == in_phase(st@, phase),
{
    let mut s = st;
    s.phase = phase;
    proof {
        assert(s@ =~= in_phase(st@, phase));
    }
    s
}

fn first_of(r: &Vec<(Option<String>, Option<String>)>) -> (f: (Option<String>, Option<String>))
    ensures
        (opt_view(f.0), opt_view(f.1)) == first_record(
            r@.map_values(|c: (Option<String>, Option<String>)| (opt_view(c.0), opt_view(c.1))),
        ),
{
    if r.len() > 0 {
        (r[0].0.clone(), r[0].1.clone())
    } else {
        (None, None)
    }
}

fn basename_exec(path: &str, st: SyncState, stored: Option<String>) -> (r: (SyncState, SyncAction))
    ensures
        (r.0@, r.1@) == basename_step(path@, st@, opt_view(stored)),
{
    let mut s = st;
    s.phase = SyncPhase::Basename;
    s.stored_path = stored;
    (s, SyncAction::QueryBasename(extract_basename(path)))
}

fn is_delete(action: &str) -> (r: bool)
    ensures
        r == (lowercase(action@) == "delete"@),
{
    let l = to_lowercase(action);
    let c = chars_of(l.as_str());
    eq_str(&c, "delete")
}

fn settle(path: &str, action: &str, st: SyncState, found: (Option<String>, Option<String>)) -> (r: (
    SyncState,
    SyncAction,
))
    ensures
        (r.0@, r.1@) == settle_step(path@, action@, st@, (opt_view(found.0), opt_view(found.1))),
{
    let file_id = match found.0 {
        Some(id) => id,
        None => new_file_id(path),
    };
    let mut s = st;
    s.file_id = file_id.clone();
    s.stored_path = found.1.clone();
    if is_delete(action) {
        s.phase = SyncPhase::DeleteChunks;
        return (s, SyncAction::DeleteChunks(file_id));
    }
    match found.1 {
        Some(p) => {
            s.phase = SyncPhase::ResolveStored;
            (s, SyncAction::Resolve(p))
        },
        None => {
            s.phase = SyncPhase::ResolveRequest;
            (s, SyncAction::Resolve(string_from_str(path)))
        },
    }
}

fn respond_exec(action: &str, st: SyncState) -> (r: (SyncState, SyncAction))
    ensures
        (r.0@, r.1@) == respond(action@, st@),
{
    let response = FileSyncResponse {
        file_id: st.file_id.clone(),
        action: to_lowercase(action),
        layers_updated: LayersUpdated { temporal: st.temporal, vector: st.vector, graph: st.graph },
        audit_entry_added: true,
        chunks_replaced: st.chunks_replaced,
        relationships_updated: st.relationships_updated,
    };
    (with_phase(st, SyncPhase::Finished), SyncAction::Respond(response))
}

fn clear_edges_exec(st: SyncState) -> (r: (SyncState, SyncAction))
    ensures
        (r.0@, r.1@) == clear_edges_step(st@),
{
    let mut s = st;
    s.phase = SyncPhase::ClearEdges;
    s.next = 0;
    let f = s.file_id.clone();
    proof {
        reveal_strlit("depends_on");
    }
    (s, SyncAction::ClearEdges(string_from_str("depends_on"), f))
}

fn dependency_exec(action: &str, st: SyncState, i: usize) -> (r: (SyncState, SyncAction))
    ensures
        (r.0@, r.1@) == dependency_step(action@, st@, i as int),
{
    if i < st.dependencies.len() {
        let d = st.dependencies[i].clone();
        let mut s = st;
        s.phase = SyncPhase::FindDependency;
        s.next = i;
        (s, SyncAction::FindTarget(d))
    } else {
        let mut s = st;
        s.graph = s.graph || s.relationships_updated > 0;
        respond_exec(action, s)
    }
}

fn chunk_exec(st: SyncState, i: usize) -> (r: (SyncState, SyncAction))
    ensures
        (r.0@, r.1@) == chunk_step(st@, i as int),
{
    if i < st.chunk_total {
        let f = st.file_id.clone();
        let mut s = st;
        s.phase = SyncPhase::StoreChunk;
        s.next = i;
        (s, SyncAction::StoreChunk(f, i))
    } else {
        let mut s = st;
        s.vector = s.chunks_replaced > 0;
        clear_edges_exec(s)
    }
}

fn table_name(deleting: bool, i: usize) -> (r: String)
    ensures
        r@ == if deleting { delete_table(i as int) } else { edit_table(i as int) },
{
    proof {
        reveal_strlit("defined_in");
        reveal_strlit("depends_on");
        reveal_strlit("calls");
        reveal_strlit("modifies");
    }
    if deleting {
        if i == 0 {
            string_from_str("defined_in")
        } else if i == 1 {
            string_from_str("depends_on")
        } else if i == 2 {
            string_from_str("calls")
        } else {
            string_from_str("modifies")
        }
    } else if i == 0 {
        string_from_str("depends_on")
    } else {
        string_from_str("calls")
    }
}

fn sync_unexpected_exec(st: SyncState) -> (r: (SyncState, SyncAction))
    ensures
        (r.0@, r.1@) == sync_unexpected(st@),
{
    (with_phase(st, SyncPhase::Finished), SyncAction::Fail(string_from_str("Unexpected reply to a file sync")))
}

/// One step of a sync of `request`: given the state and what the awaited
/// work returned, the next state and the work to do.
pub fn sync_step(request: &FileSyncRequest, state: SyncState, event: SyncEvent) -> (r: (SyncState, SyncAction))
    requires
        sync_fits(state@, event@),
    ensures
        (r.0@, r.1@) == sync_step_spec(request.path@, request.action@, state@, event@),
{
    let path = request.path.as_str();
    let action = request.action.as_str();
    let ghost st0 = state@;
    let ghost ev = event@;
    match state.phase {
        SyncPhase::PathCheck => match event {
            SyncEvent::Paths(p) => {
                if is_ambiguous(&p) {
                    (with_phase(state, SyncPhase::Finished), SyncAction::Ambiguous(distinct_paths(&p)))
                } else {
                    specific(path, state)
                }
            },
            SyncEvent::Failed(_) => specific(path, state),
            _ => sync_unexpected_exec(state),
        },
        SyncPhase::Specific => match event {
            SyncEvent::Records(r) => {
                let f = first_of(&r);
                if f.0.is_some() {
                    settle(path, action, state, f)
                } else {
                    basename_exec(path, state, f.1)
                }
            },
            SyncEvent::Failed(_) => basename_exec(path, state, None),
            _ => sync_unexpected_exec(state),
        },
        SyncPhase::Basename => match event {
            SyncEvent::Records(r) => {
                let ghost rv = r@.map_values(|c: (Option<String>, Option<String>)| (opt_view(c.0), opt_view(c.1)));
                let mut paths: Vec<Option<String>> = Vec::new();
                let mut k: usize = 0;
                while k < r.len()
                    invariant
                        k <= r@.len(),
                        rv == r@.map_values(|c: (Option<String>, Option<String>)| (opt_view(c.0), opt_view(c.1))),
                        opt_paths(paths@) == rv.take(k as int).map_values(
                            |c: (Option<Seq<char>>, Option<Seq<char>>)| c.1,
                        ),
                    decreases r@.len() - k,
                {
                    let ghost before = paths@;
                    paths.push(r[k].1.clone());
                    proof {
                        assert(opt_paths(paths@) == opt_paths(before).push(opt_view(r@[k as int].1)));
                        assert(rv.take(k + 1) == rv.take(k as int).push(rv[k as int]));
                    }
                    k = k + 1;
                }
                proof {
                    assert(rv.take(rv.len() as int) == rv);
                }
                if is_ambiguous(&paths) {
                    (with_phase(state, SyncPhase::Finished), SyncAction::Ambiguous(distinct_paths(&paths)))
                } else if r.len() > 0 {
                    let f = first_of(&r);
                    settle(path, action, state, f)
                } else {
                    let stored = state.stored_path.clone();
                    settle(path, action, state, (None, stored))
                }
            },
            SyncEvent::Failed(_) => {
                let stored = state.stored_path.clone();
                settle(path, action, state, (None, stored))
            },
            _ => sync_unexpected_exec(state),
        },
        SyncPhase::DeleteChunks => {
            let mut s = state;
            if let SyncEvent::Count(n) = event {
                s.chunks_replaced = n;
                s.vector = true;
            }
            s.phase = SyncPhase::DeleteEdges;
            s.next = 0;
            let f = s.file_id.clone();
            (s, SyncAction::DeleteEdges(table_name(true, 0), f))
        },
        SyncPhase::DeleteEdges => {
            let mut s = state;
            if let SyncEvent::Count(n) = event {
                s.relationships_updated = s.relationships_updated + n;
            }
            let f = s.file_id.clone();
            if s.next + 1 < 4 {
                s.next = s.next + 1;
                let t = table_name(true, s.next);
                (s, SyncAction::DeleteEdges(t, f))
            } else {
                s.phase = SyncPhase::DeleteAudit;
                s.graph = true;
                (s, SyncAction::AppendDeleteAudit(f))
            }
        },
        SyncPhase::DeleteAudit => {
            let mut s = state;
            if let SyncEvent::Done = event {
                s.temporal = true;
            }
            respond_exec(action, s)
        },
        SyncPhase::ResolveStored => match event {
            SyncEvent::Resolved(p) => (with_phase(state, SyncPhase::Parse), SyncAction::ReadAndParse(p)),
            _ => (with_phase(state, SyncPhase::ResolveFallback), SyncAction::Resolve(string_from_str(path))),
        },
        SyncPhase::ResolveFallback => match event {
            SyncEvent::Resolved(p) => (with_phase(state, SyncPhase::Parse), SyncAction::ReadAndParse(p)),
            _ => {
                let stored = state.stored_path.clone();
                (with_phase(state, SyncPhase::Finished), SyncAction::NotFound(string_from_str(path), stored))
            },
        },
        SyncPhase::ResolveRequest => match event {
            SyncEvent::Resolved(p) => (with_phase(state, SyncPhase::Parse), SyncAction::ReadAndParse(p)),
            _ => (with_phase(state, SyncPhase::Finished), SyncAction::NotFound(string_from_str(path), None)),
        },
        SyncPhase::Parse => match event {
            SyncEvent::Parsed(language, symbols, imports, chunks) => {
                let mut s = state;
                s.phase = SyncPhase::CheckLog;
                s.summary = sync_summary(language.as_str(), &symbols);
                s.symbols = symbols;
                s.dependencies = imports;
                s.chunk_total = chunks;
                let f = s.file_id.clone();
                (s, SyncAction::CountLogs(f))
            },
            SyncEvent::Failed(m) => (
                with_phase(state, SyncPhase::Finished),
                SyncAction::Fail(str_concat("Failed to read file: ", m.as_str())),
            ),
            SyncEvent::ParseFailed(m) => (
                with_phase(state, SyncPhase::Finished),
                SyncAction::Fail(str_concat("Failed to parse file: ", m.as_str())),
            ),
            _ => sync_unexpected_exec(state),
        },
        SyncPhase::CheckLog => {
            let exists = match event {
                SyncEvent::Count(n) => n > 0,
                _ => false,
            };
            let f = state.file_id.clone();
            let sm = state.summary.clone();
            let sy = crate::artifacts::copy_strings(&state.symbols);
            let de = crate::artifacts::copy_strings(&state.dependencies);
            let a = if exists {
                SyncAction::UpdateLog(f, sm, sy, de)
            } else {
                SyncAction::CreateLog(string_from_str(path), f, sm, sy, de)
            };
            (with_phase(state, SyncPhase::WriteLog), a)
        },
        SyncPhase::WriteLog => {
            let mut s = state;
            if let SyncEvent::Done = event {
                s.temporal = true;
            }
            s.phase = SyncPhase::ClearChunks;
            let f = s.file_id.clone();
            (s, SyncAction::DeleteChunks(f))
        },
        SyncPhase::ClearChunks => chunk_exec(state, 0),
        SyncPhase::StoreChunk => {
            let mut s = state;
            if let SyncEvent::Done = event {
                s.chunks_replaced = s.chunks_replaced + 1;
            }
            let i = s.next + 1;
            chunk_exec(s, i)
        },
        SyncPhase::ClearEdges => {
            if state.next + 1 < 2 {
                let mut s = state;
                s.next = s.next + 1;
                let f = s.file_id.clone();
                let t = table_name(false, s.next);
                (s, SyncAction::ClearEdges(t, f))
            } else {
                dependency_exec(action, state, 0)
            }
        },
        SyncPhase::FindDependency => match event {
            SyncEvent::Target(Some(t)) => {
                let f = state.file_id.clone();
                (with_phase(state, SyncPhase::RelateDependency), SyncAction::Relate(f, t))
            },
            _ => {
                let i = state.next + 1;
                dependency_exec(action, state, i)
            },
        },
        SyncPhase::RelateDependency => {
            let mut s = state;
            if let SyncEvent::Done = event {
                s.relationships_updated = s.relationships_updated + 1;
            }
            let i = s.next + 1;
            dependency_exec(action, s, i)
        },
        SyncPhase::Finished => sync_unexpected_exec(state),
    }
}

} // verus!
