//! The decisions of a file-log lookup by path. The lookup tries, in turn:
//! the object id the input names (as a record id, then as a file id); for
//! a bare file name, a check that it names one file only; the stored logs
//! whose path matches the input exactly or contains it; the logs whose path
//! contains the input's file name; and last the stored chunks of the file.
//! Each step names the query to run next or the answer; the caller runs the
//! query and hands back what it returned.
use vstd::prelude::*;

use crate::codebase::{
    basename_raw, best_path_match, distinct_paths, distinct_paths_spec, extract_basename,
    is_ambiguous, is_basename_only, normalize_lookup_path, normalize_lookup_path_spec,
    object_id_spec, opt_paths, parse_object_id, record_score,
};
use crate::text::{lowercase, opt_view, str_concat, string_views};

verus! {

/// Where a lookup stands: which query's answer it waits for.
#[derive(Clone, Copy, Debug, PartialEq, Eq, Structural)]
pub enum LookupPhase {
    /// The log whose record id is the named object id.
    ById,
    /// The log whose file id is the named object id.
    ByFileId,
    /// The paths of all logs containing a bare file name.
    PathCheck,
    /// A log whose path is or contains the input or its normalised form.
    Specific,
    /// All logs, scanned after the specific query failed.
    SpecificScan,
    /// The logs whose path contains the input's file name.
    Basename,
    /// The chunks whose path matches the input.
    Chunks,
    /// The log of the file id the first chunk names.
    ChunkLog,
    /// All logs, scanned after the chunk's log query failed.
    ChunkScan,
    /// Nothing more to wait for.
    Finished,
}

/// What a query returned.
pub enum LookupEvent {
    /// The rows of a file-log query, by their `file_path` (none where a row
    /// has no text there).
    Rows(Vec<Option<String>>),
    /// The rows of the chunk query: each row's `file_id` and `file_path`.
    ChunkRows(Vec<(Option<String>, Option<String>)>),
    /// The query failed with this message.
    Failed(String),
}

pub enum LookupEventView {
    Rows(Seq<Option<Seq<char>>>),
    ChunkRows(Seq<(Option<Seq<char>>, Option<Seq<char>>)>),
    Failed(Seq<char>),
}

impl View for LookupEvent {
    type V = LookupEventView;

    open spec fn view(&self) -> LookupEventView {
        match self {
            LookupEvent::Rows(r) => LookupEventView::Rows(opt_paths(r@)),
            LookupEvent::ChunkRows(r) => LookupEventView::ChunkRows(
                r@.map_values(|c: (Option<String>, Option<String>)| (opt_view(c.0), opt_view(c.1))),
            ),
            LookupEvent::Failed(m) => LookupEventView::Failed(m@),
        }
    }
}

/// What the lookup asks for next.
pub enum LookupAction {
    /// Select the file log whose record id is this id.
    QueryById(String),
    /// Select the first file log whose file id is this id.
    QueryByFileId(String),
    /// Select the paths of the file logs whose path contains this text.
    QueryPaths(String),
    /// Select the first file log whose path equals or contains the raw path
    /// or the normalised one (in that order of binding: raw, normalised).
    QuerySpecific(String, String),
    /// Select every file log (the scan the fallback scores).
    ScanAll,
    /// Select the file logs whose path contains this file name.
    QueryBasename(String),
    /// Select the distinct file ids and paths of the chunks whose path
    /// matches: raw path, normalised path, file name.
    QueryChunks(String, String, String),
    /// Select the first file log of this file id.
    QueryLogByFileId(String),
    /// Answer with this row of the last rows received.
    Answer(usize),
    /// Refuse: several files match; these are their paths.
    Ambiguous(Vec<String>),
    /// Refuse: no file log matches.
    NotFound,
    /// Fail with this message.
    Fail(String),
}

pub enum LookupActionView {
    QueryById(Seq<char>),
    QueryByFileId(Seq<char>),
    QueryPaths(Seq<char>),
    QuerySpecific(Seq<char>, Seq<char>),
    ScanAll,
    QueryBasename(Seq<char>),
    QueryChunks(Seq<char>, Seq<char>, Seq<char>),
    QueryLogByFileId(Seq<char>),
    Answer(int),
    Ambiguous(Seq<Seq<char>>),
    NotFound,
    Fail(Seq<char>),
}

impl View for LookupAction {
    type V = LookupActionView;

    open spec fn view(&self) -> LookupActionView {
        match self {
            LookupAction::QueryById(s) => LookupActionView::QueryById(s@),
            LookupAction::QueryByFileId(s) => LookupActionView::QueryByFileId(s@),
            LookupAction::QueryPaths(s) => LookupActionView::QueryPaths(s@),
            LookupAction::QuerySpecific(a, b) => LookupActionView::QuerySpecific(a@, b@),
            LookupAction::ScanAll => LookupActionView::ScanAll,
            LookupAction::QueryBasename(s) => LookupActionView::QueryBasename(s@),
            LookupAction::QueryChunks(a, b, c) => LookupActionView::QueryChunks(a@, b@, c@),
            LookupAction::QueryLogByFileId(s) => LookupActionView::QueryLogByFileId(s@),
            LookupAction::Answer(i) => LookupActionView::Answer(*i as int),
            LookupAction::Ambiguous(v) => LookupActionView::Ambiguous(string_views(v@)),
            LookupAction::NotFound => LookupActionView::NotFound,
            LookupAction::Fail(m) => LookupActionView::Fail(m@),
        }
    }
}

/// The file name of the input, lowercased.
pub open spec fn lookup_basename(path: Seq<char>) -> Seq<char> {
    lowercase(basename_raw(path))
}

/// Whether the input is a bare file name.
pub open spec fn bare_name(path: Seq<char>) -> bool {
    !path.contains('/') && !path.contains('\\')
}

/// The path lookups, once the object id (if any) found nothing: a bare file
/// name is first checked for ambiguity, any other input goes to the
/// specific query.
pub open spec fn path_lookup(path: Seq<char>) -> (LookupPhase, LookupActionView) {
    if bare_name(path) {
        (LookupPhase::PathCheck, LookupActionView::QueryPaths(path))
    } else {
        (LookupPhase::Specific, LookupActionView::QuerySpecific(path, normalize_lookup_path_spec(path)))
    }
}

/// The first lookup of an input: by the object id it names, else by path.
pub open spec fn lookup_start_spec(path: Seq<char>) -> (LookupPhase, LookupActionView) {
    match object_id_spec(path) {
        Some(id) => (LookupPhase::ById, LookupActionView::QueryById(id)),
        None => path_lookup(path),
    }
}

/// The index of the first record of the highest positive score, if any
/// record scores.
pub open spec fn best_match_spec(paths: Seq<Option<Seq<char>>>, raw: Seq<char>, norm: Seq<char>, base: Seq<char>) -> Option<int> {
    if exists|i: int| is_best_match(paths, raw, norm, base, i) {
        Some(choose|i: int| is_best_match(paths, raw, norm, base, i))
    } else {
        None
    }
}

pub open spec fn is_best_match(paths: Seq<Option<Seq<char>>>, raw: Seq<char>, norm: Seq<char>, base: Seq<char>, i: int) -> bool {
    &&& 0 <= i < paths.len()
    &&& record_score(paths[i], raw, norm, base) > 0
    &&& forall|j: int| 0 <= j < paths.len() ==> #[trigger] record_score(paths[j], raw, norm, base) <= record_score(paths[i], raw, norm, base)
    &&& forall|j: int| 0 <= j < i ==> #[trigger] record_score(paths[j], raw, norm, base) < record_score(paths[i], raw, norm, base)
}

/// What a fallback scan gives: the best scoring record, or, with none,
/// the next step `otherwise`.
pub open spec fn after_scan(
    path: Seq<char>,
    rows: Seq<Option<Seq<char>>>,
    otherwise: (LookupPhase, LookupActionView),
) -> (LookupPhase, LookupActionView) {
    match best_match_spec(rows, path, normalize_lookup_path_spec(path), lookup_basename(path)) {
        Some(i) => (LookupPhase::Finished, LookupActionView::Answer(i)),
        None => otherwise,
    }
}

/// The chunk query, the last tier.
pub open spec fn chunk_query(path: Seq<char>) -> (LookupPhase, LookupActionView) {
    (LookupPhase::Chunks, LookupActionView::QueryChunks(path, normalize_lookup_path_spec(path), lookup_basename(path)))
}

pub open spec fn unexpected_reply() -> (LookupPhase, LookupActionView) {
    (LookupPhase::Finished, LookupActionView::Fail("Unexpected reply to a file log lookup"@))
}

/// One step of a lookup for `path`: from the phase and what the awaited
/// query returned, the next phase and what to do.
pub open spec fn lookup_step_spec(path: Seq<char>, phase: LookupPhase, event: LookupEventView) -> (LookupPhase, LookupActionView) {
    let done = LookupPhase::Finished;
    match phase {
        LookupPhase::ById => match event {
            LookupEventView::Failed(m) => (done, LookupActionView::Fail("Failed to query file log by id: "@ + m)),
            LookupEventView::Rows(r) => if r.len() > 0 {
                (done, LookupActionView::Answer(0))
            } else {
                match object_id_spec(path) {
                    Some(id) => (LookupPhase::ByFileId, LookupActionView::QueryByFileId(id)),
                    None => path_lookup(path),
                }
            },
            _ => unexpected_reply(),
        },
        LookupPhase::ByFileId => match event {
            LookupEventView::Failed(m) => (done, LookupActionView::Fail("Failed to query file log by file_id: "@ + m)),
            LookupEventView::Rows(r) => if r.len() > 0 {
                (done, LookupActionView::Answer(0))
            } else {
                path_lookup(path)
            },
            _ => unexpected_reply(),
        },
        LookupPhase::PathCheck => match event {
            LookupEventView::Rows(r) => if distinct_paths_spec(r).len() > 1 {
                (done, LookupActionView::Ambiguous(distinct_paths_spec(r)))
            } else {
                (LookupPhase::Specific, LookupActionView::QuerySpecific(path, normalize_lookup_path_spec(path)))
            },
            LookupEventView::Failed(_) => (
                LookupPhase::Specific,
                LookupActionView::QuerySpecific(path, normalize_lookup_path_spec(path)),
            ),
            _ => unexpected_reply(),
        },
        LookupPhase::Specific => match event {
            LookupEventView::Failed(_) => (LookupPhase::SpecificScan, LookupActionView::ScanAll),
            LookupEventView::Rows(r) => if r.len() > 0 {
                (done, LookupActionView::Answer(0))
            } else {
                (LookupPhase::Basename, LookupActionView::QueryBasename(lookup_basename(path)))
            },
            _ => unexpected_reply(),
        },
        LookupPhase::SpecificScan => match event {
            LookupEventView::Failed(m) => (done, LookupActionView::Fail("Failed to scan file logs: "@ + m)),
            LookupEventView::Rows(r) => after_scan(
                path,
                r,
                (LookupPhase::Basename, LookupActionView::QueryBasename(lookup_basename(path))),
            ),
            _ => unexpected_reply(),
        },
        LookupPhase::Basename => match event {
            LookupEventView::Failed(_) => chunk_query(path),
            LookupEventView::Rows(r) => if distinct_paths_spec(r).len() > 1 {
                (done, LookupActionView::Ambiguous(distinct_paths_spec(r)))
            } else if r.len() > 0 {
                (done, LookupActionView::Answer(0))
            } else {
                chunk_query(path)
            },
            _ => unexpected_reply(),
        },
        LookupPhase::Chunks => match event {
            LookupEventView::Failed(m) => (done, LookupActionView::Fail("Failed to query file chunks: "@ + m)),
            LookupEventView::ChunkRows(r) => {
                let paths = r.map_values(|c: (Option<Seq<char>>, Option<Seq<char>>)| c.1);
                if distinct_paths_spec(paths).len() > 1 {
                    (done, LookupActionView::Ambiguous(distinct_paths_spec(paths)))
                } else if r.len() > 0 && r[0].0 is Some {
                    (LookupPhase::ChunkLog, LookupActionView::QueryLogByFileId(r[0].0->0))
                } else {
                    (done, LookupActionView::NotFound)
                }
            },
            _ => unexpected_reply(),
        },
        LookupPhase::ChunkLog => match event {
            LookupEventView::Failed(_) => (LookupPhase::ChunkScan, LookupActionView::ScanAll),
            LookupEventView::Rows(r) => if r.len() > 0 {
                (done, LookupActionView::Answer(0))
            } else {
                (done, LookupActionView::NotFound)
            },
            _ => unexpected_reply(),
        },
        LookupPhase::ChunkScan => match event {
            LookupEventView::Failed(m) => (done, LookupActionView::Fail("Failed to scan file logs: "@ + m)),
            LookupEventView::Rows(r) => after_scan(path, r, (done, LookupActionView::NotFound)),
            _ => unexpected_reply(),
        },
        LookupPhase::Finished => unexpected_reply(),
    }
}

/// The first step of a lookup for `path`.
pub fn lookup_start(path: &str) -> (r: (LookupPhase, LookupAction))
    ensures
        (r.0, r.1@) == lookup_start_spec(path@),
{
    match parse_object_id(path) {
        Some(id) => (LookupPhase::ById, LookupAction::QueryById(id)),
        None => path_lookup_exec(path),
    }
}

fn path_lookup_exec(path: &str) -> (r: (LookupPhase, LookupAction))
    ensures
        (r.0, r.1@) == path_lookup(path@),
{
    if is_basename_only(path) {
        (LookupPhase::PathCheck, LookupAction::QueryPaths(crate::text::string_from_str(path)))
    } else {
        specific_query(path)
    }
}

fn specific_query(path: &str) -> (r: (LookupPhase, LookupAction))
    ensures
        (r.0, r.1@) == (LookupPhase::Specific, LookupActionView::QuerySpecific(path@, normalize_lookup_path_spec(path@))),
{
    (LookupPhase::Specific, LookupAction::QuerySpecific(crate::text::string_from_str(path), normalize_lookup_path(path)))
}

fn chunk_query_exec(path: &str) -> (r: (LookupPhase, LookupAction))
    ensures
        (r.0, r.1@) == chunk_query(path@),
{
    (
        LookupPhase::Chunks,
        LookupAction::QueryChunks(crate::text::string_from_str(path), normalize_lookup_path(path), extract_basename(path)),
    )
}

fn basename_query(path: &str) -> (r: (LookupPhase, LookupAction))
    ensures
        (r.0, r.1@) == (LookupPhase::Basename, LookupActionView::QueryBasename(lookup_basename(path@))),
{
    (LookupPhase::Basename, LookupAction::QueryBasename(extract_basename(path)))
}

fn unexpected() -> (r: (LookupPhase, LookupAction))
    ensures
        (r.0, r.1@) == unexpected_reply(),
{
    (LookupPhase::Finished, LookupAction::Fail(crate::text::string_from_str("Unexpected reply to a file log lookup")))
}

fn failure(prefix: &str, m: &String) -> (r: (LookupPhase, LookupAction))
    ensures
        (r.0, r.1@) == (LookupPhase::Finished, LookupActionView::Fail(prefix@ + m@)),
{
    (LookupPhase::Finished, LookupAction::Fail(str_concat(prefix, m.as_str())))
}

/// The best scoring record of a scan, or `otherwise` when none scores.
fn scan_result(path: &str, rows: &Vec<Option<String>>, otherwise: (LookupPhase, LookupAction)) -> (r: (
    LookupPhase,
    LookupAction,
))
    ensures
        (r.0, r.1@) == after_scan(path@, opt_paths(rows@), (otherwise.0, otherwise.1@)),
{
    let norm = normalize_lookup_path(path);
    let base = extract_basename(path);
    let ghost ps = opt_paths(rows@);
    let found = best_path_match(rows, path, norm.as_str(), base.as_str());
    match found {
        Some(i) => {
            proof {
                assert(is_best_match(ps, path@, norm@, base@, i as int));
                assert forall|k: int| is_best_match(ps, path@, norm@, base@, k) implies k == i by {
                    if k < i {
                        assert(record_score(ps[k], path@, norm@, base@) < record_score(ps[i as int], path@, norm@, base@));
                    } else if k > i {
                        assert(record_score(ps[i as int], path@, norm@, base@) < record_score(ps[k], path@, norm@, base@));
                    }
                }
            }
            (LookupPhase::Finished, LookupAction::Answer(i))
        },
        None => {
            proof {
                assert forall|k: int| !is_best_match(ps, path@, norm@, base@, k) by {
                    if 0 <= k < ps.len() {
                        assert(record_score(ps[k], path@, norm@, base@) == 0);
                    }
                }
            }
            otherwise
        },
    }
}

/// One step of a file-log lookup for `path`: given where the lookup stands
/// and what the awaited query returned, where it stands next and what to
/// do.
pub fn lookup_step(path: &str, phase: LookupPhase, event: &LookupEvent) -> (r: (LookupPhase, LookupAction))
    ensures
        (r.0, r.1@) == lookup_step_spec(path@, phase, event@),
{
    match phase {
        LookupPhase::ById => match event {
            LookupEvent::Failed(m) => failure("Failed to query file log by id: ", m),
            LookupEvent::Rows(r) => {
                if r.len() > 0 {
                    (LookupPhase::Finished, LookupAction::Answer(0))
                } else {
                    match parse_object_id(path) {
                        Some(id) => (LookupPhase::ByFileId, LookupAction::QueryByFileId(id)),
                        None => path_lookup_exec(path),
                    }
                }
            },
            _ => unexpected(),
        },
        LookupPhase::ByFileId => match event {
            LookupEvent::Failed(m) => failure("Failed to query file log by file_id: ", m),
            LookupEvent::Rows(r) => {
                if r.len() > 0 {
                    (LookupPhase::Finished, LookupAction::Answer(0))
                } else {
                    path_lookup_exec(path)
                }
            },
            _ => unexpected(),
        },
        LookupPhase::PathCheck => match event {
            LookupEvent::Rows(r) => {
                if is_ambiguous(r) {
                    (LookupPhase::Finished, LookupAction::Ambiguous(distinct_paths(r)))
                } else {
                    specific_query(path)
                }
            },
            LookupEvent::Failed(_) => specific_query(path),
            _ => unexpected(),
        },
        LookupPhase::Specific => match event {
            LookupEvent::Failed(_) => (LookupPhase::SpecificScan, LookupAction::ScanAll),
            LookupEvent::Rows(r) => {
                if r.len() > 0 {
                    (LookupPhase::Finished, LookupAction::Answer(0))
                } else {
                    basename_query(path)
                }
            },
            _ => unexpected(),
        },
        LookupPhase::SpecificScan => match event {
            LookupEvent::Failed(m) => failure("Failed to scan file logs: ", m),
            LookupEvent::Rows(r) => scan_result(path, r, basename_query(path)),
            _ => unexpected(),
        },
        LookupPhase::Basename => match event {
            LookupEvent::Failed(_) => chunk_query_exec(path),
            LookupEvent::Rows(r) => {
                if is_ambiguous(r) {
                    (LookupPhase::Finished, LookupAction::Ambiguous(distinct_paths(r)))
                } else if r.len() > 0 {
                    (LookupPhase::Finished, LookupAction::Answer(0))
                } else {
                    chunk_query_exec(path)
                }
            },
            _ => unexpected(),
        },
        LookupPhase::Chunks => match event {
            LookupEvent::Failed(m) => failure("Failed to query file chunks: ", m),
            LookupEvent::ChunkRows(r) => {
                let ghost rv = r@.map_values(|c: (Option<String>, Option<String>)| (opt_view(c.0), opt_view(c.1)));
                let mut paths: Vec<Option<String>> = Vec::new();
                let mut k: usize = 0;
                while k < r.len()
                    invariant
                        k <= r@.len(),
                        rv == r@.map_values(|c: (Option<String>, Option<String>)| (opt_view(c.0), opt_view(c.1))),
                        opt_paths(paths@) == rv.take(k as int).map_values(
                            |c: (Option<Seq<char>>, Option<Seq<char>>)| c.1,
                        ),
                    decreases r@.len() - k,
                {
                    let ghost before = paths@;
                    paths.push(r[k].1.clone());
                    proof {
                        assert(opt_paths(paths@) == opt_paths(before).push(opt_view(r@[k as int].1)));
                        assert(rv.take(k + 1) == rv.take(k as int).push(rv[k as int]));
                    }
                    k = k + 1;
                }
                proof {
                    assert(rv.take(rv.len() as int) == rv);
                }
                if is_ambiguous(&paths) {
                    (LookupPhase::Finished, LookupAction::Ambiguous(distinct_paths(&paths)))
                } else if r.len() > 0 {
                    match &r[0].0 {
                        Some(fid) => (LookupPhase::ChunkLog, LookupAction::QueryLogByFileId(fid.clone())),
                        None => (LookupPhase::Finished, LookupAction::NotFound),
                    }
                } else {
                    (LookupPhase::Finished, LookupAction::NotFound)
                }
            },
            _ => unexpected(),
        },
        LookupPhase::ChunkLog => match event {
            LookupEvent::Failed(_) => (LookupPhase::ChunkScan, LookupAction::ScanAll),
            LookupEvent::Rows(r) => {
                if r.len() > 0 {
                    (LookupPhase::Finished, LookupAction::Answer(0))
                } else {
                    (LookupPhase::Finished, LookupAction::NotFound)
                }
            },
            _ => unexpected(),
        },
        LookupPhase::ChunkScan => match event {
            LookupEvent::Failed(m) => failure("Failed to scan file logs: ", m),
            LookupEvent::Rows(r) => scan_result(path, r, (LookupPhase::Finished, LookupAction::NotFound)),
            _ => unexpected(),
        },
        LookupPhase::Finished => unexpected(),
    }
}

} // verus!
