//! The decisions of writing an artifact: embedding it when embeddings are
//! on, storing the object, then creating the relationships its plan lists,
//! looking up the project, file and core nodes they point to. Each step
//! names the work to do next; the caller does it and hands back the result.
use vstd::prelude::*;

use crate::artifacts::{
    artifact_links, bare_object_id, embedding_text, extract_embedding_text, file_lookup_keys,
    file_lookup_keys_spec, links_view, normalize_surreal_id, plan_artifact_links, project_lookup_query,
    project_lookup_spec, relate_statement, relate_statement_spec, LinkEnd, LinkEndView,
    MemoryLayersWritten, PlannedLink, WriteArtifactRequest, WriteArtifactResponse,
};
use crate::text::{chars_of, opt_view, string_from_str, trim, trim_ws};

verus! {

/// What the caller supplies besides the request: the new object's id, the
/// id a new artifact core would get, the time, and whether embeddings are on.
pub struct WriteContext {
    pub object_id: String,
    pub core_id: String,
    pub now: String,
    pub embeddings_enabled: bool,
}

/// Where a write stands: which work's result it waits for.
#[derive(Clone, Copy, Debug, PartialEq, Eq, Structural)]
pub enum WritePhase {
    Embedding,
    Create,
    ProjectLookup,
    FileNodeLookup,
    FileLogLookup,
    CoreLookup,
    CoreCreate,
    Relate,
    Finished,
}

/// What a write carries from step to step: the link being made, whether
/// the object was embedded, how many relationships were created, and
/// whether one of them tied the artifact to a file.
#[derive(Clone, Copy, Debug, PartialEq, Eq, Structural)]
pub struct WriteState {
    pub phase: WritePhase,
    pub link: usize,
    pub vector: bool,
    pub relationships: usize,
    pub linked_to_file: bool,
}

/// What the work asked for returned.
pub enum WriteEvent {
    /// Whether an embedding was generated.
    Embedded(bool),
    /// The statement succeeded.
    Done,
    /// The statement failed with this message.
    Failed(String),
    /// The statement timed out.
    TimedOut,
    /// The id the lookup found, if any.
    Found(Option<String>),
}

pub enum WriteEventView {
    Embedded(bool),
    Done,
    Failed(Seq<char>),
    TimedOut,
    Found(Option<Seq<char>>),
}

impl View for WriteEvent {
    type V = WriteEventView;

    open spec fn view(&self) -> WriteEventView {
        match self {
            WriteEvent::Embedded(b) => WriteEventView::Embedded(*b),
            WriteEvent::Done => WriteEventView::Done,
            WriteEvent::Failed(m) => WriteEventView::Failed(m@),
            WriteEvent::TimedOut => WriteEventView::TimedOut,
            WriteEvent::Found(f) => WriteEventView::Found(opt_view(*f)),
        }
    }
}

/// Why a write was refused.
#[derive(Clone, Copy, Debug, PartialEq, Eq, Structural)]
pub enum WriteFailure {
    /// The store refused the object (internal error).
    Internal,
    /// The store did not answer in time (gateway timeout).
    Timeout,
}

/// The work a write asks for.
pub enum WriteAction {
    /// Generate an embedding of this text.
    GenerateEmbedding(String),
    /// Store the artifact object; whether it carries the embedding.
    CreateObject(bool),
    /// Run this project lookup.
    LookupProject(String),
    /// Look up a file node by trimmed path, normalised path and file name.
    LookupFileNode(String, String, String),
    /// Look up a file log by trimmed path, normalised path and file name.
    LookupFileLog(String, String, String),
    /// Look up the artifact core.
    LookupCore,
    /// Create the artifact core under this id.
    CreateCore(String),
    /// Run this `RELATE` statement.
    Relate(String),
    /// Refuse the write.
    Fail(WriteFailure),
    /// The write is done; this is its outcome.
    Respond(WriteArtifactResponse),
}

pub enum WriteActionView {
    GenerateEmbedding(Seq<char>),
    CreateObject(bool),
    LookupProject(Seq<char>),
    LookupFileNode(Seq<char>, Seq<char>, Seq<char>),
    LookupFileLog(Seq<char>, Seq<char>, Seq<char>),
    LookupCore,
    CreateCore(Seq<char>),
    Relate(Seq<char>),
    Fail(WriteFailure),
    /// Id, artifact type, creation time, graph, vector, temporal,
    /// relationships created.
    Respond(Seq<char>, Seq<char>, Seq<char>, bool, bool, bool, usize),
}

impl View for WriteAction {
    type V = WriteActionView;

    open spec fn view(&self) -> WriteActionView {
        match self {
            WriteAction::GenerateEmbedding(t) => WriteActionView::GenerateEmbedding(t@),
            WriteAction::CreateObject(b) => WriteActionView::CreateObject(*b),
            WriteAction::LookupProject(q) => WriteActionView::LookupProject(q@),
            WriteAction::LookupFileNode(a, b, c) => WriteActionView::LookupFileNode(a@, b@, c@),
            WriteAction::LookupFileLog(a, b, c) => WriteActionView::LookupFileLog(a@, b@, c@),
            WriteAction::LookupCore => WriteActionView::LookupCore,
            WriteAction::CreateCore(c) => WriteActionView::CreateCore(c@),
            WriteAction::Relate(s) => WriteActionView::Relate(s@),
            WriteAction::Fail(f) => WriteActionView::Fail(*f),
            WriteAction::Respond(r) => WriteActionView::Respond(
                r.id@,
                r.artifact_type@,
                r.created_at@,
                r.memory_layers.graph,
                r.memory_layers.vector,
                r.memory_layers.temporal,
                r.relationships_created,
            ),
        }
    }
}

/// The id a link end stands for, when it needs no lookup.
pub open spec fn end_id(e: LinkEndView, object_id: Seq<char>) -> Seq<char> {
    match e {
        LinkEndView::Artifact => object_id,
        LinkEndView::Object(id) => id,
        _ => Seq::empty(),
    }
}

/// The relationship of link `k` to the target `target`.
pub open spec fn relate_link(req: WriteArtifactRequest, object_id: Seq<char>, k: int, target: Seq<char>) -> Seq<char> {
    let l = artifact_links(req)[k];
    relate_statement_spec(end_id(l.0, object_id), l.1, target)
}

pub open spec fn at(st: WriteState, phase: WritePhase, link: int) -> WriteState {
    WriteState { phase, link: link as usize, ..st }
}

/// The response of a finished write.
pub open spec fn write_response(req: WriteArtifactRequest, object_id: Seq<char>, now: Seq<char>, st: WriteState) -> (
    WriteState,
    WriteActionView,
) {
    (
        WriteState { phase: WritePhase::Finished, ..st },
        WriteActionView::Respond(
            object_id,
            req.artifact_type.name_spec(),
            now,
            st.relationships > 0,
            st.vector,
            true,
            st.relationships,
        ),
    )
}

/// Work on link `k` and after: a link whose target needs no lookup is
/// related at once; a project, file or core target is looked up first
/// (a blank file path, or the core once the artifact is tied to a file,
/// is passed over); past the last link, the write responds.
pub open spec fn link_step(req: WriteArtifactRequest, object_id: Seq<char>, now: Seq<char>, st: WriteState, k: int) -> (
    WriteState,
    WriteActionView,
)
    decreases artifact_links(req).len() - k,
{
    let links = artifact_links(req);
    if k < 0 || k >= links.len() {
        write_response(req, object_id, now, st)
    } else {
        let l = links[k];
        match l.2 {
            LinkEndView::Artifact => (at(st, WritePhase::Relate, k), WriteActionView::Relate(relate_link(req, object_id, k, object_id))),
            LinkEndView::Object(id) => (at(st, WritePhase::Relate, k), WriteActionView::Relate(relate_link(req, object_id, k, id))),
            LinkEndView::ProjectOf(p) => (at(st, WritePhase::ProjectLookup, k), WriteActionView::LookupProject(project_lookup_spec(p))),
            LinkEndView::FileAt(p) => match file_lookup_keys_spec(p) {
                Some((t, n, b)) => (at(st, WritePhase::FileNodeLookup, k), WriteActionView::LookupFileNode(t, n, b)),
                None => link_step(req, object_id, now, st, k + 1),
            },
            LinkEndView::Core => if st.linked_to_file {
                link_step(req, object_id, now, st, k + 1)
            } else {
                (at(st, WritePhase::CoreLookup, k), WriteActionView::LookupCore)
            },
        }
    }
}

/// The first step of writing `req`: embed it when embeddings are on and it
/// has text to embed, else store it.
pub open spec fn write_start_spec(req: WriteArtifactRequest, embeddings_enabled: bool) -> (WriteState, WriteActionView) {
    let st = WriteState { phase: WritePhase::Embedding, link: 0, vector: false, relationships: 0, linked_to_file: false };
    if embeddings_enabled && trim_ws(embedding_text(req)).len() > 0 {
        (st, WriteActionView::GenerateEmbedding(embedding_text(req)))
    } else {
        (WriteState { phase: WritePhase::Create, ..st }, WriteActionView::CreateObject(false))
    }
}

/// One step of writing `req`: from the state and what the awaited work
/// returned, the next state and the work to do.
pub open spec fn write_step_spec(
    req: WriteArtifactRequest,
    object_id: Seq<char>,
    core_id: Seq<char>,
    now: Seq<char>,
    st: WriteState,
    event: WriteEventView,
) -> (WriteState, WriteActionView) {
    let k = st.link as int;
    let done = WriteState { phase: WritePhase::Finished, ..st };
    match st.phase {
        WritePhase::Embedding => {
            let v = event matches WriteEventView::Embedded(b) && b;
            (WriteState { phase: WritePhase::Create, vector: v, ..st }, WriteActionView::CreateObject(v))
        },
        WritePhase::Create => match event {
            WriteEventView::Done => link_step(req, object_id, now, st, 0),
            WriteEventView::TimedOut => (done, WriteActionView::Fail(WriteFailure::Timeout)),
            _ => (done, WriteActionView::Fail(WriteFailure::Internal)),
        },
        WritePhase::Finished => (done, WriteActionView::Fail(WriteFailure::Internal)),
        _ => if k >= artifact_links(req).len() {
            link_step(req, object_id, now, st, k + 1)
        } else {
            linked_step(req, object_id, core_id, now, st, event)
        },
    }
}

/// A step while working on link `st.link` (which is one of the plan's).
pub open spec fn linked_step(
    req: WriteArtifactRequest,
    object_id: Seq<char>,
    core_id: Seq<char>,
    now: Seq<char>,
    st: WriteState,
    event: WriteEventView,
) -> (WriteState, WriteActionView) {
    let k = st.link as int;
    match st.phase {
        WritePhase::ProjectLookup => match event {
            WriteEventView::Found(Some(id)) => (
                at(st, WritePhase::Relate, k),
                WriteActionView::Relate(relate_link(req, object_id, k, bare_object_id(id))),
            ),
            _ => link_step(req, object_id, now, st, k + 1),
        },
        WritePhase::FileNodeLookup => match event {
            WriteEventView::Found(Some(id)) => (
                at(st, WritePhase::Relate, k),
                WriteActionView::Relate(relate_link(req, object_id, k, bare_object_id(id))),
            ),
            _ => match artifact_links(req)[k].2 {
                LinkEndView::FileAt(p) => match file_lookup_keys_spec(p) {
                    Some((t, n, b)) => (at(st, WritePhase::FileLogLookup, k), WriteActionView::LookupFileLog(t, n, b)),
                    None => link_step(req, object_id, now, st, k + 1),
                },
                _ => link_step(req, object_id, now, st, k + 1),
            },
        },
        WritePhase::FileLogLookup => match event {
            WriteEventView::Found(Some(id)) => (
                at(st, WritePhase::Relate, k),
                WriteActionView::Relate(relate_link(req, object_id, k, bare_object_id(id))),
            ),
            _ => link_step(req, object_id, now, st, k + 1),
        },
        WritePhase::CoreLookup => match event {
            WriteEventView::Found(Some(id)) => (
                at(st, WritePhase::Relate, k),
                WriteActionView::Relate(relate_link(req, object_id, k, bare_object_id(id))),
            ),
            _ => (at(st, WritePhase::CoreCreate, k), WriteActionView::CreateCore(core_id)),
        },
        WritePhase::CoreCreate => match event {
            WriteEventView::Done => (at(st, WritePhase::Relate, k), WriteActionView::Relate(relate_link(req, object_id, k, core_id))),
            _ => link_step(req, object_id, now, st, k + 1),
        },
        WritePhase::Relate => {
            let s = if event is Done {
                WriteState {
                    relationships: (st.relationships + 1) as usize,
                    linked_to_file: st.linked_to_file || artifact_links(req)[k].3,
                    ..st
                }
            } else {
                st
            };
            link_step(req, object_id, now, s, k + 1)
        },
        _ => (st, WriteActionView::Fail(WriteFailure::Internal)),
    }
}

/// The first step of writing `request`.
pub fn write_start(request: &WriteArtifactRequest, ctx: &WriteContext) -> (r: (WriteState, WriteAction))
    ensures
        (r.0, r.1@) == write_start_spec(*request, ctx.embeddings_enabled),
{
    let st = WriteState { phase: WritePhase::Embedding, link: 0, vector: false, relationships: 0, linked_to_file: false };
    if ctx.embeddings_enabled {
        let text = extract_embedding_text(request);
        let t = trim(&chars_of(text.as_str()));
        if t.len() > 0 {
            return (st, WriteAction::GenerateEmbedding(text));
        }
    }
    (WriteState { phase: WritePhase::Create, ..st }, WriteAction::CreateObject(false))
}

/// The id of a link end that needs no lookup.
fn end_id_exec(e: &LinkEnd, object_id: &String) -> (r: String)
    ensures
        r@ == end_id(e@, object_id@),
{
    match e {
        LinkEnd::Artifact => object_id.clone(),
        LinkEnd::Object(id) => id.clone(),
        _ => String::new(),
    }
}

/// Work on link `k` and after (see `link_step`).
fn link_exec(
    request: &WriteArtifactRequest,
    links: &Vec<PlannedLink>,
    ctx: &WriteContext,
    st: WriteState,
    k: usize,
) -> (r: (WriteState, WriteAction))
    requires
        links_view(links@) == artifact_links(*request),
    ensures
        (r.0, r.1@) == link_step(*request, ctx.object_id@, ctx.now@, st, k as int),
{
    let mut i = k;
    while i < links.len()
        invariant
            links_view(links@) == artifact_links(*request),
            k <= i,
            link_step(*request, ctx.object_id@, ctx.now@, st, k as int) == link_step(
                *request,
                ctx.object_id@,
                ctx.now@,
                st,
                i as int,
            ),
        decreases links@.len() - i,
    {
        let l = &links[i];
        proof {
            assert(artifact_links(*request)[i as int] == (l.from@, l.relation@, l.to@, l.ties_file));
        }
        match &l.to {
            LinkEnd::Artifact => {
                let from = end_id_exec(&l.from, &ctx.object_id);
                let stmt = relate_statement(from.as_str(), l.relation.as_str(), ctx.object_id.as_str());
                return (WriteState { phase: WritePhase::Relate, link: i, ..st }, WriteAction::Relate(stmt));
            },
            LinkEnd::Object(id) => {
                let from = end_id_exec(&l.from, &ctx.object_id);
                let stmt = relate_statement(from.as_str(), l.relation.as_str(), id.as_str());
                return (WriteState { phase: WritePhase::Relate, link: i, ..st }, WriteAction::Relate(stmt));
            },
            LinkEnd::ProjectOf(p) => {
                return (
                    WriteState { phase: WritePhase::ProjectLookup, link: i, ..st },
                    WriteAction::LookupProject(project_lookup_query(p.as_str())),
                );
            },
            LinkEnd::FileAt(p) => {
                match file_lookup_keys(p.as_str()) {
                    Some((t, n, b)) => {
                        return (
                            WriteState { phase: WritePhase::FileNodeLookup, link: i, ..st },
                            WriteAction::LookupFileNode(t, n, b),
                        );
                    },
                    None => {},
                }
            },
            LinkEnd::Core => {
                if !st.linked_to_file {
                    return (WriteState { phase: WritePhase::CoreLookup, link: i, ..st }, WriteAction::LookupCore);
                }
            },
        }
        i = i + 1;
    }
    respond_exec(request, ctx, st)
}

fn respond_exec(request: &WriteArtifactRequest, ctx: &WriteContext, st: WriteState) -> (r: (WriteState, WriteAction))
    ensures
        (r.0, r.1@) == write_response(*request, ctx.object_id@, ctx.now@, st),
{
    let response = WriteArtifactResponse {
        id: ctx.object_id.clone(),
        artifact_type: request.artifact_type.to_display_string(),
        created_at: ctx.now.clone(),
        memory_layers: MemoryLayersWritten { graph: st.relationships > 0, vector: st.vector, temporal: true },
        relationships_created: st.relationships,
    };
    (WriteState { phase: WritePhase::Finished, ..st }, WriteAction::Respond(response))
}

/// The relationship of link `k` to `target`.
fn relate_exec(links: &Vec<PlannedLink>, ctx: &WriteContext, k: usize, target: &str) -> (r: String)
    requires
        k < links@.len(),
    ensures
        r@ == relate_statement_spec(end_id(links@[k as int].from@, ctx.object_id@), links@[k as int].relation@, target@),
{
    let l = &links[k];
    let from = end_id_exec(&l.from, &ctx.object_id);
    relate_statement(from.as_str(), l.relation.as_str(), target)
}

/// One step of writing `request`: given the state and what the awaited
/// work returned, the next state and the work to do.
pub fn write_step(request: &WriteArtifactRequest, ctx: &WriteContext, state: WriteState, event: &WriteEvent) -> (r: (
    WriteState,
    WriteAction,
))
    requires
        state.relationships < usize::MAX,
        state.link < usize::MAX,
    ensures
        (r.0, r.1@) == write_step_spec(*request, ctx.object_id@, ctx.core_id@, ctx.now@, state, event@),
{
    let links = plan_artifact_links(request);
    let ghost lv = links_view(links@);
    let k = state.link;
    proof {
        assert(lv == artifact_links(*request));
        assert(lv.len() == links@.len());
        if k < links@.len() {
            assert(lv[k as int] == (links@[k as int].from@, links@[k as int].relation@, links@[k as int].to@, links@[k as int].ties_file));
        }
    }
    let done = WriteState { phase: WritePhase::Finished, ..state };
    match state.phase {
        WritePhase::Embedding => {
            let v = match event {
                WriteEvent::Embedded(b) => *b,
                _ => false,
            };
            return (WriteState { phase: WritePhase::Create, vector: v, ..state }, WriteAction::CreateObject(v));
        },
        WritePhase::Create => {
            return match event {
                WriteEvent::Done => link_exec(request, &links, ctx, state, 0),
                WriteEvent::TimedOut => (done, WriteAction::Fail(WriteFailure::Timeout)),
                _ => (done, WriteAction::Fail(WriteFailure::Internal)),
            };
        },
        WritePhase::Finished => {
            return (done, WriteAction::Fail(WriteFailure::Internal));
        },
        _ => {},
    }
    if k >= links.len() {
        return link_exec(request, &links, ctx, state, k + 1);
    }
    match state.phase {
        WritePhase::ProjectLookup | WritePhase::FileLogLookup | WritePhase::CoreLookup => match event {
            WriteEvent::Found(Some(id)) => {
                let target = normalize_surreal_id(id.as_str());
                let stmt = relate_exec(&links, ctx, k, target.as_str());
                (WriteState { phase: WritePhase::Relate, ..state }, WriteAction::Relate(stmt))
            },
            _ => {
                if let WritePhase::CoreLookup = state.phase {
                    (WriteState { phase: WritePhase::CoreCreate, ..state }, WriteAction::CreateCore(ctx.core_id.clone()))
                } else {
                    link_exec(request, &links, ctx, state, k + 1)
                }
            },
        },
        WritePhase::FileNodeLookup => match event {
            WriteEvent::Found(Some(id)) => {
                let target = normalize_surreal_id(id.as_str());
                let stmt = relate_exec(&links, ctx, k, target.as_str());
                (WriteState { phase: WritePhase::Relate, ..state }, WriteAction::Relate(stmt))
            },
            _ => match &links[k].to {
                LinkEnd::FileAt(p) => match file_lookup_keys(p.as_str()) {
                    Some((t, n, b)) => (
                        WriteState { phase: WritePhase::FileLogLookup, ..state },
                        WriteAction::LookupFileLog(t, n, b),
                    ),
                    None => link_exec(request, &links, ctx, state, k + 1),
                },
                _ => link_exec(request, &links, ctx, state, k + 1),
            },
        },
        WritePhase::CoreCreate => match event {
            WriteEvent::Done => {
                let stmt = relate_exec(&links, ctx, k, ctx.core_id.as_str());
                (WriteState { phase: WritePhase::Relate, ..state }, WriteAction::Relate(stmt))
            },
            _ => link_exec(request, &links, ctx, state, k + 1),
        },
        _ => {
            let s = match event {
                WriteEvent::Done => WriteState {
                    relationships: state.relationships + 1,
                    linked_to_file: state.linked_to_file || links[k].ties_file,
                    ..state
                },
                _ => state,
            };
            link_exec(request, &links, ctx, s, k + 1)
        },
    }
}

} // verus!
