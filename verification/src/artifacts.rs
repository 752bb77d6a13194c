//! Artifacts: decisions, file logs, notes and change sets written by
//! agents, the text they are embedded by, and the record they are stored as.
use vstd::prelude::*;

use crate::text::{
    append_chars, append_decimal, append_str, chars_of, contains_sub, join_holds_each_part, join_parts, join_with,
    lowercase, opt_view, string_from_str, string_of, string_views, to_lowercase, trim, trim_ws, views,
};

verus! {

/// The kinds of artifact.
#[derive(Debug, Clone, Copy, PartialEq, Eq, Structural)]
pub enum ArtifactType {
    Decision,
    FileLog,
    Note,
    ChangeSet,
}

impl ArtifactType {
    /// The kind's lowercase name.
    pub open spec fn name_spec(self) -> Seq<char> {
        match self {
            ArtifactType::Decision => "decision"@,
            ArtifactType::FileLog => "filelog"@,
            ArtifactType::Note => "note"@,
            ArtifactType::ChangeSet => "changeset"@,
        }
    }

    /// The kind's lowercase name (what the kind prints as).
    pub fn to_display_string(&self) -> (r: String)
        ensures
            r@ == self.name_spec(),
    {
        match self {
            ArtifactType::Decision => string_from_str("decision"),
            ArtifactType::FileLog => string_from_str("filelog"),
            ArtifactType::Note => string_from_str("note"),
            ArtifactType::ChangeSet => string_from_str("changeset"),
        }
    }
}

/// A request to write an artifact; the fields after `tags` belong to one
/// kind each.
pub struct WriteArtifactRequest {
    pub artifact_type: ArtifactType,
    pub title: String,
    pub project_id: Option<String>,
    pub agent_id: Option<String>,
    pub run_id: Option<String>,
    pub tags: Option<Vec<String>>,
    pub context: Option<String>,
    pub decision: Option<String>,
    pub consequences: Option<String>,
    pub alternatives: Option<Vec<String>>,
    pub status: Option<String>,
    pub file_path: Option<String>,
    pub summary: Option<String>,
    pub symbols: Option<Vec<String>>,
    pub dependencies: Option<Vec<String>>,
    pub content: Option<String>,
    pub category: Option<String>,
    pub description: Option<String>,
    pub diff_summary: Option<String>,
    pub files_changed: Option<Vec<String>>,
    pub linked_objects: Option<Vec<String>>,
    pub linked_decisions: Option<Vec<String>>,
    pub linked_files: Option<Vec<String>>,
}

/// The outcome of writing an artifact.
pub struct WriteArtifactResponse {
    pub id: String,
    pub artifact_type: String,
    pub created_at: String,
    pub memory_layers: MemoryLayersWritten,
    pub relationships_created: usize,
}

/// Which memory layers an artifact was written to.
pub struct MemoryLayersWritten {
    pub graph: bool,
    pub vector: bool,
    pub temporal: bool,
}

/// Narrowing of an artifact listing.
pub struct ListArtifactsQuery {
    pub artifact_type: Option<String>,
    pub project_id: Option<String>,
    pub agent_id: Option<String>,
    pub limit: Option<usize>,
}

/// The strings of an optional list; none for a missing list.
pub open spec fn list_or_empty(o: Option<Vec<String>>) -> Seq<Seq<char>> {
    match o {
        Some(v) => string_views(v@),
        None => Seq::empty(),
    }
}

/// One string when present, none otherwise.
pub open spec fn one_or_empty(o: Option<String>) -> Seq<Seq<char>> {
    match o {
        Some(s) => seq![s@],
        None => Seq::empty(),
    }
}

/// The texts an artifact is embedded by, before blank ones are dropped: the
/// title, the tags, then the kind's own fields.
pub open spec fn embedding_parts(r: WriteArtifactRequest) -> Seq<Seq<char>> {
    seq![r.title@] + list_or_empty(r.tags) + match r.artifact_type {
        ArtifactType::Decision => one_or_empty(r.context) + one_or_empty(r.decision) + one_or_empty(
            r.consequences,
        ) + list_or_empty(r.alternatives),
        ArtifactType::FileLog => one_or_empty(r.file_path) + one_or_empty(r.summary) + list_or_empty(r.symbols),
        ArtifactType::Note => one_or_empty(r.content) + one_or_empty(r.category),
        ArtifactType::ChangeSet => one_or_empty(r.description) + one_or_empty(r.diff_summary) + list_or_empty(
            r.files_changed,
        ),
    }
}

/// The parts that are not blank.
pub open spec fn non_blank(parts: Seq<Seq<char>>) -> Seq<Seq<char>>
    decreases parts.len(),
{
    if parts.len() == 0 {
        Seq::empty()
    } else {
        non_blank(parts.drop_last()) + if trim_ws(parts.last()).len() > 0 {
            seq![parts.last()]
        } else {
            Seq::empty()
        }
    }
}

/// The text an artifact is embedded by: its non-blank parts, one per line.
pub open spec fn embedding_text(r: WriteArtifactRequest) -> Seq<char> {
    join_with(non_blank(embedding_parts(r)), "\n"@)
}

/// The non-blank texts of one optional field.
pub open spec fn field_lines(o: Option<String>) -> Seq<Seq<char>> {
    match o {
        Some(s) => if trim_ws(s@).len() > 0 {
            seq![s@]
        } else {
            Seq::empty()
        },
        None => Seq::empty(),
    }
}

/// The non-blank texts of one optional list.
pub open spec fn list_lines(o: Option<Vec<String>>) -> Seq<Seq<char>> {
    match o {
        Some(v) => string_views(v@).filter(|t: Seq<char>| trim_ws(t).len() > 0),
        None => Seq::empty(),
    }
}

proof fn lemma_field_lines(o: Option<String>)
    ensures
        non_blank(one_or_empty(o)) == field_lines(o),
{
    if let Some(x) = o {
        let one = seq![x@];
        assert(one.drop_last() =~= Seq::<Seq<char>>::empty());
        assert(one.last() == x@);
        assert(non_blank(one) == non_blank(one.drop_last()) + if trim_ws(one.last()).len() > 0 {
            seq![one.last()]
        } else {
            Seq::<Seq<char>>::empty()
        });
        assert(non_blank(one) =~= field_lines(o));
    }
}

proof fn lemma_non_blank_filter(v: Seq<Seq<char>>)
    ensures
        non_blank(v) == v.filter(|t: Seq<char>| trim_ws(t).len() > 0),
    decreases v.len(),
{
    reveal(Seq::filter);
    if v.len() > 0 {
        lemma_non_blank_filter(v.drop_last());
    }
}

proof fn lemma_list_lines(o: Option<Vec<String>>)
    ensures
        non_blank(list_or_empty(o)) == list_lines(o),
{
    if let Some(v) = o {
        lemma_non_blank_filter(string_views(v@));
    }
}

/// The lines an artifact is embedded by are its non-blank texts, in
/// order: the title, the tags, then the kind's own fields (a decision's
/// context, decision, consequences and alternatives; a file log's path,
/// summary and symbols; a note's content and category; a change set's
/// description, diff summary and changed files). The embedding text is
/// these lines joined by newlines, so each of them appears in it.
pub proof fn embedding_lines_are_the_non_blank_fields(r: WriteArtifactRequest)
    ensures
        non_blank(embedding_parts(r)) == field_lines(Some(r.title)) + list_lines(r.tags) + match r.artifact_type {
            ArtifactType::Decision => field_lines(r.context) + field_lines(r.decision) + field_lines(r.consequences)
                + list_lines(r.alternatives),
            ArtifactType::FileLog => field_lines(r.file_path) + field_lines(r.summary) + list_lines(r.symbols),
            ArtifactType::Note => field_lines(r.content) + field_lines(r.category),
            ArtifactType::ChangeSet => field_lines(r.description) + field_lines(r.diff_summary) + list_lines(
                r.files_changed,
            ),
        },
        forall|j: int| 0 <= j < non_blank(embedding_parts(r)).len() ==> contains_sub(embedding_text(r), #[trigger] non_blank(embedding_parts(r))[j]),
{
    let t = seq![r.title@];
    lemma_field_lines(Some(r.title));
    assert(one_or_empty(Some(r.title)) == t);
    lemma_list_lines(r.tags);
    lemma_non_blank_append(t, list_or_empty(r.tags));
    let head = t + list_or_empty(r.tags);
    match r.artifact_type {
        ArtifactType::Decision => {
            let a = one_or_empty(r.context);
            let b = one_or_empty(r.decision);
            let c = one_or_empty(r.consequences);
            let d = list_or_empty(r.alternatives);
            lemma_field_lines(r.context);
            lemma_field_lines(r.decision);
            lemma_field_lines(r.consequences);
            lemma_list_lines(r.alternatives);
            lemma_non_blank_append(a, b);
            lemma_non_blank_append(a + b, c);
            lemma_non_blank_append(a + b + c, d);
            lemma_non_blank_append(head, a + b + c + d);
            assert(embedding_parts(r) == head + (a + b + c + d));
        },
        ArtifactType::FileLog => {
            let a = one_or_empty(r.file_path);
            let b = one_or_empty(r.summary);
            let c = list_or_empty(r.symbols);
            lemma_field_lines(r.file_path);
            lemma_field_lines(r.summary);
            lemma_list_lines(r.symbols);
            lemma_non_blank_append(a, b);
            lemma_non_blank_append(a + b, c);
            lemma_non_blank_append(head, a + b + c);
            assert(embedding_parts(r) == head + (a + b + c));
        },
        ArtifactType::Note => {
            let a = one_or_empty(r.content);
            let b = one_or_empty(r.category);
            lemma_field_lines(r.content);
            lemma_field_lines(r.category);
            lemma_non_blank_append(a, b);
            lemma_non_blank_append(head, a + b);
            assert(embedding_parts(r) == head + (a + b));
        },
        ArtifactType::ChangeSet => {
            let a = one_or_empty(r.description);
            let b = one_or_empty(r.diff_summary);
            let c = list_or_empty(r.files_changed);
            lemma_field_lines(r.description);
            lemma_field_lines(r.diff_summary);
            lemma_list_lines(r.files_changed);
            lemma_non_blank_append(a, b);
            lemma_non_blank_append(a + b, c);
            lemma_non_blank_append(head, a + b + c);
            assert(embedding_parts(r) == head + (a + b + c));
        },
    }
    assert forall|j: int| 0 <= j < non_blank(embedding_parts(r)).len() implies contains_sub(
        embedding_text(r),
        #[trigger] non_blank(embedding_parts(r))[j],
    ) by {
        join_holds_each_part(non_blank(embedding_parts(r)), "\n"@, j);
    }
}

/// The embedding lines of a decision, by field.
proof fn lemma_decision_lines(r: WriteArtifactRequest)
    requires
        r.artifact_type == ArtifactType::Decision,
    ensures
        non_blank(embedding_parts(r)) == field_lines(Some(r.title)) + list_lines(r.tags) + (field_lines(r.context)
            + field_lines(r.decision) + field_lines(r.consequences) + list_lines(r.alternatives)),
{
    let t = seq![r.title@];
    lemma_field_lines(Some(r.title));
    assert(one_or_empty(Some(r.title)) == t);
    lemma_list_lines(r.tags);
    lemma_non_blank_append(t, list_or_empty(r.tags));
    let head = t + list_or_empty(r.tags);
    let a = one_or_empty(r.context);
    let b = one_or_empty(r.decision);
    let c = one_or_empty(r.consequences);
    let d = list_or_empty(r.alternatives);
    lemma_field_lines(r.context);
    lemma_field_lines(r.decision);
    lemma_field_lines(r.consequences);
    lemma_list_lines(r.alternatives);
    lemma_non_blank_append(a, b);
    lemma_non_blank_append(a + b, c);
    lemma_non_blank_append(a + b + c, d);
    lemma_non_blank_append(head, a + b + c + d);
    assert(embedding_parts(r) == head + (a + b + c + d));
}

/// A decision's non-blank consequences are one of its embedding lines,
/// right after its non-blank title, tags, context and decision and right
/// before its non-blank alternatives.
pub proof fn decision_embeds_its_consequences(r: WriteArtifactRequest)
    requires
        r.artifact_type == ArtifactType::Decision,
        r.consequences is Some,
        trim_ws(r.consequences->0@).len() > 0,
    ensures
        ({
            let lines = non_blank(embedding_parts(r));
            let before = field_lines(Some(r.title)) + list_lines(r.tags) + field_lines(r.context) + field_lines(r.decision);
            &&& lines.take(before.len() as int) == before
            &&& lines[before.len() as int] == r.consequences->0@
            &&& lines.skip(before.len() as int + 1) == list_lines(r.alternatives)
            &&& contains_sub(embedding_text(r), r.consequences->0@)
        }),
{
    lemma_decision_lines(r);
    let lines = non_blank(embedding_parts(r));
    let before = field_lines(Some(r.title)) + list_lines(r.tags) + field_lines(r.context) + field_lines(r.decision);
    let c = r.consequences->0@;
    assert(field_lines(r.consequences) == seq![c]);
    assert(lines =~= before + seq![c] + list_lines(r.alternatives));
    assert(lines.take(before.len() as int) =~= before);
    assert(lines[before.len() as int] == c);
    assert(lines.skip(before.len() as int + 1) =~= list_lines(r.alternatives));
    join_holds_each_part(lines, "\n"@, before.len() as int);
}

/// Adds `s` to `parts` when it is not blank.
fn push_non_blank(parts: &mut Vec<Vec<char>>, s: &str)
    ensures
        views(final(parts)@) == views(old(parts)@) + non_blank(seq![s@]),
{
    let c = chars_of(s);
    let t = trim(&c);
    let ghost p0 = views(parts@);
    let ghost one = seq![s@];
    proof {
        assert(one.drop_last() =~= Seq::<Seq<char>>::empty());
        assert(one.last() == s@);
        assert(non_blank(one) == non_blank(one.drop_last()) + if trim_ws(one.last()).len() > 0 {
            seq![one.last()]
        } else {
            Seq::<Seq<char>>::empty()
        });
    }
    if t.len() > 0 {
        parts.push(c);
        proof {
            assert(views(parts@) =~= p0.push(s@));
            assert(non_blank(one) =~= seq![s@]);
        }
    } else {
        proof {
            assert(non_blank(one) =~= Seq::<Seq<char>>::empty());
            assert(p0 + Seq::<Seq<char>>::empty() == p0);
        }
    }
}

proof fn lemma_non_blank_append(a: Seq<Seq<char>>, b: Seq<Seq<char>>)
    ensures
        non_blank(a + b) == non_blank(a) + non_blank(b),
    decreases b.len(),
{
    if b.len() == 0 {
        assert(a + b =~= a);
        assert(non_blank(a) + Seq::<Seq<char>>::empty() =~= non_blank(a));
    } else {
        lemma_non_blank_append(a, b.drop_last());
        assert((a + b).drop_last() =~= a + b.drop_last());
        assert((a + b).last() == b.last());
    }
}

/// Adds the non-blank strings of `v`.
fn push_all_non_blank(parts: &mut Vec<Vec<char>>, v: &Vec<String>)
    ensures
        views(final(parts)@) == views(old(parts)@) + non_blank(string_views(v@)),
{
    let ghost p0 = views(parts@);
    let ghost sv = string_views(v@);
    let mut k: usize = 0;
    while k < v.len()
        invariant
            k <= v@.len(),
            sv == string_views(v@),
            views(parts@) == p0 + non_blank(sv.take(k as int)),
        decreases v@.len() - k,
    {
        let ghost before = views(parts@);
        push_non_blank(parts, v[k].as_str());
        proof {
            assert(sv.take(k + 1) =~= sv.take(k as int) + seq![v@[k as int]@]);
            lemma_non_blank_append(sv.take(k as int), seq![v@[k as int]@]);
        }
        k = k + 1;
    }
    proof {
        assert(sv.take(v@.len() as int) == sv);
    }
}

/// Adds an optional string when present and not blank.
fn push_opt(parts: &mut Vec<Vec<char>>, o: &Option<String>)
    ensures
        views(final(parts)@) == views(old(parts)@) + non_blank(one_or_empty(*o)),
{
    match o {
        Some(s) => push_non_blank(parts, s.as_str()),
        None => {
            proof {
                assert(views(parts@) + Seq::<Seq<char>>::empty() =~= views(parts@));
            }
        },
    }
}

/// Adds the non-blank strings of an optional list.
fn push_opt_list(parts: &mut Vec<Vec<char>>, o: &Option<Vec<String>>)
    ensures
        views(final(parts)@) == views(old(parts)@) + non_blank(list_or_empty(*o)),
{
    match o {
        Some(v) => push_all_non_blank(parts, v),
        None => {
            proof {
                assert(views(parts@) + Seq::<Seq<char>>::empty() =~= views(parts@));
            }
        },
    }
}

/// The text an artifact is embedded by.
pub fn extract_embedding_text(request: &WriteArtifactRequest) -> (r: String)
    ensures
        r@ == embedding_text(*request),
{
    let mut parts: Vec<Vec<char>> = Vec::new();
    push_non_blank(&mut parts, request.title.as_str());
    let ghost a0 = seq![request.title@];
    push_opt_list(&mut parts, &request.tags);
    let ghost a1 = a0 + list_or_empty(request.tags);
    proof {
        lemma_non_blank_append(a0, list_or_empty(request.tags));
        assert(views(parts@) =~= non_blank(a1));
    }
    let ghost rest: Seq<Seq<char>>;
    match request.artifact_type {
        ArtifactType::Decision => {
            push_opt(&mut parts, &request.context);
            push_opt(&mut parts, &request.decision);
            push_opt(&mut parts, &request.consequences);
            push_opt_list(&mut parts, &request.alternatives);
            proof {
                rest = one_or_empty(request.context) + one_or_empty(request.decision) + one_or_empty(
                    request.consequences,
                ) + list_or_empty(request.alternatives);
                lemma_non_blank_append(one_or_empty(request.context), one_or_empty(request.decision));
                lemma_non_blank_append(one_or_empty(request.context) + one_or_empty(request.decision), one_or_empty(request.consequences));
                lemma_non_blank_append(
                    one_or_empty(request.context) + one_or_empty(request.decision) + one_or_empty(request.consequences),
                    list_or_empty(request.alternatives),
                );
            }
        },
        ArtifactType::FileLog => {
            push_opt(&mut parts, &request.file_path);
            push_opt(&mut parts, &request.summary);
            push_opt_list(&mut parts, &request.symbols);
            proof {
                rest = one_or_empty(request.file_path) + one_or_empty(request.summary) + list_or_empty(request.symbols);
                lemma_non_blank_append(one_or_empty(request.file_path), one_or_empty(request.summary));
                lemma_non_blank_append(one_or_empty(request.file_path) + one_or_empty(request.summary), list_or_empty(request.symbols));
            }
        },
        ArtifactType::Note => {
            push_opt(&mut parts, &request.content);
            push_opt(&mut parts, &request.category);
            proof {
                rest = one_or_empty(request.content) + one_or_empty(request.category);
                lemma_non_blank_append(one_or_empty(request.content), one_or_empty(request.category));
            }
        },
        ArtifactType::ChangeSet => {
            push_opt(&mut parts, &request.description);
            push_opt(&mut parts, &request.diff_summary);
            push_opt_list(&mut parts, &request.files_changed);
            proof {
                rest = one_or_empty(request.description) + one_or_empty(request.diff_summary) + list_or_empty(
                    request.files_changed,
                );
                lemma_non_blank_append(one_or_empty(request.description), one_or_empty(request.diff_summary));
                lemma_non_blank_append(
                    one_or_empty(request.description) + one_or_empty(request.diff_summary),
                    list_or_empty(request.files_changed),
                );
            }
        },
    }
    proof {
        lemma_non_blank_append(a1, rest);
        assert(a1 + rest =~= embedding_parts(*request));
        assert(views(parts@) =~= non_blank(embedding_parts(*request)));
    }
    let sep = chars_of("\n");
    let joined = join_parts(&parts, &sep);
    string_of(&joined)
}


/// A value of a stored artifact record.
pub enum FieldValue {
    Text(String),
    List(Vec<String>),
    Layers { graph: bool, vector: bool, temporal: bool },
    Provenance { agent: String, summary: String },
}

/// The plain values of a record value.
pub enum FieldView {
    Text(Seq<char>),
    List(Seq<Seq<char>>),
    Layers(bool, bool, bool),
    Provenance(Seq<char>, Seq<char>),
}

impl View for FieldValue {
    type V = FieldView;

    open spec fn view(&self) -> FieldView {
        match self {
            FieldValue::Text(s) => FieldView::Text(s@),
            FieldValue::List(v) => FieldView::List(string_views(v@)),
            FieldValue::Layers { graph, vector, temporal } => FieldView::Layers(*graph, *vector, *temporal),
            FieldValue::Provenance { agent, summary } => FieldView::Provenance(agent@, summary@),
        }
    }
}

/// The plain values of a record's fields.
pub open spec fn field_views(v: Seq<(String, FieldValue)>) -> Seq<(Seq<char>, FieldView)> {
    v.map_values(|p: (String, FieldValue)| (p.0@, p.1@))
}

/// A text field when the value is present.
pub open spec fn text_field(key: Seq<char>, o: Option<String>) -> Seq<(Seq<char>, FieldView)> {
    match o {
        Some(s) => seq![(key, FieldView::Text(s@))],
        None => Seq::empty(),
    }
}

/// A list field when the list is present.
pub open spec fn list_field(key: Seq<char>, o: Option<Vec<String>>) -> Seq<(Seq<char>, FieldView)> {
    match o {
        Some(v) => seq![(key, FieldView::List(string_views(v@)))],
        None => Seq::empty(),
    }
}

/// The leading fields of a stored artifact: kind, title, times and memory layers.
pub open spec fn head_fields(r: WriteArtifactRequest, now: Seq<char>) -> Seq<(Seq<char>, FieldView)> {
    seq![
        ("type"@, FieldView::Text(r.artifact_type.name_spec())),
        ("title"@, FieldView::Text(r.title@)),
        ("created_at"@, FieldView::Text(now)),
        ("updated_at"@, FieldView::Text(now)),
        ("memory_layers"@, FieldView::Layers(true, true, true)),
    ]
}

/// The agent fields: the agent and a provenance naming it.
pub open spec fn agent_fields(r: WriteArtifactRequest) -> Seq<(Seq<char>, FieldView)> {
    match r.agent_id {
        Some(a) => seq![
            ("agent_id"@, FieldView::Text(a@)),
            (
                "provenance"@,
                FieldView::Provenance(a@, "Created "@ + r.artifact_type.name_spec() + " artifact"@),
            ),
        ],
        None => Seq::empty(),
    }
}

/// The present common fields: project, agent (with provenance), run, tags.
pub open spec fn common_fields(r: WriteArtifactRequest) -> Seq<(Seq<char>, FieldView)> {
    text_field("project_id"@, r.project_id) + agent_fields(r) + text_field("run_id"@, r.run_id) + list_field(
        "tags"@,
        r.tags,
    )
}

/// The present fields of the artifact's kind.
pub open spec fn kind_fields(r: WriteArtifactRequest) -> Seq<(Seq<char>, FieldView)> {
    match r.artifact_type {
        ArtifactType::Decision => text_field("context"@, r.context) + text_field("decision"@, r.decision)
            + text_field("consequences"@, r.consequences) + list_field("alternatives"@, r.alternatives)
            + text_field("status"@, r.status) + list_field("linked_files"@, r.linked_files),
        ArtifactType::FileLog => text_field("file_path"@, r.file_path) + text_field("summary"@, r.summary)
            + list_field("symbols"@, r.symbols) + list_field("key_symbols"@, r.symbols) + list_field(
            "dependencies"@,
            r.dependencies,
        ),
        ArtifactType::Note => text_field("content"@, r.content) + text_field("category"@, r.category)
            + list_field("linked_objects"@, r.linked_objects),
        ArtifactType::ChangeSet => text_field("description"@, r.description) + text_field(
            "diff_summary"@,
            r.diff_summary,
        ) + list_field("files_changed"@, r.files_changed) + list_field("linked_decisions"@, r.linked_decisions),
    }
}

/// The fields of the record an artifact is stored as: kind, title, times,
/// memory layers, the present common fields (with a provenance for an
/// agent), then the present fields of the artifact's kind.
pub open spec fn artifact_fields(r: WriteArtifactRequest, now: Seq<char>) -> Seq<(Seq<char>, FieldView)> {
    head_fields(r, now) + common_fields(r) + kind_fields(r)
}

/// Adds a text field when the value is present.
fn push_text_field(fields: &mut Vec<(String, FieldValue)>, key: &str, o: &Option<String>)
    ensures
        field_views(final(fields)@) == field_views(old(fields)@) + text_field(key@, *o),
{
    let ghost f0 = field_views(fields@);
    match o {
        Some(s) => {
            let e = (string_from_str(key), FieldValue::Text(s.clone()));
            fields.push(e);
            proof {
                assert(field_views(fields@) =~= f0.push((key@, FieldView::Text(s@))));
            }
        },
        None => {
            proof {
                assert(f0 + Seq::<(Seq<char>, FieldView)>::empty() =~= f0);
            }
        },
    }
}

/// Adds a list field when the list is present.
fn push_list_field(fields: &mut Vec<(String, FieldValue)>, key: &str, o: &Option<Vec<String>>)
    ensures
        field_views(final(fields)@) == field_views(old(fields)@) + list_field(key@, *o),
{
    let ghost f0 = field_views(fields@);
    match o {
        Some(v) => {
            let c = copy_strings(v);
            let e = (string_from_str(key), FieldValue::List(c));
            fields.push(e);
            proof {
                assert(field_views(fields@) =~= f0.push((key@, FieldView::List(string_views(v@)))));
            }
        },
        None => {
            proof {
                assert(f0 + Seq::<(Seq<char>, FieldView)>::empty() =~= f0);
            }
        },
    }
}

/// A copy of the strings.
pub fn copy_strings(v: &Vec<String>) -> (r: Vec<String>)
    ensures
        string_views(r@) == string_views(v@),
{
    let mut r: Vec<String> = Vec::new();
    let mut k: usize = 0;
    while k < v.len()
        invariant
            k <= v@.len(),
            string_views(r@) == string_views(v@).take(k as int),
        decreases v@.len() - k,
    {
        let ghost o = r@;
        r.push(v[k].clone());
        k = k + 1;
        proof {
            assert(string_views(r@) =~= string_views(o).push(v@[k - 1]@));
            assert(string_views(v@).take(k as int) =~= string_views(v@).take(k - 1).push(v@[k - 1]@));
        }
    }
    proof {
        assert(string_views(v@).take(v@.len() as int) == string_views(v@));
    }
    r
}

/// Adds the present common fields.
fn push_common_fields(fields: &mut Vec<(String, FieldValue)>, request: &WriteArtifactRequest)
    ensures
        field_views(final(fields)@) == field_views(old(fields)@) + common_fields(*request),
{
    let ghost f0 = field_views(fields@);
    push_text_field(fields, "project_id", &request.project_id);
    let ghost f1 = field_views(fields@);
    if let Some(a) = &request.agent_id {
        fields.push((string_from_str("agent_id"), FieldValue::Text(a.clone())));
        let mut summary = chars_of("Created ");
        let tn = request.artifact_type.to_display_string();
        append_str(&mut summary, tn.as_str());
        append_str(&mut summary, " artifact");
        fields.push((string_from_str("provenance"), FieldValue::Provenance { agent: a.clone(), summary: string_of(&summary) }));
    }
    proof {
        assert(field_views(fields@) =~= f1 + agent_fields(*request));
    }
    let ghost f2 = field_views(fields@);
    push_text_field(fields, "run_id", &request.run_id);
    push_list_field(fields, "tags", &request.tags);
    proof {
        assert(field_views(fields@) =~= f0 + common_fields(*request));
    }
}

/// Adds the present fields of a Decision artifact.
fn push_decision_fields(fields: &mut Vec<(String, FieldValue)>, request: &WriteArtifactRequest)
    requires
        request.artifact_type == ArtifactType::Decision,
    ensures
        field_views(final(fields)@) == field_views(old(fields)@) + kind_fields(*request),
{
    let ghost f0 = field_views(fields@);
    push_text_field(fields, "context", &request.context);
    proof { assert(field_views(fields@) =~= f0 + (text_field("context"@, request.context))); }
    push_text_field(fields, "decision", &request.decision);
    proof { assert(field_views(fields@) =~= f0 + (text_field("context"@, request.context) + text_field("decision"@, request.decision))); }
    push_text_field(fields, "consequences", &request.consequences);
    proof { assert(field_views(fields@) =~= f0 + (text_field("context"@, request.context) + text_field("decision"@, request.decision) + text_field("consequences"@, request.consequences))); }
    push_list_field(fields, "alternatives", &request.alternatives);
    proof { assert(field_views(fields@) =~= f0 + (text_field("context"@, request.context) + text_field("decision"@, request.decision) + text_field("consequences"@, request.consequences) + list_field("alternatives"@, request.alternatives))); }
    push_text_field(fields, "status", &request.status);
    proof { assert(field_views(fields@) =~= f0 + (text_field("context"@, request.context) + text_field("decision"@, request.decision) + text_field("consequences"@, request.consequences) + list_field("alternatives"@, request.alternatives) + text_field("status"@, request.status))); }
    push_list_field(fields, "linked_files", &request.linked_files);
    proof { assert(field_views(fields@) =~= f0 + (text_field("context"@, request.context) + text_field("decision"@, request.decision) + text_field("consequences"@, request.consequences) + list_field("alternatives"@, request.alternatives) + text_field("status"@, request.status) + list_field("linked_files"@, request.linked_files))); }
}

/// Adds the present fields of a FileLog artifact.
fn push_file_log_fields(fields: &mut Vec<(String, FieldValue)>, request: &WriteArtifactRequest)
    requires
        request.artifact_type == ArtifactType::FileLog,
    ensures
        field_views(final(fields)@) == field_views(old(fields)@) + kind_fields(*request),
{
    let ghost f0 = field_views(fields@);
    push_text_field(fields, "file_path", &request.file_path);
    proof { assert(field_views(fields@) =~= f0 + (text_field("file_path"@, request.file_path))); }
    push_text_field(fields, "summary", &request.summary);
    proof { assert(field_views(fields@) =~= f0 + (text_field("file_path"@, request.file_path) + text_field("summary"@, request.summary))); }
    push_list_field(fields, "symbols", &request.symbols);
    proof { assert(field_views(fields@) =~= f0 + (text_field("file_path"@, request.file_path) + text_field("summary"@, request.summary) + list_field("symbols"@, request.symbols))); }
    push_list_field(fields, "key_symbols", &request.symbols);
    proof { assert(field_views(fields@) =~= f0 + (text_field("file_path"@, request.file_path) + text_field("summary"@, request.summary) + list_field("symbols"@, request.symbols) + list_field("key_symbols"@, request.symbols))); }
    push_list_field(fields, "dependencies", &request.dependencies);
    proof { assert(field_views(fields@) =~= f0 + (text_field("file_path"@, request.file_path) + text_field("summary"@, request.summary) + list_field("symbols"@, request.symbols) + list_field("key_symbols"@, request.symbols) + list_field("dependencies"@, request.dependencies))); }
}

/// Adds the present fields of a Note artifact.
fn push_note_fields(fields: &mut Vec<(String, FieldValue)>, request: &WriteArtifactRequest)
    requires
        request.artifact_type == ArtifactType::Note,
    ensures
        field_views(final(fields)@) == field_views(old(fields)@) + kind_fields(*request),
{
    let ghost f0 = field_views(fields@);
    push_text_field(fields, "content", &request.content);
    proof { assert(field_views(fields@) =~= f0 + (text_field("content"@, request.content))); }
    push_text_field(fields, "category", &request.category);
    proof { assert(field_views(fields@) =~= f0 + (text_field("content"@, request.content) + text_field("category"@, request.category))); }
    push_list_field(fields, "linked_objects", &request.linked_objects);
    proof { assert(field_views(fields@) =~= f0 + (text_field("content"@, request.content) + text_field("category"@, request.category) + list_field("linked_objects"@, request.linked_objects))); }
}

/// Adds the present fields of a ChangeSet artifact.
fn push_change_set_fields(fields: &mut Vec<(String, FieldValue)>, request: &WriteArtifactRequest)
    requires
        request.artifact_type == ArtifactType::ChangeSet,
    ensures
        field_views(final(fields)@) == field_views(old(fields)@) + kind_fields(*request),
{
    let ghost f0 = field_views(fields@);
    push_text_field(fields, "description", &request.description);
    proof { assert(field_views(fields@) =~= f0 + (text_field("description"@, request.description))); }
    push_text_field(fields, "diff_summary", &request.diff_summary);
    proof { assert(field_views(fields@) =~= f0 + (text_field("description"@, request.description) + text_field("diff_summary"@, request.diff_summary))); }
    push_list_field(fields, "files_changed", &request.files_changed);
    proof { assert(field_views(fields@) =~= f0 + (text_field("description"@, request.description) + text_field("diff_summary"@, request.diff_summary) + list_field("files_changed"@, request.files_changed))); }
    push_list_field(fields, "linked_decisions", &request.linked_decisions);
    proof { assert(field_views(fields@) =~= f0 + (text_field("description"@, request.description) + text_field("diff_summary"@, request.diff_summary) + list_field("files_changed"@, request.files_changed) + list_field("linked_decisions"@, request.linked_decisions))); }
}

/// Adds the present fields of the artifact's kind.
fn push_kind_fields(fields: &mut Vec<(String, FieldValue)>, request: &WriteArtifactRequest)
    ensures
        field_views(final(fields)@) == field_views(old(fields)@) + kind_fields(*request),
{
    match request.artifact_type {
        ArtifactType::Decision => push_decision_fields(fields, request),
        ArtifactType::FileLog => push_file_log_fields(fields, request),
        ArtifactType::Note => push_note_fields(fields, request),
        ArtifactType::ChangeSet => push_change_set_fields(fields, request),
    }
}

/// The fields of the record an artifact is stored as; `now` is the time of
/// writing.
pub fn build_artifact_fields(request: &WriteArtifactRequest, now: &str) -> (r: Vec<(String, FieldValue)>)
    ensures
        field_views(r@) == artifact_fields(*request, now@),
{
    let mut fields: Vec<(String, FieldValue)> = Vec::new();
    fields.push((string_from_str("type"), FieldValue::Text(request.artifact_type.to_display_string())));
    fields.push((string_from_str("title"), FieldValue::Text(request.title.clone())));
    fields.push((string_from_str("created_at"), FieldValue::Text(string_from_str(now))));
    fields.push((string_from_str("updated_at"), FieldValue::Text(string_from_str(now))));
    fields.push((string_from_str("memory_layers"), FieldValue::Layers { graph: true, vector: true, temporal: true }));
    proof {
        assert(field_views(fields@) =~= head_fields(*request, now@));
    }
    push_common_fields(&mut fields, request);
    push_kind_fields(&mut fields, request);
    fields
}

/// An object id as stored text may write it, reduced to the bare id: trimmed,
/// without the `objects:` prefix, backticks, angle brackets, or their
/// mis-decoded forms `âŸ¨` and `âŸ©`.
pub open spec fn bare_object_id(value: Seq<char>) -> Seq<char> {
    crate::text::remove_all(
        crate::text::remove_all(
            crate::text::trim_char(
                crate::text::trim_char(
                    crate::text::trim_char(crate::text::trim_start_str(trim_ws(value), "objects:"@), '`'),
                    '⟨',
                ),
                '⟩',
            ),
            "âŸ¨"@,
        ),
        "âŸ©"@,
    )
}

/// Reduces a stored object id to the bare id.
pub fn normalize_surreal_id(value: &str) -> (r: String)
    ensures
        r@ == bare_object_id(value@),
{
    let cs = chars_of(value);
    let t = trim(&cs);
    let prefix = chars_of("objects:");
    proof {
        reveal_strlit("objects:");
        reveal_strlit("âŸ¨");
        reveal_strlit("âŸ©");
    }
    let t = crate::text::trim_start_matches_str(&t, &prefix);
    let t = crate::text::trim_matches_char(&t, '`');
    let t = crate::text::trim_matches_char(&t, '⟨');
    let t = crate::text::trim_matches_char(&t, '⟩');
    let open = chars_of("âŸ¨");
    let t = crate::text::remove_occurrences(&t, &open);
    let close = chars_of("âŸ©");
    let t = crate::text::remove_occurrences(&t, &close);
    string_of(&t)
}

/// The listing query of artifacts: the four artifact kinds, narrowed by the
/// lowercased kind, project and agent when given, newest first, at most
/// `limit` (100 by default). Values are written as given.
pub open spec fn list_artifacts_query_spec(q: ListArtifactsQuery) -> Seq<char> {
    let conds = seq!["type IN ['decision', 'filelog', 'note', 'changeset']"@] + match q.artifact_type {
        Some(t) => seq!["type = '"@ + lowercase(t@) + "'"@],
        None => Seq::empty(),
    } + match q.project_id {
        Some(p) => seq!["project_id = '"@ + p@ + "'"@],
        None => Seq::empty(),
    } + match q.agent_id {
        Some(a) => seq!["agent_id = '"@ + a@ + "'"@],
        None => Seq::empty(),
    };
    "SELECT * FROM objects WHERE "@ + join_with(conds, " AND "@) + " ORDER BY created_at DESC LIMIT "@
        + crate::text::decimal(
        match q.limit {
            Some(l) => l as nat,
            None => 100,
        },
    )
}

/// Builds the listing query of artifacts.
pub fn list_artifacts_query(q: &ListArtifactsQuery) -> (r: String)
    ensures
        r@ == list_artifacts_query_spec(*q),
{
    let mut conds: Vec<Vec<char>> = Vec::new();
    conds.push(chars_of("type IN ['decision', 'filelog', 'note', 'changeset']"));
    if let Some(t) = &q.artifact_type {
        let l = to_lowercase(t.as_str());
        let mut c = chars_of("type = '");
        append_str(&mut c, l.as_str());
        append_str(&mut c, "'");
        conds.push(c);
    }
    if let Some(p) = &q.project_id {
        let mut c = chars_of("project_id = '");
        append_str(&mut c, p.as_str());
        append_str(&mut c, "'");
        conds.push(c);
    }
    if let Some(a) = &q.agent_id {
        let mut c = chars_of("agent_id = '");
        append_str(&mut c, a.as_str());
        append_str(&mut c, "'");
        conds.push(c);
    }
    let ghost cv = views(conds@);
    proof {
        assert(cv =~= seq!["type IN ['decision', 'filelog', 'note', 'changeset']"@] + match q.artifact_type {
            Some(t) => seq!["type = '"@ + lowercase(t@) + "'"@],
            None => Seq::empty(),
        } + match q.project_id {
            Some(p) => seq!["project_id = '"@ + p@ + "'"@],
            None => Seq::empty(),
        } + match q.agent_id {
            Some(a) => seq!["agent_id = '"@ + a@ + "'"@],
            None => Seq::empty(),
        });
    }
    let sep = chars_of(" AND ");
    let joined = join_parts(&conds, &sep);
    let mut v = chars_of("SELECT * FROM objects WHERE ");
    append_chars(&mut v, &joined);
    append_str(&mut v, " ORDER BY created_at DESC LIMIT ");
    let l: usize = match q.limit {
        Some(l) => l,
        None => 100,
    };
    append_decimal(&mut v, l as u64);
    proof {
        assert(v@ =~= list_artifacts_query_spec(*q));
    }
    string_of(&v)
}


/// One end of a relationship that writing an artifact creates.
pub enum LinkEnd {
    /// The artifact being written.
    Artifact,
    /// An object named by its id.
    Object(String),
    /// The project object of a project id, to be looked up.
    ProjectOf(String),
    /// The file node of a path, to be looked up.
    FileAt(String),
    /// The shared artifact core, to be found or created.
    Core,
}

/// The plain values of a link end.
pub enum LinkEndView {
    Artifact,
    Object(Seq<char>),
    ProjectOf(Seq<char>),
    FileAt(Seq<char>),
    Core,
}

impl View for LinkEnd {
    type V = LinkEndView;

    open spec fn view(&self) -> LinkEndView {
        match self {
            LinkEnd::Artifact => LinkEndView::Artifact,
            LinkEnd::Object(s) => LinkEndView::Object(s@),
            LinkEnd::ProjectOf(s) => LinkEndView::ProjectOf(s@),
            LinkEnd::FileAt(s) => LinkEndView::FileAt(s@),
            LinkEnd::Core => LinkEndView::Core,
        }
    }
}

/// A relationship to create. `ties_file` marks the links to a file; the
/// link to the core is made only when no such link was created.
pub struct PlannedLink {
    pub from: LinkEnd,
    pub relation: String,
    pub to: LinkEnd,
    pub ties_file: bool,
}

/// The plain values of a planned link.
pub open spec fn link_view(l: PlannedLink) -> (LinkEndView, Seq<char>, LinkEndView, bool) {
    (l.from@, l.relation@, l.to@, l.ties_file)
}

/// The plain values of planned links.
pub open spec fn links_view(v: Seq<PlannedLink>) -> Seq<(LinkEndView, Seq<char>, LinkEndView, bool)> {
    v.map_values(|l: PlannedLink| link_view(l))
}

/// A link from the artifact to each id.
pub open spec fn links_to_ids(ids: Seq<Seq<char>>, relation: Seq<char>) -> Seq<(LinkEndView, Seq<char>, LinkEndView, bool)> {
    ids.map_values(|id: Seq<char>| (LinkEndView::Artifact, relation, LinkEndView::Object(id), false))
}

/// The target of a linked file: the reference itself when it is a UUID,
/// else the file node at that path.
pub open spec fn file_target(f: Seq<char>) -> LinkEndView {
    if crate::query::uuid_text(f) is Some {
        LinkEndView::Object(f)
    } else {
        LinkEndView::FileAt(f)
    }
}

/// The link to the artifact's project.
pub open spec fn project_link(r: WriteArtifactRequest) -> Seq<(LinkEndView, Seq<char>, LinkEndView, bool)> {
    match r.project_id {
        Some(p) => seq![(LinkEndView::Artifact, "defined_in"@, LinkEndView::ProjectOf(p@), false)],
        None => Seq::empty(),
    }
}

/// The link from the run that produced the artifact.
pub open spec fn run_link(r: WriteArtifactRequest) -> Seq<(LinkEndView, Seq<char>, LinkEndView, bool)> {
    match r.run_id {
        Some(run) => seq![(LinkEndView::Object(run@), "produced"@, LinkEndView::Artifact, false)],
        None => Seq::empty(),
    }
}

/// The links to the linked files.
pub open spec fn file_links(r: WriteArtifactRequest) -> Seq<(LinkEndView, Seq<char>, LinkEndView, bool)> {
    list_or_empty(r.linked_files).map_values(|f: Seq<char>| (LinkEndView::Artifact, "modifies"@, file_target(f), true))
}

/// The link to the artifact's own file path, when no files were linked.
pub open spec fn own_file_link(r: WriteArtifactRequest) -> Seq<(LinkEndView, Seq<char>, LinkEndView, bool)> {
    let has_linked_files = r.linked_files matches Some(v) && v@.len() > 0;
    if !has_linked_files && r.file_path is Some {
        seq![(LinkEndView::Artifact, "modifies"@, LinkEndView::FileAt(r.file_path->0@), true)]
    } else {
        Seq::empty()
    }
}

/// For a file log, the link to its file.
pub open spec fn filelog_link(r: WriteArtifactRequest) -> Seq<(LinkEndView, Seq<char>, LinkEndView, bool)> {
    if r.artifact_type == ArtifactType::FileLog && r.file_path is Some {
        seq![(LinkEndView::Artifact, "defined_in"@, LinkEndView::FileAt(r.file_path->0@), true)]
    } else {
        Seq::empty()
    }
}

/// The relationships writing an artifact creates, in order: to its project,
/// from its run, to linked objects, to justifying decisions, to linked
/// files; to its own file path when no files were linked; for a file log,
/// to its file; and to the artifact core.
pub open spec fn artifact_links(r: WriteArtifactRequest) -> Seq<(LinkEndView, Seq<char>, LinkEndView, bool)> {
    project_link(r) + run_link(r) + links_to_ids(list_or_empty(r.linked_objects), "depends_on"@) + links_to_ids(
        list_or_empty(r.linked_decisions),
        "justified_by"@,
    ) + file_links(r) + own_file_link(r) + filelog_link(r) + seq![
        (LinkEndView::Artifact, "defined_in"@, LinkEndView::Core, false),
    ]
}

/// Adds a link from the artifact to each id.
fn push_id_links(links: &mut Vec<PlannedLink>, ids: &Option<Vec<String>>, relation: &str)
    ensures
        links_view(final(links)@) == links_view(old(links)@) + links_to_ids(list_or_empty(*ids), relation@),
{
    let ghost l0 = links_view(links@);
    match ids {
        Some(v) => {
            let ghost sv = string_views(v@);
            let mut k: usize = 0;
            while k < v.len()
                invariant
                    k <= v@.len(),
                    sv == string_views(v@),
                    links_view(links@) == l0 + links_to_ids(sv.take(k as int), relation@),
                decreases v@.len() - k,
            {
                let ghost o = links_view(links@);
                let l = PlannedLink {
                    from: LinkEnd::Artifact,
                    relation: string_from_str(relation),
                    to: LinkEnd::Object(v[k].clone()),
                    ties_file: false,
                };
                links.push(l);
                k = k + 1;
                proof {
                    assert(links_view(links@) =~= o.push(link_view(l)));
                    assert(links_to_ids(sv.take(k as int), relation@) =~= links_to_ids(sv.take(k - 1), relation@).push(
                        (LinkEndView::Artifact, relation@, LinkEndView::Object(sv[k - 1]), false),
                    ));
                }
            }
            proof {
                assert(sv.take(v@.len() as int) == sv);
            }
        },
        None => {
            proof {
                assert(links_to_ids(Seq::<Seq<char>>::empty(), relation@) =~= Seq::empty());
                assert(l0 + Seq::<(LinkEndView, Seq<char>, LinkEndView, bool)>::empty() =~= l0);
            }
        },
    }
}

/// Adds a `modifies` link to each linked file.
fn push_file_links(links: &mut Vec<PlannedLink>, files: &Option<Vec<String>>)
    ensures
        links_view(final(links)@) == links_view(old(links)@) + list_or_empty(*files).map_values(
            |f: Seq<char>| (LinkEndView::Artifact, "modifies"@, file_target(f), true),
        ),
{
    let ghost l0 = links_view(links@);
    match files {
        Some(v) => {
            let ghost sv = string_views(v@);
            let mut k: usize = 0;
            while k < v.len()
                invariant
                    k <= v@.len(),
                    sv == string_views(v@),
                    links_view(links@) == l0 + sv.take(k as int).map_values(
                        |f: Seq<char>| (LinkEndView::Artifact, "modifies"@, file_target(f), true),
                    ),
                decreases v@.len() - k,
            {
                let ghost o = links_view(links@);
                let parsed = crate::query::parse_uuid_text(v[k].as_str());
                let to = if parsed.is_some() {
                    LinkEnd::Object(v[k].clone())
                } else {
                    LinkEnd::FileAt(v[k].clone())
                };
                let l = PlannedLink { from: LinkEnd::Artifact, relation: string_from_str("modifies"), to, ties_file: true };
                links.push(l);
                k = k + 1;
                proof {
                    assert(links_view(links@) =~= o.push(link_view(l)));
                    assert(sv.take(k as int).map_values(
                        |f: Seq<char>| (LinkEndView::Artifact, "modifies"@, file_target(f), true),
                    ) =~= sv.take(k - 1).map_values(
                        |f: Seq<char>| (LinkEndView::Artifact, "modifies"@, file_target(f), true),
                    ).push((LinkEndView::Artifact, "modifies"@, file_target(sv[k - 1]), true)));
                }
            }
            proof {
                assert(sv.take(v@.len() as int) == sv);
            }
        },
        None => {
            proof {
                assert(l0 + Seq::<(LinkEndView, Seq<char>, LinkEndView, bool)>::empty() =~= l0);
            }
        },
    }
}

/// Plans the relationships writing an artifact creates.
pub fn plan_artifact_links(request: &WriteArtifactRequest) -> (r: Vec<PlannedLink>)
    ensures
        links_view(r@) == artifact_links(*request),
{
    let mut links: Vec<PlannedLink> = Vec::new();
    if let Some(p) = &request.project_id {
        links.push(PlannedLink {
            from: LinkEnd::Artifact,
            relation: string_from_str("defined_in"),
            to: LinkEnd::ProjectOf(p.clone()),
            ties_file: false,
        });
    }
    if let Some(run) = &request.run_id {
        links.push(PlannedLink {
            from: LinkEnd::Object(run.clone()),
            relation: string_from_str("produced"),
            to: LinkEnd::Artifact,
            ties_file: false,
        });
    }
    let ghost l1 = links_view(links@);
    let ghost pa = project_link(*request);
    let ghost pb = run_link(*request);
    proof {
        assert(l1 =~= pa + pb);
    }
    push_id_links(&mut links, &request.linked_objects, "depends_on");
    push_id_links(&mut links, &request.linked_decisions, "justified_by");
    push_file_links(&mut links, &request.linked_files);
    let ghost l2 = links_view(links@);
    let has_linked_files = match &request.linked_files {
        Some(v) => v.len() > 0,
        None => false,
    };
    if !has_linked_files {
        if let Some(fp) = &request.file_path {
            links.push(PlannedLink {
                from: LinkEnd::Artifact,
                relation: string_from_str("modifies"),
                to: LinkEnd::FileAt(fp.clone()),
                ties_file: true,
            });
        }
    }
    let ghost l3 = links_view(links@);
    let ghost pf = own_file_link(*request);
    proof {
        assert(l3 =~= l2 + pf);
    }
    if request.artifact_type == ArtifactType::FileLog {
        if let Some(fp) = &request.file_path {
            links.push(PlannedLink {
                from: LinkEnd::Artifact,
                relation: string_from_str("defined_in"),
                to: LinkEnd::FileAt(fp.clone()),
                ties_file: true,
            });
        }
    }
    let ghost l4 = links_view(links@);
    let ghost pg = filelog_link(*request);
    proof {
        assert(l4 =~= l3 + pg);
    }
    links.push(PlannedLink {
        from: LinkEnd::Artifact,
        relation: string_from_str("defined_in"),
        to: LinkEnd::Core,
        ties_file: false,
    });
    proof {
        assert(links_view(links@) =~= l4.push((LinkEndView::Artifact, "defined_in"@, LinkEndView::Core, false)));
        let pc = links_to_ids(list_or_empty(request.linked_objects), "depends_on"@);
        let pd = links_to_ids(list_or_empty(request.linked_decisions), "justified_by"@);
        let pe = file_links(*request);
        assert(l2 =~= l1 + pc + pd + pe);
        let ph = seq![(LinkEndView::Artifact, "defined_in"@, LinkEndView::Core, false)];
        assert(artifact_links(*request) == pa + pb + pc + pd + pe + pf + pg + ph);
        assert(links_view(links@) =~= pa + pb + pc + pd + pe + pf + pg + ph);
    }
    links
}

/// The statement that relates two objects.
pub open spec fn relate_statement_spec(source: Seq<char>, relation: Seq<char>, target: Seq<char>) -> Seq<char> {
    "RELATE objects:`"@ + source + "`->"@ + relation + "->objects:`"@ + target + "` SET created_at = time::now()"@
}

/// Writes the statement that relates two objects.
pub fn relate_statement(source: &str, relation: &str, target: &str) -> (r: String)
    ensures
        r@ == relate_statement_spec(source@, relation@, target@),
{
    let mut v = chars_of("RELATE objects:`");
    append_str(&mut v, source);
    append_str(&mut v, "`->");
    append_str(&mut v, relation);
    append_str(&mut v, "->objects:`");
    append_str(&mut v, target);
    append_str(&mut v, "` SET created_at = time::now()");
    proof {
        assert(v@ =~= relate_statement_spec(source@, relation@, target@));
    }
    string_of(&v)
}

/// The lookup of a project object by project id.
pub open spec fn project_lookup_spec(project_id: Seq<char>) -> Seq<char> {
    "SELECT id FROM objects WHERE (type = 'symbol' OR type = 'project') AND kind = 'project' AND project_id = '"@
        + crate::query::escape_quotes(project_id) + "' LIMIT 1"@
}

/// Writes the lookup of a project object.
pub fn project_lookup_query(project_id: &str) -> (r: String)
    ensures
        r@ == project_lookup_spec(project_id@),
{
    let pc = chars_of(project_id);
    let rep = chars_of("\\'");
    let e = crate::text::replace_char_with(&pc, '\'', &rep);
    let mut v = chars_of(
        "SELECT id FROM objects WHERE (type = 'symbol' OR type = 'project') AND kind = 'project' AND project_id = '",
    );
    append_chars(&mut v, &e);
    append_str(&mut v, "' LIMIT 1");
    string_of(&v)
}

/// The values a file node is looked up by: the trimmed path, the path with
/// `/` turned into `\`, and its last component; none for a blank path.
pub open spec fn file_lookup_keys_spec(path: Seq<char>) -> Option<(Seq<char>, Seq<char>, Seq<char>)> {
    let t = trim_ws(path);
    if t.len() == 0 {
        None
    } else {
        Some((t, crate::text::replace_char(t, '/', seq!['\\']), crate::codebase::basename_raw(t)))
    }
}

/// The values a file node is looked up by.
pub fn file_lookup_keys(path: &str) -> (r: Option<(String, String, String)>)
    ensures
        match r {
            Some((t, n, b)) => file_lookup_keys_spec(path@) == Some((t@, n@, b@)),
            None => file_lookup_keys_spec(path@) is None,
        },
{
    let pc = chars_of(path);
    let t = trim(&pc);
    if t.len() == 0 {
        return None;
    }
    let mut bs: Vec<char> = Vec::new();
    bs.push('\\');
    let n = crate::text::replace_char_with(&t, '/', &bs);
    let ts = string_of(&t);
    let b = crate::codebase::extract_basename_raw(ts.as_str());
    proof {
        assert(bs@ == seq!['\\']);
    }
    Some((ts, string_of(&n), b))
}

/// The bare id of an artifact to delete: trimmed, without `objects:`.
pub fn artifact_delete_id(id: &str) -> (r: String)
    ensures
        r@ == crate::text::trim_start_str(trim_ws(id@), "objects:"@),
{
    let cs = chars_of(id);
    let t = trim(&cs);
    let prefix = chars_of("objects:");
    proof {
        reveal_strlit("objects:");
    }
    let t = crate::text::trim_start_matches_str(&t, &prefix);
    string_of(&t)
}

} // verus!
