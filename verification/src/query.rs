//! Query text for the object store: keyword search, vector similarity and
//! graph traversal, with the filters that narrow each of them.
use vstd::prelude::*;

use crate::json::JsonValue;
use crate::text::{
    contains_chars, contains_sub, lowercase, to_lowercase, append_chars, append_decimal, append_signed_decimal, append_str, chars_of, decimal,
    join_parts, join_with, opt_view, replace_char, replace_char_with, signed_decimal, string_of,
    string_views, views,
};

verus! {

/// The fields every object query returns, as a projection body.
pub const PROJECTION_FIELDS: &'static str = "id: string::concat(id), type: type, tenant_id: tenant_id, project_id: project_id, name: name, title: title, kind: kind, path: path, language: language, signature: signature, documentation: documentation, summary: summary, description: description, content: content, tags: tags, linked_files: linked_files, file_path: file_path, files_changed: files_changed, decision: decision, diff_summary: diff_summary, context: context, category: category, created_at: created_at, updated_at: updated_at, provenance: provenance, links: links, embedding: embedding, input_summary: input_summary, status: status, duration_ms: duration_ms, confidence: confidence";

/// The same fields as a plain column list.
pub const FIELD_LIST: &'static str = "id, type, tenant_id, project_id, name, title, kind, path, language, signature, documentation, summary, description, content, tags, linked_files, file_path, files_changed, decision, diff_summary, context, category, created_at, updated_at, provenance, links, embedding, input_summary, status, duration_ms, confidence";

/// The record projection `{ <fields> }`.
pub open spec fn projection() -> Seq<char> {
    "{ "@ + PROJECTION_FIELDS@ + " }"@
}

/// Narrowing conditions of a query. Times are Unix seconds; symbol kinds
/// narrow hybrid retrieval only.
pub struct QueryFilters {
    pub object_types: Option<Vec<String>>,
    pub kind: Option<Vec<String>>,
    pub project_id: Option<String>,
    pub tenant_id: Option<String>,
    pub created_after: Option<i64>,
    pub created_before: Option<i64>,
}

/// The plain values of the filters.
pub struct FiltersView {
    pub object_types: Option<Seq<Seq<char>>>,
    pub kind: Option<Seq<Seq<char>>>,
    pub project_id: Option<Seq<char>>,
    pub tenant_id: Option<Seq<char>>,
    pub created_after: Option<i64>,
    pub created_before: Option<i64>,
}

/// The strings of an optional list.
pub open spec fn opt_strings(o: Option<Vec<String>>) -> Option<Seq<Seq<char>>> {
    match o {
        Some(v) => Some(string_views(v@)),
        None => None,
    }
}

impl View for QueryFilters {
    type V = FiltersView;

    open spec fn view(&self) -> FiltersView {
        FiltersView {
            object_types: opt_strings(self.object_types),
            kind: opt_strings(self.kind),
            project_id: opt_view(self.project_id),
            tenant_id: opt_view(self.tenant_id),
            created_after: self.created_after,
            created_before: self.created_before,
        }
    }
}

/// The filters' values, when there are filters.
pub open spec fn opt_filters(f: Option<&QueryFilters>) -> Option<FiltersView> {
    match f {
        Some(x) => Some(x@),
        None => None,
    }
}

/// `s` with every `'` escaped as `\'`.
pub open spec fn escape_quotes(s: Seq<char>) -> Seq<char> {
    replace_char(s, '\'', "\\'"@)
}

/// `s` escaped and between single quotes.
pub open spec fn quoted(s: Seq<char>) -> Seq<char> {
    "'"@ + escape_quotes(s) + "'"@
}

/// Every string quoted.
pub open spec fn quoted_all(ts: Seq<Seq<char>>) -> Seq<Seq<char>> {
    ts.map_values(|t: Seq<char>| quoted(t))
}

/// The `type IN [...]` condition for a list of types.
pub open spec fn type_condition(ts: Seq<Seq<char>>) -> Seq<char> {
    "type IN ["@ + join_with(quoted_all(ts), ", "@) + "]"@
}

/// One condition when the value is present, none otherwise.
pub open spec fn cond_if<T>(o: Option<T>, c: Seq<char>) -> Seq<Seq<char>> {
    if o is Some {
        seq![c]
    } else {
        Seq::empty()
    }
}

/// The conditions the filters impose, in the order type, project, tenant,
/// and (when `with_times`) lower and upper creation time.
pub open spec fn filter_conditions(f: FiltersView, with_times: bool) -> Seq<Seq<char>> {
    cond_if(f.object_types, type_condition(f.object_types->0)) + cond_if(
        f.project_id,
        "project_id = "@ + quoted(f.project_id->0),
    ) + cond_if(f.tenant_id, "tenant_id = "@ + quoted(f.tenant_id->0)) + if with_times {
        cond_if(
            f.created_after,
            "created_at >= time::from::unix("@ + signed_decimal(f.created_after->0 as int) + ")"@,
        ) + cond_if(
            f.created_before,
            "created_at <= time::from::unix("@ + signed_decimal(f.created_before->0 as int) + ")"@,
        )
    } else {
        Seq::empty()
    }
}

/// `prefix` and the conditions joined by ` AND `, or nothing when there are none.
pub open spec fn conditions_clause(conds: Seq<Seq<char>>, prefix: Seq<char>) -> Seq<char> {
    if conds.len() == 0 {
        Seq::empty()
    } else {
        prefix + join_with(conds, " AND "@)
    }
}

/// `s` escaped and quoted.
pub fn quoted_chars(s: &str) -> (r: Vec<char>)
    ensures
        r@ == quoted(s@),
{
    let cs = chars_of(s);
    let rep = chars_of("\\'");
    let e = replace_char_with(&cs, '\'', &rep);
    let mut r = chars_of("'");
    append_chars(&mut r, &e);
    append_str(&mut r, "'");
    r
}

/// The strings quoted and separated by `, `.
pub fn quoted_list_chars(ts: &Vec<String>) -> (r: Vec<char>)
    ensures
        r@ == join_with(quoted_all(string_views(ts@)), ", "@),
{
    let ghost sv = string_views(ts@);
    let mut qs: Vec<Vec<char>> = Vec::new();
    let mut k: usize = 0;
    while k < ts.len()
        invariant
            k <= ts@.len(),
            sv == string_views(ts@),
            views(qs@) == quoted_all(sv.take(k as int)),
        decreases ts@.len() - k,
    {
        let q = quoted_chars(ts[k].as_str());
        qs.push(q);
        k = k + 1;
        proof {
            assert(quoted_all(sv.take(k as int)) =~= quoted_all(sv.take(k - 1)).push(quoted(sv[k - 1])));
            assert(views(qs@) =~= views(qs@.drop_last()).push(q@));
        }
    }
    proof {
        assert(sv.take(ts@.len() as int) == sv);
    }
    let sep = chars_of(", ");
    join_parts(&qs, &sep)
}

/// The `type IN [...]` condition.
pub fn type_condition_chars(ts: &Vec<String>) -> (r: Vec<char>)
    ensures
        r@ == type_condition(string_views(ts@)),
{
    let joined = quoted_list_chars(ts);
    let mut r = chars_of("type IN [");
    append_chars(&mut r, &joined);
    append_str(&mut r, "]");
    r
}

/// Appends the conditions of `f` to `conds`.
pub fn push_filter_conditions(conds: &mut Vec<Vec<char>>, f: &QueryFilters, with_times: bool)
    ensures
        views(final(conds)@) == views(old(conds)@) + filter_conditions(f@, with_times),
{
    let ghost c0 = views(conds@);
    let ghost fv = f@;
    if let Some(ts) = &f.object_types {
        let c = type_condition_chars(ts);
        conds.push(c);
    }
    proof {
        assert(views(conds@) =~= c0 + cond_if(fv.object_types, type_condition(fv.object_types->0)));
    }
    let ghost c1 = views(conds@);
    if let Some(p) = &f.project_id {
        let mut c = chars_of("project_id = ");
        let q = quoted_chars(p.as_str());
        append_chars(&mut c, &q);
        conds.push(c);
    }
    proof {
        assert(views(conds@) =~= c1 + cond_if(fv.project_id, "project_id = "@ + quoted(fv.project_id->0)));
    }
    let ghost c2 = views(conds@);
    if let Some(t) = &f.tenant_id {
        let mut c = chars_of("tenant_id = ");
        let q = quoted_chars(t.as_str());
        append_chars(&mut c, &q);
        conds.push(c);
    }
    proof {
        assert(views(conds@) =~= c2 + cond_if(fv.tenant_id, "tenant_id = "@ + quoted(fv.tenant_id->0)));
    }
    let ghost c3 = views(conds@);
    if with_times {
        if let Some(a) = f.created_after {
            let mut c = chars_of("created_at >= time::from::unix(");
            append_signed_decimal(&mut c, a);
            append_str(&mut c, ")");
            conds.push(c);
        }
        let ghost c4 = views(conds@);
        proof {
            assert(c4 =~= c3 + cond_if(
                fv.created_after,
                "created_at >= time::from::unix("@ + signed_decimal(fv.created_after->0 as int) + ")"@,
            ));
        }
        if let Some(b) = f.created_before {
            let mut c = chars_of("created_at <= time::from::unix(");
            append_signed_decimal(&mut c, b);
            append_str(&mut c, ")");
            conds.push(c);
        }
        proof {
            assert(views(conds@) =~= c4 + cond_if(
                fv.created_before,
                "created_at <= time::from::unix("@ + signed_decimal(fv.created_before->0 as int) + ")"@,
            ));
        }
    }
    proof {
        assert(views(conds@) =~= c0 + filter_conditions(fv, with_times));
    }
}

/// Appends `prefix` and the conditions joined by ` AND ` to `v`, when there
/// are conditions.
pub fn append_conditions(v: &mut Vec<char>, conds: &Vec<Vec<char>>, prefix: &str)
    ensures
        final(v)@ == old(v)@ + conditions_clause(views(conds@), prefix@),
{
    if conds.len() > 0 {
        append_str(v, prefix);
        let sep = chars_of(" AND ");
        let joined = join_parts(conds, &sep);
        append_chars(v, &joined);
    } else {
        proof {
            assert(old(v)@ + Seq::<char>::empty() == old(v)@);
        }
    }
}


/// The keyword condition on name, title, description and documentation.
pub open spec fn text_condition(text: Seq<char>) -> Seq<char> {
    let q = escape_quotes(text);
    "(name CONTAINS '"@ + q + "' OR title CONTAINS '"@ + q + "' OR description CONTAINS '"@ + q
        + "' OR documentation CONTAINS '"@ + q + "')"@
}

/// The keyword query: the keyword condition (when there is text), then the
/// filters with creation times, joined by ` AND ` after ` WHERE `, and the limit.
pub open spec fn text_query_spec(
    text: Option<Seq<char>>,
    filters: Option<FiltersView>,
    limit: nat,
) -> Seq<char> {
    let conds = cond_if(text, text_condition(text->0)) + match filters {
        Some(f) => filter_conditions(f, true),
        None => Seq::empty(),
    };
    "SELECT VALUE "@ + projection() + " FROM objects"@ + conditions_clause(conds, " WHERE "@)
        + " LIMIT "@ + decimal(limit)
}

/// The characters of an optional text.
pub open spec fn opt_str(o: Option<&str>) -> Option<Seq<char>> {
    match o {
        Some(s) => Some(s@),
        None => None,
    }
}

/// The limit a query uses: the one asked for, or 10.
pub open spec fn limit_or_default(limit: Option<usize>) -> nat {
    match limit {
        Some(l) => l as nat,
        None => 10,
    }
}

/// Appends the projection `{ <fields> }` to `v`.
fn append_projection(v: &mut Vec<char>)
    ensures
        final(v)@ == old(v)@ + projection(),
{
    append_str(v, "{ ");
    append_str(v, PROJECTION_FIELDS);
    append_str(v, " }");
    proof {
        assert(final(v)@ =~= old(v)@ + projection());
    }
}

/// Builds the keyword query over the objects.
pub fn build_query_string(text: Option<&str>, filters: Option<&QueryFilters>, limit: Option<usize>) -> (r: String)
    ensures
        r@ == text_query_spec(opt_str(text), opt_filters(filters), limit_or_default(limit)),
{
    let mut conds: Vec<Vec<char>> = Vec::new();
    if let Some(t) = text {
        let tc = chars_of(t);
        let rep = chars_of("\\'");
        let q = replace_char_with(&tc, '\'', &rep);
        let mut c = chars_of("(name CONTAINS '");
        append_chars(&mut c, &q);
        append_str(&mut c, "' OR title CONTAINS '");
        append_chars(&mut c, &q);
        append_str(&mut c, "' OR description CONTAINS '");
        append_chars(&mut c, &q);
        append_str(&mut c, "' OR documentation CONTAINS '");
        append_chars(&mut c, &q);
        append_str(&mut c, "')");
        conds.push(c);
        proof {
            assert(c@ =~= text_condition(t@));
        }
    }
    proof {
        assert(views(conds@) =~= cond_if(opt_str(text), text_condition(opt_str(text)->0)));
    }
    let ghost c0 = views(conds@);
    if let Some(f) = filters {
        push_filter_conditions(&mut conds, f, true);
    } else {
        proof {
            assert(c0 + Seq::<Seq<char>>::empty() =~= c0);
        }
    }
    let mut v = chars_of("SELECT VALUE ");
    append_projection(&mut v);
    append_str(&mut v, " FROM objects");
    append_conditions(&mut v, &conds, " WHERE ");
    append_str(&mut v, " LIMIT ");
    let l: usize = match limit {
        Some(l) => l,
        None => 10,
    };
    append_decimal(&mut v, l as u64);
    proof {
        assert(v@ =~= text_query_spec(opt_str(text), opt_filters(filters), limit_or_default(limit)));
    }
    string_of(&v)
}

/// The vector query: the objects that have an embedding, narrowed by the
/// filters (with creation times), ranked by cosine similarity to the
/// vector written as `vector_text`, and cut at the limit.
pub open spec fn vector_query_spec(filters: Option<FiltersView>, limit: nat, vector_text: Seq<char>) -> Seq<char> {
    let conds = match filters {
        Some(f) => filter_conditions(f, true),
        None => Seq::empty(),
    };
    let inner = "SELECT "@ + FIELD_LIST@ + " FROM objects WHERE embedding IS NOT NONE AND embedding IS NOT NULL"@
        + conditions_clause(conds, " AND "@);
    let ranked = "SELECT "@ + FIELD_LIST@ + ", vector::similarity::cosine(embedding, ["@ + vector_text
        + "]) AS similarity FROM ("@ + inner + ") ORDER BY similarity DESC LIMIT "@ + decimal(limit);
    "SELECT VALUE { "@ + PROJECTION_FIELDS@ + ", similarity: similarity } FROM ("@ + ranked + ")"@
}

/// Builds the vector similarity query. `vector_text` is the query vector's
/// components written out and separated by `", "`.
pub fn build_vector_query_string(filters: Option<&QueryFilters>, limit: Option<usize>, vector_text: &str) -> (r: String)
    ensures
        r@ == vector_query_spec(opt_filters(filters), limit_or_default(limit), vector_text@),
{
    let mut conds: Vec<Vec<char>> = Vec::new();
    if let Some(f) = filters {
        push_filter_conditions(&mut conds, f, true);
        proof {
            assert(views(conds@) =~= filter_conditions(f@, true));
        }
    }
    let mut inner = chars_of("SELECT ");
    append_str(&mut inner, FIELD_LIST);
    append_str(&mut inner, " FROM objects WHERE embedding IS NOT NONE AND embedding IS NOT NULL");
    append_conditions(&mut inner, &conds, " AND ");
    let l: usize = match limit {
        Some(l) => l,
        None => 10,
    };
    let mut ranked = chars_of("SELECT ");
    append_str(&mut ranked, FIELD_LIST);
    append_str(&mut ranked, ", vector::similarity::cosine(embedding, [");
    append_str(&mut ranked, vector_text);
    append_str(&mut ranked, "]) AS similarity FROM (");
    append_chars(&mut ranked, &inner);
    append_str(&mut ranked, ") ORDER BY similarity DESC LIMIT ");
    append_decimal(&mut ranked, l as u64);
    let mut v = chars_of("SELECT VALUE { ");
    append_str(&mut v, PROJECTION_FIELDS);
    append_str(&mut v, ", similarity: similarity } FROM (");
    append_chars(&mut v, &ranked);
    append_str(&mut v, ")");
    proof {
        assert(v@ =~= vector_query_spec(opt_filters(filters), limit_or_default(limit), vector_text@));
    }
    string_of(&v)
}


/// The direction in which relationships are followed.
#[derive(Debug, Clone, Copy, PartialEq, Eq, Structural)]
pub enum GraphDirection {
    Outbound,
    Inbound,
    Both,
}

/// How a multi-hop traversal gathers its result.
#[derive(Debug, Clone, Copy, PartialEq, Eq, Structural)]
pub enum TraversalAlgorithm {
    /// Collect unique nodes.
    Collect,
    /// Return all paths.
    Path,
    /// Shortest path to a target.
    Shortest,
}

impl TraversalAlgorithm {
    /// The variant's name, as it is printed in explanations.
    pub open spec fn name_spec(self) -> Seq<char> {
        match self {
            TraversalAlgorithm::Collect => "Collect"@,
            TraversalAlgorithm::Path => "Path"@,
            TraversalAlgorithm::Shortest => "Shortest"@,
        }
    }

    /// The variant's name.
    pub fn name(&self) -> (r: &'static str)
        ensures
            r@ == self.name_spec(),
    {
        match self {
            TraversalAlgorithm::Collect => "Collect",
            TraversalAlgorithm::Path => "Path",
            TraversalAlgorithm::Shortest => "Shortest",
        }
    }
}

/// A graph traversal request. Node ids are the objects' UUIDs as text.
pub struct GraphQuery {
    pub start_nodes: Vec<String>,
    pub relation_types: Option<Vec<String>>,
    pub max_depth: Option<usize>,
    pub direction: Option<GraphDirection>,
    pub algorithm: Option<TraversalAlgorithm>,
    pub target_node: Option<String>,
}

/// The plain values of a graph request.
pub struct GraphView {
    pub start_nodes: Seq<Seq<char>>,
    pub relation_types: Option<Seq<Seq<char>>>,
    pub max_depth: Option<usize>,
    pub direction: Option<GraphDirection>,
    pub algorithm: Option<TraversalAlgorithm>,
    pub target_node: Option<Seq<char>>,
}

impl View for GraphQuery {
    type V = GraphView;

    open spec fn view(&self) -> GraphView {
        GraphView {
            start_nodes: string_views(self.start_nodes@),
            relation_types: opt_strings(self.relation_types),
            max_depth: self.max_depth,
            direction: self.direction,
            algorithm: self.algorithm,
            target_node: opt_view(self.target_node),
        }
    }
}

/// The relationship tables followed when a request names none.
pub open spec fn default_relations() -> Seq<Seq<char>> {
    seq![
        "depends_on"@,
        "defined_in"@,
        "calls"@,
        "justified_by"@,
        "modifies"@,
        "implements"@,
        "produced"@,
    ]
}

/// One relationship table by itself, several as `(a|b|...)`.
pub open spec fn relation_clause(types: Seq<Seq<char>>) -> Seq<char> {
    if types.len() == 1 {
        types[0]
    } else {
        "("@ + join_with(types, "|"@) + ")"@
    }
}

/// A record id of the objects table.
pub open spec fn object_ref(id: Seq<char>) -> Seq<char> {
    "objects:`"@ + id + "`"@
}

/// The start nodes as record ids separated by `, `.
pub open spec fn start_list(ids: Seq<Seq<char>>) -> Seq<char> {
    join_with(ids.map_values(|id: Seq<char>| object_ref(id)), ", "@)
}

/// The traversal selection for one direction.
pub open spec fn traversal_select(dir: GraphDirection, rel: Seq<char>, starts: Seq<char>) -> Seq<char> {
    let proj = projection();
    match dir {
        GraphDirection::Outbound => "SELECT VALUE { connected: ->"@ + rel + "->objects."@ + proj
            + " } FROM "@ + starts,
        GraphDirection::Inbound => "SELECT VALUE { connected: <-"@ + rel + "<-objects."@ + proj
            + " } FROM "@ + starts,
        GraphDirection::Both => "SELECT VALUE { outbound: ->"@ + rel + "->objects."@ + proj
            + ", inbound: <-"@ + rel + "<-objects."@ + proj + " } FROM "@ + starts,
    }
}

/// The single-hop graph query: the neighbours of the start nodes along the
/// requested relationship tables (all of them by default) in the requested
/// direction (outbound by default), narrowed by the filters without
/// creation times, and cut at the limit. The algorithm and depth do not
/// change the query.
pub open spec fn graph_query_spec(g: GraphView, filters: Option<FiltersView>, limit: nat) -> Seq<char> {
    let dir = match g.direction {
        Some(d) => d,
        None => GraphDirection::Outbound,
    };
    let rels = match g.relation_types {
        Some(t) => t,
        None => default_relations(),
    };
    traversal_select(dir, relation_clause(rels), start_list(g.start_nodes)) + match filters {
        Some(f) => conditions_clause(filter_conditions(f, false), " WHERE "@),
        None => Seq::empty(),
    } + " LIMIT "@ + decimal(limit)
}

/// The relationship tables as a traversal clause.
fn relation_clause_chars(types: &Vec<String>) -> (r: Vec<char>)
    ensures
        r@ == relation_clause(string_views(types@)),
{
    if types.len() == 1 {
        chars_of(types[0].as_str())
    } else {
        let mut parts: Vec<Vec<char>> = Vec::new();
        let mut k: usize = 0;
        while k < types.len()
            invariant
                k <= types@.len(),
                views(parts@) == string_views(types@).take(k as int),
            decreases types@.len() - k,
        {
            let c = chars_of(types[k].as_str());
            parts.push(c);
            k = k + 1;
            proof {
                assert(views(parts@) =~= views(parts@.drop_last()).push(c@));
                assert(string_views(types@).take(k as int) =~= string_views(types@).take(k - 1).push(types@[k - 1]@));
            }
        }
        proof {
            assert(string_views(types@).take(types@.len() as int) == string_views(types@));
        }
        let sep = chars_of("|");
        let joined = join_parts(&parts, &sep);
        let mut r = chars_of("(");
        append_chars(&mut r, &joined);
        append_str(&mut r, ")");
        r
    }
}

/// The default relationship tables.
fn default_relation_strings() -> (r: Vec<String>)
    ensures
        string_views(r@) == default_relations(),
{
    let mut r: Vec<String> = Vec::new();
    r.push(crate::text::string_from_str("depends_on"));
    r.push(crate::text::string_from_str("defined_in"));
    r.push(crate::text::string_from_str("calls"));
    r.push(crate::text::string_from_str("justified_by"));
    r.push(crate::text::string_from_str("modifies"));
    r.push(crate::text::string_from_str("implements"));
    r.push(crate::text::string_from_str("produced"));
    proof {
        assert(string_views(r@) =~= default_relations());
    }
    r
}

/// The start nodes as record ids.
fn start_list_chars(ids: &Vec<String>) -> (r: Vec<char>)
    ensures
        r@ == start_list(string_views(ids@)),
{
    let ghost sv = string_views(ids@);
    let mut parts: Vec<Vec<char>> = Vec::new();
    let mut k: usize = 0;
    while k < ids.len()
        invariant
            k <= ids@.len(),
            sv == string_views(ids@),
            views(parts@) == sv.take(k as int).map_values(|id: Seq<char>| object_ref(id)),
        decreases ids@.len() - k,
    {
        let mut c = chars_of("objects:`");
        append_str(&mut c, ids[k].as_str());
        append_str(&mut c, "`");
        parts.push(c);
        k = k + 1;
        proof {
            assert(views(parts@) =~= views(parts@.drop_last()).push(c@));
            assert(sv.take(k as int).map_values(|id: Seq<char>| object_ref(id)) =~= sv.take(k - 1).map_values(
                |id: Seq<char>| object_ref(id),
            ).push(object_ref(sv[k - 1])));
        }
    }
    proof {
        assert(sv.take(ids@.len() as int) == sv);
    }
    let sep = chars_of(", ");
    join_parts(&parts, &sep)
}

/// Builds the single-hop graph query.
pub fn build_graph_query_string(graph: &GraphQuery, filters: Option<&QueryFilters>, limit: usize) -> (r: String)
    ensures
        r@ == graph_query_spec(graph@, opt_filters(filters), limit as nat),
{
    let dir = match graph.direction {
        Some(d) => d,
        None => GraphDirection::Outbound,
    };
    let rel = match &graph.relation_types {
        Some(t) => relation_clause_chars(t),
        None => {
            let d = default_relation_strings();
            relation_clause_chars(&d)
        },
    };
    let starts = start_list_chars(&graph.start_nodes);
    let mut v: Vec<char> = Vec::new();
    match dir {
        GraphDirection::Outbound => {
            append_str(&mut v, "SELECT VALUE { connected: ->");
            append_chars(&mut v, &rel);
            append_str(&mut v, "->objects.");
            append_projection(&mut v);
        },
        GraphDirection::Inbound => {
            append_str(&mut v, "SELECT VALUE { connected: <-");
            append_chars(&mut v, &rel);
            append_str(&mut v, "<-objects.");
            append_projection(&mut v);
        },
        GraphDirection::Both => {
            append_str(&mut v, "SELECT VALUE { outbound: ->");
            append_chars(&mut v, &rel);
            append_str(&mut v, "->objects.");
            append_projection(&mut v);
            append_str(&mut v, ", inbound: <-");
            append_chars(&mut v, &rel);
            append_str(&mut v, "<-objects.");
            append_projection(&mut v);
        },
    }
    append_str(&mut v, " } FROM ");
    append_chars(&mut v, &starts);
    let ghost head = v@;
    proof {
        let rels = match graph@.relation_types {
            Some(t) => t,
            None => default_relations(),
        };
        assert(head =~= traversal_select(dir, relation_clause(rels), start_list(graph@.start_nodes)));
    }
    if let Some(f) = filters {
        let mut conds: Vec<Vec<char>> = Vec::new();
        push_filter_conditions(&mut conds, f, false);
        proof {
            assert(views(conds@) =~= filter_conditions(f@, false));
        }
        append_conditions(&mut v, &conds, " WHERE ");
    }
    append_str(&mut v, " LIMIT ");
    append_decimal(&mut v, limit as u64);
    proof {
        assert(v@ =~= graph_query_spec(graph@, opt_filters(filters), limit as nat));
    }
    string_of(&v)
}


/// The deepest traversal a graph query may ask for.
pub const MAX_GRAPH_DEPTH: usize = 10;

/// How a query request is answered.
#[derive(Debug, Clone, Copy, PartialEq, Eq, Structural)]
pub enum QueryRoute {
    /// Text, vector and graph results merged by the hybrid service.
    Hybrid,
    /// A graph request deeper than `MAX_GRAPH_DEPTH`: refused as a bad request.
    DepthRejected,
    /// A traversal by the graph service (an algorithm, or several relations).
    MultiHop,
    /// One hop along the relationships, by `build_graph_query_string`.
    SingleHop,
    /// A keyword or vector search over the objects.
    Search,
}

/// The route of a request: hybrid when asked for; otherwise a graph request
/// is refused past the depth limit, goes to the graph service when it names
/// an algorithm or more than one relation, and is a single hop otherwise;
/// without a graph request it is a search.
pub open spec fn route_spec(hybrid: Option<bool>, graph: Option<GraphView>) -> QueryRoute {
    if hybrid == Some(true) {
        QueryRoute::Hybrid
    } else {
        match graph {
            Some(g) => if g.max_depth matches Some(d) && d > MAX_GRAPH_DEPTH {
                QueryRoute::DepthRejected
            } else if g.algorithm is Some || (g.relation_types matches Some(t) && t.len() > 1) {
                QueryRoute::MultiHop
            } else {
                QueryRoute::SingleHop
            },
            None => QueryRoute::Search,
        }
    }
}

/// The graph request's values, when there is one.
pub open spec fn opt_graph(g: Option<&GraphQuery>) -> Option<GraphView> {
    match g {
        Some(x) => Some(x@),
        None => None,
    }
}

/// Decides how a query request is answered.
pub fn route_query(hybrid: Option<bool>, graph: Option<&GraphQuery>) -> (r: QueryRoute)
    ensures
        r == route_spec(hybrid, opt_graph(graph)),
{
    if hybrid == Some(true) {
        return QueryRoute::Hybrid;
    }
    match graph {
        Some(g) => {
            if let Some(d) = g.max_depth {
                if d > MAX_GRAPH_DEPTH {
                    return QueryRoute::DepthRejected;
                }
            }
            let many_relations = match &g.relation_types {
                Some(t) => t.len() > 1,
                None => false,
            };
            if g.algorithm.is_some() || many_relations {
                QueryRoute::MultiHop
            } else {
                QueryRoute::SingleHop
            }
        },
        None => QueryRoute::Search,
    }
}

/// The explanation of a multi-hop result.
pub open spec fn multi_hop_explanation_spec(algorithm: Option<TraversalAlgorithm>) -> Seq<char> {
    "Multi-hop "@ + match algorithm {
        Some(a) => a.name_spec(),
        None => Seq::empty(),
    } + " traversal result"@
}

/// Explains a result of a multi-hop traversal.
pub fn multi_hop_explanation(algorithm: Option<TraversalAlgorithm>) -> (r: String)
    ensures
        r@ == multi_hop_explanation_spec(algorithm),
{
    let mut v = chars_of("Multi-hop ");
    if let Some(a) = algorithm {
        append_str(&mut v, a.name());
    }
    append_str(&mut v, " traversal result");
    proof {
        assert(v@ =~= multi_hop_explanation_spec(algorithm));
    }
    string_of(&v)
}

/// The canonical hyphenated lowercase text of the UUID that `s` spells, as
/// `uuid::Uuid::parse_str` reads it, or `None` where it reads none.
pub uninterp spec fn uuid_text(s: Seq<char>) -> Option<Seq<char>>;

/// `uuid::Uuid::parse_str`, with the parsed UUID written back as text
/// (`Uuid::to_string`). The result is the one `uuid_text` names.
#[verifier::external_body]
pub(crate) fn parse_uuid_text(s: &str) -> (r: Option<String>)
    ensures
        opt_view(r) == uuid_text(s@),
{
    uuid::Uuid::parse_str(s).ok().map(|u| u.to_string())
}

/// Reads an object id that may carry the `objects:` table prefix.
pub fn parse_uuidish(input: &str) -> (r: Option<String>)
    ensures
        opt_view(r) == uuid_text(crate::text::trim_start_str(input@, "objects:"@)),
{
    let cs = chars_of(input);
    let prefix = chars_of("objects:");
    proof {
        reveal_strlit("objects:");
    }
    let rest = crate::text::trim_start_matches_str(&cs, &prefix);
    let rs = string_of(&rest);
    parse_uuid_text(rs.as_str())
}


/// Whether the lowercased `field` holds the lowercased query.
pub open spec fn field_holds(field: Option<Seq<char>>, query_lower: Seq<char>) -> bool {
    field matches Some(f) && contains_sub(lowercase(f), query_lower)
}

/// Whether the lowercased `field` equals the lowercased query.
pub open spec fn field_is(field: Option<Seq<char>>, query_lower: Seq<char>) -> bool {
    field matches Some(f) && lowercase(f) == query_lower
}

/// The score of a keyword match in tenths: 10 without a query or for a name
/// or title equal to it, 8 for a name or title holding it (the name is
/// looked at before the title), 6 for a description or documentation
/// holding it, 4 otherwise. Comparisons ignore case.
pub open spec fn text_score_spec(
    name: Option<Seq<char>>,
    title: Option<Seq<char>>,
    description: Option<Seq<char>>,
    documentation: Option<Seq<char>>,
    query: Option<Seq<char>>,
) -> u8 {
    match query {
        None => 10,
        Some(q) => {
            let ql = lowercase(q);
            if field_is(name, ql) {
                10
            } else if field_holds(name, ql) {
                8
            } else if field_is(title, ql) {
                10
            } else if field_holds(title, ql) {
                8
            } else if field_holds(description, ql) || field_holds(documentation, ql) {
                6
            } else {
                4
            }
        },
    }
}

/// The lowercased characters of an optional field.
fn lower_field(f: Option<&str>) -> (r: Option<Vec<char>>)
    ensures
        match f {
            Some(s) => r matches Some(v) && v@ == lowercase(s@),
            None => r is None,
        },
{
    match f {
        Some(s) => {
            let l = to_lowercase(s);
            Some(chars_of(l.as_str()))
        },
        None => None,
    }
}

/// Whether an optional lowercased field holds the lowercased query.
fn holds(f: &Option<Vec<char>>, q: &Vec<char>) -> (r: bool)
    ensures
        r == (f matches Some(v) && contains_sub(v@, q@)),
{
    match f {
        Some(v) => contains_chars(v, q),
        None => false,
    }
}

/// Whether an optional lowercased field equals the lowercased query.
fn equals(f: &Option<Vec<char>>, q: &Vec<char>) -> (r: bool)
    ensures
        r == (f matches Some(v) && v@ == q@),
{
    match f {
        Some(v) => {
            if v.len() != q.len() {
                proof {
                    assert(v@.len() != q@.len());
                }
                return false;
            }
            let mut i: usize = 0;
            while i < v.len()
                invariant
                    i <= v@.len(),
                    v@.len() == q@.len(),
                    f matches Some(w) && w@ == v@,
                    forall|j: int| 0 <= j < i ==> v@[j] == q@[j],
                decreases v@.len() - i,
            {
                if v[i] != q[i] {
                    proof {
                        assert(v@[i as int] != q@[i as int]);
                    }
                    return false;
                }
                i = i + 1;
            }
            proof {
                assert(v@ =~= q@);
            }
            true
        },
        None => false,
    }
}

/// Scores a keyword match in tenths (the caller divides by ten).
pub fn text_score_tenths(
    name: Option<&str>,
    title: Option<&str>,
    description: Option<&str>,
    documentation: Option<&str>,
    query: Option<&str>,
) -> (r: u8)
    ensures
        r == text_score_spec(opt_str(name), opt_str(title), opt_str(description), opt_str(documentation), opt_str(query)),
{
    match query {
        None => 10,
        Some(q) => {
            let ql = to_lowercase(q);
            let qc = chars_of(ql.as_str());
            let n = lower_field(name);
            let t = lower_field(title);
            let d = lower_field(description);
            let o = lower_field(documentation);
            if equals(&n, &qc) {
                10
            } else if holds(&n, &qc) {
                8
            } else if equals(&t, &qc) {
                10
            } else if holds(&t, &qc) {
                8
            } else if holds(&d, &qc) || holds(&o, &qc) {
                6
            } else {
                4
            }
        },
    }
}

/// The field a keyword match is credited to: the first of name, title and
/// description whose lowercased text holds the lowercased query, else content.
pub open spec fn matched_field(
    name: Option<Seq<char>>,
    title: Option<Seq<char>>,
    description: Option<Seq<char>>,
    text: Seq<char>,
) -> Seq<char> {
    let t = lowercase(text);
    if field_holds(name, t) {
        "name"@
    } else if field_holds(title, t) {
        "title"@
    } else if field_holds(description, t) {
        "description"@
    } else {
        "content"@
    }
}

/// The filter parts of an explanation: types joined by `,`, project, tenant.
pub open spec fn filter_explanation_parts(f: FiltersView) -> Seq<Seq<char>> {
    cond_if(f.object_types, "type="@ + join_with(f.object_types->0, ","@)) + cond_if(
        f.project_id,
        "project="@ + f.project_id->0,
    ) + cond_if(f.tenant_id, "tenant="@ + f.tenant_id->0)
}

/// The part of an explanation that says what matched.
pub open spec fn explanation_first(
    score_text: Option<Seq<char>>,
    text: Option<Seq<char>>,
    name: Option<Seq<char>>,
    title: Option<Seq<char>>,
    description: Option<Seq<char>>,
) -> Seq<Seq<char>> {
    match score_text {
        Some(sc) => seq![
            match text {
                Some(t) => "Semantic similarity to '"@ + t + "' (score: "@ + sc + ")"@,
                None => "Vector similarity (score: "@ + sc + ")"@,
            },
        ],
        None => match text {
            Some(t) => seq!["Matched text query '"@ + t + "' in "@ + matched_field(name, title, description, t)],
            None => Seq::empty(),
        },
    }
}

/// The explanation of a search result. `score_text` is the similarity
/// score of a vector match, written with three decimals; the sentence for
/// it names the text query when there is one. Without it, a keyword match
/// names the field it was found in. Then come the filters, and the parts
/// are joined by `; `.
pub open spec fn explanation_spec(
    score_text: Option<Seq<char>>,
    text: Option<Seq<char>>,
    name: Option<Seq<char>>,
    title: Option<Seq<char>>,
    description: Option<Seq<char>>,
    filters: Option<FiltersView>,
) -> Seq<char> {
    let first = explanation_first(score_text, text, name, title, description);
    let fp = match filters {
        Some(f) => filter_explanation_parts(f),
        None => Seq::empty(),
    };
    let parts = first + if fp.len() > 0 {
        seq!["Filtered by "@ + join_with(fp, ", "@)]
    } else {
        Seq::empty()
    };
    if parts.len() == 0 {
        "Matched query criteria"@
    } else {
        join_with(parts, "; "@)
    }
}

/// The strings of `v` as character vectors.
fn char_vectors(v: &Vec<String>) -> (r: Vec<Vec<char>>)
    ensures
        views(r@) == string_views(v@),
{
    let mut r: Vec<Vec<char>> = Vec::new();
    let mut k: usize = 0;
    while k < v.len()
        invariant
            k <= v@.len(),
            views(r@) == string_views(v@).take(k as int),
        decreases v@.len() - k,
    {
        let c = chars_of(v[k].as_str());
        r.push(c);
        k = k + 1;
        proof {
            assert(views(r@) =~= views(r@.drop_last()).push(c@));
            assert(string_views(v@).take(k as int) =~= string_views(v@).take(k - 1).push(v@[k - 1]@));
        }
    }
    proof {
        assert(string_views(v@).take(v@.len() as int) == string_views(v@));
    }
    r
}

/// Explains why a search result was returned.
pub fn generate_explanation(
    score_text: Option<&str>,
    text: Option<&str>,
    name: Option<&str>,
    title: Option<&str>,
    description: Option<&str>,
    filters: Option<&QueryFilters>,
) -> (r: String)
    ensures
        r@ == explanation_spec(
            opt_str(score_text),
            opt_str(text),
            opt_str(name),
            opt_str(title),
            opt_str(description),
            opt_filters(filters),
        ),
{
    let mut parts: Vec<Vec<char>> = Vec::new();
    match score_text {
        Some(sc) => {
            let mut p: Vec<char>;
            match text {
                Some(t) => {
                    p = chars_of("Semantic similarity to '");
                    append_str(&mut p, t);
                    append_str(&mut p, "' (score: ");
                },
                None => {
                    p = chars_of("Vector similarity (score: ");
                },
            }
            append_str(&mut p, sc);
            append_str(&mut p, ")");
            parts.push(p);
        },
        None => {
            if let Some(t) = text {
                let tl = to_lowercase(t);
                let tc = chars_of(tl.as_str());
                let n = lower_field(name);
                let ti = lower_field(title);
                let d = lower_field(description);
                let field = if holds(&n, &tc) {
                    "name"
                } else if holds(&ti, &tc) {
                    "title"
                } else if holds(&d, &tc) {
                    "description"
                } else {
                    "content"
                };
                let mut p = chars_of("Matched text query '");
                append_str(&mut p, t);
                append_str(&mut p, "' in ");
                append_str(&mut p, field);
                parts.push(p);
            }
        },
    }
    let ghost first = views(parts@);
    proof {
        assert(first =~= explanation_first(
            opt_str(score_text),
            opt_str(text),
            opt_str(name),
            opt_str(title),
            opt_str(description),
        ));
    }
    let mut fparts: Vec<Vec<char>> = Vec::new();
    if let Some(f) = filters {
        if let Some(ts) = &f.object_types {
            let cs = char_vectors(ts);
            let comma = chars_of(",");
            let joined = join_parts(&cs, &comma);
            let mut p = chars_of("type=");
            append_chars(&mut p, &joined);
            fparts.push(p);
        }
        if let Some(pid) = &f.project_id {
            let mut p = chars_of("project=");
            append_str(&mut p, pid.as_str());
            fparts.push(p);
        }
        if let Some(tid) = &f.tenant_id {
            let mut p = chars_of("tenant=");
            append_str(&mut p, tid.as_str());
            fparts.push(p);
        }
        proof {
            assert(views(fparts@) =~= filter_explanation_parts(f@));
        }
    }
    let ghost fp = views(fparts@);
    if fparts.len() > 0 {
        let sep = chars_of(", ");
        let joined = join_parts(&fparts, &sep);
        let mut p = chars_of("Filtered by ");
        append_chars(&mut p, &joined);
        parts.push(p);
    }
    proof {
        let e = explanation_spec(
            opt_str(score_text),
            opt_str(text),
            opt_str(name),
            opt_str(title),
            opt_str(description),
            opt_filters(filters),
        );
        assert(views(parts@) =~= first + if fp.len() > 0 {
            seq!["Filtered by "@ + join_with(fp, ", "@)]
        } else {
            Seq::empty()
        });
    }
    if parts.len() == 0 {
        crate::text::string_from_str("Matched query criteria")
    } else {
        let sep = chars_of("; ");
        let joined = join_parts(&parts, &sep);
        string_of(&joined)
    }
}


/// One step of a traced query.
pub struct TraceStep {
    pub step: String,
    pub description: String,
    pub time_ms: u64,
    pub results_count: usize,
}


/// Whether every `'` in `s` follows a `\`.
pub open spec fn quotes_escaped(s: Seq<char>) -> bool {
    forall|i: int| 0 <= i < s.len() && #[trigger] s[i] == '\'' ==> i > 0 && s[i - 1] == '\\'
}

/// In an escaped value every `'` follows a `\`, so a quoted value cannot
/// end its quotes early.
pub proof fn escaped_quotes_follow_backslash(s: Seq<char>)
    ensures
        quotes_escaped(escape_quotes(s)),
    decreases s.len(),
{
    reveal_strlit("\\'");
    if s.len() > 0 {
        escaped_quotes_follow_backslash(s.drop_last());
        let a = escape_quotes(s.drop_last());
        let piece: Seq<char> = if s.last() == '\'' {
            "\\'"@
        } else {
            seq![s.last()]
        };
        assert(escape_quotes(s) == a + piece);
        let t = a + piece;
        assert forall|i: int| 0 <= i < t.len() && #[trigger] t[i] == '\'' implies i > 0 && t[i - 1] == '\\' by {
            if i < a.len() {
                assert(a[i] == '\'');
            } else if s.last() == '\'' {
                assert(piece == seq!['\\', '\'']);
                if i == a.len() {
                    assert(t[i] == '\\');
                } else {
                    assert(t[i - 1] == piece[0]);
                }
            }
        }
    }
}

/// The connected objects a single-hop graph answer lists: each row's
/// `connected` entry, its items when it is an array.
pub fn connected_objects(rows: Vec<JsonValue>) -> (r: Vec<JsonValue>)
    ensures
        r@ == crate::graph::neighbor_rows(rows@, false, true),
{
    crate::graph::neighbor_nodes(rows, false, true)
}

} // verus!
