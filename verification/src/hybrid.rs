//! Hybrid retrieval: the keyword, vector and graph queries it runs, the
//! graph request it seeds from the keyword and vector hits, and the
//! keyword score of its hits.
use vstd::prelude::*;

use crate::query::{
    cond_if, conditions_clause, opt_filters, opt_str, quoted, quoted_all, quoted_chars,
    quoted_list_chars, text_condition, type_condition, FiltersView, GraphDirection, GraphQuery,
    QueryFilters, TraversalAlgorithm,
};
use crate::text::{
    append_chars, append_decimal, append_str, chars_of, contains_string, contains_sub, decimal, join_holds_each_part, join_with,
    lowercase, opt_view, replace_char_with, string_from_str, string_of, string_views, to_lowercase,
    sub_in_concat, trim_start_str, views,
};

verus! {

/// Why a hybrid retrieval failed.
#[derive(Debug)]
pub enum HybridRetrievalError {
    DatabaseError(String),
    Timeout,
    InvalidQuery(String),
    PartialFailure(String),
}

impl HybridRetrievalError {
    /// The error's message.
    pub open spec fn message_spec(&self) -> Seq<char> {
        match self {
            HybridRetrievalError::DatabaseError(m) => "Database error: "@ + m@,
            HybridRetrievalError::Timeout => "Query timeout"@,
            HybridRetrievalError::InvalidQuery(m) => "Invalid query: "@ + m@,
            HybridRetrievalError::PartialFailure(m) => "Partial failure: "@ + m@,
        }
    }

    /// The error's message.
    pub fn to_display_string(&self) -> (r: String)
        ensures
            r@ == self.message_spec(),
    {
        let mut v: Vec<char> = Vec::new();
        match self {
            HybridRetrievalError::DatabaseError(m) => {
                append_str(&mut v, "Database error: ");
                append_str(&mut v, m.as_str());
            },
            HybridRetrievalError::Timeout => append_str(&mut v, "Query timeout"),
            HybridRetrievalError::InvalidQuery(m) => {
                append_str(&mut v, "Invalid query: ");
                append_str(&mut v, m.as_str());
            },
            HybridRetrievalError::PartialFailure(m) => {
                append_str(&mut v, "Partial failure: ");
                append_str(&mut v, m.as_str());
            },
        }
        string_of(&v)
    }
}

/// How deep a hybrid graph search goes when the request does not say.
pub const DEFAULT_GRAPH_MAX_DEPTH: usize = 1;

/// The most graph hits a hybrid retrieval keeps.
pub const DEFAULT_GRAPH_CAP: usize = 50;

/// The most start nodes a seeded graph search takes.
pub const MAX_AUTOSEED_NODES: usize = 10;

/// The relationships a hybrid graph search follows by default.
pub open spec fn default_graph_relations() -> Seq<Seq<char>> {
    seq!["depends_on"@, "calls"@, "implements"@, "modifies"@, "defined_in"@]
}

/// The default relationships of a hybrid graph search.
pub fn default_graph_relation_strings() -> (r: Vec<String>)
    ensures
        string_views(r@) == default_graph_relations(),
{
    let mut r: Vec<String> = Vec::new();
    r.push(string_from_str("depends_on"));
    r.push(string_from_str("calls"));
    r.push(string_from_str("implements"));
    r.push(string_from_str("modifies"));
    r.push(string_from_str("defined_in"));
    proof {
        assert(string_views(r@) =~= default_graph_relations());
    }
    r
}

/// Whether the graph search is seeded from the keyword and vector hits:
/// asked for, and the request names no start nodes of its own.
pub open spec fn use_autoseed_spec(graph_autoseed: Option<bool>, graph: Option<crate::query::GraphView>) -> bool {
    graph_autoseed == Some(true) && !(graph matches Some(g) && g.start_nodes.len() > 0)
}

/// Decides whether the graph search is seeded from the other hits.
pub fn use_autoseed(graph_autoseed: Option<bool>, graph: Option<&GraphQuery>) -> (r: bool)
    ensures
        r == use_autoseed_spec(graph_autoseed, crate::query::opt_graph(graph)),
{
    let asked = match graph_autoseed {
        Some(b) => b,
        None => false,
    };
    let has_starts = match graph {
        Some(g) => g.start_nodes.len() > 0,
        None => false,
    };
    asked && !has_starts
}

/// The `kind IN [...]` condition for a list of symbol kinds.
pub open spec fn kind_condition(ks: Seq<Seq<char>>) -> Seq<char> {
    "kind IN ["@ + join_with(quoted_all(ks), ", "@) + "]"@
}

/// The conditions the filters impose on hybrid retrieval: types, kinds,
/// project and tenant.
pub open spec fn hybrid_filter_conditions(f: Option<FiltersView>) -> Seq<Seq<char>> {
    match f {
        Some(f) => cond_if(f.object_types, type_condition(f.object_types->0)) + cond_if(
            f.kind,
            kind_condition(f.kind->0),
        ) + cond_if(f.project_id, "project_id = "@ + quoted(f.project_id->0)) + cond_if(
            f.tenant_id,
            "tenant_id = "@ + quoted(f.tenant_id->0),
        ),
        None => Seq::empty(),
    }
}

/// Appends the hybrid conditions of the filters.
fn push_hybrid_conditions(conds: &mut Vec<Vec<char>>, filters: Option<&QueryFilters>)
    ensures
        views(final(conds)@) == views(old(conds)@) + hybrid_filter_conditions(opt_filters(filters)),
{
    let ghost c0 = views(conds@);
    match filters {
        Some(f) => {
            let ghost fv = f@;
            if let Some(ts) = &f.object_types {
                conds.push(crate::query::type_condition_chars(ts));
            }
            let ghost c1 = views(conds@);
            proof {
                assert(c1 =~= c0 + cond_if(fv.object_types, type_condition(fv.object_types->0)));
            }
            if let Some(ks) = &f.kind {
                let joined = quoted_list_chars(ks);
                let mut c = chars_of("kind IN [");
                append_chars(&mut c, &joined);
                append_str(&mut c, "]");
                conds.push(c);
            }
            let ghost c2 = views(conds@);
            proof {
                assert(c2 =~= c1 + cond_if(fv.kind, kind_condition(fv.kind->0)));
            }
            if let Some(p) = &f.project_id {
                let mut c = chars_of("project_id = ");
                let q = quoted_chars(p.as_str());
                append_chars(&mut c, &q);
                conds.push(c);
            }
            let ghost c3 = views(conds@);
            proof {
                assert(c3 =~= c2 + cond_if(fv.project_id, "project_id = "@ + quoted(fv.project_id->0)));
            }
            if let Some(t) = &f.tenant_id {
                let mut c = chars_of("tenant_id = ");
                let q = quoted_chars(t.as_str());
                append_chars(&mut c, &q);
                conds.push(c);
            }
            proof {
                assert(views(conds@) =~= c3 + cond_if(fv.tenant_id, "tenant_id = "@ + quoted(fv.tenant_id->0)));
                assert(views(conds@) =~= c0 + hybrid_filter_conditions(opt_filters(filters)));
            }
        },
        None => {
            proof {
                assert(c0 + Seq::<Seq<char>>::empty() =~= c0);
            }
        },
    }
}

/// The fields hybrid retrieval reads, as a projection body.
pub const HYBRID_PROJECTION_FIELDS: &'static str = "id: string::concat(id), type: type, tenant_id: tenant_id, project_id: project_id, name: name, kind: kind, path: path, language: language, signature: signature, documentation: documentation, provenance: provenance, links: links, embedding: embedding";

/// The same fields as a plain column list.
pub const HYBRID_FIELD_LIST: &'static str = "id, type, tenant_id, project_id, name, kind, path, language, signature, documentation, provenance, links, embedding";

/// The keyword query of hybrid retrieval.
pub open spec fn hybrid_text_query_spec(text: Option<Seq<char>>, filters: Option<FiltersView>, limit: nat) -> Seq<char> {
    let conds = cond_if(text, text_condition(text->0)) + hybrid_filter_conditions(filters);
    "SELECT VALUE { "@ + HYBRID_PROJECTION_FIELDS@ + " } FROM objects"@ + conditions_clause(conds, " WHERE "@)
        + " LIMIT "@ + decimal(limit)
}

/// Builds the keyword query of hybrid retrieval.
pub fn build_text_query_string(text: Option<&str>, filters: Option<&QueryFilters>, limit: Option<usize>) -> (r: String)
    ensures
        r@ == hybrid_text_query_spec(opt_str(text), opt_filters(filters), crate::query::limit_or_default(limit)),
{
    let mut conds: Vec<Vec<char>> = Vec::new();
    if let Some(t) = text {
        let tc = chars_of(t);
        let rep = chars_of("\\'");
        let q = replace_char_with(&tc, '\'', &rep);
        let mut c = chars_of("(name CONTAINS '");
        append_chars(&mut c, &q);
        append_str(&mut c, "' OR title CONTAINS '");
        append_chars(&mut c, &q);
        append_str(&mut c, "' OR description CONTAINS '");
        append_chars(&mut c, &q);
        append_str(&mut c, "' OR documentation CONTAINS '");
        append_chars(&mut c, &q);
        append_str(&mut c, "')");
        conds.push(c);
        proof {
            assert(c@ =~= text_condition(t@));
        }
    }
    proof {
        assert(views(conds@) =~= cond_if(opt_str(text), text_condition(opt_str(text)->0)));
    }
    push_hybrid_conditions(&mut conds, filters);
    let mut v = chars_of("SELECT VALUE { ");
    append_str(&mut v, HYBRID_PROJECTION_FIELDS);
    append_str(&mut v, " } FROM objects");
    crate::query::append_conditions(&mut v, &conds, " WHERE ");
    append_str(&mut v, " LIMIT ");
    let l: usize = match limit {
        Some(l) => l,
        None => 10,
    };
    append_decimal(&mut v, l as u64);
    proof {
        assert(v@ =~= hybrid_text_query_spec(opt_str(text), opt_filters(filters), crate::query::limit_or_default(limit)));
    }
    string_of(&v)
}

/// The vector query of hybrid retrieval; `vector_text` is the query
/// vector's components separated by `", "`.
pub open spec fn hybrid_vector_query_spec(filters: Option<FiltersView>, limit: nat, vector_text: Seq<char>) -> Seq<char> {
    let inner = "SELECT "@ + HYBRID_FIELD_LIST@ + " FROM objects WHERE embedding IS NOT NONE AND embedding IS NOT NULL"@
        + conditions_clause(hybrid_filter_conditions(filters), " AND "@);
    let ranked = "SELECT "@ + HYBRID_FIELD_LIST@ + ", vector::similarity::cosine(embedding, ["@ + vector_text
        + "]) AS similarity FROM ("@ + inner + ") ORDER BY similarity DESC LIMIT "@ + decimal(limit);
    "SELECT VALUE { "@ + HYBRID_PROJECTION_FIELDS@ + ", similarity: similarity } FROM ("@ + ranked + ")"@
}

/// A condition among the conditions is inside their clause.
proof fn lemma_clause_holds(conds: Seq<Seq<char>>, prefix: Seq<char>, c: Seq<char>)
    requires
        conds.contains(c),
    ensures
        contains_sub(conditions_clause(conds, prefix), c),
{
    let j = choose|j: int| 0 <= j < conds.len() && conds[j] == c;
    join_holds_each_part(conds, " AND "@, j);
    sub_in_concat(prefix, join_with(conds, " AND "@), Seq::empty(), c);
    assert(prefix + join_with(conds, " AND "@) + Seq::<char>::empty() =~= conditions_clause(conds, prefix));
}

/// Every filter that is present yields its condition among the hybrid
/// conditions.
proof fn lemma_filter_conditions_present(f: FiltersView)
    ensures
        f.object_types is Some ==> hybrid_filter_conditions(Some(f)).contains(type_condition(f.object_types->0)),
        f.kind is Some ==> hybrid_filter_conditions(Some(f)).contains(kind_condition(f.kind->0)),
        f.project_id is Some ==> hybrid_filter_conditions(Some(f)).contains("project_id = "@ + quoted(f.project_id->0)),
        f.tenant_id is Some ==> hybrid_filter_conditions(Some(f)).contains("tenant_id = "@ + quoted(f.tenant_id->0)),
{
    let a = cond_if(f.object_types, type_condition(f.object_types->0));
    let b = cond_if(f.kind, kind_condition(f.kind->0));
    let c = cond_if(f.project_id, "project_id = "@ + quoted(f.project_id->0));
    let d = cond_if(f.tenant_id, "tenant_id = "@ + quoted(f.tenant_id->0));
    let all = hybrid_filter_conditions(Some(f));
    assert(all == a + b + c + d);
    if f.object_types is Some {
        assert(all[0] == type_condition(f.object_types->0));
    }
    if f.kind is Some {
        assert(all[a.len() as int] == kind_condition(f.kind->0));
    }
    if f.project_id is Some {
        assert(all[(a.len() + b.len()) as int] == "project_id = "@ + quoted(f.project_id->0));
    }
    if f.tenant_id is Some {
        assert(all[(a.len() + b.len() + c.len()) as int] == "tenant_id = "@ + quoted(f.tenant_id->0));
    }
}

/// The hybrid keyword and vector queries apply every filter that is
/// present: a named tenant, project, list of types or list of kinds puts
/// its condition into both queries, and the searched text puts its
/// condition into the keyword query.
pub proof fn hybrid_queries_apply_every_filter(
    text: Option<Seq<char>>,
    f: FiltersView,
    limit: nat,
    vector_text: Seq<char>,
)
    ensures
        f.tenant_id matches Some(t) ==> contains_sub(hybrid_text_query_spec(text, Some(f), limit), "tenant_id = "@ + quoted(t))
            && contains_sub(hybrid_vector_query_spec(Some(f), limit, vector_text), "tenant_id = "@ + quoted(t)),
        f.project_id matches Some(p) ==> contains_sub(hybrid_text_query_spec(text, Some(f), limit), "project_id = "@ + quoted(p))
            && contains_sub(hybrid_vector_query_spec(Some(f), limit, vector_text), "project_id = "@ + quoted(p)),
        f.object_types matches Some(ts) ==> contains_sub(hybrid_text_query_spec(text, Some(f), limit), type_condition(ts))
            && contains_sub(hybrid_vector_query_spec(Some(f), limit, vector_text), type_condition(ts)),
        f.kind matches Some(ks) ==> contains_sub(hybrid_text_query_spec(text, Some(f), limit), kind_condition(ks))
            && contains_sub(hybrid_vector_query_spec(Some(f), limit, vector_text), kind_condition(ks)),
        text matches Some(t) ==> contains_sub(hybrid_text_query_spec(text, Some(f), limit), text_condition(t)),
{
    lemma_filter_conditions_present(f);
    let fc = hybrid_filter_conditions(Some(f));
    let tc = cond_if(text, text_condition(text->0)) + fc;
    let head = "SELECT VALUE { "@ + HYBRID_PROJECTION_FIELDS@ + " } FROM objects"@;
    let tail = " LIMIT "@ + decimal(limit);
    assert(hybrid_text_query_spec(text, Some(f), limit) == head + conditions_clause(tc, " WHERE "@) + tail);
    let inner_head = "SELECT "@ + HYBRID_FIELD_LIST@ + " FROM objects WHERE embedding IS NOT NONE AND embedding IS NOT NULL"@;
    let inner = inner_head + conditions_clause(fc, " AND "@);
    let vq = hybrid_vector_query_spec(Some(f), limit, vector_text);
    let ranked_head = "SELECT "@ + HYBRID_FIELD_LIST@ + ", vector::similarity::cosine(embedding, ["@ + vector_text
        + "]) AS similarity FROM ("@;
    let ranked_tail = ") ORDER BY similarity DESC LIMIT "@ + decimal(limit);
    let outer_head = "SELECT VALUE { "@ + HYBRID_PROJECTION_FIELDS@ + ", similarity: similarity } FROM ("@;
    assert(vq == outer_head + (ranked_head + inner + ranked_tail) + ")"@);
    assert forall|c: Seq<char>| fc.contains(c) implies contains_sub(hybrid_text_query_spec(text, Some(f), limit), c)
        && contains_sub(vq, c) by {
        let j = choose|j: int| 0 <= j < fc.len() && fc[j] == c;
        assert(tc[tc.len() - fc.len() + j] == c);
        lemma_clause_holds(tc, " WHERE "@, c);
        sub_in_concat(head, conditions_clause(tc, " WHERE "@), tail, c);
        lemma_clause_holds(fc, " AND "@, c);
        sub_in_concat(inner_head, conditions_clause(fc, " AND "@), Seq::empty(), c);
        assert(inner_head + conditions_clause(fc, " AND "@) + Seq::<char>::empty() =~= inner);
        sub_in_concat(ranked_head, inner, ranked_tail, c);
        sub_in_concat(outer_head, ranked_head + inner + ranked_tail, ")"@, c);
    }
    if let Some(t) = text {
        assert(tc[0] == text_condition(t));
        lemma_clause_holds(tc, " WHERE "@, text_condition(t));
        sub_in_concat(head, conditions_clause(tc, " WHERE "@), tail, text_condition(t));
    }
}

/// Builds the vector query of hybrid retrieval.
pub fn build_vector_query_string(filters: Option<&QueryFilters>, limit: Option<usize>, vector_text: &str) -> (r: String)
    ensures
        r@ == hybrid_vector_query_spec(opt_filters(filters), crate::query::limit_or_default(limit), vector_text@),
{
    let mut conds: Vec<Vec<char>> = Vec::new();
    push_hybrid_conditions(&mut conds, filters);
    proof {
        assert(views(conds@) =~= hybrid_filter_conditions(opt_filters(filters)));
    }
    let mut inner = chars_of("SELECT ");
    append_str(&mut inner, HYBRID_FIELD_LIST);
    append_str(&mut inner, " FROM objects WHERE embedding IS NOT NONE AND embedding IS NOT NULL");
    crate::query::append_conditions(&mut inner, &conds, " AND ");
    let l: usize = match limit {
        Some(l) => l,
        None => 10,
    };
    let mut ranked = chars_of("SELECT ");
    append_str(&mut ranked, HYBRID_FIELD_LIST);
    append_str(&mut ranked, ", vector::similarity::cosine(embedding, [");
    append_str(&mut ranked, vector_text);
    append_str(&mut ranked, "]) AS similarity FROM (");
    append_chars(&mut ranked, &inner);
    append_str(&mut ranked, ") ORDER BY similarity DESC LIMIT ");
    append_decimal(&mut ranked, l as u64);
    let mut v = chars_of("SELECT VALUE { ");
    append_str(&mut v, HYBRID_PROJECTION_FIELDS);
    append_str(&mut v, ", similarity: similarity } FROM (");
    append_chars(&mut v, &ranked);
    append_str(&mut v, ")");
    proof {
        assert(v@ =~= hybrid_vector_query_spec(opt_filters(filters), crate::query::limit_or_default(limit), vector_text@));
    }
    string_of(&v)
}

/// A graph request with the hybrid defaults filled in: the collect
/// algorithm, depth 1 and the default relationships where it names none.
pub fn apply_graph_defaults(graph: &GraphQuery) -> (r: GraphQuery)
    ensures
        r@.start_nodes == graph@.start_nodes,
        r@.direction == graph@.direction,
        r@.target_node == graph@.target_node,
        r@.algorithm == (match graph@.algorithm {
            Some(a) => Some(a),
            None => Some(TraversalAlgorithm::Collect),
        }),
        r@.max_depth == (match graph@.max_depth {
            Some(d) => Some(d),
            None => Some(DEFAULT_GRAPH_MAX_DEPTH),
        }),
        r@.relation_types == (match graph@.relation_types {
            Some(t) => Some(t),
            None => Some(default_graph_relations()),
        }),
{
    let relation_types = match &graph.relation_types {
        Some(t) => Some(crate::artifacts::copy_strings(t)),
        None => Some(default_graph_relation_strings()),
    };
    let algorithm = match graph.algorithm {
        Some(a) => Some(a),
        None => Some(TraversalAlgorithm::Collect),
    };
    let max_depth = match graph.max_depth {
        Some(d) => Some(d),
        None => Some(DEFAULT_GRAPH_MAX_DEPTH),
    };
    GraphQuery {
        start_nodes: crate::artifacts::copy_strings(&graph.start_nodes),
        relation_types,
        max_depth,
        direction: graph.direction,
        algorithm,
        target_node: match &graph.target_node {
            Some(t) => Some(t.clone()),
            None => None,
        },
    }
}

/// The start nodes seeded from hit ids (keyword hits, then vector hits):
/// each readable, not yet taken UUID, taken in order, stopping once ten are
/// taken.
pub open spec fn seed_ids(hits: Seq<Option<Seq<char>>>) -> Seq<Seq<char>>
    decreases hits.len(),
{
    if hits.len() == 0 {
        Seq::empty()
    } else {
        let prev = seed_ids(hits.drop_last());
        if prev.len() >= MAX_AUTOSEED_NODES {
            prev
        } else {
            match crate::graph::neighbor_id(hits.last()) {
                Some(c) => if prev.contains(c) {
                    prev
                } else {
                    prev.push(c)
                },
                None => prev,
            }
        }
    }
}

/// The seeded graph request: the seeded start nodes, the caller's
/// relationships, depth and direction where given (else the defaults,
/// depth 1 and both directions), collecting; none without start nodes.
pub open spec fn autoseed_spec(hits: Seq<Option<Seq<char>>>, overrides: Option<crate::query::GraphView>) -> Option<crate::query::GraphView> {
    let ids = seed_ids(hits);
    if ids.len() == 0 {
        None
    } else {
        Some(
            crate::query::GraphView {
                start_nodes: ids,
                relation_types: match overrides {
                    Some(o) if o.relation_types is Some => o.relation_types,
                    _ => Some(default_graph_relations()),
                },
                max_depth: match overrides {
                    Some(o) if o.max_depth is Some => o.max_depth,
                    _ => Some(DEFAULT_GRAPH_MAX_DEPTH),
                },
                direction: match overrides {
                    Some(o) if o.direction is Some => o.direction,
                    _ => Some(GraphDirection::Both),
                },
                algorithm: Some(TraversalAlgorithm::Collect),
                target_node: None,
            },
        )
    }
}

/// Seeds the graph request from the ids of the keyword and vector hits.
pub fn build_autoseed_graph_query(hit_ids: &Vec<Option<String>>, overrides: Option<&GraphQuery>) -> (r: Option<GraphQuery>)
    ensures
        match r {
            Some(g) => autoseed_spec(crate::graph::answer_views(hit_ids@), crate::query::opt_graph(overrides)) == Some(g@),
            None => autoseed_spec(crate::graph::answer_views(hit_ids@), crate::query::opt_graph(overrides)) is None,
        },
{
    let ghost hv = crate::graph::answer_views(hit_ids@);
    let mut ids: Vec<String> = Vec::new();
    let mut k: usize = 0;
    while k < hit_ids.len()
        invariant
            k <= hit_ids@.len(),
            hv == crate::graph::answer_views(hit_ids@),
            string_views(ids@) == seed_ids(hv.take(k as int)),
            ids@.len() <= MAX_AUTOSEED_NODES,
            ids@.len() >= MAX_AUTOSEED_NODES ==> seed_ids(hv) == string_views(ids@),
        decreases hit_ids@.len() - k,
    {
        proof {
            assert(hv.take(k + 1).drop_last() =~= hv.take(k as int));
            assert(hv.take(k + 1).last() == opt_view(hit_ids@[k as int]));
        }
        if ids.len() >= MAX_AUTOSEED_NODES {
            proof {
                assert(seed_ids(hv.take(k + 1)) == seed_ids(hv.take(k as int)));
            }
        } else {
            let parsed: Option<String> = match &hit_ids[k] {
                Some(raw) => crate::query::parse_uuidish(raw.as_str()),
                None => None,
            };
            if let Some(c) = parsed {
                if !contains_string(&ids, &c) {
                    let ghost o = ids@;
                    ids.push(c);
                    proof {
                        assert(string_views(ids@) =~= string_views(o).push(ids@[ids@.len() - 1]@));
                    }
                }
            }
        }
        k = k + 1;
        proof {
            if ids@.len() >= MAX_AUTOSEED_NODES {
                lemma_seed_ids_full(hv, k as int);
            }
        }
    }
    proof {
        assert(hv.take(hit_ids@.len() as int) == hv);
    }
    if ids.len() == 0 {
        return None;
    }
    let relation_types = match overrides {
        Some(o) if o.relation_types.is_some() => match &o.relation_types {
            Some(t) => Some(crate::artifacts::copy_strings(t)),
            None => None,
        },
        _ => Some(default_graph_relation_strings()),
    };
    let max_depth = match overrides {
        Some(o) if o.max_depth.is_some() => o.max_depth,
        _ => Some(DEFAULT_GRAPH_MAX_DEPTH),
    };
    let direction = match overrides {
        Some(o) if o.direction.is_some() => o.direction,
        _ => Some(GraphDirection::Both),
    };
    Some(GraphQuery {
        start_nodes: ids,
        relation_types,
        max_depth,
        direction,
        algorithm: Some(TraversalAlgorithm::Collect),
        target_node: None,
    })
}

/// Once ten start nodes are seeded from a prefix of the hits, the later hits
/// add none.
proof fn lemma_seed_ids_full(hits: Seq<Option<Seq<char>>>, k: int)
    requires
        0 <= k <= hits.len(),
        seed_ids(hits.take(k)).len() >= MAX_AUTOSEED_NODES,
    ensures
        seed_ids(hits) == seed_ids(hits.take(k)),
    decreases hits.len() - k,
{
    if k < hits.len() {
        assert(hits.take(k + 1).drop_last() =~= hits.take(k));
        assert(seed_ids(hits.take(k + 1)) == seed_ids(hits.take(k)));
        lemma_seed_ids_full(hits, k + 1);
    } else {
        assert(hits.take(k) =~= hits);
    }
}

/// Which graph hits a graph intersection keeps: those whose id is among the
/// keyword and vector hit ids.
pub fn intersect_keep(graph_ids: &Vec<Option<String>>, other_ids: &Vec<Option<String>>) -> (r: Vec<bool>)
    ensures
        r@.len() == graph_ids@.len(),
        forall|i: int|
            0 <= i < r@.len() ==> #[trigger] r@[i] == (graph_ids@[i] matches Some(g) && crate::graph::answer_views(
                other_ids@,
            ).contains(Some(g@))),
{
    let mut r: Vec<bool> = Vec::new();
    let mut k: usize = 0;
    while k < graph_ids.len()
        invariant
            k <= graph_ids@.len(),
            r@.len() == k,
            forall|i: int|
                0 <= i < k ==> #[trigger] r@[i] == (graph_ids@[i] matches Some(g) && crate::graph::answer_views(
                    other_ids@,
                ).contains(Some(g@))),
        decreases graph_ids@.len() - k,
    {
        let keep = match &graph_ids[k] {
            Some(g) => {
                let mut found = false;
                let mut j: usize = 0;
                while j < other_ids.len()
                    invariant
                        j <= other_ids@.len(),
                        found == exists|x: int| 0 <= x < j && crate::graph::answer_views(other_ids@)[x] == Some(g@),
                    decreases other_ids@.len() - j,
                {
                    if let Some(o) = &other_ids[j] {
                        if *o == *g {
                            found = true;
                            proof {
                                assert(crate::graph::answer_views(other_ids@)[j as int] == Some(g@));
                            }
                        }
                    }
                    proof {
                        if !found {
                            assert forall|x: int| 0 <= x < j + 1 implies crate::graph::answer_views(other_ids@)[x] != Some(g@) by {
                                if x == j {
                                    assert(crate::graph::answer_views(other_ids@)[x] == opt_view(other_ids@[x]));
                                }
                            }
                        }
                    }
                    j = j + 1;
                }
                found
            },
            None => false,
        };
        r.push(keep);
        k = k + 1;
    }
    r
}

/// The keyword score of a hybrid hit in tenths: 10 without a query or for a
/// name or title equal to it, 8 for a name or title holding it (the name is
/// looked at first), 6 otherwise. Comparisons ignore case.
pub open spec fn hybrid_text_score_spec(name: Option<Seq<char>>, title: Option<Seq<char>>, query: Option<Seq<char>>) -> u8 {
    match query {
        None => 10,
        Some(q) => {
            let ql = lowercase(q);
            if crate::query::field_is(name, ql) {
                10
            } else if crate::query::field_holds(name, ql) {
                8
            } else if crate::query::field_is(title, ql) {
                10
            } else if crate::query::field_holds(title, ql) {
                8
            } else {
                6
            }
        },
    }
}

/// Scores a hybrid keyword hit in tenths (the caller divides by ten).
pub fn hybrid_text_score_tenths(name: Option<&str>, title: Option<&str>, query: Option<&str>) -> (r: u8)
    ensures
        r == hybrid_text_score_spec(opt_str(name), opt_str(title), opt_str(query)),
{
    let s = crate::query::text_score_tenths(name, title, None, None, query);
    if s == 4 {
        6
    } else {
        s
    }
}

/// The weight of a relationship in hundredths.
pub open spec fn relation_weight_spec(rel: Seq<char>) -> nat {
    if rel == "depends_on"@ {
        100
    } else if rel == "defined_in"@ {
        95
    } else if rel == "calls"@ {
        90
    } else if rel == "implements"@ {
        85
    } else if rel == "modifies"@ {
        80
    } else if rel == "justified_by"@ {
        75
    } else if rel == "produced"@ {
        70
    } else {
        50
    }
}

/// The total weight of relationships in hundredths.
pub open spec fn weight_total(rels: Seq<Seq<char>>) -> nat
    decreases rels.len(),
{
    if rels.len() == 0 {
        0
    } else {
        weight_total(rels.drop_last()) + relation_weight_spec(rels.last())
    }
}

/// The relationships a graph hit's weight averages over: those asked for,
/// or the defaults when none are.
pub open spec fn weighted_relations(types: Option<Seq<Seq<char>>>) -> Seq<Seq<char>> {
    match types {
        Some(t) if t.len() > 0 => t,
        _ => default_graph_relations(),
    }
}

/// The weight of a graph hit, as the total in hundredths and the count it
/// averages over (the caller divides).
pub fn relation_weight_parts(types: &Option<Vec<String>>) -> (r: (u128, usize))
    ensures
        r.0 == weight_total(weighted_relations(crate::query::opt_strings(*types))),
        r.1 == weighted_relations(crate::query::opt_strings(*types)).len(),
{
    let defaults = default_graph_relation_strings();
    let use_given = match types {
        Some(t) => t.len() > 0,
        None => false,
    };
    let rels: &Vec<String> = if use_given {
        match types {
            Some(t) => t,
            None => &defaults,
        }
    } else {
        &defaults
    };
    proof {
        assert(string_views(rels@) == weighted_relations(crate::query::opt_strings(*types)));
    }
    let ghost rv = string_views(rels@);
    let mut total: u128 = 0;
    let mut k: usize = 0;
    while k < rels.len()
        invariant
            k <= rels@.len(),
            rv == string_views(rels@),
            total == weight_total(rv.take(k as int)),
            total <= 100 * k,
        decreases rels@.len() - k,
    {
        proof {
            assert(rv.take(k + 1).drop_last() =~= rv.take(k as int));
        }
        let c = chars_of(rels[k].as_str());
        let w: u128 = if crate::text::eq_str(&c, "depends_on") {
            100
        } else if crate::text::eq_str(&c, "defined_in") {
            95
        } else if crate::text::eq_str(&c, "calls") {
            90
        } else if crate::text::eq_str(&c, "implements") {
            85
        } else if crate::text::eq_str(&c, "modifies") {
            80
        } else if crate::text::eq_str(&c, "justified_by") {
            75
        } else if crate::text::eq_str(&c, "produced") {
            70
        } else {
            50
        };
        total = total + w;
        k = k + 1;
    }
    proof {
        assert(rv.take(rels@.len() as int) == rv);
    }
    (total, rels.len())
}


/// A seeded graph search starts from at most ten nodes, none twice.
pub proof fn seed_ids_bounded_and_distinct(hits: Seq<Option<Seq<char>>>)
    ensures
        seed_ids(hits).len() <= MAX_AUTOSEED_NODES,
        seed_ids(hits).no_duplicates(),
    decreases hits.len(),
{
    if hits.len() > 0 {
        seed_ids_bounded_and_distinct(hits.drop_last());
        let prev = seed_ids(hits.drop_last());
        if prev.len() < MAX_AUTOSEED_NODES {
            if let Some(c) = crate::graph::neighbor_id(hits.last()) {
                if !prev.contains(c) {
                    assert forall|i: int, j: int| 0 <= i < j < prev.push(c).len() implies prev.push(c)[i] != prev.push(c)[j] by {
                        if j == prev.len() {
                            assert(prev.contains(prev[i]));
                        }
                    }
                }
            }
        }
    }
}

} // verus!
