use amp::query::{
    build_graph_query_string, build_query_string, build_vector_query_string, generate_explanation,
    multi_hop_explanation, parse_uuidish, route_query, text_score_tenths, GraphDirection,
    GraphQuery, QueryFilters, QueryRoute, TraversalAlgorithm,
};

const PROJ: &str = "{ id: string::concat(id), type: type, tenant_id: tenant_id, project_id: project_id, name: name, title: title, kind: kind, path: path, language: language, signature: signature, documentation: documentation, summary: summary, description: description, content: content, tags: tags, linked_files: linked_files, file_path: file_path, files_changed: files_changed, decision: decision, diff_summary: diff_summary, context: context, category: category, created_at: created_at, updated_at: updated_at, provenance: provenance, links: links, embedding: embedding, input_summary: input_summary, status: status, duration_ms: duration_ms, confidence: confidence }";
const FIELDS: &str = "id, type, tenant_id, project_id, name, title, kind, path, language, signature, documentation, summary, description, content, tags, linked_files, file_path, files_changed, decision, diff_summary, context, category, created_at, updated_at, provenance, links, embedding, input_summary, status, duration_ms, confidence";

fn filters() -> QueryFilters {
    QueryFilters {
        object_types: Some(vec!["symbol".to_string(), "it's".to_string()]),
        kind: None,
        project_id: Some("p1".to_string()),
        tenant_id: None,
        created_after: Some(-5),
        created_before: Some(1700000000),
    }
}

#[test]
fn keyword_query_escapes_and_filters() {
    let q = build_query_string(Some("o'k"), Some(&filters()), None);
    let expected = format!(
        "SELECT VALUE {} FROM objects WHERE (name CONTAINS 'o\\'k' OR title CONTAINS 'o\\'k' OR description CONTAINS 'o\\'k' OR documentation CONTAINS 'o\\'k') AND type IN ['symbol', 'it\\'s'] AND project_id = 'p1' AND created_at >= time::from::unix(-5) AND created_at <= time::from::unix(1700000000) LIMIT 10",
        PROJ
    );
    assert_eq!(q, expected);
}

#[test]
fn keyword_query_without_conditions() {
    assert_eq!(build_query_string(None, None, Some(3)), format!("SELECT VALUE {} FROM objects LIMIT 3", PROJ));
}

#[test]
fn vector_query_ranks_by_similarity() {
    let f = QueryFilters {
        object_types: None,
        kind: None,
        project_id: None,
        tenant_id: Some("t".to_string()),
        created_after: None,
        created_before: None,
    };
    let q = build_vector_query_string(Some(&f), Some(7), "0.5, 1");
    let inner = format!("SELECT {} FROM objects WHERE embedding IS NOT NONE AND embedding IS NOT NULL AND tenant_id = 't'", FIELDS);
    let ranked = format!(
        "SELECT {}, vector::similarity::cosine(embedding, [0.5, 1]) AS similarity FROM ({}) ORDER BY similarity DESC LIMIT 7",
        FIELDS, inner
    );
    let outer_fields = &PROJ[2..PROJ.len() - 2];
    assert_eq!(q, format!("SELECT VALUE {{ {}, similarity: similarity }} FROM ({})", outer_fields, ranked));
}

fn graph(direction: Option<GraphDirection>, relations: Option<Vec<&str>>) -> GraphQuery {
    GraphQuery {
        start_nodes: vec!["a1".to_string(), "b2".to_string()],
        relation_types: relations.map(|r| r.iter().map(|s| s.to_string()).collect()),
        max_depth: None,
        direction,
        algorithm: None,
        target_node: None,
    }
}

#[test]
fn graph_query_follows_direction_and_relations() {
    let q = build_graph_query_string(&graph(None, None), None, 10);
    assert_eq!(
        q,
        format!(
            "SELECT VALUE {{ connected: ->(depends_on|defined_in|calls|justified_by|modifies|implements|produced)->objects.{} }} FROM objects:`a1`, objects:`b2` LIMIT 10",
            PROJ
        )
    );
    let q = build_graph_query_string(&graph(Some(GraphDirection::Inbound), Some(vec!["calls"])), Some(&filters()), 4);
    assert_eq!(
        q,
        format!(
            "SELECT VALUE {{ connected: <-calls<-objects.{} }} FROM objects:`a1`, objects:`b2` WHERE type IN ['symbol', 'it\\'s'] AND project_id = 'p1' LIMIT 4",
            PROJ
        )
    );
    let q = build_graph_query_string(&graph(Some(GraphDirection::Both), Some(vec!["calls", "modifies"])), None, 1);
    assert_eq!(
        q,
        format!(
            "SELECT VALUE {{ outbound: ->(calls|modifies)->objects.{}, inbound: <-(calls|modifies)<-objects.{} }} FROM objects:`a1`, objects:`b2` LIMIT 1",
            PROJ, PROJ
        )
    );
}

#[test]
fn routes() {
    let mut g = graph(None, None);
    assert_eq!(route_query(Some(true), Some(&g)), QueryRoute::Hybrid);
    assert_eq!(route_query(None, Some(&g)), QueryRoute::SingleHop);
    g.max_depth = Some(11);
    assert_eq!(route_query(Some(false), Some(&g)), QueryRoute::DepthRejected);
    g.max_depth = Some(10);
    g.algorithm = Some(TraversalAlgorithm::Shortest);
    assert_eq!(route_query(None, Some(&g)), QueryRoute::MultiHop);
    let two = graph(None, Some(vec!["calls", "modifies"]));
    assert_eq!(route_query(None, Some(&two)), QueryRoute::MultiHop);
    assert_eq!(route_query(None, None), QueryRoute::Search);
}

#[test]
fn explanations() {
    assert_eq!(multi_hop_explanation(Some(TraversalAlgorithm::Collect)), "Multi-hop Collect traversal result");
    assert_eq!(multi_hop_explanation(None), "Multi-hop  traversal result");
    assert_eq!(
        generate_explanation(Some("0.912"), Some("auth"), None, None, None, None),
        "Semantic similarity to 'auth' (score: 0.912)"
    );
    assert_eq!(generate_explanation(Some("0.500"), None, None, None, None, None), "Vector similarity (score: 0.500)");
    assert_eq!(
        generate_explanation(None, Some("Auth"), Some("login"), Some("User AUTH flow"), None, Some(&filters())),
        "Matched text query 'Auth' in title; Filtered by type=symbol,it's, project=p1"
    );
    assert_eq!(generate_explanation(None, None, None, None, None, None), "Matched query criteria");
    assert_eq!(generate_explanation(None, Some("zz"), Some("a"), None, None, None), "Matched text query 'zz' in content");
}

#[test]
fn keyword_scores_in_tenths() {
    assert_eq!(text_score_tenths(Some("Auth"), None, None, None, Some("auth")), 10);
    assert_eq!(text_score_tenths(Some("OAuth flow"), None, None, None, Some("auth")), 8);
    assert_eq!(text_score_tenths(Some("x"), Some("AUTH"), None, None, Some("auth")), 10);
    assert_eq!(text_score_tenths(None, None, Some("about auth"), None, Some("auth")), 6);
    assert_eq!(text_score_tenths(None, None, None, None, Some("auth")), 4);
    assert_eq!(text_score_tenths(None, None, None, None, None), 10);
}

#[test]
fn object_ids_with_prefix() {
    assert_eq!(
        parse_uuidish("objects:550e8400-e29b-41d4-a716-446655440000"),
        Some("550e8400-e29b-41d4-a716-446655440000".to_string())
    );
    assert_eq!(parse_uuidish("not-a-uuid"), None);
}
