use amp::hybrid::{
    apply_graph_defaults, build_autoseed_graph_query, build_text_query_string,
    build_vector_query_string, default_graph_relation_strings, hybrid_text_score_tenths,
    intersect_keep, relation_weight_parts, use_autoseed, HybridRetrievalError,
    DEFAULT_GRAPH_CAP, HYBRID_FIELD_LIST, HYBRID_PROJECTION_FIELDS, MAX_AUTOSEED_NODES,
};
use amp::query::{GraphDirection, GraphQuery, QueryFilters, TraversalAlgorithm};

const U1: &str = "550e8400-e29b-41d4-a716-446655440000";
const U2: &str = "6ba7b810-9dad-11d1-80b4-00c04fd430c8";

fn graph(starts: Vec<&str>) -> GraphQuery {
    GraphQuery {
        start_nodes: starts.into_iter().map(|s| s.to_string()).collect(),
        relation_types: None,
        max_depth: None,
        direction: None,
        algorithm: None,
        target_node: None,
    }
}

fn no_filters() -> QueryFilters {
    QueryFilters {
        object_types: None,
        kind: None,
        project_id: None,
        tenant_id: None,
        created_after: None,
        created_before: None,
    }
}

#[test]
fn hybrid_error_messages() {
    assert_eq!(HybridRetrievalError::Timeout.to_display_string(), "Query timeout");
    assert_eq!(
        HybridRetrievalError::DatabaseError("down".to_string()).to_display_string(),
        "Database error: down"
    );
    assert_eq!(
        HybridRetrievalError::InvalidQuery("bad".to_string()).to_display_string(),
        "Invalid query: bad"
    );
    assert_eq!(
        HybridRetrievalError::PartialFailure("one".to_string()).to_display_string(),
        "Partial failure: one"
    );
}

#[test]
fn default_relations() {
    assert_eq!(
        default_graph_relation_strings(),
        vec!["depends_on", "calls", "implements", "modifies", "defined_in"]
    );
    assert_eq!(DEFAULT_GRAPH_CAP, 50);
}

#[test]
fn autoseed_only_without_start_nodes() {
    assert!(use_autoseed(Some(true), None));
    assert!(use_autoseed(Some(true), Some(&graph(vec![]))));
    assert!(!use_autoseed(Some(true), Some(&graph(vec!["a"]))));
    assert!(!use_autoseed(Some(false), None));
    assert!(!use_autoseed(None, None));
}

#[test]
fn graph_defaults_fill_missing_fields() {
    let g = apply_graph_defaults(&graph(vec!["s"]));
    assert_eq!(g.start_nodes, vec!["s".to_string()]);
    assert_eq!(g.algorithm, Some(TraversalAlgorithm::Collect));
    assert_eq!(g.max_depth, Some(1));
    assert_eq!(g.relation_types, Some(default_graph_relation_strings()));
    assert_eq!(g.direction, None);

    let mut given = graph(vec![]);
    given.max_depth = Some(3);
    given.algorithm = Some(TraversalAlgorithm::Path);
    given.relation_types = Some(vec!["calls".to_string()]);
    let g2 = apply_graph_defaults(&given);
    assert_eq!(g2.max_depth, Some(3));
    assert_eq!(g2.algorithm, Some(TraversalAlgorithm::Path));
    assert_eq!(g2.relation_types, Some(vec!["calls".to_string()]));
}

#[test]
fn autoseed_takes_distinct_readable_ids() {
    let hits = vec![
        Some(format!("objects:{}", U1)),
        None,
        Some("not-a-uuid".to_string()),
        Some(U1.to_string()),
        Some(U2.to_uppercase()),
    ];
    let g = build_autoseed_graph_query(&hits, None).unwrap();
    assert_eq!(g.start_nodes, vec![U1.to_string(), U2.to_string()]);
    assert_eq!(g.algorithm, Some(TraversalAlgorithm::Collect));
    assert_eq!(g.max_depth, Some(1));
    assert_eq!(g.direction, Some(GraphDirection::Both));
    assert_eq!(g.relation_types, Some(default_graph_relation_strings()));
    assert_eq!(g.target_node, None);
}

#[test]
fn autoseed_keeps_overrides() {
    let mut o = graph(vec![]);
    o.max_depth = Some(2);
    o.direction = Some(GraphDirection::Outbound);
    o.relation_types = Some(vec!["calls".to_string()]);
    let g = build_autoseed_graph_query(&vec![Some(U1.to_string())], Some(&o)).unwrap();
    assert_eq!(g.max_depth, Some(2));
    assert_eq!(g.direction, Some(GraphDirection::Outbound));
    assert_eq!(g.relation_types, Some(vec!["calls".to_string()]));
}

#[test]
fn autoseed_without_ids_is_none() {
    assert!(build_autoseed_graph_query(&vec![None, Some("x".to_string())], None).is_none());
    assert!(build_autoseed_graph_query(&Vec::new(), None).is_none());
}

#[test]
fn autoseed_stops_at_ten() {
    let hits: Vec<Option<String>> = (0..15)
        .map(|i| Some(format!("00000000-0000-0000-0000-0000000000{:02}", i)))
        .collect();
    let g = build_autoseed_graph_query(&hits, None).unwrap();
    assert_eq!(g.start_nodes.len(), MAX_AUTOSEED_NODES);
    assert_eq!(g.start_nodes[9], "00000000-0000-0000-0000-000000000009");
}

#[test]
fn intersection_keeps_shared_ids() {
    let graph_ids = vec![Some("a".to_string()), Some("b".to_string()), None];
    let others = vec![None, Some("b".to_string())];
    assert_eq!(intersect_keep(&graph_ids, &others), vec![false, true, false]);
}

#[test]
fn hybrid_keyword_scores() {
    assert_eq!(hybrid_text_score_tenths(Some("Auth"), None, None), 10);
    assert_eq!(hybrid_text_score_tenths(Some("Auth"), None, Some("auth")), 10);
    assert_eq!(hybrid_text_score_tenths(Some("AuthService"), None, Some("auth")), 8);
    assert_eq!(hybrid_text_score_tenths(None, Some("auth"), Some("AUTH")), 10);
    assert_eq!(hybrid_text_score_tenths(Some("x"), Some("my auth"), Some("auth")), 8);
    assert_eq!(hybrid_text_score_tenths(Some("x"), None, Some("auth")), 6);
}

#[test]
fn relation_weights() {
    assert_eq!(relation_weight_parts(&None), (100 + 90 + 85 + 80 + 95, 5));
    assert_eq!(relation_weight_parts(&Some(Vec::new())), (450, 5));
    assert_eq!(
        relation_weight_parts(&Some(vec!["justified_by".to_string(), "other".to_string()])),
        (125, 2)
    );
    assert_eq!(relation_weight_parts(&Some(vec!["produced".to_string()])), (70, 1));
}

#[test]
fn hybrid_text_query() {
    let mut f = no_filters();
    f.kind = Some(vec!["function".to_string()]);
    f.project_id = Some("p1".to_string());
    let q = build_text_query_string(Some("it's"), Some(&f), None);
    assert_eq!(
        q,
        format!(
            "SELECT VALUE {{ {} }} FROM objects WHERE (name CONTAINS 'it\\'s' OR title CONTAINS 'it\\'s' OR description CONTAINS 'it\\'s' OR documentation CONTAINS 'it\\'s') AND kind IN ['function'] AND project_id = 'p1' LIMIT 10",
            HYBRID_PROJECTION_FIELDS
        )
    );
    let plain = build_text_query_string(None, None, Some(3));
    assert_eq!(plain, format!("SELECT VALUE {{ {} }} FROM objects LIMIT 3", HYBRID_PROJECTION_FIELDS));
}

#[test]
fn hybrid_vector_query() {
    let mut f = no_filters();
    f.object_types = Some(vec!["symbol".to_string()]);
    let q = build_vector_query_string(Some(&f), Some(5), "0.5,1");
    let inner = format!(
        "SELECT {} FROM objects WHERE embedding IS NOT NONE AND embedding IS NOT NULL AND type IN ['symbol']",
        HYBRID_FIELD_LIST
    );
    let ranked = format!(
        "SELECT {}, vector::similarity::cosine(embedding, [0.5,1]) AS similarity FROM ({}) ORDER BY similarity DESC LIMIT 5",
        HYBRID_FIELD_LIST, inner
    );
    assert_eq!(
        q,
        format!("SELECT VALUE {{ {}, similarity: similarity }} FROM ({})", HYBRID_PROJECTION_FIELDS, ranked)
    );
}
