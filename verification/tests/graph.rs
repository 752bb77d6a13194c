use amp::graph::{
    neighbor_query, node_fetch_query, plan_multi_hop, relation_list, relationships_query,
    CollectTraversal, GraphTraversalError, MultiHopPlan, PathTraversal, RelationshipQuery,
    ShortestPathSearch, ShortestStep,
};
use amp::query::{GraphDirection, GraphQuery, TraversalAlgorithm};

const A: &str = "00000000-0000-0000-0000-00000000000a";
const B: &str = "00000000-0000-0000-0000-00000000000b";
const C: &str = "00000000-0000-0000-0000-00000000000c";
const D: &str = "00000000-0000-0000-0000-00000000000d";

fn ids(v: &[&str]) -> Vec<Option<String>> {
    v.iter().map(|s| Some(format!("objects:{}", s))).collect()
}

#[test]
fn collect_visits_each_node_once() {
    let mut t = CollectTraversal::new(&vec![A.to_string()], 2);
    let (node, depth) = t.next_node().unwrap();
    assert_eq!((node.as_str(), depth), (A, 0));
    let mut answers = ids(&[B, A, C, B]);
    answers.push(None);
    answers.push(Some("garbage".to_string()));
    assert_eq!(t.accept_neighbors(depth, &answers), vec![0, 2]);
    let (node, depth) = t.next_node().unwrap();
    assert_eq!((node.as_str(), depth), (B, 1));
    assert_eq!(t.accept_neighbors(depth, &ids(&[C, D])), vec![1]);
    let (node, depth) = t.next_node().unwrap();
    assert_eq!((node.as_str(), depth), (C, 1));
    assert!(t.accept_neighbors(depth, &ids(&[A])).is_empty());
    // D sits at depth 2, the limit, and is not expanded.
    assert!(t.next_node().is_none());
}

#[test]
fn paths_never_revisit_a_node() {
    let mut t = PathTraversal::new(A, 3);
    assert_eq!(t.next_node(), Some(A.to_string()));
    t.accept_neighbors(&ids(&[B, C]));
    assert_eq!(t.next_node(), Some(C.to_string()));
    t.accept_neighbors(&ids(&[A, B]));
    // [A, C, B] has length 3, the limit: recorded, not expanded.
    assert_eq!(t.next_node(), Some(B.to_string()));
    t.accept_neighbors(&ids(&[C]));
    assert_eq!(t.next_node(), None);
    let paths = t.into_paths();
    let want: Vec<Vec<String>> = vec![
        vec![A],
        vec![A, C],
        vec![A, C, B],
        vec![A, B],
        vec![A, B, C],
    ]
    .into_iter()
    .map(|p| p.into_iter().map(|s| s.to_string()).collect())
    .collect();
    assert_eq!(paths, want);
}

#[test]
fn shortest_path_is_found_breadth_first() {
    let mut s = ShortestPathSearch::new(A, D, 3);
    assert!(matches!(s.next_step(), ShortestStep::Expand(n) if n == A));
    s.accept_neighbors(&ids(&[B, C]));
    assert!(matches!(s.next_step(), ShortestStep::Expand(n) if n == B));
    s.accept_neighbors(&ids(&[D]));
    assert!(matches!(s.next_step(), ShortestStep::Expand(n) if n == C));
    s.accept_neighbors(&ids(&[D]));
    match s.next_step() {
        ShortestStep::Found(p) => assert_eq!(p, vec![A.to_string(), B.to_string(), D.to_string()]),
        _ => panic!("expected a path"),
    }
}

#[test]
fn shortest_path_respects_the_depth() {
    let mut s = ShortestPathSearch::new(A, D, 1);
    assert!(matches!(s.next_step(), ShortestStep::Expand(_)));
    s.accept_neighbors(&ids(&[B]));
    assert!(matches!(s.next_step(), ShortestStep::Exhausted));
    let mut same = ShortestPathSearch::new(A, A, 0);
    assert!(matches!(same.next_step(), ShortestStep::Found(p) if p == vec![A.to_string()]));
}

fn run_search(start: &str, target: &str, depth: usize, edges: &[(&str, &[&str])]) -> Option<Vec<String>> {
    let mut s = ShortestPathSearch::new(start, target, depth);
    loop {
        match s.next_step() {
            ShortestStep::Found(p) => return Some(p),
            ShortestStep::Exhausted => return None,
            ShortestStep::Expand(n) => {
                let next: Vec<&str> = edges.iter().filter(|(from, _)| *from == n).flat_map(|(_, to)| to.iter().copied()).collect();
                s.accept_neighbors(&ids(&next));
            },
        }
    }
}

#[test]
fn search_finds_the_shortest_walk_or_none() {
    const E: &str = "00000000-0000-0000-0000-00000000000e";
    // A -> B -> C -> D is long; A -> E -> D is short but E is listed last.
    let edges: Vec<(&str, &[&str])> = vec![(A, &[B, E]), (B, &[C]), (C, &[D]), (E, &[D])];
    let p = run_search(A, D, 5, &edges).unwrap();
    assert_eq!(p, vec![A.to_string(), E.to_string(), D.to_string()]);
    // Within one step D cannot be reached: no path.
    assert!(run_search(A, D, 1, &edges).is_none());
    // A node with no way to D: no path at any depth.
    assert!(run_search(C, A, 5, &edges).is_none());
}

#[test]
fn neighbour_and_fetch_queries() {
    assert_eq!(relation_list(&None), "depends_on, defined_in, calls, justified_by, modifies, implements, produced");
    assert_eq!(relation_list(&Some(vec!["calls".to_string(), "produced".to_string()])), "calls, produced");
    assert_eq!(neighbor_query(GraphDirection::Outbound, "calls", "x"), "SELECT ->calls->objects AS connected FROM objects:`x`");
    assert_eq!(neighbor_query(GraphDirection::Inbound, "calls", "x"), "SELECT <-calls<-objects AS connected FROM objects:`x`");
    assert_eq!(
        neighbor_query(GraphDirection::Both, "a, b", "x"),
        "SELECT ->a, b->objects AS outbound, <-a, b<-objects AS inbound FROM objects:`x`"
    );
    assert_eq!(node_fetch_query(&vec!["p".to_string(), "q".to_string()]), "SELECT * FROM [objects:`p`, objects:`q`]");
}

fn gq(algorithm: Option<TraversalAlgorithm>, target: Option<&str>) -> GraphQuery {
    GraphQuery {
        start_nodes: vec![A.to_string()],
        relation_types: None,
        max_depth: None,
        direction: None,
        algorithm,
        target_node: target.map(|t| t.to_string()),
    }
}

#[test]
fn multi_hop_plans() {
    assert!(matches!(plan_multi_hop(&gq(Some(TraversalAlgorithm::Collect), None)), Ok((MultiHopPlan::Collect, 3))));
    match plan_multi_hop(&gq(None, None)) {
        Err(e) => assert_eq!(e.to_display_string(), "Invalid graph query: Algorithm not specified for multi-hop query"),
        _ => panic!("expected an error"),
    }
    match plan_multi_hop(&gq(Some(TraversalAlgorithm::Shortest), None)) {
        Err(GraphTraversalError::InvalidQuery(m)) => assert_eq!(m, "Target node required for shortest path algorithm"),
        _ => panic!("expected an error"),
    }
    assert!(matches!(plan_multi_hop(&gq(Some(TraversalAlgorithm::Shortest), Some(D))), Ok((MultiHopPlan::Shortest { target }, 3)) if target == D));
    assert_eq!(GraphTraversalError::TargetNotReachable.to_display_string(), "Target node not reachable");
    assert_eq!(GraphTraversalError::Timeout.to_display_string(), "Query timeout");
}

#[test]
fn relationship_listing() {
    let q = RelationshipQuery { object_id: Some("o".to_string()), source_id: None, target_id: Some("t".to_string()), relation_type: None };
    assert_eq!(
        relationships_query(&q),
        "SELECT VALUE { in: string::concat(in.id), out: string::concat(out.id), type: meta::tb(id), created_at: created_at } FROM [depends_on, defined_in, calls, justified_by, modifies, implements, produced] WHERE (in = type::thing('objects', $object) OR out = type::thing('objects', $object)) AND in = type::thing('objects', $target)"
    );
    let q = RelationshipQuery { object_id: None, source_id: None, target_id: None, relation_type: Some("calls".to_string()) };
    assert_eq!(
        relationships_query(&q),
        "SELECT VALUE { in: string::concat(in.id), out: string::concat(out.id), type: meta::tb(id), created_at: created_at } FROM [calls]"
    );
}
