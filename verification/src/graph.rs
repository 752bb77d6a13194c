//! Multi-hop graph traversals over the relationship tables: the neighbour
//! queries, and the breadth-first collection, path enumeration and
//! shortest-path search, each driven one neighbour answer at a time.
use vstd::prelude::*;

use crate::json::{lookup, take_entry, JsonValue};
use crate::query::{parse_uuidish, uuid_text, GraphDirection, GraphQuery, TraversalAlgorithm};
use crate::text::{
    append_chars, append_str, chars_of, contains_string, join_parts, join_with, opt_view,
    string_from_str, string_of, string_views, trim_start_str, views,
};

verus! {

/// Why a traversal failed.
#[derive(Debug)]
pub enum GraphTraversalError {
    DatabaseError(String),
    Timeout,
    InvalidQuery(String),
    TargetNotReachable,
}

impl GraphTraversalError {
    /// The error's message.
    pub open spec fn message_spec(&self) -> Seq<char> {
        match self {
            GraphTraversalError::DatabaseError(m) => "Database error: "@ + m@,
            GraphTraversalError::Timeout => "Query timeout"@,
            GraphTraversalError::InvalidQuery(m) => "Invalid graph query: "@ + m@,
            GraphTraversalError::TargetNotReachable => "Target node not reachable"@,
        }
    }

    /// The error's message.
    pub fn to_display_string(&self) -> (r: String)
        ensures
            r@ == self.message_spec(),
    {
        let mut v: Vec<char> = Vec::new();
        match self {
            GraphTraversalError::DatabaseError(m) => {
                append_str(&mut v, "Database error: ");
                append_str(&mut v, m.as_str());
            },
            GraphTraversalError::Timeout => append_str(&mut v, "Query timeout"),
            GraphTraversalError::InvalidQuery(m) => {
                append_str(&mut v, "Invalid graph query: ");
                append_str(&mut v, m.as_str());
            },
            GraphTraversalError::TargetNotReachable => append_str(&mut v, "Target node not reachable"),
        }
        string_of(&v)
    }
}

/// The relationship tables a traversal follows, separated by `, `.
pub open spec fn relation_list_spec(types: Option<Seq<Seq<char>>>) -> Seq<char> {
    match types {
        Some(t) => join_with(t, ", "@),
        None => "depends_on, defined_in, calls, justified_by, modifies, implements, produced"@,
    }
}

/// The relationship tables a traversal follows.
pub fn relation_list(types: &Option<Vec<String>>) -> (r: String)
    ensures
        r@ == relation_list_spec(crate::query::opt_strings(*types)),
{
    match types {
        Some(t) => {
            let mut parts: Vec<Vec<char>> = Vec::new();
            let mut k: usize = 0;
            while k < t.len()
                invariant
                    k <= t@.len(),
                    views(parts@) == string_views(t@).take(k as int),
                decreases t@.len() - k,
            {
                let c = chars_of(t[k].as_str());
                parts.push(c);
                k = k + 1;
                proof {
                    assert(views(parts@) =~= views(parts@.drop_last()).push(c@));
                    assert(string_views(t@).take(k as int) =~= string_views(t@).take(k - 1).push(t@[k - 1]@));
                }
            }
            proof {
                assert(string_views(t@).take(t@.len() as int) == string_views(t@));
            }
            let sep = chars_of(", ");
            let joined = join_parts(&parts, &sep);
            string_of(&joined)
        },
        None => string_from_str("depends_on, defined_in, calls, justified_by, modifies, implements, produced"),
    }
}

/// The query for the neighbours of one node.
pub open spec fn neighbor_query_spec(dir: GraphDirection, rels: Seq<char>, node: Seq<char>) -> Seq<char> {
    match dir {
        GraphDirection::Outbound => "SELECT ->"@ + rels + "->objects AS connected FROM objects:`"@ + node + "`"@,
        GraphDirection::Inbound => "SELECT <-"@ + rels + "<-objects AS connected FROM objects:`"@ + node + "`"@,
        GraphDirection::Both => "SELECT ->"@ + rels + "->objects AS outbound, <-"@ + rels
            + "<-objects AS inbound FROM objects:`"@ + node + "`"@,
    }
}

/// Writes the query for the neighbours of one node.
pub fn neighbor_query(dir: GraphDirection, rels: &str, node: &str) -> (r: String)
    ensures
        r@ == neighbor_query_spec(dir, rels@, node@),
{
    let mut v: Vec<char> = Vec::new();
    match dir {
        GraphDirection::Outbound => {
            append_str(&mut v, "SELECT ->");
            append_str(&mut v, rels);
            append_str(&mut v, "->objects AS connected FROM objects:`");
        },
        GraphDirection::Inbound => {
            append_str(&mut v, "SELECT <-");
            append_str(&mut v, rels);
            append_str(&mut v, "<-objects AS connected FROM objects:`");
        },
        GraphDirection::Both => {
            append_str(&mut v, "SELECT ->");
            append_str(&mut v, rels);
            append_str(&mut v, "->objects AS outbound, <-");
            append_str(&mut v, rels);
            append_str(&mut v, "<-objects AS inbound FROM objects:`");
        },
    }
    append_str(&mut v, node);
    append_str(&mut v, "`");
    proof {
        assert(v@ =~= neighbor_query_spec(dir, rels@, node@));
    }
    string_of(&v)
}

/// The query that fetches the objects with the given ids.
pub open spec fn node_fetch_query_spec(ids: Seq<Seq<char>>) -> Seq<char> {
    "SELECT * FROM ["@ + crate::query::start_list(ids) + "]"@
}

/// Writes the query that fetches the objects with the given ids.
pub fn node_fetch_query(ids: &Vec<String>) -> (r: String)
    ensures
        r@ == node_fetch_query_spec(string_views(ids@)),
{
    let mut parts: Vec<Vec<char>> = Vec::new();
    let ghost sv = string_views(ids@);
    let mut k: usize = 0;
    while k < ids.len()
        invariant
            k <= ids@.len(),
            sv == string_views(ids@),
            views(parts@) == sv.take(k as int).map_values(|id: Seq<char>| crate::query::object_ref(id)),
        decreases ids@.len() - k,
    {
        let mut c = chars_of("objects:`");
        append_str(&mut c, ids[k].as_str());
        append_str(&mut c, "`");
        parts.push(c);
        k = k + 1;
        proof {
            assert(views(parts@) =~= views(parts@.drop_last()).push(c@));
            assert(sv.take(k as int).map_values(|id: Seq<char>| crate::query::object_ref(id)) =~= sv.take(k - 1).map_values(
                |id: Seq<char>| crate::query::object_ref(id),
            ).push(crate::query::object_ref(sv[k - 1])));
        }
    }
    proof {
        assert(sv.take(ids@.len() as int) == sv);
    }
    let sep = chars_of(", ");
    let joined = join_parts(&parts, &sep);
    let mut v = chars_of("SELECT * FROM [");
    append_chars(&mut v, &joined);
    append_str(&mut v, "]");
    string_of(&v)
}

/// The traversal a multi-hop request asks for.
pub enum MultiHopPlan {
    Collect,
    Path,
    Shortest { target: String },
}

/// How deep a multi-hop traversal goes: as asked, or 3.
pub open spec fn multi_hop_depth(g: GraphQuery) -> usize {
    match g.max_depth {
        Some(d) => d,
        None => 3,
    }
}

/// Decides the traversal of a multi-hop request: its algorithm is required,
/// and a shortest path needs a target.
pub fn plan_multi_hop(query: &GraphQuery) -> (r: Result<(MultiHopPlan, usize), GraphTraversalError>)
    ensures
        match r {
            Ok((plan, depth)) => depth == multi_hop_depth(*query) && match plan {
                MultiHopPlan::Collect => query.algorithm == Some(TraversalAlgorithm::Collect),
                MultiHopPlan::Path => query.algorithm == Some(TraversalAlgorithm::Path),
                MultiHopPlan::Shortest { target } => query.algorithm == Some(TraversalAlgorithm::Shortest)
                    && query.target_node == Some(target),
            },
            Err(e) => match e {
                GraphTraversalError::InvalidQuery(m) => (query.algorithm is None && m@
                    == "Algorithm not specified for multi-hop query"@) || (query.algorithm == Some(
                    TraversalAlgorithm::Shortest,
                ) && query.target_node is None && m@ == "Target node required for shortest path algorithm"@),
                _ => false,
            },
        },
{
    let depth: usize = match query.max_depth {
        Some(d) => d,
        None => 3,
    };
    match query.algorithm {
        Some(TraversalAlgorithm::Collect) => Ok((MultiHopPlan::Collect, depth)),
        Some(TraversalAlgorithm::Path) => Ok((MultiHopPlan::Path, depth)),
        Some(TraversalAlgorithm::Shortest) => match &query.target_node {
            Some(t) => Ok((MultiHopPlan::Shortest { target: t.clone() }, depth)),
            None => Err(
                GraphTraversalError::InvalidQuery(string_from_str("Target node required for shortest path algorithm")),
            ),
        },
        None => Err(GraphTraversalError::InvalidQuery(string_from_str("Algorithm not specified for multi-hop query"))),
    }
}


/// The node id a neighbour answer names, read as a UUID after its
/// `objects:` prefix; none when the answer has no id or it does not read.
pub open spec fn neighbor_id(raw: Option<Seq<char>>) -> Option<Seq<char>> {
    match raw {
        Some(r) => uuid_text(trim_start_str(r, "objects:"@)),
        None => None,
    }
}

/// The ids of the answers that are new: readable, not in `seen`, and not
/// named by an earlier answer; in answer order.
pub open spec fn newly_seen(seen: Seq<Seq<char>>, answers: Seq<Option<Seq<char>>>) -> Seq<Seq<char>>
    decreases answers.len(),
{
    if answers.len() == 0 {
        Seq::empty()
    } else {
        let prev = newly_seen(seen, answers.drop_last());
        match neighbor_id(answers.last()) {
            Some(c) => if seen.contains(c) || prev.contains(c) {
                prev
            } else {
                prev.push(c)
            },
            None => prev,
        }
    }
}

/// The positions of the answers that are new, in order.
pub open spec fn new_positions(seen: Seq<Seq<char>>, answers: Seq<Option<Seq<char>>>) -> Seq<usize>
    decreases answers.len(),
{
    if answers.len() == 0 {
        Seq::empty()
    } else {
        let prev_ids = newly_seen(seen, answers.drop_last());
        let prev = new_positions(seen, answers.drop_last());
        match neighbor_id(answers.last()) {
            Some(c) => if seen.contains(c) || prev_ids.contains(c) {
                prev
            } else {
                prev.push((answers.len() - 1) as usize)
            },
            None => prev,
        }
    }
}

/// The plain values of the raw ids of neighbour answers.
pub open spec fn answer_views(v: Seq<Option<String>>) -> Seq<Option<Seq<char>>> {
    v.map_values(|o: Option<String>| opt_view(o))
}

/// A breadth-first collection of the nodes reachable from the start nodes
/// within a depth. The caller asks for the next node to expand, fetches
/// its neighbours, and hands their ids back.
pub struct CollectTraversal {
    visited: Vec<String>,
    queue: Vec<(String, usize)>,
    head: usize,
    collected: Vec<String>,
    max_depth: usize,
    starts: Ghost<Seq<Seq<char>>>,
}

/// Taking nodes off the front of the queue: those at the depth limit are
/// skipped; the first below it is expanded. The remaining queue and the
/// node expanded, with its depth.
pub open spec fn collect_next(pending: Seq<(Seq<char>, usize)>, max_depth: usize) -> (
    Seq<(Seq<char>, usize)>,
    Option<(Seq<char>, usize)>,
)
    decreases pending.len(),
{
    if pending.len() == 0 {
        (pending, None)
    } else if pending[0].1 < max_depth {
        (pending.drop_first(), Some(pending[0]))
    } else {
        collect_next(pending.drop_first(), max_depth)
    }
}

impl CollectTraversal {
    /// The nodes seen so far.
    pub closed spec fn visited_ids(&self) -> Seq<Seq<char>> {
        string_views(self.visited@)
    }

    /// The nodes collected so far, in the order they were found.
    pub closed spec fn collected_ids(&self) -> Seq<Seq<char>> {
        string_views(self.collected@)
    }

    /// The start nodes.
    pub closed spec fn start_ids(&self) -> Seq<Seq<char>> {
        self.starts@
    }

    /// The nodes waiting to be expanded, with their depths.
    pub closed spec fn pending(&self) -> Seq<(Seq<char>, usize)> {
        self.queue@.subrange(self.head as int, self.queue@.len() as int).map_values(|e: (String, usize)| (e.0@, e.1))
    }

    /// How deep the traversal goes.
    pub closed spec fn depth_limit(&self) -> usize {
        self.max_depth
    }

    /// The traversal's invariant: seen and collected nodes are distinct,
    /// the start nodes are seen and never collected, every collected node is
    /// seen, and every queued node is seen and within the depth.
    pub closed spec fn wf(&self) -> bool {
        &&& self.head <= self.queue@.len()
        &&& self.visited_ids().no_duplicates()
        &&& self.collected_ids().no_duplicates()
        &&& forall|i: int| 0 <= i < self.starts@.len() ==> self.visited_ids().contains(#[trigger] self.starts@[i])
        &&& forall|i: int| 0 <= i < self.collected_ids().len() ==> self.visited_ids().contains(#[trigger] self.collected_ids()[i])
        &&& forall|i: int| 0 <= i < self.collected_ids().len() ==> !self.starts@.contains(#[trigger] self.collected_ids()[i])
        &&& forall|i: int| 0 <= i < self.queue@.len() ==> self.visited_ids().contains(#[trigger] self.queue@[i].0@) && self.queue@[i].1 <= self.max_depth
    }

    /// A traversal from the start nodes, at depth 0.
    pub fn new(start_nodes: &Vec<String>, max_depth: usize) -> (r: Self)
        ensures
            r.wf(),
            r.start_ids() == string_views(start_nodes@),
            r.collected_ids() == Seq::<Seq<char>>::empty(),
            r.pending() == string_views(start_nodes@).map_values(|s: Seq<char>| (s, 0usize)),
            r.depth_limit() == max_depth,
    {
        let ghost sv = string_views(start_nodes@);
        let mut visited: Vec<String> = Vec::new();
        let mut queue: Vec<(String, usize)> = Vec::new();
        let mut k: usize = 0;
        while k < start_nodes.len()
            invariant
                k <= start_nodes@.len(),
                sv == string_views(start_nodes@),
                string_views(visited@).no_duplicates(),
                forall|i: int| 0 <= i < k ==> string_views(visited@).contains(#[trigger] sv[i]),
                forall|i: int| 0 <= i < queue@.len() ==> string_views(visited@).contains(#[trigger] queue@[i].0@) && queue@[i].1 == 0,
                queue@.map_values(|e: (String, usize)| (e.0@, e.1)) == sv.take(k as int).map_values(|s: Seq<char>| (s, 0usize)),
            decreases start_nodes@.len() - k,
        {
            let s = start_nodes[k].clone();
            let ghost vb = string_views(visited@);
            if !contains_string(&visited, &s) {
                visited.push(s.clone());
                proof {
                    assert(string_views(visited@) =~= vb.push(s@));
                    assert forall|i: int, j: int| 0 <= i < j < string_views(visited@).len() implies string_views(visited@)[i] != string_views(visited@)[j] by {
                        if j == vb.len() {
                            assert(vb.contains(vb[i]));
                        }
                    }
                }
            }
            proof {
                assert(string_views(visited@).contains(s@)) by {
                    if vb.contains(s@) {
                        let w = choose|w: int| 0 <= w < vb.len() && vb[w] == s@;
                        assert(string_views(visited@)[w] == s@);
                    } else {
                        assert(string_views(visited@)[vb.len() as int] == s@);
                    }
                }
                assert forall|i: int| 0 <= i < vb.len() implies string_views(visited@).contains(#[trigger] vb[i]) by {
                    assert(string_views(visited@)[i] == vb[i]);
                }
            }
            let ghost qb = queue@;
            queue.push((s, 0));
            k = k + 1;
            proof {
                assert(queue@.map_values(|e: (String, usize)| (e.0@, e.1)) =~= qb.map_values(|e: (String, usize)| (e.0@, e.1)).push((sv[k - 1], 0usize)));
                assert(sv.take(k as int).map_values(|s: Seq<char>| (s, 0usize)) =~= sv.take(k - 1).map_values(|s: Seq<char>| (s, 0usize)).push((sv[k - 1], 0usize)));
            }
        }
        let r = CollectTraversal {
            visited,
            queue,
            head: 0,
            collected: Vec::new(),
            max_depth,
            starts: Ghost(sv),
        };
        proof {
            assert(sv.take(start_nodes@.len() as int) == sv);
            assert(r.queue@.subrange(0, r.queue@.len() as int) == r.queue@);
            assert(r.collected_ids() =~= Seq::<Seq<char>>::empty());
        }
        r
    }

    /// The next node to expand and its depth, skipping nodes at the depth
    /// limit; none when the traversal is done.
    pub fn next_node(&mut self) -> (r: Option<(String, usize)>)
        requires
            old(self).wf(),
        ensures
            final(self).wf(),
            final(self).visited_ids() == old(self).visited_ids(),
            final(self).collected_ids() == old(self).collected_ids(),
            final(self).start_ids() == old(self).start_ids(),
            final(self).depth_limit() == old(self).depth_limit(),
            match r {
                Some((id, d)) => d < final(self).depth_limit() && final(self).visited_ids().contains(id@),
                None => final(self).pending().len() == 0,
            },
            ({
                let c = collect_next(old(self).pending(), old(self).depth_limit());
                &&& final(self).pending() == c.0
                &&& match r {
                    Some((id, d)) => c.1 == Some((id@, d)),
                    None => c.1 is None,
                }
            }),
    {
        let ghost c0 = collect_next(self.pending(), self.max_depth);
        while self.head < self.queue.len()
            invariant
                self.wf(),
                self.visited@ == old(self).visited@,
                self.collected@ == old(self).collected@,
                self.starts == old(self).starts,
                self.max_depth == old(self).max_depth,
                self.queue@ == old(self).queue@,
                c0 == collect_next(old(self).pending(), old(self).max_depth),
                c0 == collect_next(self.pending(), self.max_depth),
            decreases self.queue@.len() - self.head,
        {
            let i = self.head;
            proof {
                let qs = self.queue@.subrange(i as int, self.queue@.len() as int);
                assert(qs.map_values(|e: (String, usize)| (e.0@, e.1))[0] == (self.queue@[i as int].0@, self.queue@[i as int].1));
                assert(qs.map_values(|e: (String, usize)| (e.0@, e.1)).drop_first() =~= self.queue@.subrange(
                    i + 1,
                    self.queue@.len() as int,
                ).map_values(|e: (String, usize)| (e.0@, e.1)));
            }
            self.head = self.head + 1;
            let d = self.queue[i].1;
            if d < self.max_depth {
                let id = self.queue[i].0.clone();
                proof {
                    assert(self.visited_ids().contains(self.queue@[i as int].0@));
                }
                return Some((id, d));
            }
        }
        proof {
            assert(self.pending() =~= Seq::<(Seq<char>, usize)>::empty());
        }
        None
    }

    /// Takes the neighbours of a node expanded at `depth`: each readable id
    /// not seen before is seen, collected and queued one level deeper. The
    /// result holds the positions of the answers that were new, so that the
    /// caller keeps those objects.
    #[verifier::spinoff_prover]
    pub fn accept_neighbors(&mut self, depth: usize, answers: &Vec<Option<String>>) -> (kept: Vec<usize>)
        requires
            old(self).wf(),
            depth < old(self).depth_limit(),
        ensures
            final(self).wf(),
            final(self).start_ids() == old(self).start_ids(),
            final(self).depth_limit() == old(self).depth_limit(),
            final(self).visited_ids() == old(self).visited_ids() + newly_seen(old(self).visited_ids(), answer_views(answers@)),
            final(self).collected_ids() == old(self).collected_ids() + newly_seen(old(self).visited_ids(), answer_views(answers@)),
            final(self).pending() == old(self).pending() + newly_seen(old(self).visited_ids(), answer_views(answers@)).map_values(
                |c: Seq<char>| (c, (depth + 1) as usize),
            ),
            kept@ == new_positions(old(self).visited_ids(), answer_views(answers@)),
    {
        let ghost v0 = self.visited_ids();
        let ghost c0 = self.collected_ids();
        let ghost p0 = self.pending();
        let ghost av = answer_views(answers@);
        let ghost q0 = self.queue@;
        let mut kept: Vec<usize> = Vec::new();
        let mut k: usize = 0;
        while k < answers.len()
            invariant
                k <= answers@.len(),
                av == answer_views(answers@),
                self.wf(),
                depth < self.max_depth,
                self.starts == old(self).starts,
                self.max_depth == old(self).max_depth,
                self.head == old(self).head,
                self.head <= q0.len(),
                q0.len() <= self.queue@.len(),
                self.visited_ids() == v0 + newly_seen(v0, av.take(k as int)),
                self.collected_ids() == c0 + newly_seen(v0, av.take(k as int)),
                self.queue@.subrange(0, q0.len() as int) == q0,
                self.queue@.subrange(q0.len() as int, self.queue@.len() as int).map_values(|e: (String, usize)| (e.0@, e.1))
                    == newly_seen(v0, av.take(k as int)).map_values(|c: Seq<char>| (c, (depth + 1) as usize)),
                kept@ == new_positions(v0, av.take(k as int)),
                p0 == q0.subrange(self.head as int, q0.len() as int).map_values(|e: (String, usize)| (e.0@, e.1)),
            decreases answers@.len() - k,
        {
            let ghost ns = newly_seen(v0, av.take(k as int));
            proof {
                assert(av.take(k + 1).drop_last() =~= av.take(k as int));
                assert(av.take(k + 1).last() == opt_view(answers@[k as int]));
            }
            let parsed: Option<String> = match &answers[k] {
                Some(raw) => parse_uuidish(raw.as_str()),
                None => None,
            };
            proof {
                assert(opt_view(parsed) == neighbor_id(av.take(k + 1).last()));
            }
            if let Some(c) = parsed {
                let seen = contains_string(&self.visited, &c);
                proof {
                    assert(seen == (v0.contains(c@) || ns.contains(c@))) by {
                        if v0.contains(c@) {
                            let w = choose|w: int| 0 <= w < v0.len() && v0[w] == c@;
                            assert(self.visited_ids()[w] == c@);
                        }
                        if ns.contains(c@) {
                            let w = choose|w: int| 0 <= w < ns.len() && ns[w] == c@;
                            assert(self.visited_ids()[v0.len() + w] == c@);
                        }
                        if seen {
                            let w = choose|w: int| 0 <= w < self.visited_ids().len() && self.visited_ids()[w] == c@;
                            if w < v0.len() {
                                assert(v0[w] == c@);
                            } else {
                                assert(ns[w - v0.len()] == c@);
                            }
                        }
                    }
                }
                if !seen {
                    let ghost vb = self.visited_ids();
                    let ghost cb = self.collected_ids();
                    let ghost qb = self.queue@;
                    proof {
                        assert(!vb.contains(c@));
                        assert(!cb.contains(c@)) by {
                            if cb.contains(c@) {
                                let w = choose|w: int| 0 <= w < cb.len() && cb[w] == c@;
                                assert(vb.contains(cb[w]));
                            }
                        }
                        assert(!self.starts@.contains(c@)) by {
                            if self.starts@.contains(c@) {
                                let w = choose|w: int| 0 <= w < self.starts@.len() && self.starts@[w] == c@;
                                assert(vb.contains(self.starts@[w]));
                            }
                        }
                    }
                    self.visited.push(c.clone());
                    self.collected.push(c.clone());
                    self.queue.push((c, depth + 1));
                    kept.push(k);
                    proof {
                        assert(self.visited_ids() =~= vb.push(c@));
                        assert(self.collected_ids() =~= cb.push(c@));
                        assert(self.visited_ids().no_duplicates()) by {
                            assert forall|i: int, j: int| 0 <= i < j < self.visited_ids().len() implies self.visited_ids()[i] != self.visited_ids()[j] by {
                                if j == vb.len() {
                                    assert(vb.contains(vb[i]));
                                }
                            }
                        }
                        assert(self.collected_ids().no_duplicates()) by {
                            assert forall|i: int, j: int| 0 <= i < j < self.collected_ids().len() implies self.collected_ids()[i] != self.collected_ids()[j] by {
                                if j == cb.len() {
                                    assert(cb.contains(cb[i]));
                                }
                            }
                        }
                        assert forall|i: int| 0 <= i < self.starts@.len() implies self.visited_ids().contains(#[trigger] self.starts@[i]) by {
                            assert(vb.contains(self.starts@[i]));
                            let w = choose|w: int| 0 <= w < vb.len() && vb[w] == self.starts@[i];
                            assert(self.visited_ids()[w] == self.starts@[i]);
                        }
                        assert forall|i: int| 0 <= i < self.collected_ids().len() implies self.visited_ids().contains(#[trigger] self.collected_ids()[i]) by {
                            if i < cb.len() {
                                let w = choose|w: int| 0 <= w < vb.len() && vb[w] == cb[i];
                                assert(self.visited_ids()[w] == cb[i]);
                            } else {
                                assert(self.visited_ids()[vb.len() as int] == c@);
                            }
                        }
                        assert forall|i: int| 0 <= i < self.queue@.len() implies self.visited_ids().contains(#[trigger] self.queue@[i].0@) && self.queue@[i].1 <= self.max_depth by {
                            if i < qb.len() {
                                assert(self.queue@[i] == qb[i]);
                                let w = choose|w: int| 0 <= w < vb.len() && vb[w] == qb[i].0@;
                                assert(self.visited_ids()[w] == qb[i].0@);
                            } else {
                                assert(self.visited_ids()[vb.len() as int] == c@);
                            }
                        }
                        assert(newly_seen(v0, av.take(k + 1)) == ns.push(c@));
                        assert(self.queue@.subrange(0, q0.len() as int) =~= q0);
                        assert(self.queue@.subrange(q0.len() as int, self.queue@.len() as int) =~= qb.subrange(q0.len() as int, qb.len() as int).push((c, (depth + 1) as usize)));
                        assert(ns.push(c@).map_values(|c: Seq<char>| (c, (depth + 1) as usize)) =~= ns.map_values(|c: Seq<char>| (c, (depth + 1) as usize)).push((c@, (depth + 1) as usize)));
                        assert(self.queue@.subrange(q0.len() as int, self.queue@.len() as int).map_values(|e: (String, usize)| (e.0@, e.1))
                            =~= qb.subrange(q0.len() as int, qb.len() as int).map_values(|e: (String, usize)| (e.0@, e.1)).push((c@, (depth + 1) as usize)));
                    }
                }
            }
            k = k + 1;
        }
        proof {
            assert(av.take(answers@.len() as int) == av);
            let ns = newly_seen(v0, av);
            assert(self.queue@.subrange(self.head as int, self.queue@.len() as int) =~= q0.subrange(self.head as int, q0.len() as int) + self.queue@.subrange(q0.len() as int, self.queue@.len() as int));
            assert(self.pending() =~= p0 + ns.map_values(|c: Seq<char>| (c, (depth + 1) as usize)));
        }
        kept
    }
}


/// Whether a node path is a path of a traversal from `start`: it begins at
/// `start` and passes no node twice.
pub open spec fn path_from(p: Seq<Seq<char>>, start: Seq<char>) -> bool {
    p.len() >= 1 && p[0] == start && p.no_duplicates()
}

/// The paths a path enumeration may record: from `start`, and no longer
/// than the depth limit (a lone start node when the limit is 0).
pub open spec fn path_within(p: Seq<Seq<char>>, start: Seq<char>, max_depth: usize) -> bool {
    path_from(p, start) && (p.len() <= max_depth || p.len() == 1)
}

/// Extending a path by a node it does not hold keeps it a path.
proof fn lemma_extend_path(p: Seq<Seq<char>>, start: Seq<char>, next: Seq<char>)
    requires
        path_from(p, start),
        !p.contains(next),
    ensures
        path_from(p.push(next), start),
{
    assert(p.push(next)[0] == p[0]);
    assert forall|i: int, j: int| 0 <= i < j < p.push(next).len() implies p.push(next)[i] != p.push(next)[j] by {
        if j == p.len() {
            assert(p.contains(p[i]));
        }
    }
}

/// A depth-first enumeration of the paths from a start node within a
/// depth. The caller asks for the next node to expand, fetches its
/// neighbours, and hands their ids back.
pub struct PathTraversal {
    stack: Vec<(String, Vec<String>, usize)>,
    paths: Vec<Vec<String>>,
    current: Option<(Vec<String>, usize)>,
    max_depth: usize,
    start: Ghost<Seq<char>>,
}

/// The plain values of node paths.
pub open spec fn paths_view(v: Seq<Vec<String>>) -> Seq<Seq<Seq<char>>> {
    v.map_values(|p: Vec<String>| string_views(p@))
}

/// The plain values of stacked entries: node, path and depth.
pub open spec fn stack_entries(v: Seq<(String, Vec<String>, usize)>) -> Seq<(Seq<char>, Seq<Seq<char>>, usize)> {
    v.map_values(|e: (String, Vec<String>, usize)| (e.0@, string_views(e.1@), e.2))
}

/// Taking entries off the top of the stack: each one taken is recorded;
/// those at the depth limit are dropped and the first below it is
/// expanded. The remaining stack, the recorded paths in order, and the
/// expanded entry.
pub open spec fn pop_paths(stack: Seq<(Seq<char>, Seq<Seq<char>>, usize)>, max_depth: usize) -> (
    Seq<(Seq<char>, Seq<Seq<char>>, usize)>,
    Seq<Seq<Seq<char>>>,
    Option<(Seq<char>, Seq<Seq<char>>, usize)>,
)
    decreases stack.len(),
{
    if stack.len() == 0 {
        (stack, Seq::empty(), None)
    } else {
        let e = stack.last();
        if e.2 < max_depth {
            (stack.drop_last(), seq![e.1], Some(e))
        } else {
            let r = pop_paths(stack.drop_last(), max_depth);
            (r.0, seq![e.1] + r.1, r.2)
        }
    }
}

/// The entries the neighbours of a node reached along `path` at `depth`
/// stack: each readable id not on the path extends it, in answer order.
pub open spec fn path_extensions(path: Seq<Seq<char>>, depth: usize, answers: Seq<Option<Seq<char>>>) -> Seq<
    (Seq<char>, Seq<Seq<char>>, usize),
>
    decreases answers.len(),
{
    if answers.len() == 0 {
        Seq::empty()
    } else {
        path_extensions(path, depth, answers.drop_last()) + match neighbor_id(answers.last()) {
            Some(c) => if path.contains(c) {
                Seq::empty()
            } else {
                seq![(c, path.push(c), (depth + 1) as usize)]
            },
            None => Seq::empty(),
        }
    }
}

impl PathTraversal {
    /// The paths recorded so far.
    pub closed spec fn recorded(&self) -> Seq<Seq<Seq<char>>> {
        paths_view(self.paths@)
    }

    /// The entries waiting on the stack, the top last.
    pub closed spec fn stacked(&self) -> Seq<(Seq<char>, Seq<Seq<char>>, usize)> {
        stack_entries(self.stack@)
    }

    /// The path and depth of the node being expanded.
    pub closed spec fn expanded_path(&self) -> Option<(Seq<Seq<char>>, usize)> {
        match self.current {
            Some((p, d)) => Some((string_views(p@), d)),
            None => None,
        }
    }

    /// The start node.
    pub closed spec fn start_id(&self) -> Seq<char> {
        self.start@
    }

    /// How deep the enumeration goes.
    pub closed spec fn depth_limit(&self) -> usize {
        self.max_depth
    }

    /// Whether a node is being expanded.
    pub closed spec fn expanding(&self) -> bool {
        self.current is Some
    }

    /// The enumeration's invariant: every recorded, stacked or expanding
    /// path is a path from the start within the limit, and a stacked entry
    /// ends at its node with a depth equal to its length.
    pub closed spec fn wf(&self) -> bool {
        &&& forall|i: int| 0 <= i < self.paths@.len() ==> path_within(#[trigger] string_views(self.paths@[i]@), self.start@, self.max_depth)
        &&& forall|i: int|
            0 <= i < self.stack@.len() ==> {
                let e = #[trigger] self.stack@[i];
                &&& path_within(string_views(e.1@), self.start@, self.max_depth)
                &&& e.1@.len() == e.2
                &&& e.1@[e.1@.len() - 1]@ == e.0@
            }
        &&& match self.current {
            Some((p, d)) => path_from(string_views(p@), self.start@) && p@.len() == d && d < self.max_depth,
            None => true,
        }
    }

    /// An enumeration from `start`.
    pub fn new(start: &str, max_depth: usize) -> (r: Self)
        ensures
            r.wf(),
            r.start_id() == start@,
            r.depth_limit() == max_depth,
            r.recorded() == Seq::<Seq<Seq<char>>>::empty(),
            r.stacked() == seq![(start@, seq![start@], 1usize)],
            !r.expanding(),
    {
        let mut path: Vec<String> = Vec::new();
        path.push(string_from_str(start));
        let mut stack: Vec<(String, Vec<String>, usize)> = Vec::new();
        stack.push((string_from_str(start), path, 1));
        let r = PathTraversal { stack, paths: Vec::new(), current: None, max_depth, start: Ghost(start@) };
        proof {
            let p = string_views(r.stack@[0].1@);
            assert(p =~= seq![start@]);
            assert(p.no_duplicates());
            assert(r.recorded() =~= Seq::<Seq<Seq<char>>>::empty());
            assert(r.stacked() =~= seq![(start@, seq![start@], 1usize)]);
        }
        r
    }

    /// The next node to expand. Every path taken from the stack is recorded;
    /// those at the depth limit are not expanded. None when the enumeration
    /// is done.
    pub fn next_node(&mut self) -> (r: Option<String>)
        requires
            old(self).wf(),
        ensures
            final(self).wf(),
            final(self).start_id() == old(self).start_id(),
            final(self).depth_limit() == old(self).depth_limit(),
            ({
                let p = pop_paths(old(self).stacked(), old(self).depth_limit());
                &&& final(self).stacked() == p.0
                &&& final(self).recorded() == old(self).recorded() + p.1
                &&& match r {
                    Some(id) => p.2 matches Some(e) && id@ == e.0 && final(self).expanded_path() == Some((e.1, e.2)),
                    None => p.2 is None && final(self).expanded_path() is None,
                }
            }),
            r is Some <==> final(self).expanding(),
    {
        self.current = None;
        let ghost r0 = self.recorded();
        let ghost p0 = pop_paths(self.stacked(), self.max_depth);
        proof {
            assert(self.recorded().subrange(r0.len() as int, self.recorded().len() as int) =~= Seq::<Seq<Seq<char>>>::empty());
            assert(Seq::<Seq<Seq<char>>>::empty() + p0.1 =~= p0.1);
        }
        while self.stack.len() > 0
            invariant
                self.wf(),
                self.current is None,
                self.start == old(self).start,
                self.max_depth == old(self).max_depth,
                r0 == old(self).recorded(),
                p0 == pop_paths(old(self).stacked(), old(self).max_depth),
                r0.len() <= self.recorded().len(),
                self.recorded().subrange(0, r0.len() as int) == r0,
                p0.0 == pop_paths(self.stacked(), self.max_depth).0,
                p0.1 == self.recorded().subrange(r0.len() as int, self.recorded().len() as int) + pop_paths(
                    self.stacked(),
                    self.max_depth,
                ).1,
                p0.2 == pop_paths(self.stacked(), self.max_depth).2,
            decreases self.stack@.len(),
        {
            let ghost sb = self.stack@;
            let ghost rb = self.recorded();
            let entry = self.stack.pop().unwrap();
            let (id, path, depth) = entry;
            proof {
                assert(sb[sb.len() - 1] == (id, path, depth));
                assert forall|i: int| 0 <= i < self.stack@.len() implies #[trigger] self.stack@[i] == sb[i] by {}
                assert(stack_entries(self.stack@) =~= stack_entries(sb).drop_last());
                assert(stack_entries(sb).last() == (id@, string_views(path@), depth));
            }
            let ghost pb = self.paths@;
            let copy = crate::artifacts::copy_strings(&path);
            self.paths.push(copy);
            proof {
                assert(self.paths@ == pb.push(copy));
                assert(string_views(copy@) == string_views(path@));
                assert(self.recorded() =~= paths_view(pb).push(string_views(path@)));
                assert forall|i: int| 0 <= i < self.paths@.len() implies path_within(#[trigger] string_views(self.paths@[i]@), self.start@, self.max_depth) by {
                    if i < pb.len() {
                        assert(self.paths@[i] == pb[i]);
                    }
                }
                assert(self.recorded().subrange(0, r0.len() as int) =~= r0);
                let so_far = rb.subrange(r0.len() as int, rb.len() as int);
                assert(self.recorded().subrange(r0.len() as int, self.recorded().len() as int) =~= so_far.push(
                    string_views(path@),
                ));
                let q = pop_paths(stack_entries(self.stack@), self.max_depth);
                assert(so_far + (seq![string_views(path@)] + q.1) =~= so_far.push(string_views(path@)) + q.1);
                assert(so_far + seq![string_views(path@)] =~= so_far.push(string_views(path@)));
            }
            if depth < self.max_depth {
                self.current = Some((path, depth));
                return Some(id);
            }
        }
        proof {
            assert(self.recorded().subrange(r0.len() as int, self.recorded().len() as int) + Seq::<Seq<Seq<char>>>::empty()
                =~= self.recorded().subrange(r0.len() as int, self.recorded().len() as int));
            assert(self.recorded() =~= r0 + self.recorded().subrange(r0.len() as int, self.recorded().len() as int));
        }
        None
    }

    /// Takes the neighbours of the node being expanded: each readable id not
    /// on the node's path extends the path, and goes on the stack.
    pub fn accept_neighbors(&mut self, answers: &Vec<Option<String>>)
        requires
            old(self).wf(),
            old(self).expanding(),
        ensures
            final(self).wf(),
            final(self).start_id() == old(self).start_id(),
            final(self).depth_limit() == old(self).depth_limit(),
            final(self).recorded() == old(self).recorded(),
            old(self).expanded_path() matches Some(e) && final(self).stacked() == old(self).stacked()
                + path_extensions(e.0, e.1, answer_views(answers@)),
            !final(self).expanding(),
    {
        let ghost s0 = self.stacked();
        let cur = self.current.take();
        let (path, depth) = match cur {
            Some(c) => c,
            None => {
                return;
            },
        };
        let ghost pv = string_views(path@);
        let ghost av = answer_views(answers@);
        let mut k: usize = 0;
        proof {
            assert(av.take(0) =~= Seq::<Option<Seq<char>>>::empty());
            assert(s0 + Seq::<(Seq<char>, Seq<Seq<char>>, usize)>::empty() =~= s0);
        }
        while k < answers.len()
            invariant
                k <= answers@.len(),
                self.wf(),
                self.current is None,
                self.start == old(self).start,
                self.max_depth == old(self).max_depth,
                self.paths@ == old(self).paths@,
                pv == string_views(path@),
                av == answer_views(answers@),
                path_from(pv, self.start@),
                path@.len() == depth,
                depth < self.max_depth,
                stack_entries(self.stack@) == s0 + path_extensions(pv, depth, av.take(k as int)),
            decreases answers@.len() - k,
        {
            proof {
                assert(av.take(k + 1).drop_last() =~= av.take(k as int));
                assert(av.take(k + 1).last() == opt_view(answers@[k as int]));
            }
            let parsed: Option<String> = match &answers[k] {
                Some(raw) => parse_uuidish(raw.as_str()),
                None => None,
            };
            if let Some(next) = parsed {
                if !contains_string(&path, &next) {
                    let mut np = crate::artifacts::copy_strings(&path);
                    let ghost npv0 = string_views(np@);
                    np.push(next.clone());
                    proof {
                        assert(string_views(np@) =~= pv.push(next@));
                        lemma_extend_path(pv, self.start@, next@);
                        assert(string_views(np@).len() == depth + 1);
                        assert(np@[np@.len() - 1]@ == next@);
                    }
                    let ghost sb = self.stack@;
                    let ghost np_view = string_views(np@);
                    self.stack.push((next, np, depth + 1));
                    proof {
                        assert forall|i: int| 0 <= i < self.stack@.len() implies {
                            let e = #[trigger] self.stack@[i];
                            &&& path_within(string_views(e.1@), self.start@, self.max_depth)
                            &&& e.1@.len() == e.2
                            &&& e.1@[e.1@.len() - 1]@ == e.0@
                        } by {
                            if i < sb.len() {
                                assert(self.stack@[i] == sb[i]);
                            }
                        }
                        assert(stack_entries(self.stack@) =~= stack_entries(sb).push(
                            (self.stack@[sb.len() as int].0@, np_view, (depth + 1) as usize),
                        ));
                        assert(self.stack@[sb.len() as int].0@ == next@);
                        assert(np_view == pv.push(next@));
                    }
                }
            }
            k = k + 1;
        }
        proof {
            assert(av.take(answers@.len() as int) =~= av);
        }
    }

    /// The recorded paths.
    pub fn into_paths(self) -> (r: Vec<Vec<String>>)
        requires
            self.wf(),
        ensures
            paths_view(r@) == self.recorded(),
            forall|i: int| 0 <= i < r@.len() ==> path_within(#[trigger] string_views(r@[i]@), self.start_id(), self.depth_limit()),
    {
        self.paths
    }
}

/// What a shortest-path search does next.
pub enum ShortestStep {
    /// The target was reached along this path.
    Found(Vec<String>),
    /// The neighbours of this node are needed.
    Expand(String),
    /// No path within the depth reaches the target.
    Exhausted,
}

/// A breadth-first search for a shortest path from a start node to a
/// target within a depth. The caller asks for the next step, fetches the
/// neighbours of a node to expand, and hands their ids back.
pub struct ShortestPathSearch {
    queue: Vec<(Vec<String>, usize)>,
    head: usize,
    visited: Vec<String>,
    target: String,
    max_depth: usize,
    current: Option<(Vec<String>, usize)>,
    start: Ghost<Seq<char>>,
}

/// The plain values of queued paths: the path and its distance.
pub open spec fn queue_entries(v: Seq<(Vec<String>, usize)>) -> Seq<(Seq<Seq<char>>, usize)> {
    v.map_values(|e: (Vec<String>, usize)| (string_views(e.0@), e.1))
}

/// What one step of a shortest-path search comes to.
pub enum SearchOutcome {
    /// The target was reached along this path.
    Found(Seq<Seq<char>>),
    /// The last node of this path, at this distance, is expanded.
    Expand(Seq<Seq<char>>, usize),
    /// The queue ran out.
    Exhausted,
}

/// Taking paths off the front of the queue: one that ends at the target is
/// the answer; one at the depth limit or ending at an expanded node is
/// dropped; otherwise its last node is expanded (and from then on counts as
/// expanded). The remaining queue, the expanded nodes, and the outcome.
pub open spec fn search_step(
    queue: Seq<(Seq<Seq<char>>, usize)>,
    expanded: Seq<Seq<char>>,
    target: Seq<char>,
    max_depth: usize,
) -> (Seq<(Seq<Seq<char>>, usize)>, Seq<Seq<char>>, SearchOutcome)
    decreases queue.len(),
{
    if queue.len() == 0 {
        (queue, expanded, SearchOutcome::Exhausted)
    } else {
        let e = queue[0];
        let last = e.0[e.0.len() - 1];
        if last == target {
            (queue.drop_first(), expanded, SearchOutcome::Found(e.0))
        } else if e.1 >= max_depth || expanded.contains(last) {
            search_step(queue.drop_first(), expanded, target, max_depth)
        } else {
            (queue.drop_first(), expanded.push(last), SearchOutcome::Expand(e.0, e.1))
        }
    }
}

/// The paths the neighbours of a node reached along `path` at `dist` queue:
/// each readable id not yet expanded extends the path one step, in answer
/// order.
pub open spec fn search_extensions(
    path: Seq<Seq<char>>,
    dist: usize,
    expanded: Seq<Seq<char>>,
    answers: Seq<Option<Seq<char>>>,
) -> Seq<(Seq<Seq<char>>, usize)>
    decreases answers.len(),
{
    if answers.len() == 0 {
        Seq::empty()
    } else {
        search_extensions(path, dist, expanded, answers.drop_last()) + match neighbor_id(answers.last()) {
            Some(c) => if expanded.contains(c) {
                Seq::empty()
            } else {
                seq![(path.push(c), (dist + 1) as usize)]
            },
            None => Seq::empty(),
        }
    }
}

impl ShortestPathSearch {
    /// The start node.
    pub closed spec fn start_id(&self) -> Seq<char> {
        self.start@
    }

    /// The target node.
    pub closed spec fn target_id(&self) -> Seq<char> {
        self.target@
    }

    /// How deep the search goes.
    pub closed spec fn depth_limit(&self) -> usize {
        self.max_depth
    }

    /// Whether a node is being expanded.
    pub closed spec fn expanding(&self) -> bool {
        self.current is Some
    }

    /// The paths waiting in the queue, the front first.
    pub closed spec fn pending(&self) -> Seq<(Seq<Seq<char>>, usize)> {
        queue_entries(self.queue@.subrange(self.head as int, self.queue@.len() as int))
    }

    /// The nodes expanded so far.
    pub closed spec fn expanded(&self) -> Seq<Seq<char>> {
        string_views(self.visited@)
    }

    /// The path and distance of the node being expanded.
    pub closed spec fn expanding_path(&self) -> Option<(Seq<Seq<char>>, usize)> {
        match self.current {
            Some((p, d)) => Some((string_views(p@), d)),
            None => None,
        }
    }

    /// The search's invariant: every queued path is a path from the start,
    /// its distance is its length less one and within the limit, and all its
    /// nodes before the last have been expanded; the node being expanded and
    /// its whole path have been.
    pub closed spec fn wf(&self) -> bool {
        &&& self.head <= self.queue@.len()
        &&& string_views(self.visited@).no_duplicates()
        &&& forall|i: int|
            0 <= i < self.queue@.len() ==> {
                let e = #[trigger] self.queue@[i];
                &&& path_from(string_views(e.0@), self.start@)
                &&& e.1 + 1 == e.0@.len()
                &&& e.1 <= self.max_depth
                &&& forall|j: int| 0 <= j < e.0@.len() - 1 ==> string_views(self.visited@).contains(#[trigger] e.0@[j]@)
            }
        &&& match self.current {
            Some((p, d)) => {
                &&& path_from(string_views(p@), self.start@)
                &&& d + 1 == p@.len()
                &&& d < self.max_depth
                &&& forall|j: int| 0 <= j < p@.len() ==> string_views(self.visited@).contains(#[trigger] p@[j]@)
            },
            None => true,
        }
        &&& self.layered()
    }

    /// The waiting paths are ordered by distance and span at most two
    /// distances; while a node is expanded, each is at its distance or one more.
    pub closed spec fn layered(&self) -> bool {
        &&& forall|i: int, j: int|
            #![trigger self.queue@[i], self.queue@[j]]
            self.head <= i < j < self.queue@.len() ==> self.queue@[i].1 <= self.queue@[j].1
        &&& match self.current {
            Some((_, d)) => forall|i: int|
                self.head <= i < self.queue@.len() ==> d <= #[trigger] self.queue@[i].1 <= d + 1,
            None => self.head < self.queue@.len() ==> self.queue@[self.queue@.len() - 1].1 <= self.queue@[self.head as int].1
                + 1,
        }
    }

    /// A search from `start` for `target`.
    pub fn new(start: &str, target: &str, max_depth: usize) -> (r: Self)
        ensures
            r.wf(),
            r.start_id() == start@,
            r.target_id() == target@,
            r.depth_limit() == max_depth,
            r.pending() == seq![(seq![start@], 0usize)],
            r.expanded() == Seq::<Seq<char>>::empty(),
            !r.expanding(),
    {
        let mut path: Vec<String> = Vec::new();
        path.push(string_from_str(start));
        let mut queue: Vec<(Vec<String>, usize)> = Vec::new();
        queue.push((path, 0));
        let r = ShortestPathSearch {
            queue,
            head: 0,
            visited: Vec::new(),
            target: string_from_str(target),
            max_depth,
            current: None,
            start: Ghost(start@),
        };
        proof {
            let p = string_views(r.queue@[0].0@);
            assert(p =~= seq![start@]);
            assert(p.no_duplicates());
            assert(string_views(r.visited@) =~= Seq::<Seq<char>>::empty());
            assert(r.queue@.subrange(0, 1) =~= r.queue@);
            assert(r.pending() =~= seq![(seq![start@], 0usize)]);
        }
        r
    }

    /// The next step: a queued path that ends at the target is the answer;
    /// paths at the depth limit or ending at an expanded node are dropped;
    /// otherwise the path's last node is expanded.
    pub fn next_step(&mut self) -> (r: ShortestStep)
        requires
            old(self).wf(),
        ensures
            final(self).wf(),
            final(self).start_id() == old(self).start_id(),
            final(self).target_id() == old(self).target_id(),
            final(self).depth_limit() == old(self).depth_limit(),
            match r {
                ShortestStep::Found(p) => {
                    &&& path_from(string_views(p@), final(self).start_id())
                    &&& p@[p@.len() - 1]@ == final(self).target_id()
                    &&& p@.len() <= final(self).depth_limit() + 1
                    &&& !final(self).expanding()
                },
                ShortestStep::Expand(_) => final(self).expanding(),
                ShortestStep::Exhausted => !final(self).expanding(),
            },
            ({
                let st = search_step(old(self).pending(), old(self).expanded(), old(self).target_id(), old(self).depth_limit());
                &&& final(self).pending() == st.0
                &&& final(self).expanded() == st.1
                &&& match r {
                    ShortestStep::Found(p) => st.2 == SearchOutcome::Found(string_views(p@)) && final(self).expanding_path() is None,
                    ShortestStep::Expand(n) => st.2 matches SearchOutcome::Expand(p, d) && n@ == p[p.len() - 1]
                        && final(self).expanding_path() == Some((p, d)),
                    ShortestStep::Exhausted => st.2 is Exhausted && final(self).expanding_path() is None,
                }
            }),
    {
        self.current = None;
        let ghost st0 = search_step(self.pending(), self.expanded(), self.target@, self.max_depth);
        while self.head < self.queue.len()
            invariant
                self.wf(),
                self.current is None,
                self.start == old(self).start,
                self.target == old(self).target,
                self.max_depth == old(self).max_depth,
                st0 == search_step(old(self).pending(), old(self).expanded(), old(self).target@, old(self).max_depth),
                st0 == search_step(self.pending(), self.expanded(), self.target@, self.max_depth),
            decreases self.queue@.len() - self.head,
        {
            let i = self.head;
            proof {
                let qs = self.queue@.subrange(i as int, self.queue@.len() as int);
                assert(queue_entries(qs)[0] == (string_views(self.queue@[i as int].0@), self.queue@[i as int].1));
                assert(queue_entries(qs).drop_first() =~= queue_entries(
                    self.queue@.subrange(i + 1, self.queue@.len() as int),
                ));
            }
            self.head = self.head + 1;
            let path = crate::artifacts::copy_strings(&self.queue[i].0);
            let dist = self.queue[i].1;
            proof {
                assert(string_views(path@) == string_views(self.queue@[i as int].0@));
                assert(path@.len() == self.queue@[i as int].0@.len());
                assert(path_from(string_views(path@), self.start@));
            }
            let last = path.len() - 1;
            let node = path[last].clone();
            proof {
                assert(string_views(path@)[last as int] == path@[last as int]@);
            }
            if node == self.target {
                proof {
                    assert(path@[path@.len() - 1]@ == self.target@);
                }
                return ShortestStep::Found(path);
            }
            if dist >= self.max_depth || contains_string(&self.visited, &node) {
                continue;
            }
            let ghost vb = string_views(self.visited@);
            self.visited.push(node.clone());
            proof {
                assert(string_views(self.visited@) =~= vb.push(node@));
                assert(string_views(self.visited@).no_duplicates()) by {
                    assert forall|a: int, b: int| 0 <= a < b < string_views(self.visited@).len() implies string_views(self.visited@)[a] != string_views(self.visited@)[b] by {
                        if b == vb.len() {
                            assert(vb.contains(vb[a]));
                        }
                    }
                }
                assert forall|x: Seq<char>| vb.contains(x) implies string_views(self.visited@).contains(x) by {
                    let w = choose|w: int| 0 <= w < vb.len() && vb[w] == x;
                    assert(string_views(self.visited@)[w] == x);
                }
                assert(string_views(self.visited@)[vb.len() as int] == node@);
                let qe = self.queue@[i as int];
                assert forall|j: int| 0 <= j < path@.len() implies string_views(self.visited@).contains(#[trigger] path@[j]@) by {
                    assert(path@[j]@ == string_views(path@)[j]);
                    assert(string_views(path@)[j] == string_views(qe.0@)[j]);
                    if j < path@.len() - 1 {
                        assert(vb.contains(qe.0@[j]@));
                    }
                }
                assert forall|q: int| 0 <= q < self.queue@.len() implies {
                    let e = #[trigger] self.queue@[q];
                    forall|j: int| 0 <= j < e.0@.len() - 1 ==> string_views(self.visited@).contains(#[trigger] e.0@[j]@)
                } by {
                    let e = self.queue@[q];
                    assert forall|j: int| 0 <= j < e.0@.len() - 1 implies string_views(self.visited@).contains(#[trigger] e.0@[j]@) by {
                        assert(vb.contains(e.0@[j]@));
                    }
                }
            }
            self.current = Some((path, dist));
            return ShortestStep::Expand(node);
        }
        proof {
            assert(self.pending() =~= Seq::<(Seq<Seq<char>>, usize)>::empty());
        }
        ShortestStep::Exhausted
    }

    /// Takes the neighbours of the node being expanded: each readable id not
    /// yet expanded extends the node's path one step, at the back of the queue.
    pub fn accept_neighbors(&mut self, answers: &Vec<Option<String>>)
        requires
            old(self).wf(),
            old(self).expanding(),
        ensures
            final(self).wf(),
            final(self).start_id() == old(self).start_id(),
            final(self).target_id() == old(self).target_id(),
            final(self).depth_limit() == old(self).depth_limit(),
            final(self).expanded() == old(self).expanded(),
            old(self).expanding_path() matches Some(e) && final(self).pending() == old(self).pending()
                + search_extensions(e.0, e.1, old(self).expanded(), answer_views(answers@)),
            !final(self).expanding(),
    {
        let ghost q0 = self.pending();
        let cur = self.current.take();
        let (path, dist) = match cur {
            Some(c) => c,
            None => {
                return;
            },
        };
        let ghost pv = string_views(path@);
        let ghost av = answer_views(answers@);
        let ghost ex = string_views(self.visited@);
        let mut k: usize = 0;
        proof {
            assert(av.take(0) =~= Seq::<Option<Seq<char>>>::empty());
            assert(q0 + Seq::<(Seq<Seq<char>>, usize)>::empty() =~= q0);
        }
        while k < answers.len()
            invariant
                k <= answers@.len(),
                self.wf(),
                self.current is None,
                self.start == old(self).start,
                self.target == old(self).target,
                self.max_depth == old(self).max_depth,
                self.visited@ == old(self).visited@,
                self.head == old(self).head,
                self.head <= self.queue@.len(),
                ex == string_views(self.visited@),
                av == answer_views(answers@),
                pv == string_views(path@),
                path_from(pv, self.start@),
                dist + 1 == path@.len(),
                dist < self.max_depth,
                forall|j: int| 0 <= j < path@.len() ==> string_views(self.visited@).contains(#[trigger] path@[j]@),
                forall|i: int| self.head <= i < self.queue@.len() ==> dist <= #[trigger] self.queue@[i].1 <= dist + 1,
                queue_entries(self.queue@.subrange(self.head as int, self.queue@.len() as int)) == q0 + search_extensions(
                    pv,
                    dist,
                    ex,
                    av.take(k as int),
                ),
            decreases answers@.len() - k,
        {
            proof {
                assert(av.take(k + 1).drop_last() =~= av.take(k as int));
                assert(av.take(k + 1).last() == opt_view(answers@[k as int]));
            }
            let parsed: Option<String> = match &answers[k] {
                Some(raw) => parse_uuidish(raw.as_str()),
                None => None,
            };
            if let Some(next) = parsed {
                if !contains_string(&self.visited, &next) {
                    let mut np = crate::artifacts::copy_strings(&path);
                    np.push(next.clone());
                    proof {
                        assert(string_views(np@) =~= pv.push(next@));
                        assert(!pv.contains(next@)) by {
                            if pv.contains(next@) {
                                let w = choose|w: int| 0 <= w < pv.len() && pv[w] == next@;
                                assert(path@[w]@ == pv[w]);
                                assert(string_views(self.visited@).contains(path@[w]@));
                            }
                        }
                        lemma_extend_path(pv, self.start@, next@);
                        assert forall|j: int| 0 <= j < np@.len() - 1 implies string_views(self.visited@).contains(#[trigger] np@[j]@) by {
                            assert(np@[j]@ == string_views(np@)[j]);
                            assert(string_views(np@)[j] == pv[j]);
                            assert(pv[j] == path@[j]@);
                        }
                    }
                    let ghost qb = self.queue@;
                    let ghost npv = string_views(np@);
                    self.queue.push((np, dist + 1));
                    proof {
                        assert forall|q: int| 0 <= q < self.queue@.len() implies {
                            let e = #[trigger] self.queue@[q];
                            &&& path_from(string_views(e.0@), self.start@)
                            &&& e.1 + 1 == e.0@.len()
                            &&& e.1 <= self.max_depth
                            &&& forall|j: int| 0 <= j < e.0@.len() - 1 ==> string_views(self.visited@).contains(#[trigger] e.0@[j]@)
                        } by {
                            if q < qb.len() {
                                assert(self.queue@[q] == qb[q]);
                            }
                        }
                        assert(self.queue@.subrange(self.head as int, self.queue@.len() as int) =~= qb.subrange(
                            self.head as int,
                            qb.len() as int,
                        ).push((self.queue@[qb.len() as int].0, (dist + 1) as usize)));
                        assert(queue_entries(self.queue@.subrange(self.head as int, self.queue@.len() as int))
                            =~= queue_entries(qb.subrange(self.head as int, qb.len() as int)).push((npv, (dist + 1) as usize)));
                        assert(npv == pv.push(next@));
                    }
                }
            }
            k = k + 1;
        }
        proof {
            assert(av.take(answers@.len() as int) =~= av);
        }
    }
}


/// Narrowing of a relationship listing.
pub struct RelationshipQuery {
    pub object_id: Option<String>,
    pub source_id: Option<String>,
    pub target_id: Option<String>,
    pub relation_type: Option<String>,
}

/// The relationship listing: the named table (all of them by default),
/// narrowed to an object at either end, a source and a target, each bound
/// as a parameter.
pub open spec fn relationships_query_spec(q: RelationshipQuery) -> Seq<char> {
    let conds = crate::query::cond_if(
        q.object_id,
        "(in = type::thing('objects', $object) OR out = type::thing('objects', $object))"@,
    ) + crate::query::cond_if(q.source_id, "out = type::thing('objects', $source)"@) + crate::query::cond_if(
        q.target_id,
        "in = type::thing('objects', $target)"@,
    );
    "SELECT VALUE { in: string::concat(in.id), out: string::concat(out.id), type: meta::tb(id), created_at: created_at } FROM ["@
        + match q.relation_type {
        Some(t) => t@,
        None => "depends_on, defined_in, calls, justified_by, modifies, implements, produced"@,
    } + "]"@ + crate::query::conditions_clause(conds, " WHERE "@)
}

/// Writes the relationship listing.
pub fn relationships_query(q: &RelationshipQuery) -> (r: String)
    ensures
        r@ == relationships_query_spec(*q),
{
    let mut v = chars_of(
        "SELECT VALUE { in: string::concat(in.id), out: string::concat(out.id), type: meta::tb(id), created_at: created_at } FROM [",
    );
    match &q.relation_type {
        Some(t) => append_str(&mut v, t.as_str()),
        None => append_str(&mut v, "depends_on, defined_in, calls, justified_by, modifies, implements, produced"),
    }
    append_str(&mut v, "]");
    let mut conds: Vec<Vec<char>> = Vec::new();
    if q.object_id.is_some() {
        conds.push(chars_of("(in = type::thing('objects', $object) OR out = type::thing('objects', $object))"));
    }
    if q.source_id.is_some() {
        conds.push(chars_of("out = type::thing('objects', $source)"));
    }
    if q.target_id.is_some() {
        conds.push(chars_of("in = type::thing('objects', $target)"));
    }
    proof {
        assert(views(conds@) =~= crate::query::cond_if(
            q.object_id,
            "(in = type::thing('objects', $object) OR out = type::thing('objects', $object))"@,
        ) + crate::query::cond_if(q.source_id, "out = type::thing('objects', $source)"@) + crate::query::cond_if(
            q.target_id,
            "in = type::thing('objects', $target)"@,
        ));
    }
    crate::query::append_conditions(&mut v, &conds, " WHERE ");
    proof {
        assert(v@ =~= relationships_query_spec(*q));
    }
    string_of(&v)
}


/// A collect traversal never collects a node twice, and never collects a
/// start node.
pub proof fn collected_nodes_are_new(t: CollectTraversal)
    requires
        t.wf(),
    ensures
        t.collected_ids().no_duplicates(),
        forall|i: int| 0 <= i < t.collected_ids().len() ==> !t.start_ids().contains(#[trigger] t.collected_ids()[i]),
{
}

/// Every path a path enumeration records starts at its start node, passes
/// no node twice, and is no longer than the depth (a lone start node when
/// the depth is 0).
pub proof fn recorded_paths_are_simple(t: PathTraversal)
    requires
        t.wf(),
    ensures
        forall|i: int| 0 <= i < t.recorded().len() ==> path_within(#[trigger] t.recorded()[i], t.start_id(), t.depth_limit()),
{
    assert forall|i: int| 0 <= i < t.recorded().len() implies path_within(#[trigger] t.recorded()[i], t.start_id(), t.depth_limit()) by {
        assert(t.recorded()[i] == string_views(t.paths@[i]@));
    }
}

/// A shortest-path search takes its paths in order of length, as a
/// priority queue by distance would: the waiting paths are ordered by
/// distance (so each step takes one of least distance) and span at most
/// two distances.
pub proof fn search_takes_shortest_first(t: ShortestPathSearch)
    requires
        t.wf(),
    ensures
        forall|i: int, j: int| 0 <= i < j < t.pending().len() ==> #[trigger] t.pending()[i].1 <= #[trigger] t.pending()[j].1,
        t.pending().len() > 0 ==> t.pending()[t.pending().len() - 1].1 <= t.pending()[0].1 + 1,
{
    assert forall|i: int, j: int| 0 <= i < j < t.pending().len() implies #[trigger] t.pending()[i].1 <= #[trigger] t.pending()[j].1 by {
        assert(t.pending()[i].1 == t.queue@[t.head + i].1);
        assert(t.pending()[j].1 == t.queue@[t.head + j].1);
    }
    if t.pending().len() > 0 {
        assert(t.pending()[0].1 == t.queue@[t.head as int].1);
        assert(t.pending()[t.pending().len() - 1].1 == t.queue@[t.queue@.len() - 1].1);
        match t.current {
            Some((_, d)) => {
                assert(d <= t.queue@[t.head as int].1);
                assert(t.queue@[t.queue@.len() - 1].1 <= d + 1);
            },
            None => {},
        }
    }
}

/// Taking from a queue ordered by distance, in which each entry's distance
/// is its path's length less one: a path found is no longer than any path
/// left waiting.
proof fn lemma_found_is_least(
    q: Seq<(Seq<Seq<char>>, usize)>,
    expanded: Seq<Seq<char>>,
    target: Seq<char>,
    max_depth: usize,
)
    requires
        forall|i: int, j: int| 0 <= i < j < q.len() ==> #[trigger] q[i].1 <= #[trigger] q[j].1,
        forall|i: int| 0 <= i < q.len() ==> #[trigger] q[i].1 + 1 == q[i].0.len(),
    ensures
        search_step(q, expanded, target, max_depth).2 matches SearchOutcome::Found(p) ==> forall|i: int|
            0 <= i < search_step(q, expanded, target, max_depth).0.len() ==> p.len() <= #[trigger] search_step(
                q,
                expanded,
                target,
                max_depth,
            ).0[i].1 + 1,
    decreases q.len(),
{
    if q.len() > 0 {
        let e = q[0];
        let last = e.0[e.0.len() - 1];
        if last == target {
            assert forall|i: int| 0 <= i < q.drop_first().len() implies e.0.len() <= #[trigger] q.drop_first()[i].1 + 1 by {
                assert(q.drop_first()[i] == q[i + 1]);
                assert(q[0].1 <= q[i + 1].1);
            }
        } else if e.1 >= max_depth || expanded.contains(last) {
            let r = q.drop_first();
            assert forall|i: int, j: int| 0 <= i < j < r.len() implies #[trigger] r[i].1 <= #[trigger] r[j].1 by {
                assert(r[i] == q[i + 1] && r[j] == q[j + 1]);
            }
            assert forall|i: int| 0 <= i < r.len() implies #[trigger] r[i].1 + 1 == r[i].0.len() by {
                assert(r[i] == q[i + 1]);
            }
            lemma_found_is_least(r, expanded, target, max_depth);
        }
    }
}

/// A shortest-path search answers with a path no longer than any path
/// still waiting in its queue: when a step finds the target, every path
/// left to consider is at least as long as the one found.
pub proof fn found_path_is_no_longer_than_waiting_ones(t: ShortestPathSearch)
    requires
        t.wf(),
    ensures
        ({
            let st = search_step(t.pending(), t.expanded(), t.target_id(), t.depth_limit());
            st.2 matches SearchOutcome::Found(p) ==> forall|i: int| 0 <= i < st.0.len() ==> p.len() <= #[trigger] st.0[i].1 + 1
        }),
{
    search_takes_shortest_first(t);
    let q = t.pending();
    assert forall|i: int| 0 <= i < q.len() implies #[trigger] q[i].1 + 1 == q[i].0.len() by {
        let e = t.queue@[t.head + i];
        assert(q[i] == (string_views(e.0@), e.1));
    }
    lemma_found_is_least(q, t.expanded(), t.target_id(), t.depth_limit());
}

/// The nodes one entry of a neighbour row lists: an array's items; any
/// other value itself when `keep_single` is set, else nothing.
pub open spec fn entry_nodes(e: Option<JsonValue>, keep_single: bool) -> Seq<JsonValue> {
    match e {
        Some(JsonValue::Array(items)) => items@,
        Some(x) => if keep_single {
            seq![x]
        } else {
            Seq::empty()
        },
        None => Seq::empty(),
    }
}

/// The nodes of one neighbour row: in both directions those of its
/// `outbound` then its `inbound` entry, otherwise those of its `connected`
/// entry (where a lone value counts as a node); none for a row that is not
/// an object.
pub open spec fn row_nodes(v: JsonValue, both: bool, keep_single: bool) -> Seq<JsonValue> {
    match v {
        JsonValue::Object(m) => if both {
            entry_nodes(lookup(m@, "outbound"@), keep_single) + entry_nodes(lookup(m@, "inbound"@), keep_single)
        } else {
            entry_nodes(lookup(m@, "connected"@), true)
        },
        _ => Seq::empty(),
    }
}

/// The nodes of all neighbour rows, in order.
pub open spec fn neighbor_rows(rows: Seq<JsonValue>, both: bool, keep_single: bool) -> Seq<JsonValue>
    decreases rows.len(),
{
    if rows.len() == 0 {
        Seq::empty()
    } else {
        neighbor_rows(rows.drop_last(), both, keep_single) + row_nodes(rows.last(), both, keep_single)
    }
}

/// The nodes one entry lists.
fn take_nodes(e: Option<JsonValue>, keep_single: bool) -> (r: Vec<JsonValue>)
    ensures
        r@ == entry_nodes(e, keep_single),
{
    match e {
        Some(JsonValue::Array(items)) => items,
        Some(x) => {
            let mut r: Vec<JsonValue> = Vec::new();
            if keep_single {
                r.push(x);
            }
            r
        },
        None => Vec::new(),
    }
}

/// The nodes of one neighbour row.
fn row_nodes_of(v: JsonValue, both: bool, keep_single: bool) -> (r: Vec<JsonValue>)
    ensures
        r@ == row_nodes(v, both, keep_single),
{
    let mut m = match v {
        JsonValue::Object(m) => m,
        _ => return Vec::new(),
    };
    if both {
        let ghost m0 = m@;
        let outbound = take_entry(&mut m, "outbound");
        proof {
            reveal_strlit("outbound");
            reveal_strlit("inbound");
            assert("inbound"@ != "outbound"@) by {
                assert("inbound"@.len() != "outbound"@.len());
            }
        }
        let inbound = take_entry(&mut m, "inbound");
        let mut a = take_nodes(outbound, keep_single);
        let mut b = take_nodes(inbound, keep_single);
        let ghost av = a@;
        let ghost bv = b@;
        a.append(&mut b);
        proof {
            assert(a@ == av + bv);
        }
        a
    } else {
        let connected = take_entry(&mut m, "connected");
        take_nodes(connected, true)
    }
}

/// The nodes a traversal's neighbour query answered with: per row, in both
/// directions the outbound then the inbound ones, otherwise the connected
/// ones. Lone values in both directions count only with `keep_single`.
pub fn neighbor_nodes(rows: Vec<JsonValue>, both: bool, keep_single: bool) -> (r: Vec<JsonValue>)
    ensures
        r@ == neighbor_rows(rows@, both, keep_single),
{
    let ghost r0 = rows@;
    let n: usize = rows.len();
    let mut src = rows;
    let mut out: Vec<JsonValue> = Vec::new();
    let mut k: usize = 0;
    proof {
        assert(r0.skip(0) =~= r0);
        assert(r0.take(0) =~= Seq::<JsonValue>::empty());
    }
    while src.len() > 0
        invariant
            k <= r0.len(),
            r0.len() == n,
            src@ == r0.skip(k as int),
            out@ == neighbor_rows(r0.take(k as int), both, keep_single),
        decreases src@.len(),
    {
        proof {
            assert(src@.len() == r0.len() - k);
        }
        let v = src.remove(0);
        proof {
            assert(r0.skip(k as int).drop_first() =~= r0.skip(k + 1));
            assert(r0.take(k + 1).drop_last() =~= r0.take(k as int));
            assert(r0.take(k + 1).last() == v);
        }
        let mut c = row_nodes_of(v, both, keep_single);
        let ghost o = out@;
        let ghost cv = c@;
        out.append(&mut c);
        proof {
            assert(out@ == o + cv);
        }
        k = k + 1;
    }
    proof {
        assert(r0.take(k as int) =~= r0);
    }
    out
}

} // verus!

