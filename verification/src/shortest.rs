//! Correctness of the shortest-path search over the graph its caller
//! answers with: run step by step as its contracts describe, it finds a
//! shortest path to the target when one exists within the depth, and
//! reports none only when none exists.
use vstd::prelude::*;

use crate::graph::{neighbor_id, search_extensions, search_step, SearchOutcome};

verus! {

/// The answers the caller gives when a node is expanded: the raw
/// neighbour ids of each node.
pub type Answers = spec_fn(Seq<char>) -> Seq<Option<Seq<char>>>;

/// An edge of the answered graph: `v` is a readable neighbour id among the
/// answers for `u`.
pub open spec fn links_to(ans: Answers, u: Seq<char>, v: Seq<char>) -> bool {
    exists|i: int| 0 <= i < ans(u).len() && #[trigger] neighbor_id(ans(u)[i]) == Some(v)
}

/// A walk of the answered graph from `from`: consecutive nodes are linked.
pub open spec fn is_walk(ans: Answers, w: Seq<Seq<char>>, from: Seq<char>) -> bool {
    &&& w.len() >= 1
    &&& w[0] == from
    &&& forall|i: int| 0 <= i < w.len() - 1 ==> links_to(ans, #[trigger] w[i], w[i + 1])
}

/// `v` can be reached from `from` in at most `k` steps.
pub open spec fn reachable_within(ans: Answers, from: Seq<char>, v: Seq<char>, k: int) -> bool {
    exists|w: Seq<Seq<char>>| is_walk(ans, w, from) && w[w.len() - 1] == v && w.len() <= k + 1
}

/// The search run to its end, at most `fuel` expansions long, the caller
/// answering `ans(n)` for each node `n` expanded: `Some(Some(p))` when it
/// finds the path `p`, `Some(None)` when its queue runs out, `None` when
/// the fuel runs out first.
pub open spec fn search_run(
    queue: Seq<(Seq<Seq<char>>, usize)>,
    expanded: Seq<Seq<char>>,
    target: Seq<char>,
    max_depth: usize,
    ans: Answers,
    fuel: nat,
) -> Option<Option<Seq<Seq<char>>>>
    decreases fuel,
{
    if fuel == 0 {
        None
    } else {
        let st = search_step(queue, expanded, target, max_depth);
        match st.2 {
            SearchOutcome::Found(p) => Some(Some(p)),
            SearchOutcome::Exhausted => Some(None),
            SearchOutcome::Expand(p, d) => search_run(
                st.0 + search_extensions(p, d, st.1, ans(p[p.len() - 1])),
                st.1,
                target,
                max_depth,
                ans,
                (fuel - 1) as nat,
            ),
        }
    }
}

/// `p` is a shortest walk from `start` to `target`, within the depth.
pub open spec fn shortest_walk(ans: Answers, p: Seq<Seq<char>>, start: Seq<char>, target: Seq<char>, max_depth: usize) -> bool {
    &&& is_walk(ans, p, start)
    &&& p[p.len() - 1] == target
    &&& p.len() <= max_depth + 1
    &&& forall|w: Seq<Seq<char>>| is_walk(ans, w, start) && w[w.len() - 1] == target ==> p.len() <= w.len()
}

spec fn queued_at(q: Seq<(Seq<Seq<char>>, usize)>, v: Seq<char>, h: int) -> bool {
    exists|i: int| 0 <= i < q.len() && q[i].1 == h && #[trigger] q[i].0[q[i].0.len() - 1] == v
}

spec fn queued(q: Seq<(Seq<Seq<char>>, usize)>, v: Seq<char>) -> bool {
    exists|i: int| 0 <= i < q.len() && #[trigger] q[i].0[q[i].0.len() - 1] == v
}

/// The breadth-first frontier at layer `h`: queued paths are walks of
/// layer `h` or `h + 1`, in order; everything within `h - 1` steps is
/// expanded; everything within `h` steps is expanded or queued at `h`
/// (beyond the depth, the target only); every neighbour of an expanded
/// node is expanded or queued (below the depth); expanded nodes lie within
/// `h` steps; the target is never expanded.
spec fn frontier(
    q: Seq<(Seq<Seq<char>>, usize)>,
    x: Seq<Seq<char>>,
    h: int,
    start: Seq<char>,
    target: Seq<char>,
    max_depth: usize,
    ans: Answers,
) -> bool {
    &&& 0 <= h <= max_depth
    &&& forall|i: int|
        0 <= i < q.len() ==> #[trigger] is_walk(ans, q[i].0, start) && q[i].1 + 1 == q[i].0.len() && h <= q[i].1
            <= h + 1 && q[i].1 <= max_depth
    &&& forall|i: int, j: int| 0 <= i < j < q.len() ==> #[trigger] q[i].1 <= #[trigger] q[j].1
    &&& forall|v: Seq<char>| #[trigger] reachable_within(ans, start, v, h - 1) ==> x.contains(v)
    &&& forall|v: Seq<char>|
        #[trigger] reachable_within(ans, start, v, h) && (h < max_depth || v == target) ==> x.contains(v)
            || queued_at(q, v, h)
    &&& forall|u: Seq<char>, v: Seq<char>|
        #[trigger] x.contains(u) && #[trigger] links_to(ans, u, v) && h < max_depth ==> x.contains(v) || queued(q, v)
    &&& forall|v: Seq<char>| #[trigger] x.contains(v) ==> reachable_within(ans, start, v, h)
    &&& !x.contains(target)
}

/// Along a walk whose every step leaves an expanded node for an expanded
/// one, with the start expanded, every node is expanded.
proof fn lemma_walk_expanded(ans: Answers, w: Seq<Seq<char>>, start: Seq<char>, x: Seq<Seq<char>>, k: int)
    requires
        is_walk(ans, w, start),
        x.contains(start),
        forall|u: Seq<char>, v: Seq<char>| #[trigger] x.contains(u) && #[trigger] links_to(ans, u, v) ==> x.contains(v),
        0 <= k < w.len(),
    ensures
        x.contains(w[k]),
    decreases k,
{
    if k > 0 {
        lemma_walk_expanded(ans, w, start, x, k - 1);
        assert(links_to(ans, w[k - 1], w[k]));
    }
}

/// Moving the frontier to the next layer once no path of layer `h` waits.
proof fn lemma_next_layer(
    q: Seq<(Seq<Seq<char>>, usize)>,
    x: Seq<Seq<char>>,
    h: int,
    start: Seq<char>,
    target: Seq<char>,
    max_depth: usize,
    ans: Answers,
)
    requires
        frontier(q, x, h, start, target, max_depth, ans),
        q.len() > 0,
        q[0].1 == h + 1,
        h + 1 <= max_depth,
    ensures
        frontier(q, x, h + 1, start, target, max_depth, ans),
{
    assert forall|i: int| 0 <= i < q.len() implies q[i].1 == h + 1 by {
        if i > 0 {
            assert(q[0].1 <= q[i].1);
        }
        assert(is_walk(ans, q[i].0, start));
    }
    assert forall|v: Seq<char>| #[trigger] reachable_within(ans, start, v, h) implies x.contains(v) by {
        if !x.contains(v) {
            assert(queued_at(q, v, h));
            let i = choose|i: int| 0 <= i < q.len() && q[i].1 == h && #[trigger] q[i].0[q[i].0.len() - 1] == v;
            assert(q[i].1 == h + 1);
        }
    }
    assert forall|v: Seq<char>|
        #[trigger] reachable_within(ans, start, v, h + 1) && (h + 1 < max_depth || v == target) implies x.contains(v)
        || queued_at(q, v, h + 1) by {
        let w = choose|w: Seq<Seq<char>>| is_walk(ans, w, start) && w[w.len() - 1] == v && w.len() <= h + 2;
        if w.len() <= h + 1 {
            assert(reachable_within(ans, start, v, h));
        } else {
            let n = w.len();
            let pre = w.take(n - 1);
            assert(is_walk(ans, pre, start)) by {
                assert forall|i: int| 0 <= i < pre.len() - 1 implies links_to(ans, #[trigger] pre[i], pre[i + 1]) by {
                    assert(pre[i] == w[i] && pre[i + 1] == w[i + 1]);
                    assert(links_to(ans, w[i], w[i + 1]));
                }
            }
            let u = w[n - 2];
            assert(pre[pre.len() - 1] == u);
            assert(reachable_within(ans, start, u, h));
            assert(x.contains(u));
            assert(links_to(ans, w[n - 2], w[n - 1]));
            assert(links_to(ans, u, v));
            if !x.contains(v) {
                assert(queued(q, v));
                let i = choose|i: int| 0 <= i < q.len() && #[trigger] q[i].0[q[i].0.len() - 1] == v;
                assert(q[i].1 == h + 1);
                assert(queued_at(q, v, h + 1));
            }
        }
    }
    assert forall|v: Seq<char>| #[trigger] x.contains(v) implies reachable_within(ans, start, v, h + 1) by {
        assert(reachable_within(ans, start, v, h));
        let w = choose|w: Seq<Seq<char>>| is_walk(ans, w, start) && w[w.len() - 1] == v && w.len() <= h + 1;
        assert(is_walk(ans, w, start) && w[w.len() - 1] == v && w.len() <= h + 2);
    }
    assert forall|v: Seq<char>| #[trigger] reachable_within(ans, start, v, h + 1 - 1) implies x.contains(v) by {
        assert(reachable_within(ans, start, v, h));
    }
}

/// The extensions of a path hold, for each readable answer not expanded,
/// a walk one step longer ending at it.
proof fn lemma_extensions(
    p: Seq<Seq<char>>,
    d: usize,
    x: Seq<Seq<char>>,
    answers: Seq<Option<Seq<char>>>,
)
    ensures
        forall|i: int|
            #![trigger search_extensions(p, d, x, answers)[i]]
            0 <= i < search_extensions(p, d, x, answers).len() ==> exists|j: int|
                0 <= j < answers.len() && #[trigger] neighbor_id(answers[j]) is Some && !x.contains(neighbor_id(answers[j])->0)
                    && search_extensions(p, d, x, answers)[i] == (p.push(neighbor_id(answers[j])->0), (d + 1) as usize),
        forall|j: int|
            0 <= j < answers.len() && #[trigger] neighbor_id(answers[j]) is Some && !x.contains(neighbor_id(answers[j])->0)
                ==> exists|i: int|
                0 <= i < search_extensions(p, d, x, answers).len() && search_extensions(p, d, x, answers)[i] == (
                    p.push(neighbor_id(answers[j])->0),
                    (d + 1) as usize,
                ),
    decreases answers.len(),
{
    if answers.len() > 0 {
        let rest = answers.drop_last();
        lemma_extensions(p, d, x, rest);
        let pre = search_extensions(p, d, x, rest);
        let all = search_extensions(p, d, x, answers);
        let tail: Seq<(Seq<Seq<char>>, usize)> = match neighbor_id(answers.last()) {
            Some(c) => if x.contains(c) {
                Seq::empty()
            } else {
                seq![(p.push(c), (d + 1) as usize)]
            },
            None => Seq::empty(),
        };
        assert(all == pre + tail);
        assert forall|i: int| #![trigger all[i]] 0 <= i < all.len() implies exists|j: int|
            0 <= j < answers.len() && #[trigger] neighbor_id(answers[j]) is Some && !x.contains(neighbor_id(answers[j])->0)
                && all[i] == (p.push(neighbor_id(answers[j])->0), (d + 1) as usize) by {
            if i < pre.len() {
                assert(all[i] == pre[i]);
                let j = choose|j: int|
                    0 <= j < rest.len() && #[trigger] neighbor_id(rest[j]) is Some && !x.contains(neighbor_id(rest[j])->0)
                        && pre[i] == (p.push(neighbor_id(rest[j])->0), (d + 1) as usize);
                assert(rest[j] == answers[j]);
            } else {
                assert(all[i] == tail[i - pre.len()]);
                assert(answers[answers.len() - 1] == answers.last());
            }
        }
        assert forall|j: int|
            0 <= j < answers.len() && #[trigger] neighbor_id(answers[j]) is Some && !x.contains(neighbor_id(answers[j])->0)
                implies exists|i: int|
                0 <= i < all.len() && all[i] == (p.push(neighbor_id(answers[j])->0), (d + 1) as usize) by {
            if j < rest.len() {
                assert(rest[j] == answers[j]);
                assert(neighbor_id(rest[j]) is Some);
                let i = choose|i: int|
                    0 <= i < pre.len() && pre[i] == (p.push(neighbor_id(rest[j])->0), (d + 1) as usize);
                assert(all[i] == pre[i]);
            } else {
                assert(answers[j] == answers.last());
                assert(all[pre.len() as int] == tail[0]);
            }
        }
    }
}

/// With the queue empty, the target is out of reach within the depth.
proof fn lemma_exhausted(
    q: Seq<(Seq<Seq<char>>, usize)>,
    x: Seq<Seq<char>>,
    h: int,
    start: Seq<char>,
    target: Seq<char>,
    max_depth: usize,
    ans: Answers,
)
    requires
        frontier(q, x, h, start, target, max_depth, ans),
        q.len() == 0,
    ensures
        !reachable_within(ans, start, target, max_depth as int),
{
        if reachable_within(ans, start, target, max_depth as int) {
        let w = choose|w: Seq<Seq<char>>| is_walk(ans, w, start) && w[w.len() - 1] == target && w.len() <= max_depth + 1;
        if h == max_depth {
            assert(!queued_at(q, target, h));
        } else {
            let sw = seq![start];
            assert(is_walk(ans, sw, start));
            assert(reachable_within(ans, start, start, h));
            assert(!queued_at(q, start, h));
            assert forall|u: Seq<char>, v: Seq<char>| #[trigger] x.contains(u) && #[trigger] links_to(ans, u, v) implies x.contains(v) by {
                assert(!queued(q, v));
            }
            lemma_walk_expanded(ans, w, start, x, w.len() - 1);
        }
    }
}

/// Dropping a head path that ends at an expanded node or at the depth
/// keeps the frontier.
proof fn lemma_drop_head(
    q: Seq<(Seq<Seq<char>>, usize)>,
    x: Seq<Seq<char>>,
    h: int,
    start: Seq<char>,
    target: Seq<char>,
    max_depth: usize,
    ans: Answers,
)
    requires
        frontier(q, x, h, start, target, max_depth, ans),
        q.len() > 0,
        q[0].1 == h,
        q[0].0[q[0].0.len() - 1] != target,
        q[0].1 >= max_depth || x.contains(q[0].0[q[0].0.len() - 1]),
    ensures
        frontier(q.drop_first(), x, h, start, target, max_depth, ans),
{
    let e = q[0];
    let last = e.0[e.0.len() - 1];
    let rest = q.drop_first();
        assert(frontier(rest, x, h, start, target, max_depth, ans)) by {
            assert forall|i: int| 0 <= i < rest.len() implies #[trigger] is_walk(ans, rest[i].0, start) && rest[i].1 + 1
                == rest[i].0.len() && h <= rest[i].1 <= h + 1 by {
                assert(rest[i] == q[i + 1]);
                assert(is_walk(ans, q[i + 1].0, start));
            }
            assert forall|i: int, j: int| 0 <= i < j < rest.len() implies #[trigger] rest[i].1 <= #[trigger] rest[j].1 by {
                assert(rest[i] == q[i + 1] && rest[j] == q[j + 1]);
            }
            assert forall|v: Seq<char>|
                #[trigger] reachable_within(ans, start, v, h) && (h < max_depth || v == target) implies x.contains(v)
                || queued_at(rest, v, h) by {
                if !x.contains(v) {
                    let i = choose|i: int| 0 <= i < q.len() && q[i].1 == h && #[trigger] q[i].0[q[i].0.len() - 1] == v;
                    if i == 0 {
                        assert(v == last);
                    } else {
                        assert(rest[i - 1] == q[i]);
                    }
                }
            }
            assert forall|u: Seq<char>, v: Seq<char>|
                #[trigger] x.contains(u) && #[trigger] links_to(ans, u, v) && h < max_depth implies x.contains(v)
                || queued(rest, v) by {
                if !x.contains(v) {
                    let i = choose|i: int| 0 <= i < q.len() && #[trigger] q[i].0[q[i].0.len() - 1] == v;
                    if i == 0 {
                        assert(v == last);
                    } else {
                        assert(rest[i - 1] == q[i]);
                    }
                }
            }
        }
}

/// A sequence with an item pushed holds exactly what it held and the item.
proof fn lemma_push_contains(x: Seq<Seq<char>>, a: Seq<char>)
    ensures
        forall|v: Seq<char>| #[trigger] x.push(a).contains(v) <==> (x.contains(v) || v == a),
{
    assert forall|v: Seq<char>| #[trigger] x.push(a).contains(v) <==> (x.contains(v) || v == a) by {
        if x.contains(v) {
            let k = choose|k: int| 0 <= k < x.len() && x[k] == v;
            assert(x.push(a)[k] == v);
        }
        if v == a {
            assert(x.push(a)[x.len() as int] == a);
        }
        if x.push(a).contains(v) {
            let k = choose|k: int| 0 <= k < x.push(a).len() && x.push(a)[k] == v;
            if k < x.len() {
                assert(x[k] == v);
            }
        }
    }
}

/// The queue after expanding the head path holds walks of the right
/// layers, in order.
#[verifier::rlimit(60)]
proof fn lemma_expand_queue(
    q: Seq<(Seq<Seq<char>>, usize)>,
    x: Seq<Seq<char>>,
    h: int,
    start: Seq<char>,
    target: Seq<char>,
    max_depth: usize,
    ans: Answers,
)
    requires
        frontier(q, x, h, start, target, max_depth, ans),
        q.len() > 0,
        q[0].1 == h,
        h < max_depth,
    ensures
        ({
            let q2 = next_queue(q, x, ans);
            &&& forall|i: int|
                0 <= i < q2.len() ==> #[trigger] is_walk(ans, q2[i].0, start) && q2[i].1 + 1 == q2[i].0.len() && h <= q2[i].1
                    <= h + 1 && q2[i].1 <= max_depth
            &&& forall|i: int, j: int| 0 <= i < j < q2.len() ==> #[trigger] q2[i].1 <= #[trigger] q2[j].1
        }),
{
    let e = q[0];
    let last = e.0[e.0.len() - 1];
    let rest = q.drop_first();
    assert(is_walk(ans, q[0].0, start));
    let x2 = x.push(last);
    let ext = search_extensions(e.0, e.1, x2, ans(last));
    let q2 = rest + ext;
    assert(q2 == next_queue(q, x, ans));
    lemma_extensions(e.0, e.1, x2, ans(last));
    assert(e.1 == h);
    assert forall|i: int| 0 <= i < q2.len() implies #[trigger] is_walk(ans, q2[i].0, start) && q2[i].1 + 1 == q2[i].0.len()
        && h <= q2[i].1 <= h + 1 && q2[i].1 <= max_depth by {
        if i < rest.len() {
            assert(q2[i] == q[i + 1]);
            assert(is_walk(ans, q[i + 1].0, start));
        } else {
            let k = i - rest.len();
            assert(q2[i] == ext[k]);
            let j = choose|j: int|
                0 <= j < ans(last).len() && #[trigger] neighbor_id(ans(last)[j]) is Some && !x2.contains(neighbor_id(ans(last)[j])->0)
                    && ext[k] == (e.0.push(neighbor_id(ans(last)[j])->0), (e.1 + 1) as usize);
            let c = neighbor_id(ans(last)[j])->0;
            let w = e.0.push(c);
            assert(q2[i].0 == w);
            assert(w[0] == start);
            assert(links_to(ans, last, c));
            assert forall|t: int| 0 <= t < w.len() - 1 implies links_to(ans, #[trigger] w[t], w[t + 1]) by {
                if t < e.0.len() - 1 {
                    assert(w[t] == e.0[t] && w[t + 1] == e.0[t + 1]);
                    assert(links_to(ans, e.0[t], e.0[t + 1]));
                } else {
                    assert(w[t] == last && w[t + 1] == c);
                }
            }
        }
    }
    assert forall|i: int, j: int| 0 <= i < j < q2.len() implies #[trigger] q2[i].1 <= #[trigger] q2[j].1 by {
        if j < rest.len() {
            assert(q2[i] == q[i + 1] && q2[j] == q[j + 1]);
        } else if i < rest.len() {
            assert(q2[i] == q[i + 1]);
            assert(is_walk(ans, q[i + 1].0, start));
            assert(is_walk(ans, q2[j].0, start));
            let k = j - rest.len();
            assert(q2[j] == ext[k]);
            let jj = choose|jj: int|
                0 <= jj < ans(last).len() && #[trigger] neighbor_id(ans(last)[jj]) is Some && !x2.contains(neighbor_id(ans(last)[jj])->0)
                    && ext[k] == (e.0.push(neighbor_id(ans(last)[jj])->0), (e.1 + 1) as usize);
        } else {
            let ki = i - rest.len();
            let kj = j - rest.len();
            assert(q2[i] == ext[ki] && q2[j] == ext[kj]);
            let ji = choose|jj: int|
                0 <= jj < ans(last).len() && #[trigger] neighbor_id(ans(last)[jj]) is Some && !x2.contains(neighbor_id(ans(last)[jj])->0)
                    && ext[ki] == (e.0.push(neighbor_id(ans(last)[jj])->0), (e.1 + 1) as usize);
            let jk = choose|jj: int|
                0 <= jj < ans(last).len() && #[trigger] neighbor_id(ans(last)[jj]) is Some && !x2.contains(neighbor_id(ans(last)[jj])->0)
                    && ext[kj] == (e.0.push(neighbor_id(ans(last)[jj])->0), (e.1 + 1) as usize);
        }
    }
}

/// The frontier, from its parts.
proof fn lemma_frontier_intro(
    q: Seq<(Seq<Seq<char>>, usize)>,
    x: Seq<Seq<char>>,
    h: int,
    start: Seq<char>,
    target: Seq<char>,
    max_depth: usize,
    ans: Answers,
)
    requires
        0 <= h <= max_depth,
        forall|i: int|
            0 <= i < q.len() ==> #[trigger] is_walk(ans, q[i].0, start) && q[i].1 + 1 == q[i].0.len() && h <= q[i].1
                <= h + 1 && q[i].1 <= max_depth,
        forall|i: int, j: int| 0 <= i < j < q.len() ==> #[trigger] q[i].1 <= #[trigger] q[j].1,
        forall|v: Seq<char>| #[trigger] reachable_within(ans, start, v, h - 1) ==> x.contains(v),
        forall|v: Seq<char>|
            #[trigger] reachable_within(ans, start, v, h) && (h < max_depth || v == target) ==> x.contains(v)
                || queued_at(q, v, h),
        forall|u: Seq<char>, v: Seq<char>|
            #[trigger] x.contains(u) && #[trigger] links_to(ans, u, v) && h < max_depth ==> x.contains(v) || queued(q, v),
        forall|v: Seq<char>| #[trigger] x.contains(v) ==> reachable_within(ans, start, v, h),
        !x.contains(target),
    ensures
        frontier(q, x, h, start, target, max_depth, ans),
{
}

/// The last node of the head path.
spec fn head_last(q: Seq<(Seq<Seq<char>>, usize)>) -> Seq<char> {
    q[0].0[q[0].0.len() - 1]
}

/// The queue after expanding the head path's last node.
spec fn next_queue(q: Seq<(Seq<Seq<char>>, usize)>, x: Seq<Seq<char>>, ans: Answers) -> Seq<(Seq<Seq<char>>, usize)> {
    q.drop_first() + search_extensions(q[0].0, q[0].1, x.push(head_last(q)), ans(head_last(q)))
}

/// After expanding, what was within reach stays expanded or queued.
#[verifier::rlimit(60)]
proof fn lemma_expand_reach(
    q: Seq<(Seq<Seq<char>>, usize)>,
    x: Seq<Seq<char>>,
    h: int,
    start: Seq<char>,
    target: Seq<char>,
    max_depth: usize,
    ans: Answers,
)
    requires
        frontier(q, x, h, start, target, max_depth, ans),
        q.len() > 0,
        q[0].1 == h,
    ensures
        forall|v: Seq<char>| #[trigger] reachable_within(ans, start, v, h - 1) ==> x.push(head_last(q)).contains(v),
        forall|v: Seq<char>|
            #[trigger] reachable_within(ans, start, v, h) && (h < max_depth || v == target) ==> x.push(head_last(q)).contains(v)
                || queued_at(next_queue(q, x, ans), v, h),
        forall|v: Seq<char>| #[trigger] x.push(head_last(q)).contains(v) ==> reachable_within(ans, start, v, h),
{
    let e = q[0];
    let last = head_last(q);
    let x2 = x.push(last);
    let q2 = next_queue(q, x, ans);
    lemma_push_contains(x, last);
    assert(is_walk(ans, q[0].0, start));
    assert forall|i: int| 0 <= i < q.len() - 1 implies q2[i] == q[i + 1] by {
        assert(q.drop_first()[i] == q[i + 1]);
    }
    assert forall|v: Seq<char>| #[trigger] reachable_within(ans, start, v, h - 1) implies x2.contains(v) by {
        assert(x.contains(v));
    }
    assert forall|v: Seq<char>|
        #[trigger] reachable_within(ans, start, v, h) && (h < max_depth || v == target) implies x2.contains(v)
        || queued_at(q2, v, h) by {
        if !x.contains(v) {
            let i = choose|i: int| 0 <= i < q.len() && q[i].1 == h && #[trigger] q[i].0[q[i].0.len() - 1] == v;
            if i == 0 {
                assert(v == last);
            } else {
                assert(q2[i - 1] == q[i]);
            }
        }
    }
    assert forall|v: Seq<char>| #[trigger] x2.contains(v) implies reachable_within(ans, start, v, h) by {
        if !x.contains(v) {
            assert(v == last);
            assert(is_walk(ans, e.0, start) && e.0[e.0.len() - 1] == v && e.0.len() <= h + 1);
        }
    }
}

/// After expanding, every neighbour of an expanded node is expanded or
/// queued.
#[verifier::rlimit(60)]
proof fn lemma_expand_links(
    q: Seq<(Seq<Seq<char>>, usize)>,
    x: Seq<Seq<char>>,
    h: int,
    start: Seq<char>,
    target: Seq<char>,
    max_depth: usize,
    ans: Answers,
)
    requires
        frontier(q, x, h, start, target, max_depth, ans),
        q.len() > 0,
    ensures
        forall|u: Seq<char>, v: Seq<char>|
            #[trigger] x.push(head_last(q)).contains(u) && #[trigger] links_to(ans, u, v) && h < max_depth
                ==> x.push(head_last(q)).contains(v) || queued(next_queue(q, x, ans), v),
{
    let e = q[0];
    let last = head_last(q);
    let x2 = x.push(last);
    let rest = q.drop_first();
    let ext = search_extensions(e.0, e.1, x2, ans(last));
    let q2 = next_queue(q, x, ans);
    assert(q2 == rest + ext);
    lemma_push_contains(x, last);
    lemma_extensions(e.0, e.1, x2, ans(last));
    assert forall|u: Seq<char>, v: Seq<char>|
        #[trigger] x2.contains(u) && #[trigger] links_to(ans, u, v) && h < max_depth implies x2.contains(v)
        || queued(q2, v) by {
        if !x2.contains(v) {
            if x.contains(u) {
                let i = choose|i: int| 0 <= i < q.len() && #[trigger] q[i].0[q[i].0.len() - 1] == v;
                if i == 0 {
                    assert(v == last);
                } else {
                    assert(rest[i - 1] == q[i]);
                    assert(q2[i - 1] == q[i]);
                }
            } else {
                assert(u == last);
                let j = choose|j: int| 0 <= j < ans(u).len() && #[trigger] neighbor_id(ans(u)[j]) == Some(v);
                assert(neighbor_id(ans(last)[j]) is Some);
                let i = choose|i: int|
                    0 <= i < ext.len() && ext[i] == (e.0.push(neighbor_id(ans(last)[j])->0), (e.1 + 1) as usize);
                assert(q2[rest.len() + i] == ext[i]);
                let w = e.0.push(v);
                assert(w[w.len() - 1] == v);
                assert(q2[rest.len() + i].0 == w);
                assert(q2[rest.len() + i].0[q2[rest.len() + i].0.len() - 1] == v);
            }
        }
    }
}

/// Expanding the last node of the head path, and queueing the paths its
/// neighbours extend it to, keeps the frontier.
proof fn lemma_expand_head(
    q: Seq<(Seq<Seq<char>>, usize)>,
    x: Seq<Seq<char>>,
    h: int,
    start: Seq<char>,
    target: Seq<char>,
    max_depth: usize,
    ans: Answers,
)
    requires
        frontier(q, x, h, start, target, max_depth, ans),
        q.len() > 0,
        q[0].1 == h,
        h < max_depth,
        head_last(q) != target,
    ensures
        frontier(next_queue(q, x, ans), x.push(head_last(q)), h, start, target, max_depth, ans),
{
    lemma_push_contains(x, head_last(q));
    lemma_expand_queue(q, x, h, start, target, max_depth, ans);
    lemma_expand_reach(q, x, h, start, target, max_depth, ans);
    lemma_expand_links(q, x, h, start, target, max_depth, ans);
    lemma_frontier_intro(next_queue(q, x, ans), x.push(head_last(q)), h, start, target, max_depth, ans);
}

/// One step of the search keeps the frontier, and what it answers is right.
proof fn lemma_search_step(
    q: Seq<(Seq<Seq<char>>, usize)>,
    x: Seq<Seq<char>>,
    h: int,
    start: Seq<char>,
    target: Seq<char>,
    max_depth: usize,
    ans: Answers,
) -> (h2: int)
    requires
        frontier(q, x, h, start, target, max_depth, ans),
    ensures
        ({
            let st = search_step(q, x, target, max_depth);
            match st.2 {
                SearchOutcome::Found(p) => shortest_walk(ans, p, start, target, max_depth),
                SearchOutcome::Exhausted => !reachable_within(ans, start, target, max_depth as int),
                SearchOutcome::Expand(p, d) => frontier(
                    st.0 + search_extensions(p, d, st.1, ans(p[p.len() - 1])),
                    st.1,
                    h2,
                    start,
                    target,
                    max_depth,
                    ans,
                ),
            }
        }),
    decreases q.len(), max_depth - h,
{
    if q.len() == 0 {
        lemma_exhausted(q, x, h, start, target, max_depth, ans);
        return h;
    }
    let e = q[0];
    assert(is_walk(ans, q[0].0, start));
    if e.1 == h + 1 {
        lemma_next_layer(q, x, h, start, target, max_depth, ans);
        return lemma_search_step(q, x, h + 1, start, target, max_depth, ans);
    }
    let last = e.0[e.0.len() - 1];
    if last == target {
        assert forall|w: Seq<Seq<char>>| is_walk(ans, w, start) && w[w.len() - 1] == target implies e.0.len() <= w.len() by {
            if w.len() < e.0.len() {
                assert(reachable_within(ans, start, target, h - 1));
            }
        }
        return h;
    }
    if e.1 >= max_depth || x.contains(last) {
        lemma_drop_head(q, x, h, start, target, max_depth, ans);
        return lemma_search_step(q.drop_first(), x, h, start, target, max_depth, ans);
    }
    lemma_expand_head(q, x, h, start, target, max_depth, ans);
    assert(next_queue(q, x, ans) == q.drop_first() + search_extensions(e.0, e.1, x.push(last), ans(last)));
    h
}

/// Run to its end, the search is right: when it finds a path, the path is
/// a shortest walk from the start to the target within the depth; when its
/// queue runs out, no walk reaches the target within the depth.
proof fn lemma_search_run(
    q: Seq<(Seq<Seq<char>>, usize)>,
    x: Seq<Seq<char>>,
    h: int,
    start: Seq<char>,
    target: Seq<char>,
    max_depth: usize,
    ans: Answers,
    fuel: nat,
)
    requires
        frontier(q, x, h, start, target, max_depth, ans),
    ensures
        match search_run(q, x, target, max_depth, ans, fuel) {
            Some(Some(p)) => shortest_walk(ans, p, start, target, max_depth),
            Some(None) => !reachable_within(ans, start, target, max_depth as int),
            None => true,
        },
    decreases fuel,
{
    if fuel > 0 {
        let h2 = lemma_search_step(q, x, h, start, target, max_depth, ans);
        let st = search_step(q, x, target, max_depth);
        match st.2 {
            SearchOutcome::Expand(p, d) => {
                lemma_search_run(
                    st.0 + search_extensions(p, d, st.1, ans(p[p.len() - 1])),
                    st.1,
                    h2,
                    start,
                    target,
                    max_depth,
                    ans,
                    (fuel - 1) as nat,
                );
            },
            _ => {},
        }
    }
}

/// The shortest-path search is exact. Started as `ShortestPathSearch::new`
/// starts it (the start alone at distance 0, nothing expanded) and run as
/// its steps go (each `next_step` is one `search_step`, each
/// `accept_neighbors` adds the `search_extensions` of the caller's answers
/// for the node expanded), with the caller answering `ans(n)` for node `n`:
/// when it finds a path, that path is a shortest walk of the answered graph
/// from the start to the target, within the depth; when it finds none, no
/// walk reaches the target within the depth.
pub proof fn shortest_path_search_is_exact(
    start: Seq<char>,
    target: Seq<char>,
    max_depth: usize,
    ans: Answers,
    fuel: nat,
)
    ensures
        match search_run(seq![(seq![start], 0usize)], Seq::<Seq<char>>::empty(), target, max_depth, ans, fuel) {
            Some(Some(p)) => shortest_walk(ans, p, start, target, max_depth),
            Some(None) => !reachable_within(ans, start, target, max_depth as int),
            None => true,
        },
{
    lemma_initial_frontier(start, target, max_depth, ans);
    lemma_search_run(seq![(seq![start], 0usize)], Seq::<Seq<char>>::empty(), 0, start, target, max_depth, ans, fuel);
}

/// The search starts from a frontier at layer 0.
proof fn lemma_initial_frontier(start: Seq<char>, target: Seq<char>, max_depth: usize, ans: Answers)
    ensures
        frontier(seq![(seq![start], 0usize)], Seq::<Seq<char>>::empty(), 0, start, target, max_depth, ans),
{
    let q = seq![(seq![start], 0usize)];
    let x = Seq::<Seq<char>>::empty();
    assert(is_walk(ans, q[0].0, start));
    assert forall|v: Seq<char>| #[trigger] reachable_within(ans, start, v, 0) implies x.contains(v) || queued_at(q, v, 0) by {
        let w = choose|w: Seq<Seq<char>>| is_walk(ans, w, start) && w[w.len() - 1] == v && w.len() <= 1;
        assert(v == start);
        assert(q[0].0[q[0].0.len() - 1] == start);
    }
    assert forall|v: Seq<char>| #[trigger] reachable_within(ans, start, v, 0 - 1) implies x.contains(v) by {
        let w = choose|w: Seq<Seq<char>>| is_walk(ans, w, start) && w[w.len() - 1] == v && w.len() <= 0;
    }
    assert(frontier(q, x, 0, start, target, max_depth, ans));
}

/// The readable ids among some answers, in order.
pub open spec fn answer_ids(answers: Seq<Option<Seq<char>>>) -> Seq<Seq<char>>
    decreases answers.len(),
{
    if answers.len() == 0 {
        Seq::empty()
    } else {
        answer_ids(answers.drop_last()) + match neighbor_id(answers.last()) {
            Some(c) => seq![c],
            None => Seq::empty(),
        }
    }
}

/// The neighbours of the nodes of `l`, in order (repeats kept).
pub open spec fn neighbours_of(ans: Answers, l: Seq<Seq<char>>) -> Seq<Seq<char>>
    decreases l.len(),
{
    if l.len() == 0 {
        Seq::empty()
    } else {
        neighbours_of(ans, l.drop_last()) + answer_ids(ans(l.last()))
    }
}

/// The nodes within `k` steps of `start` (repeats kept).
pub open spec fn within_steps(ans: Answers, start: Seq<char>, k: nat) -> Seq<Seq<char>>
    decreases k,
{
    if k == 0 {
        seq![start]
    } else {
        let prev = within_steps(ans, start, (k - 1) as nat);
        prev + neighbours_of(ans, prev)
    }
}

/// Enough steps for a search to end: one more than the count (with
/// repeats) of the nodes within the depth, each expanded at most once.
pub open spec fn search_fuel(ans: Answers, start: Seq<char>, max_depth: usize) -> nat {
    within_steps(ans, start, max_depth as nat).len() + 1
}

proof fn lemma_answer_ids(answers: Seq<Option<Seq<char>>>, j: int, c: Seq<char>)
    requires
        0 <= j < answers.len(),
        neighbor_id(answers[j]) == Some(c),
    ensures
        answer_ids(answers).contains(c),
    decreases answers.len(),
{
    let rest = answers.drop_last();
    let tail: Seq<Seq<char>> = match neighbor_id(answers.last()) {
        Some(d) => seq![d],
        None => Seq::empty(),
    };
    assert(answer_ids(answers) == answer_ids(rest) + tail);
    if j == answers.len() - 1 {
        assert(answers.last() == answers[j]);
        assert((answer_ids(rest) + tail)[answer_ids(rest).len() as int] == c);
    } else {
        assert(rest[j] == answers[j]);
        lemma_answer_ids(rest, j, c);
        let k = choose|k: int| 0 <= k < answer_ids(rest).len() && answer_ids(rest)[k] == c;
        assert((answer_ids(rest) + tail)[k] == c);
    }
}

proof fn lemma_neighbours(ans: Answers, l: Seq<Seq<char>>, u: Seq<char>, c: Seq<char>)
    requires
        l.contains(u),
        links_to(ans, u, c),
    ensures
        neighbours_of(ans, l).contains(c),
    decreases l.len(),
{
    let rest = l.drop_last();
    let pre = neighbours_of(ans, rest);
    let tail = answer_ids(ans(l.last()));
    assert(neighbours_of(ans, l) == pre + tail);
    if l.last() == u {
        let j = choose|j: int| 0 <= j < ans(u).len() && #[trigger] neighbor_id(ans(u)[j]) == Some(c);
        lemma_answer_ids(ans(u), j, c);
        let k = choose|k: int| 0 <= k < tail.len() && tail[k] == c;
        assert((pre + tail)[pre.len() + k] == c);
    } else {
        let i = choose|i: int| 0 <= i < l.len() && l[i] == u;
        assert(i < l.len() - 1);
        assert(rest[i] == u);
        lemma_neighbours(ans, rest, u, c);
        let k = choose|k: int| 0 <= k < pre.len() && pre[k] == c;
        assert((pre + tail)[k] == c);
    }
}

proof fn lemma_within_grows(ans: Answers, start: Seq<char>, j: nat, k: nat, v: Seq<char>)
    requires
        j <= k,
        within_steps(ans, start, j).contains(v),
    ensures
        within_steps(ans, start, k).contains(v),
    decreases k,
{
    if j < k {
        lemma_within_grows(ans, start, j, (k - 1) as nat, v);
        let prev = within_steps(ans, start, (k - 1) as nat);
        let i = choose|i: int| 0 <= i < prev.len() && prev[i] == v;
        assert((prev + neighbours_of(ans, prev))[i] == v);
    }
}

proof fn lemma_walk_within(ans: Answers, w: Seq<Seq<char>>, start: Seq<char>, i: int)
    requires
        is_walk(ans, w, start),
        0 <= i < w.len(),
    ensures
        within_steps(ans, start, i as nat).contains(w[i]),
    decreases i,
{
    if i == 0 {
        assert(within_steps(ans, start, 0)[0] == start);
    } else {
        lemma_walk_within(ans, w, start, i - 1);
        let prev = within_steps(ans, start, (i - 1) as nat);
        assert(links_to(ans, w[i - 1], w[i]));
        lemma_neighbours(ans, prev, w[i - 1], w[i]);
        let k = choose|k: int| 0 <= k < neighbours_of(ans, prev).len() && neighbours_of(ans, prev)[k] == w[i];
        assert((prev + neighbours_of(ans, prev))[prev.len() + k] == w[i]);
    }
}

proof fn lemma_reachable_listed(ans: Answers, start: Seq<char>, v: Seq<char>, k: nat)
    requires
        reachable_within(ans, start, v, k as int),
    ensures
        within_steps(ans, start, k).contains(v),
{
    let w = choose|w: Seq<Seq<char>>| is_walk(ans, w, start) && w[w.len() - 1] == v && w.len() <= k + 1;
    lemma_walk_within(ans, w, start, w.len() - 1);
    lemma_within_grows(ans, start, (w.len() - 1) as nat, k, v);
}

/// Distinct items all found in `l` are no more than `l` holds.
proof fn lemma_distinct_bounded(x: Seq<Seq<char>>, l: Seq<Seq<char>>)
    requires
        x.no_duplicates(),
        forall|v: Seq<char>| #[trigger] x.contains(v) ==> l.contains(v),
    ensures
        x.len() <= l.len(),
{
    x.unique_seq_to_set();
    l.lemma_cardinality_of_set();
    vstd::seq_lib::seq_to_set_is_finite(l);
    assert forall|v: Seq<char>| x.to_set().contains(v) implies l.to_set().contains(v) by {
        assert(x.contains(v));
    }
    vstd::set_lib::lemma_len_subset(x.to_set(), l.to_set());
}

/// An expansion adds the node it expands, which was not expanded before.
proof fn lemma_expand_adds(
    q: Seq<(Seq<Seq<char>>, usize)>,
    x: Seq<Seq<char>>,
    target: Seq<char>,
    max_depth: usize,
)
    ensures
        search_step(q, x, target, max_depth).2 matches SearchOutcome::Expand(p, d) ==> search_step(
            q,
            x,
            target,
            max_depth,
        ).1 == x.push(p[p.len() - 1]) && !x.contains(p[p.len() - 1]),
    decreases q.len(),
{
    if q.len() > 0 {
        let e = q[0];
        let last = e.0[e.0.len() - 1];
        if last != target && (e.1 >= max_depth || x.contains(last)) {
            lemma_expand_adds(q.drop_first(), x, target, max_depth);
        }
    }
}

/// From a frontier, a run with more steps than nodes left to expand ends.
proof fn lemma_run_ends(
    q: Seq<(Seq<Seq<char>>, usize)>,
    x: Seq<Seq<char>>,
    h: int,
    start: Seq<char>,
    target: Seq<char>,
    max_depth: usize,
    ans: Answers,
    fuel: nat,
)
    requires
        frontier(q, x, h, start, target, max_depth, ans),
        x.no_duplicates(),
        x.len() + fuel > within_steps(ans, start, max_depth as nat).len(),
    ensures
        search_run(q, x, target, max_depth, ans, fuel) is Some,
    decreases fuel,
{
    let l = within_steps(ans, start, max_depth as nat);
    assert forall|v: Seq<char>| #[trigger] x.contains(v) implies l.contains(v) by {
        assert(reachable_within(ans, start, v, h));
        let w = choose|w: Seq<Seq<char>>| is_walk(ans, w, start) && w[w.len() - 1] == v && w.len() <= h + 1;
        assert(reachable_within(ans, start, v, max_depth as int));
        lemma_reachable_listed(ans, start, v, max_depth as nat);
    }
    lemma_distinct_bounded(x, l);
    let h2 = lemma_search_step(q, x, h, start, target, max_depth, ans);
    lemma_expand_adds(q, x, target, max_depth);
    let st = search_step(q, x, target, max_depth);
    match st.2 {
        SearchOutcome::Expand(p, d) => {
            let n = p[p.len() - 1];
            assert forall|a: int, b: int| 0 <= a < b < x.push(n).len() implies x.push(n)[a] != x.push(n)[b] by {
                if b == x.len() {
                    assert(x.contains(x[a]));
                }
            }
            lemma_run_ends(
                st.0 + search_extensions(p, d, st.1, ans(p[p.len() - 1])),
                st.1,
                h2,
                start,
                target,
                max_depth,
                ans,
                (fuel - 1) as nat,
            );
        },
        _ => {},
    }
}

/// The shortest-path search ends: run from its start, with the caller
/// answering `ans(n)` for node `n`, it finds a path or runs out of paths
/// within `search_fuel` steps (each node within the depth is expanded at
/// most once). With `shortest_path_search_is_exact`, it answers a shortest
/// walk to the target within the depth when there is one, and no path
/// only when there is none.
pub proof fn shortest_path_search_ends(start: Seq<char>, target: Seq<char>, max_depth: usize, ans: Answers)
    ensures
        search_run(
            seq![(seq![start], 0usize)],
            Seq::<Seq<char>>::empty(),
            target,
            max_depth,
            ans,
            search_fuel(ans, start, max_depth),
        ) is Some,
{
    lemma_initial_frontier(start, target, max_depth, ans);
    lemma_run_ends(
        seq![(seq![start], 0usize)],
        Seq::<Seq<char>>::empty(),
        0,
        start,
        target,
        max_depth,
        ans,
        search_fuel(ans, start, max_depth),
    );
}

} // verus!
