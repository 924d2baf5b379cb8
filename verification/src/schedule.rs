//! The order in which the nodes of a pass graph run.

use vstd::prelude::*;
use crate::graph::{Edge, RenderGraphError};

verus! {

/// `node` stands among the first `k` entries of `order`.
pub open spec fn placed(order: Seq<usize>, k: int, node: usize) -> bool {
    exists|j: int| 0 <= j < k && j < order.len() && #[trigger] order[j] == node
}

/// Every edge that enters `node` leaves a node among the first `k` entries of
/// `order`: the node may run at position `k`.
pub open spec fn ready(edges: Seq<Edge>, order: Seq<usize>, k: int, node: usize) -> bool {
    forall|e: int|
        0 <= e < edges.len() && (#[trigger] edges[e]).after() == node ==> placed(
            order,
            k,
            edges[e].before(),
        )
}

/// `order` is a pass order of a graph of `n` nodes: each node stands in it
/// exactly once, after every node that an edge orders before it.
pub open spec fn valid_schedule(n: nat, edges: Seq<Edge>, order: Seq<usize>) -> bool {
    &&& order.len() == n
    &&& forall|k: int| 0 <= k < order.len() ==> (#[trigger] order[k]) < n
    &&& forall|j: int, k: int| 0 <= j < k < order.len() ==> order[j] != order[k]
    &&& forall|v: usize| v < n ==> placed(order, order.len() as int, v)
    &&& forall|k: int| 0 <= k < order.len() ==> ready(edges, order, k, #[trigger] order[k])
}

/// At each position stands the node of least index that may run there.
pub open spec fn least_first(edges: Seq<Edge>, order: Seq<usize>) -> bool {
    forall|k: int, v: usize|
        0 <= k < order.len() && v < order[k] ==> #[trigger] placed(order, k, v) || !ready(
            edges,
            order,
            k,
            v,
        )
}

/// Every edge joins two of the `n` nodes.
pub open spec fn edges_within(n: nat, edges: Seq<Edge>) -> bool {
    forall|e: int|
        0 <= e < edges.len() ==> (#[trigger] edges[e]).before() < n && edges[e].after() < n
}

/// Every edge that enters `node` leaves a node that is flagged.
pub open spec fn sources_flagged(edges: Seq<Edge>, done: Seq<bool>, node: usize) -> bool {
    forall|e: int|
        0 <= e < edges.len() && (#[trigger] edges[e]).after() == node ==> done[edges[e].before() as int]
}

/// How many flags are set.
pub open spec fn count_set(flags: Seq<bool>) -> nat
    decreases flags.len(),
{
    if flags.len() == 0 {
        0
    } else {
        count_set(flags.drop_last()) + (if flags.last() {
            1nat
        } else {
            0nat
        })
    }
}

proof fn lemma_count_bounds(flags: Seq<bool>)
    ensures
        count_set(flags) <= flags.len(),
        count_set(flags) == flags.len() ==> forall|i: int| 0 <= i < flags.len() ==> flags[i],
        count_set(flags) < flags.len() ==> exists|i: int| 0 <= i < flags.len() && !flags[i],
    decreases flags.len(),
{
    if flags.len() > 0 {
        let front = flags.drop_last();
        lemma_count_bounds(front);
        if count_set(flags) == flags.len() {
            assert forall|i: int| 0 <= i < flags.len() implies flags[i] by {
                if i < front.len() {
                    assert(front[i] == flags[i]);
                }
            }
        }
        if count_set(flags) < flags.len() {
            if flags.last() {
                let i = choose|i: int| 0 <= i < front.len() && !front[i];
                assert(!flags[i]);
            } else {
                assert(!flags[flags.len() - 1]);
            }
        }
    }
}

proof fn lemma_count_after_set(flags: Seq<bool>, at: int)
    requires
        0 <= at < flags.len(),
        !flags[at],
    ensures
        count_set(flags.update(at, true)) == count_set(flags) + 1,
    decreases flags.len(),
{
    let after = flags.update(at, true);
    if at == flags.len() - 1 {
        assert(after.drop_last() =~= flags.drop_last());
    } else {
        lemma_count_after_set(flags.drop_last(), at);
        assert(after.drop_last() =~= flags.drop_last().update(at, true));
    }
}

proof fn lemma_count_of_cleared(flags: Seq<bool>)
    requires
        forall|i: int| 0 <= i < flags.len() ==> !flags[i],
    ensures
        count_set(flags) == 0,
    decreases flags.len(),
{
    if flags.len() > 0 {
        lemma_count_of_cleared(flags.drop_last());
    }
}

/// What stands among the first `k` entries does not depend on what follows
/// them.
proof fn lemma_placed_in_prefix(order: Seq<usize>, longer: Seq<usize>, k: int, node: usize)
    requires
        0 <= k <= order.len() <= longer.len(),
        forall|j: int| 0 <= j < order.len() ==> order[j] == longer[j],
    ensures
        placed(longer, k, node) == placed(order, k, node),
{
    if placed(order, k, node) {
        let j = choose|j: int| 0 <= j < k && j < order.len() && order[j] == node;
        assert(longer[j] == node);
    }
    if placed(longer, k, node) {
        let j = choose|j: int| 0 <= j < k && j < longer.len() && longer[j] == node;
        assert(order[j] == node);
    }
}

proof fn lemma_ready_in_prefix(
    edges: Seq<Edge>,
    order: Seq<usize>,
    longer: Seq<usize>,
    k: int,
    node: usize,
)
    requires
        0 <= k <= order.len() <= longer.len(),
        forall|j: int| 0 <= j < order.len() ==> order[j] == longer[j],
    ensures
        ready(edges, longer, k, node) == ready(edges, order, k, node),
{
    assert forall|e: int| 0 <= e < edges.len() implies placed(longer, k, (#[trigger] edges[e]).before())
        == placed(order, k, edges[e].before()) by {
        lemma_placed_in_prefix(order, longer, k, edges[e].before());
    }
}

/// The first position of `order`, up to `bound`, whose node is not flagged.
proof fn lemma_first_unflagged(order: Seq<usize>, done: Seq<bool>, bound: int) -> (k: int)
    requires
        0 <= bound < order.len(),
        forall|j: int| 0 <= j < order.len() ==> (#[trigger] order[j]) < done.len(),
        !done[order[bound] as int],
    ensures
        0 <= k <= bound,
        !done[order[k] as int],
        forall|j: int| 0 <= j < k ==> done[(#[trigger] order[j]) as int],
    decreases bound,
{
    if exists|j: int| 0 <= j < bound && !done[(#[trigger] order[j]) as int] {
        let j = choose|j: int| 0 <= j < bound && !done[(#[trigger] order[j]) as int];
        lemma_first_unflagged(order, done, j)
    } else {
        bound
    }
}

/// Where no unflagged node has all its sources flagged, and some node is
/// unflagged, the graph has no pass order.
proof fn lemma_stuck_means_cycle(
    n: nat,
    edges: Seq<Edge>,
    done: Seq<bool>,
    candidate: Seq<usize>,
)
    requires
        done.len() == n,
        exists|v: usize| v < n && !done[v as int],
        forall|u: usize| u < n ==> done[u as int] || !sources_flagged(edges, done, u),
    ensures
        !valid_schedule(n, edges, candidate),
{
    if valid_schedule(n, edges, candidate) {
        let v = choose|v: usize| v < n && !done[v as int];
        assert(placed(candidate, candidate.len() as int, v));
        let at = choose|j: int|
            0 <= j < candidate.len() && j < candidate.len() && candidate[j] == v;
        let k = lemma_first_unflagged(candidate, done, at);
        let u = candidate[k];
        assert(!sources_flagged(edges, done, u));
        let e = choose|e: int|
            0 <= e < edges.len() && (#[trigger] edges[e]).after() == u && !done[edges[e].before() as int];
        assert(ready(edges, candidate, k, candidate[k]));
        assert(placed(candidate, k, edges[e].before()));
        let j = choose|j: int|
            0 <= j < k && j < candidate.len() && candidate[j] == edges[e].before();
        assert(done[candidate[j] as int]);
    }
}

/// Whether every edge that enters `node` leaves a flagged node.
fn all_sources_flagged(edges: &Vec<Edge>, done: &Vec<bool>, node: usize) -> (ok: bool)
    requires
        edges_within(done@.len(), edges@),
    ensures
        ok == sources_flagged(edges@, done@, node),
{
    let mut e: usize = 0;
    while e < edges.len()
        invariant
            e <= edges@.len(),
            edges_within(done@.len(), edges@),
            forall|k: int|
                0 <= k < e && (#[trigger] edges@[k]).after() == node ==> done@[edges@[k].before() as int],
        decreases edges@.len() - e,
    {
        let edge = edges[e];
        if edge.get_input_node() == node && !done[edge.get_output_node()] {
            return false;
        }
        e += 1;
    }
    true
}

/// The unflagged node of least index whose sources are all flagged.
fn first_ready(edges: &Vec<Edge>, done: &Vec<bool>) -> (found: Option<usize>)
    requires
        edges_within(done@.len(), edges@),
    ensures
        match found {
            Some(v) => {
                &&& v < done@.len()
                &&& !done@[v as int]
                &&& sources_flagged(edges@, done@, v)
                &&& forall|u: usize|
                    u < v ==> done@[u as int] || !sources_flagged(edges@, done@, u)
            },
            None => forall|u: usize|
                u < done@.len() ==> done@[u as int] || !sources_flagged(edges@, done@, u),
        },
{
    let mut v: usize = 0;
    while v < done.len()
        invariant
            v <= done@.len(),
            edges_within(done@.len(), edges@),
            forall|u: usize| u < v ==> done@[u as int] || !sources_flagged(edges@, done@, u),
        decreases done@.len() - v,
    {
        if !done[v] && all_sources_flagged(edges, done, v) {
            return Some(v);
        }
        v += 1;
    }
    None
}

/// Orders the `n` nodes of a graph so that every edge runs forward, taking at
/// each position the node of least index that may run there.
///
/// Fails exactly when the graph has no pass order.
pub fn pass_order(n: usize, edges: &Vec<Edge>) -> (r: Result<Vec<usize>, RenderGraphError>)
    requires
        edges_within(n as nat, edges@),
    ensures
        match r {
            Ok(order) => valid_schedule(n as nat, edges@, order@) && least_first(edges@, order@),
            Err(e) => {
                &&& e == RenderGraphError::Cycle
                &&& forall|s: Seq<usize>| !valid_schedule(n as nat, edges@, s)
            },
        },
{
    let mut done: Vec<bool> = Vec::new();
    while done.len() < n
        invariant
            done@.len() <= n,
            forall|i: int| 0 <= i < done@.len() ==> !done@[i],
        decreases n - done@.len(),
    {
        done.push(false);
    }
    proof {
        lemma_count_of_cleared(done@);
    }
    let mut order: Vec<usize> = Vec::new();
    while order.len() < n
        invariant
            done@.len() == n,
            order@.len() <= n,
            edges_within(n as nat, edges@),
            count_set(done@) == order@.len(),
            forall|v: usize| v < n ==> (done@[v as int] <==> placed(order@, order@.len() as int, v)),
            forall|k: int| 0 <= k < order@.len() ==> (#[trigger] order@[k]) < n,
            forall|j: int, k: int| 0 <= j < k < order@.len() ==> order@[j] != order@[k],
            forall|k: int| 0 <= k < order@.len() ==> ready(edges@, order@, k, #[trigger] order@[k]),
            least_first(edges@, order@),
        decreases n - order@.len(),
    {
        let ghost before = order@;
        let ghost flags = done@;
        match first_ready(edges, &done) {
            None => {
                proof {
                    lemma_count_bounds(flags);
                    let i = choose|i: int| 0 <= i < flags.len() && !flags[i];
                    assert(!flags[(i as usize) as int]);
                    assert forall|s: Seq<usize>| !valid_schedule(n as nat, edges@, s) by {
                        lemma_stuck_means_cycle(n as nat, edges@, flags, s);
                    }
                }
                return Err(RenderGraphError::Cycle);
            },
            Some(v) => {
                order.push(v);
                done.set(v, true);
                proof {
                    let len = before.len() as int;
                    lemma_count_after_set(flags, v as int);
                    assert(order@[len] == v);
                    assert forall|x: usize| x < n implies (done@[x as int] <==> placed(
                        order@,
                        order@.len() as int,
                        x,
                    )) by {
                        lemma_placed_in_prefix(before, order@, len, x);
                        if x == v {
                            assert(order@[len] == x);
                        } else if placed(order@, order@.len() as int, x) {
                            let j = choose|j: int|
                                0 <= j < order@.len() && j < order@.len() && order@[j] == x;
                            assert(j < len);
                            assert(before[j] == x);
                        }
                    }
                    assert forall|j: int, k: int| 0 <= j < k < order@.len() implies order@[j]
                        != order@[k] by {
                        if k == len {
                            assert(before[j] == order@[j]);
                            if order@[j] == v {
                                assert(placed(before, len, v));
                            }
                        } else {
                            assert(before[j] != before[k]);
                        }
                    }
                    assert forall|k: int| 0 <= k < order@.len() implies ready(
                        edges@,
                        order@,
                        k,
                        #[trigger] order@[k],
                    ) by {
                        lemma_ready_in_prefix(edges@, before, order@, k, order@[k]);
                        if k == len {
                            assert forall|e: int|
                                0 <= e < edges@.len() && (#[trigger] edges@[e]).after()
                                    == v implies placed(before, len, edges@[e].before()) by {
                                assert(flags[edges@[e].before() as int]);
                            }
                        } else {
                            assert(before[k] == order@[k]);
                        }
                    }
                    assert forall|k: int, u: usize|
                        0 <= k < order@.len() && u < order@[k] implies #[trigger] placed(
                        order@,
                        k,
                        u,
                    ) || !ready(edges@, order@, k, u) by {
                        lemma_placed_in_prefix(before, order@, k, u);
                        lemma_ready_in_prefix(edges@, before, order@, k, u);
                        if k == len {
                            if !flags[u as int] {
                                assert(!sources_flagged(edges@, flags, u));
                                let e = choose|e: int|
                                    0 <= e < edges@.len() && (#[trigger] edges@[e]).after() == u
                                        && !flags[edges@[e].before() as int];
                                assert(!placed(before, len, edges@[e].before()));
                            }
                        } else {
                            assert(before[k] == order@[k]);
                            assert(placed(before, k, u) || !ready(edges@, before, k, u));
                        }
                    }
                }
            },
        }
    }
    proof {
        lemma_count_bounds(done@);
        assert forall|v: usize| v < n implies placed(order@, order@.len() as int, v) by {
            assert(done@[v as int]);
        }
    }
    Ok(order)
}

/// In a pass order, a node that an edge leaves stands before the node that
/// the edge enters.
pub proof fn lemma_edges_run_forward(
    n: nat,
    edges: Seq<Edge>,
    order: Seq<usize>,
    edge: Edge,
    j: int,
    k: int,
)
    requires
        valid_schedule(n, edges, order),
        edges.contains(edge),
        0 <= j < order.len(),
        0 <= k < order.len(),
        order[j] == edge.before(),
        order[k] == edge.after(),
    ensures
        j < k,
{
    let e = choose|e: int| 0 <= e < edges.len() && edges[e] == edge;
    assert(ready(edges, order, k, order[k]));
    assert(edges[e].after() == order[k]);
    assert(placed(order, k, edge.before()));
    let at = choose|at: int| 0 <= at < k && at < order.len() && order[at] == edge.before();
    if at != j {
        if at < j {
            assert(order[at] != order[j]);
        } else {
            assert(order[j] != order[at]);
        }
    }
}

} // verus!
