//! Cycle search over a Dependency graph.
//!
//! A graph is a list of adjacency lists: entry `i` holds the positions that
//! position `i` depends on, in configuration order.

use vstd::prelude::*;

verus! {

/// A graph as mathematical positions.
pub open spec fn edges(graph: Seq<Vec<usize>>) -> Seq<Seq<int>> {
    graph.map_values(|list: Vec<usize>| list@.map_values(|target: usize| target as int))
}

/// Every edge leads to a position of the graph.
pub open spec fn closed_graph(graph: Seq<Seq<int>>) -> bool {
    forall|i: int, k: int|
        0 <= i < graph.len() && 0 <= k < graph[i].len() ==> 0 <= #[trigger] graph[i][k] < graph.len()
}

/// The first cycle met by a depth-first walk that has followed `path` and
/// enters `node`: the part of the path from the first visit of `node`, closed
/// by `node` itself.
pub open spec fn cycle_from(graph: Seq<Seq<int>>, path: Seq<int>, node: int) -> Option<Seq<int>>
    decreases graph.len() - path.len(), 0int, 0int,
{
    if path.contains(node) {
        Some(path.skip(path.index_of_first(node)->0).push(node))
    } else if path.len() >= graph.len() {
        None
    } else {
        cycle_among(graph, path.push(node), graph[node], 0)
    }
}

/// The first cycle met when the walk that has followed `path` enters the
/// positions of `next` in order, starting at entry `from`.
pub open spec fn cycle_among(
    graph: Seq<Seq<int>>,
    path: Seq<int>,
    next: Seq<int>,
    from: int,
) -> Option<Seq<int>>
    decreases graph.len() - path.len(), 1int, next.len() - from,
{
    if from < 0 || from >= next.len() {
        None
    } else {
        match cycle_from(graph, path, next[from]) {
            Some(cycle) => Some(cycle),
            None => cycle_among(graph, path, next, from + 1),
        }
    }
}

/// All positions of a graph, in order.
pub open spec fn positions(graph: Seq<Seq<int>>) -> Seq<int> {
    Seq::new(graph.len(), |i: int| i)
}

/// The first cycle of a graph in configuration order.
pub open spec fn first_cycle(graph: Seq<Seq<int>>) -> Option<Seq<int>> {
    cycle_among(graph, Seq::empty(), positions(graph), 0)
}

/// A real cycle: it follows edges, repeats its first position at the end, and
/// visits every other position once.
pub open spec fn is_cycle(graph: Seq<Seq<int>>, cycle: Seq<int>) -> bool {
    &&& cycle.len() >= 2
    &&& cycle.first() == cycle.last()
    &&& cycle.drop_last().no_duplicates()
    &&& is_walk(graph, cycle)
}

/// Every entry but the first is a Dependency of the entry before it.
pub open spec fn is_walk(graph: Seq<Seq<int>>, walk: Seq<int>) -> bool {
    &&& forall|k: int| 0 <= k < walk.len() ==> 0 <= #[trigger] walk[k] < graph.len()
    &&& forall|k: int| 0 < k < walk.len() ==> #[trigger] follows(graph, walk, k)
}

/// Entry `k` of the walk is a Dependency of entry `k - 1`.
pub open spec fn follows(graph: Seq<Seq<int>>, walk: Seq<int>, k: int) -> bool {
    graph[walk[k - 1]].contains(walk[k])
}

/// A part of a startup order: every listed position comes after everything it
/// depends on, and none is listed twice.
pub open spec fn ordered_part(graph: Seq<Seq<int>>, order: Seq<int>) -> bool {
    &&& order.no_duplicates()
    &&& forall|k: int| 0 <= k < order.len() ==> 0 <= #[trigger] order[k] < graph.len()
    &&& forall|k: int, e: int|
        #![trigger graph[order[k]][e]]
        0 <= k < order.len() && 0 <= e < graph[order[k]].len() ==> order.take(k).contains(
            graph[order[k]][e],
        )
}

/// An order in which every Process can be started after its Dependencies.
pub open spec fn startup_order(graph: Seq<Seq<int>>, order: Seq<int>) -> bool {
    &&& ordered_part(graph, order)
    &&& order.len() == graph.len()
    &&& forall|i: int| 0 <= i < graph.len() ==> #[trigger] order.contains(i)
}

proof fn distinct_positions_fit(path: Seq<int>, n: int)
    requires
        path.no_duplicates(),
        forall|k: int| 0 <= k < path.len() ==> 0 <= #[trigger] path[k] < n,
        n >= 0,
    ensures
        path.len() <= n,
{
    path.unique_seq_to_set();
    let range = vstd::set_lib::set_int_range(0, n);
    vstd::set_lib::lemma_int_range(0, n);
    assert(path.to_set().subset_of(range)) by {
        assert forall|x: int| path.to_set().contains(x) implies range.contains(x) by {
            let k = choose|k: int| 0 <= k < path.len() && path[k] == x;
            assert(0 <= path[k] < n);
        }
    }
    vstd::set_lib::lemma_len_subset(path.to_set(), range);
}

/// Entering a finished position finds no cycle.
proof fn finished_is_acyclic(graph: Seq<Seq<int>>, path: Seq<int>, order: Seq<int>, k: int)
    requires
        ordered_part(graph, order),
        0 <= k < order.len(),
        forall|i: int| 0 <= i <= k ==> !path.contains(#[trigger] order[i]),
    ensures
        cycle_from(graph, path, order[k]) is None,
    decreases k,
{
    let node = order[k];
    if path.len() < graph.len() {
        let longer = path.push(node);
        assert forall|e: int| 0 <= e < graph[node].len() implies cycle_from(
            graph,
            longer,
            #[trigger] graph[node][e],
        ) is None by {
            assert(order.take(k).contains(graph[order[k]][e]));
            let j = choose|j: int| 0 <= j < order.take(k).len() && order.take(k)[j] == graph[node][e];
            assert(order[j] == graph[node][e]);
            assert forall|i: int| 0 <= i <= j implies !longer.contains(#[trigger] order[i]) by {
                assert(order[i] != order[k]);
                if longer.contains(order[i]) {
                    let m = choose|m: int| 0 <= m < longer.len() && longer[m] == order[i];
                    assert(m < path.len());
                    assert(path[m] == order[i]);
                    assert(path.contains(order[i]));
                }
            }
            finished_is_acyclic(graph, longer, order, j);
        }
        none_among(graph, longer, graph[node], 0);
    }
}

proof fn none_among(graph: Seq<Seq<int>>, path: Seq<int>, next: Seq<int>, from: int)
    requires
        0 <= from <= next.len(),
        forall|e: int| from <= e < next.len() ==> cycle_from(graph, path, #[trigger] next[e]) is None,
    ensures
        cycle_among(graph, path, next, from) is None,
    decreases next.len() - from,
{
    if from < next.len() {
        none_among(graph, path, next, from + 1);
    }
}

proof fn found_from_is_cycle(graph: Seq<Seq<int>>, path: Seq<int>, node: int)
    requires
        closed_graph(graph),
        is_walk(graph, path),
        path.no_duplicates(),
        0 <= node < graph.len(),
        path.len() > 0 ==> graph[path.last()].contains(node),
        cycle_from(graph, path, node) is Some,
    ensures
        is_cycle(graph, cycle_from(graph, path, node)->0),
    decreases graph.len() - path.len(), 0int, 0int,
{
    let cycle = cycle_from(graph, path, node)->0;
    if path.contains(node) {
        path.index_of_first_ensures(node);
        let start = path.index_of_first(node)->0;
        assert(cycle.first() == path[start]);
        assert(cycle.drop_last() =~= path.skip(start));
        assert forall|k: int| 0 <= k < cycle.len() implies 0 <= #[trigger] cycle[k] < graph.len() by {
            if k < cycle.len() - 1 {
                assert(cycle[k] == path[start + k]);
            }
        }
        assert forall|k: int| 0 < k < cycle.len() implies #[trigger] follows(graph, cycle, k) by {
            assert(cycle[k - 1] == path[start + k - 1]);
            if k < cycle.len() - 1 {
                assert(cycle[k] == path[start + k]);
                assert(follows(graph, path, start + k));
            }
        }
    } else {
        let longer = path.push(node);
        assert forall|k: int| 0 < k < longer.len() implies #[trigger] follows(graph, longer, k) by {
            if k < path.len() {
                assert(follows(graph, path, k));
            }
        }
        found_among_is_cycle(graph, longer, graph[node], 0);
    }
}

proof fn found_among_is_cycle(graph: Seq<Seq<int>>, path: Seq<int>, next: Seq<int>, from: int)
    requires
        closed_graph(graph),
        is_walk(graph, path),
        path.no_duplicates(),
        forall|e: int| 0 <= e < next.len() ==> 0 <= #[trigger] next[e] < graph.len(),
        path.len() > 0 ==> next == graph[path.last()],
        cycle_among(graph, path, next, from) is Some,
        0 <= from,
    ensures
        is_cycle(graph, cycle_among(graph, path, next, from)->0),
    decreases graph.len() - path.len(), 1int, next.len() - from,
{
    if cycle_from(graph, path, next[from]) is Some {
        found_from_is_cycle(graph, path, next[from]);
    } else {
        found_among_is_cycle(graph, path, next, from + 1);
    }
}

/// A reported cycle is a cycle of the graph: it follows Dependencies, visits
/// each Process once and repeats its first Process at the end.
pub proof fn reported_cycle_is_real(graph: Seq<Seq<int>>)
    requires
        closed_graph(graph),
        first_cycle(graph) is Some,
    ensures
        is_cycle(graph, first_cycle(graph)->0),
{
    found_among_is_cycle(graph, Seq::empty(), positions(graph), 0);
}

/// No graph has both a cycle and a startup order, so a graph is rejected for a
/// cycle exactly when its Processes cannot be started one after the other.
pub proof fn cycle_excludes_startup_order(graph: Seq<Seq<int>>, cycle: Seq<int>, order: Seq<int>)
    requires
        is_cycle(graph, cycle),
    ensures
        !startup_order(graph, order),
{
    if startup_order(graph, order) {
        descending_places(graph, cycle, order, (cycle.len() - 1) as nat);
    }
}

/// Along a walk the places in a startup order strictly fall.
proof fn descending_places(graph: Seq<Seq<int>>, walk: Seq<int>, order: Seq<int>, k: nat)
    requires
        is_walk(graph, walk),
        startup_order(graph, order),
        0 < k < walk.len(),
    ensures
        order.index_of(walk[k as int]) < order.index_of(walk[0]),
    decreases k,
{
    let earlier = walk[k - 1];
    assert(order.contains(earlier));
    let p = order.index_of(earlier);
    assert(follows(graph, walk, k as int));
    let e = choose|e: int| 0 <= e < graph[earlier].len() && graph[earlier][e] == walk[k as int];
    assert(order.take(p).contains(graph[order[p]][e]));
    let q = choose|q: int| 0 <= q < order.take(p).len() && order.take(p)[q] == walk[k as int];
    assert(order[q] == walk[k as int]);
    assert(order.contains(walk[k as int]));
    assert(order.index_of(walk[k as int]) == q);
    if k > 1 {
        descending_places(graph, walk, order, (k - 1) as nat);
    }
}

/// The state of a running search.
spec fn search_state(
    graph: Seq<Seq<int>>,
    state: Seq<u8>,
    path: Seq<usize>,
    order: Seq<int>,
) -> bool {
    &&& state.len() == graph.len()
    &&& path.no_duplicates()
    &&& forall|k: int| 0 <= k < path.len() ==> 0 <= #[trigger] path[k] < graph.len()
    &&& ordered_part(graph, order)
    &&& forall|i: int|
        #![trigger state[i]]
        0 <= i < graph.len() ==> {
            &&& state[i] == 1 <==> path.contains(i as usize)
            &&& state[i] == 2 <==> order.contains(i)
            &&& state[i] <= 2
        }
    &&& forall|k: int| 0 <= k < order.len() ==> state[#[trigger] order[k]] == 2
}

spec fn as_positions(path: Seq<usize>) -> Seq<int> {
    path.map_values(|p: usize| p as int)
}

proof fn positions_contain(path: Seq<usize>, node: usize)
    ensures
        as_positions(path).contains(node as int) == path.contains(node),
{
    let mapped = as_positions(path);
    if path.contains(node) {
        let k = choose|k: int| 0 <= k < path.len() && path[k] == node;
        assert(mapped[k] == node as int);
    }
    if mapped.contains(node as int) {
        let k = choose|k: int| 0 <= k < mapped.len() && mapped[k] == node as int;
        assert(path[k] == node);
    }
}

/// Depth-first search below one position. `state` marks a position 0 when it
/// is unvisited, 1 when it is on the current path, and 2 when it is fully
/// explored.
fn visit(
    node: usize,
    graph: &Vec<Vec<usize>>,
    state: &mut Vec<u8>,
    path: &mut Vec<usize>,
    Ghost(order): Ghost<Seq<int>>,
) -> (r: (Option<Vec<usize>>, Ghost<Seq<int>>))
    requires
        node < graph.len(),
        closed_graph(edges(graph@)),
        search_state(edges(graph@), old(state)@, old(path)@, order),
    ensures
        match r.0 {
            Some(cycle) => cycle_from(edges(graph@), as_positions(old(path)@), node as int) == Some(
                as_positions(cycle@),
            ),
            None => {
                &&& cycle_from(edges(graph@), as_positions(old(path)@), node as int) is None
                &&& final(path)@ == old(path)@
                &&& search_state(edges(graph@), final(state)@, final(path)@, r.1@)
                &&& final(state)@[node as int] == 2
                &&& forall|i: int|
                    0 <= i < graph.len() && old(state)@[i] == 2 ==> #[trigger] final(state)@[i] == 2
            },
        },
    decreases graph.len() - old(path).len(),
{
    let ghost g = edges(graph@);
    let ghost before = as_positions(path@);
    proof {
        positions_contain(path@, node);
        assert(state@[node as int] == 1 <==> path@.contains(node));
    }
    if state[node] == 1 {
        let mut start: usize = 0;
        while path[start] != node
            invariant
                start < path.len(),
                exists|k: int| start <= k < path.len() && path@[k] == node,
                forall|k: int| 0 <= k < start ==> path@[k] != node,
            decreases path.len() - start,
        {
            start = start + 1;
        }
        let mut cycle: Vec<usize> = Vec::new();
        let mut index: usize = start;
        while index < path.len()
            invariant
                start <= index <= path.len(),
                cycle@ == path@.subrange(start as int, index as int),
            decreases path.len() - index,
        {
            cycle.push(path[index]);
            index = index + 1;
        }
        cycle.push(node);
        proof {
            before.index_of_first_ensures(node as int);
            let first = before.index_of_first(node as int)->0;
            assert(before[start as int] == node as int);
            assert(first == start) by {
                assert(before[first] == path@[first] as int);
            }
            assert(as_positions(cycle@) =~= before.skip(first).push(node as int));
        }
        return (Some(cycle), Ghost(order));
    }
    if state[node] == 2 {
        proof {
            assert(order.contains(node as int));
            let k = choose|k: int| 0 <= k < order.len() && order[k] == node as int;
            assert forall|i: int| 0 <= i <= k implies !before.contains(#[trigger] order[i]) by {
                positions_contain(path@, order[i] as usize);
                assert(state@[order[i]] == 2);
            }
            finished_is_acyclic(g, before, order, k);
        }
        return (None, Ghost(order));
    }
    let ghost state_before = state@;
    state.set(node, 1);
    path.push(node);
    let ghost longer = as_positions(path@);
    let ghost mut done = order;
    proof {
        assert(longer =~= before.push(node as int));
        distinct_positions_fit(longer, g.len() as int);
        assert(path@.drop_last() =~= old(path)@);
        assert forall|i: int| 0 <= i < g.len() implies {
            &&& (#[trigger] state@[i]) == 1 <==> path@.contains(i as usize)
            &&& state@[i] == 2 <==> done.contains(i)
            &&& state@[i] <= 2
        } by {
            assert(state_before[i] <= 2);
            if path@.contains(i as usize) && i != node {
                let k = choose|k: int| 0 <= k < path@.len() && path@[k] == i as usize;
                assert(old(path)@[k] == i as usize);
            }
            if old(path)@.contains(i as usize) {
                let k = choose|k: int| 0 <= k < old(path)@.len() && old(path)@[k] == i as usize;
                assert(path@[k] == i as usize);
            }
            assert(path@[path@.len() - 1] == node);
        }
        assert forall|k: int| 0 <= k < done.len() implies state@[#[trigger] done[k]] == 2 by {
            assert(state_before[done[k]] == 2);
        }
    }
    let ghost path_inside = path@;
    let ghost state_inside = state@;
    let mut entry: usize = 0;
    while entry < graph[node].len()
        invariant
            node < graph.len(),
            g == edges(graph@),
            closed_graph(g),
            entry <= graph@[node as int].len(),
            path@ == path_inside,
            path_inside.len() == old(path)@.len() + 1,
            longer == as_positions(path_inside),
            longer == before.push(node as int),
            path_inside.len() <= graph.len(),
            path_inside == old(path)@.push(node),
            search_state(g, state@, path@, done),
            before == as_positions(old(path)@),
            cycle_among(g, longer, g[node as int], 0) == cycle_among(
                g,
                longer,
                g[node as int],
                entry as int,
            ),
            forall|e: int|
                0 <= e < entry ==> done.contains(#[trigger] g[node as int][e]),
            forall|i: int|
                0 <= i < graph.len() && old(state)@[i] == 2 ==> #[trigger] state@[i] == 2,
            !before.contains(node as int),
        decreases graph@[node as int].len() - entry,
    {
        let target = graph[node][entry];
        let ghost state_earlier = state@;
        proof {
            assert(g[node as int][entry as int] == target as int);
            assert(0 <= g[node as int][entry as int] < g.len());
        }
        let (found, below) = visit(target, graph, state, path, Ghost(done));
        if let Some(cycle) = found {
            return (Some(cycle), Ghost(done));
        }
        proof {
            let later = below@;
            assert forall|e: int| 0 <= e < entry + 1 implies later.contains(
                #[trigger] g[node as int][e],
            ) by {
                let d = g[node as int][e];
                assert(0 <= d < g.len());
                if e < entry {
                    assert(done.contains(d));
                    assert(state_earlier[d] == 2);
                }
                assert(state@[d] == 2);
            }
            done = later;
        }
        entry = entry + 1;
    }
    path.pop();
    let ghost state_last = state@;
    state.set(node, 2);
    proof {
        assert(path@ =~= old(path)@);
        let all = done.push(node as int);
        assert(state_last[node as int] == 1) by {
            assert(path_inside[path_inside.len() - 1] == node);
        }
        assert(!done.contains(node as int));
        assert(ordered_part(g, all)) by {
            assert forall|k: int, e: int|
                #![trigger g[all[k]][e]]
                0 <= k < all.len() && 0 <= e < g[all[k]].len() implies all.take(k).contains(
                g[all[k]][e],
            ) by {
                if k < done.len() {
                    assert(all.take(k) =~= done.take(k));
                    assert(all[k] == done[k]);
                    assert(done.take(k).contains(g[done[k]][e]));
                } else {
                    assert(all.take(k) =~= done);
                }
            }
        }
        assert forall|i: int| 0 <= i < g.len() implies {
            &&& (#[trigger] state@[i]) == 1 <==> path@.contains(i as usize)
            &&& state@[i] == 2 <==> all.contains(i)
            &&& state@[i] <= 2
        } by {
            assert(state_last[i] <= 2);
            if i == node {
                assert(all[done.len() as int] == i);
                positions_contain(path@, node);
            } else {
                if all.contains(i) {
                    let k = choose|k: int| 0 <= k < all.len() && all[k] == i;
                    assert(done[k] == i);
                }
                if done.contains(i) {
                    let k = choose|k: int| 0 <= k < done.len() && done[k] == i;
                    assert(all[k] == i);
                }
                if path_inside.contains(i as usize) {
                    let k = choose|k: int| 0 <= k < path_inside.len() && path_inside[k] == i as usize;
                    assert(path@[k] == i as usize);
                }
                if path@.contains(i as usize) {
                    let k = choose|k: int| 0 <= k < path@.len() && path@[k] == i as usize;
                    assert(path_inside[k] == i as usize);
                }
            }
        }
        assert forall|k: int| 0 <= k < all.len() implies state@[#[trigger] all[k]] == 2 by {
            if k < done.len() {
                assert(all[k] == done[k]);
                assert(state_last[done[k]] == 2);
            }
        }
        done = all;
    }
    (None, Ghost(done))
}

/// Find one cycle in the graph, or `None` when every position can be started
/// after its Dependencies. Configuration order decides the search order.
pub fn find_cycle(graph: &Vec<Vec<usize>>) -> (r: Option<Vec<usize>>)
    requires
        closed_graph(edges(graph@)),
    ensures
        match r {
            Some(cycle) => first_cycle(edges(graph@)) == Some(
                cycle@.map_values(|p: usize| p as int),
            ),
            None => {
                &&& first_cycle(edges(graph@)) is None
                &&& exists|order: Seq<int>| startup_order(edges(graph@), order)
            },
        },
{
    let ghost g = edges(graph@);
    let mut state: Vec<u8> = Vec::new();
    let mut filled: usize = 0;
    while filled < graph.len()
        invariant
            filled <= graph.len(),
            state.len() == filled,
            forall|i: int| 0 <= i < filled ==> state@[i] == 0,
        decreases graph.len() - filled,
    {
        state.push(0);
        filled = filled + 1;
    }
    let mut path: Vec<usize> = Vec::new();
    let ghost mut done: Seq<int> = Seq::empty();
    let mut node: usize = 0;
    while node < graph.len()
        invariant
            node <= graph.len(),
            g == edges(graph@),
            closed_graph(g),
            path@ == Seq::<usize>::empty(),
            search_state(g, state@, path@, done),
            first_cycle(g) == cycle_among(g, Seq::empty(), positions(g), node as int),
            forall|i: int| 0 <= i < node ==> #[trigger] state@[i] == 2,
        decreases graph.len() - node,
    {
        let (found, below) = visit(node, graph, &mut state, &mut path, Ghost(done));
        proof {
            assert(as_positions(Seq::<usize>::empty()) =~= Seq::<int>::empty());
            assert(positions(g)[node as int] == node as int);
        }
        if let Some(cycle) = found {
            return Some(cycle);
        }
        proof {
            done = below@;
        }
        node = node + 1;
    }
    proof {
        assert forall|i: int| 0 <= i < g.len() implies #[trigger] done.contains(i) by {
            assert(state@[i] == 2);
        }
        distinct_positions_fit(done, g.len() as int);
        assert(done.len() >= g.len()) by {
            let range = vstd::set_lib::set_int_range(0, g.len() as int);
            vstd::set_lib::lemma_int_range(0, g.len() as int);
            done.unique_seq_to_set();
            assert(range.subset_of(done.to_set()));
            vstd::set_lib::lemma_len_subset(range, done.to_set());
        }
        assert(startup_order(g, done));
    }
    None
}

} // verus!
