//! Routing graph topology: the road network that the routing sample reads
//! from the SDK, reduced to what the routing logic decides on (which node an
//! edge leaves and enters). Edge lengths and travel times are floating point
//! and stay with the caller.
use vstd::prelude::*;
use std::collections::HashMap;

verus! {

broadcast use vstd::std_specs::hash::group_hash_axioms;

/// Why a routing graph could not be built.
#[derive(Debug, Clone, Copy, PartialEq, Eq)]
pub enum GraphError {
    /// The graph holds no edge ("Routing graph has no edges").
    NoEdges,
}

impl GraphError {
    /// The message shown for the failure.
    pub fn message(self) -> (m: &'static str)
        ensures
            self == GraphError::NoEdges ==> m@ == "Routing graph has no edges"@,
    {
        match self {
            GraphError::NoEdges => "Routing graph has no edges",
        }
    }
}

/// Collects the nodes and edges of a routing graph as they are read.
pub struct GraphBuilder {
    ids: HashMap<i64, usize>,
    node_count: usize,
    edge_from: Vec<usize>,
    edge_to: Vec<usize>,
}

/// Edges `e < k` that leave node `n`, in increasing order.
pub open spec fn edges_leaving(from: Seq<usize>, n: int, k: int) -> Seq<usize>
    decreases k,
{
    if k <= 0 {
        Seq::empty()
    } else if from[k - 1] == n {
        edges_leaving(from, n, k - 1).push((k - 1) as usize)
    } else {
        edges_leaving(from, n, k - 1)
    }
}


/// Edge `e` joins `a` and `b` in one direction or the other.
pub open spec fn joins(from: Seq<usize>, to: Seq<usize>, e: int, a: usize, b: usize) -> bool {
    (from[e] == a && to[e] == b) || (from[e] == b && to[e] == a)
}

/// Some edge joins `a` and `b`, ignoring its direction.
pub open spec fn linked(from: Seq<usize>, to: Seq<usize>, a: usize, b: usize) -> bool {
    exists|e: int| 0 <= e < from.len() && #[trigger] joins(from, to, e, a, b)
}

/// Position `i` of `p` and the next one are linked.
pub open spec fn step(from: Seq<usize>, to: Seq<usize>, p: Seq<usize>, i: int) -> bool {
    linked(from, to, p[i], p[i + 1])
}

/// `p` is a nonempty sequence of nodes, each linked to the next.
pub open spec fn is_walk(from: Seq<usize>, to: Seq<usize>, p: Seq<usize>) -> bool {
    &&& p.len() >= 1
    &&& forall|i: int| 0 <= i < p.len() - 1 ==> #[trigger] step(from, to, p, i)
}

/// `b` can be reached from `a` along edges taken in either direction.
pub open spec fn reaches(from: Seq<usize>, to: Seq<usize>, a: usize, b: usize) -> bool {
    exists|p: Seq<usize>| #[trigger] is_walk(from, to, p) && p[0] == a && p.last() == b
}

/// The nodes (below `n`) connected to `s`.
pub open spec fn component(from: Seq<usize>, to: Seq<usize>, n: nat, s: usize) -> Set<usize> {
    Set::new(|v: usize| v < n && reaches(from, to, s, v))
}

/// `s` has a component no smaller than any other, and every node before
/// `s` has a strictly smaller one.
pub open spec fn first_largest(from: Seq<usize>, to: Seq<usize>, n: nat, s: usize) -> bool {
    &&& s < n
    &&& forall|t: usize| t < n ==> #[trigger] component(from, to, n, t).len() <= component(from, to, n, s).len()
    &&& forall|t: usize| t < s ==> #[trigger] component(from, to, n, t).len() < component(from, to, n, s).len()
}

/// Undirected neighbours of node `n` through edges `e < k`, in the order the
/// edges are read: for each edge, its target if it leaves `n`, then its
/// source if it enters `n`.
pub open spec fn neighbours(from: Seq<usize>, to: Seq<usize>, n: usize, k: int) -> Seq<usize>
    decreases k,
{
    if k <= 0 {
        Seq::empty()
    } else {
        let prev = neighbours(from, to, n, k - 1);
        let out = if from[k - 1] == n { prev.push(to[k - 1]) } else { prev };
        if to[k - 1] == n { out.push(from[k - 1]) } else { out }
    }
}

proof fn lemma_neighbours(from: Seq<usize>, to: Seq<usize>, n: usize, k: int, w: usize)
    requires
        0 <= k <= from.len(),
        from.len() == to.len(),
    ensures
        neighbours(from, to, n, k).contains(w) <==> exists|e: int| 0 <= e < k && #[trigger] joins(from, to, e, n, w),
    decreases k,
{
    if k > 0 {
        lemma_neighbours(from, to, n, k - 1, w);
        let prev = neighbours(from, to, n, k - 1);
        let out = if from[k - 1] == n { prev.push(to[k - 1]) } else { prev };
        let all = neighbours(from, to, n, k);
        if all.contains(w) {
            if !prev.contains(w) {
                let i = choose|i: int| 0 <= i < all.len() && all[i] == w;
                assert(joins(from, to, k - 1, n, w));
            }
        }
        if exists|e: int| 0 <= e < k && #[trigger] joins(from, to, e, n, w) {
            let e = choose|e: int| 0 <= e < k && #[trigger] joins(from, to, e, n, w);
            if e < k - 1 {
                let i = choose|i: int| 0 <= i < prev.len() && prev[i] == w;
                assert(out[i] == w);
                assert(all[i] == w);
            } else if from[k - 1] == n && to[k - 1] == w {
                assert(out[out.len() - 1] == w);
                assert(all[out.len() - 1] == w);
            } else {
                assert(all[all.len() - 1] == w);
            }
        }
    }
}

proof fn lemma_neighbours_in_range(from: Seq<usize>, to: Seq<usize>, n: usize, k: int, bound: nat)
    requires
        0 <= k <= from.len(),
        from.len() == to.len(),
        forall|e: int| 0 <= e < from.len() ==> #[trigger] from[e] < bound && to[e] < bound,
    ensures
        forall|i: int| 0 <= i < neighbours(from, to, n, k).len() ==> #[trigger] neighbours(from, to, n, k)[i] < bound,
    decreases k,
{
    if k > 0 {
        lemma_neighbours_in_range(from, to, n, k - 1, bound);
        assert(from[k - 1] < bound && to[k - 1] < bound);
        let prev = neighbours(from, to, n, k - 1);
        let out = if from[k - 1] == n { prev.push(to[k - 1]) } else { prev };
        assert forall|i: int| 0 <= i < out.len() implies #[trigger] out[i] < bound by {
            if i < prev.len() {
                assert(prev[i] < bound);
            }
        }
        let all = neighbours(from, to, n, k);
        assert forall|i: int| 0 <= i < all.len() implies #[trigger] all[i] < bound by {
            if i < out.len() {
                assert(out[i] < bound);
            }
        }
    }
}

proof fn lemma_reaches_self(from: Seq<usize>, to: Seq<usize>, a: usize)
    ensures
        reaches(from, to, a, a),
{
    let p = seq![a];
    assert(is_walk(from, to, p));
}

proof fn lemma_reaches_extend(from: Seq<usize>, to: Seq<usize>, a: usize, b: usize, c: usize)
    requires
        reaches(from, to, a, b),
        linked(from, to, b, c),
    ensures
        reaches(from, to, a, c),
{
    let p = choose|p: Seq<usize>| #[trigger] is_walk(from, to, p) && p[0] == a && p.last() == b;
    let q = p.push(c);
    assert forall|i: int| 0 <= i < q.len() - 1 implies #[trigger] step(from, to, q, i) by {
        if i < p.len() - 1 {
            assert(step(from, to, p, i));
        }
    }
    assert(is_walk(from, to, q));
}

proof fn lemma_linked_symmetric(from: Seq<usize>, to: Seq<usize>, a: usize, b: usize)
    requires
        linked(from, to, a, b),
    ensures
        linked(from, to, b, a),
{
    let e = choose|e: int| 0 <= e < from.len() && #[trigger] joins(from, to, e, a, b);
    assert(joins(from, to, e, b, a));
}

proof fn lemma_reaches_symmetric(from: Seq<usize>, to: Seq<usize>, a: usize, b: usize)
    requires
        reaches(from, to, a, b),
    ensures
        reaches(from, to, b, a),
{
    let p = choose|p: Seq<usize>| #[trigger] is_walk(from, to, p) && p[0] == a && p.last() == b;
    let q = p.reverse();
    assert forall|i: int| 0 <= i < q.len() - 1 implies #[trigger] step(from, to, q, i) by {
        let j = p.len() - 2 - i;
        assert(step(from, to, p, j));
        lemma_linked_symmetric(from, to, p[j], p[j + 1]);
    }
    assert(is_walk(from, to, q));
}

proof fn lemma_reaches_along(from: Seq<usize>, to: Seq<usize>, a: usize, q: Seq<usize>, k: int)
    requires
        is_walk(from, to, q),
        0 <= k < q.len(),
        reaches(from, to, a, q[0]),
    ensures
        reaches(from, to, a, q[k]),
    decreases k,
{
    if k > 0 {
        lemma_reaches_along(from, to, a, q, k - 1);
        assert(step(from, to, q, k - 1));
        lemma_reaches_extend(from, to, a, q[k - 1], q[k]);
    }
}

proof fn lemma_reaches_transitive(from: Seq<usize>, to: Seq<usize>, a: usize, b: usize, c: usize)
    requires
        reaches(from, to, a, b),
        reaches(from, to, b, c),
    ensures
        reaches(from, to, a, c),
{
    let q = choose|q: Seq<usize>| #[trigger] is_walk(from, to, q) && q[0] == b && q.last() == c;
    lemma_reaches_along(from, to, a, q, q.len() - 1);
}

proof fn lemma_closed_along(from: Seq<usize>, to: Seq<usize>, c: Set<usize>, p: Seq<usize>, k: int)
    requires
        is_walk(from, to, p),
        0 <= k < p.len(),
        c.contains(p[0]),
        forall|x: usize, y: usize| #[trigger] c.contains(x) && linked(from, to, x, y) ==> #[trigger] c.contains(y),
    ensures
        c.contains(p[k]),
    decreases k,
{
    if k > 0 {
        lemma_closed_along(from, to, c, p, k - 1);
        assert(step(from, to, p, k - 1));
    }
}

/// A set closed under `linked` that holds `a` holds everything `a` reaches.
proof fn lemma_closed_holds_reached(from: Seq<usize>, to: Seq<usize>, c: Set<usize>, a: usize, b: usize)
    requires
        c.contains(a),
        reaches(from, to, a, b),
        forall|x: usize, y: usize| #[trigger] c.contains(x) && linked(from, to, x, y) ==> #[trigger] c.contains(y),
    ensures
        c.contains(b),
{
    let p = choose|p: Seq<usize>| #[trigger] is_walk(from, to, p) && p[0] == a && p.last() == b;
    lemma_closed_along(from, to, c, p, p.len() - 1);
}

impl GraphBuilder {
    /// The indices held are in range of the nodes read.
    pub closed spec fn wf(self) -> bool {
        &&& self.edge_from.len() == self.edge_to.len()
        &&& forall|id: i64| #[trigger] self.ids@.contains_key(id) ==> self.ids@[id] < self.node_count
        &&& forall|e: int| 0 <= e < self.edge_from.len() ==> #[trigger] self.edge_from@[e] < self.node_count
        &&& forall|e: int| 0 <= e < self.edge_to.len() ==> #[trigger] self.edge_to@[e] < self.node_count
    }

    /// Node ids read so far, each mapped to the index of its last occurrence.
    pub closed spec fn id_map(self) -> Map<i64, usize> {
        self.ids@
    }

    /// Number of nodes read so far.
    pub closed spec fn spec_node_count(self) -> nat {
        self.node_count as nat
    }

    /// Source node index of each edge read so far.
    pub closed spec fn sources(self) -> Seq<usize> {
        self.edge_from@
    }

    /// Target node index of each edge read so far.
    pub closed spec fn targets(self) -> Seq<usize> {
        self.edge_to@
    }

    /// An empty graph.
    pub fn new() -> (b: Self)
        ensures
            b.wf(),
            b.id_map() == Map::<i64, usize>::empty(),
            b.spec_node_count() == 0,
            b.sources() == Seq::<usize>::empty(),
            b.targets() == Seq::<usize>::empty(),
    {
        GraphBuilder { ids: HashMap::new(), node_count: 0, edge_from: Vec::new(), edge_to: Vec::new() }
    }

    /// Number of nodes read so far.
    pub fn node_count(&self) -> (n: usize)
        ensures
            n == self.spec_node_count(),
    {
        self.node_count
    }

    /// Reads the next node; a repeated id now refers to this node.
    pub fn add_node(&mut self, id: i64)
        requires
            old(self).wf(),
            old(self).spec_node_count() < usize::MAX,
        ensures
            final(self).wf(),
            final(self).id_map() == old(self).id_map().insert(id, old(self).spec_node_count() as usize),
            final(self).spec_node_count() == old(self).spec_node_count() + 1,
            final(self).sources() == old(self).sources(),
            final(self).targets() == old(self).targets(),
    {
        let index = self.node_count;
        self.ids.insert(id, index);
        self.node_count = index + 1;
    }

    /// The node index that `id` refers to, if it was read.
    pub fn index_of(&self, id: i64) -> (r: Option<usize>)
        requires
            self.wf(),
        ensures
            r == (if self.id_map().contains_key(id) { Some(self.id_map()[id]) } else { None::<usize> }),
            r matches Some(i) ==> i < self.spec_node_count(),
    {
        match self.ids.get(&id) {
            Some(i) => Some(*i),
            None => None,
        }
    }

    /// Reads the next edge, from node index `from` to node index `to`.
    pub fn add_edge(&mut self, from: usize, to: usize)
        requires
            old(self).wf(),
            from < old(self).spec_node_count(),
            to < old(self).spec_node_count(),
        ensures
            final(self).wf(),
            final(self).id_map() == old(self).id_map(),
            final(self).spec_node_count() == old(self).spec_node_count(),
            final(self).sources() == old(self).sources().push(from),
            final(self).targets() == old(self).targets().push(to),
    {
        self.edge_from.push(from);
        self.edge_to.push(to);
    }
}


/// For each node, the edges leaving it and its undirected neighbours.
fn build_lists(n: usize, from: &Vec<usize>, to: &Vec<usize>) -> (r: (Vec<Vec<usize>>, Vec<Vec<usize>>))
    requires
        from.len() == to.len(),
        forall|e: int| 0 <= e < from.len() ==> #[trigger] from@[e] < n && to@[e] < n,
    ensures
        r.0.len() == n,
        r.1.len() == n,
        forall|v: int| 0 <= v < n ==> (#[trigger] r.0@[v])@ == edges_leaving(from@, v, from.len() as int),
        forall|v: int| 0 <= v < n ==> (#[trigger] r.1@[v])@ == neighbours(from@, to@, v as usize, from.len() as int),
{
    let mut adj: Vec<Vec<usize>> = Vec::new();
    let mut und: Vec<Vec<usize>> = Vec::new();
    let mut v: usize = 0;
    while v < n
        invariant
            v <= n,
            adj.len() == v,
            und.len() == v,
            forall|i: int| 0 <= i < v ==> (#[trigger] adj@[i])@ == Seq::<usize>::empty(),
            forall|i: int| 0 <= i < v ==> (#[trigger] und@[i])@ == Seq::<usize>::empty(),
        decreases n - v,
    {
        adj.push(Vec::new());
        und.push(Vec::new());
        v = v + 1;
    }
    let mut e: usize = 0;
    while e < from.len()
        invariant
            from.len() == to.len(),
            forall|k: int| 0 <= k < from.len() ==> #[trigger] from@[k] < n && to@[k] < n,
            e <= from.len(),
            adj.len() == n,
            und.len() == n,
            forall|i: int| 0 <= i < n ==> (#[trigger] adj@[i])@ == edges_leaving(from@, i, e as int),
            forall|i: int| 0 <= i < n ==> (#[trigger] und@[i])@ == neighbours(from@, to@, i as usize, e as int),
        decreases from.len() - e,
    {
        let a = from[e];
        let b = to[e];
        assert(from@[e as int] < n && to@[e as int] < n);
        adj[a].push(e);
        und[a].push(b);
        und[b].push(a);
        assert forall|i: int| 0 <= i < n implies (#[trigger] adj@[i])@ == edges_leaving(from@, i, e + 1) by {}
        assert forall|i: int| 0 <= i < n implies (#[trigger] und@[i])@ == neighbours(from@, to@, i as usize, e + 1) by {}
        e = e + 1;
    }
    (adj, und)
}


/// Every node `visited` marks links only to nodes it marks.
pub open spec fn closed_marks(from: Seq<usize>, to: Seq<usize>, marks: Seq<bool>) -> bool {
    forall|v: usize, w: usize|
        #![trigger marks[v as int], linked(from, to, v, w)]
        v < marks.len() && marks[v as int] && linked(from, to, v, w) ==> w < marks.len() && marks[w as int]
}

/// Lists with the undirected neighbours of every node below `n`.
pub open spec fn neighbour_lists(und: Seq<Vec<usize>>, from: Seq<usize>, to: Seq<usize>, n: nat) -> bool {
    &&& und.len() == n
    &&& forall|v: int| 0 <= v < n ==> (#[trigger] und[v])@ == neighbours(from, to, v as usize, from.len() as int)
}

/// Node indices below `n`.
spec fn below(n: nat) -> Set<usize> {
    Set::new(|v: usize| v < n)
}

proof fn lemma_below(n: nat)
    requires
        n <= usize::MAX,
    ensures
        below(n).finite(),
        below(n).len() == n,
    decreases n,
{
    if n == 0 {
        assert(below(0) =~= Set::<usize>::empty());
    } else {
        lemma_below((n - 1) as nat);
        assert(below(n) =~= below((n - 1) as nat).insert((n - 1) as usize));
    }
}

/// A sequence of distinct node indices below `n` has at most `n` entries.
proof fn lemma_distinct_below(s: Seq<usize>, n: nat)
    requires
        n <= usize::MAX,
        s.no_duplicates(),
        forall|i: int| 0 <= i < s.len() ==> #[trigger] s[i] < n,
    ensures
        s.len() <= n,
{
    lemma_below(n);
    s.unique_seq_to_set();
    assert(s.to_set().subset_of(below(n)));
    vstd::set_lib::lemma_len_subset(s.to_set(), below(n));
}

/// Breadth-first search from the unmarked node `s`: marks and returns the
/// nodes connected to `s`, in the order they are reached.
fn explore(
    und: &Vec<Vec<usize>>,
    from: &Vec<usize>,
    to: &Vec<usize>,
    n: usize,
    visited: &mut Vec<bool>,
    s: usize,
) -> (comp: Vec<usize>)
    requires
        from.len() == to.len(),
        forall|e: int| 0 <= e < from.len() ==> #[trigger] from@[e] < n && to@[e] < n,
        neighbour_lists(und@, from@, to@, n as nat),
        old(visited).len() == n,
        s < n,
        !old(visited)@[s as int],
        closed_marks(from@, to@, old(visited)@),
    ensures
        final(visited).len() == n,
        comp@.no_duplicates(),
        comp@.to_set() == component(from@, to@, n as nat, s),
        comp.len() == component(from@, to@, n as nat, s).len(),
        forall|v: int| 0 <= v < n ==> #[trigger] final(visited)@[v] == (old(visited)@[v] || reaches(from@, to@, s, v as usize)),
        closed_marks(from@, to@, final(visited)@),
{
    let ghost v0 = visited@;
    let mut comp: Vec<usize> = Vec::new();
    comp.push(s);
    visited.set(s, true);
    proof {
        lemma_reaches_self(from@, to@, s);
    }
    proof {
        assert forall|v: int| 0 <= v < n implies #[trigger] visited@[v] == (v0[v] || comp@.contains(v as usize)) by {
            if comp@.contains(v as usize) {
                let i = choose|i: int| 0 <= i < comp.len() && comp@[i] == v as usize;
            }
            if v == s as int {
                assert(comp@[0] == s);
            }
        }
    }
    let mut head: usize = 0;
    while head < comp.len()
        invariant
            from.len() == to.len(),
            forall|e: int| 0 <= e < from.len() ==> #[trigger] from@[e] < n && to@[e] < n,
            neighbour_lists(und@, from@, to@, n as nat),
            visited.len() == n,
            v0.len() == n,
            closed_marks(from@, to@, v0),
            s < n,
            comp.len() > 0,
            comp@[0] == s,
            head <= comp.len(),
            comp@.no_duplicates(),
            forall|i: int| 0 <= i < comp.len() ==> #[trigger] comp@[i] < n && reaches(from@, to@, s, comp@[i]) && !v0[comp@[i] as int],
            forall|v: int| 0 <= v < n ==> #[trigger] visited@[v] == (v0[v] || comp@.contains(v as usize)),
            forall|i: int, w: usize| 0 <= i < head && #[trigger] linked(from@, to@, comp@[i], w) ==> w < n && visited@[w as int],
        decreases n - head,
    {
        proof {
            lemma_distinct_below(comp@, n as nat);
        }
        let node = comp[head];
        let nb = &und[node];
        proof {
            lemma_neighbours_in_range(from@, to@, node, from.len() as int, n as nat);
        }
        let mut j: usize = 0;
        while j < nb.len()
            invariant
                from.len() == to.len(),
                forall|e: int| 0 <= e < from.len() ==> #[trigger] from@[e] < n && to@[e] < n,
                neighbour_lists(und@, from@, to@, n as nat),
                nb@ == neighbours(from@, to@, node, from.len() as int),
                forall|i: int| 0 <= i < nb.len() ==> #[trigger] nb@[i] < n,
                visited.len() == n,
                v0.len() == n,
                closed_marks(from@, to@, v0),
                s < n,
                comp.len() > 0,
                comp@[0] == s,
                head < comp.len(),
                comp@[head as int] == node,
                comp@.no_duplicates(),
                forall|i: int| 0 <= i < comp.len() ==> #[trigger] comp@[i] < n && reaches(from@, to@, s, comp@[i]) && !v0[comp@[i] as int],
                forall|v: int| 0 <= v < n ==> #[trigger] visited@[v] == (v0[v] || comp@.contains(v as usize)),
                forall|i: int, w: usize| 0 <= i < head && #[trigger] linked(from@, to@, comp@[i], w) ==> w < n && visited@[w as int],
                j <= nb.len(),
                forall|k: int| 0 <= k < j ==> #[trigger] visited@[nb@[k] as int],
            decreases nb.len() - j,
        {
            let next = nb[j];
            assert(nb@[j as int] < n);
            if !visited[next] {
                proof {
                    lemma_neighbours(from@, to@, node, from.len() as int, next);
                    assert(nb@.contains(next));
                    let e = choose|e: int| 0 <= e < from.len() && #[trigger] joins(from@, to@, e, node, next);
                    assert(linked(from@, to@, node, next));
                    assert(reaches(from@, to@, s, comp@[head as int]));
                    lemma_reaches_extend(from@, to@, s, node, next);
                    assert(!comp@.contains(next));
                }
                let ghost old_comp = comp@;
                visited.set(next, true);
                comp.push(next);
                proof {
                    assert(comp@ == old_comp.push(next));
                    assert forall|v: int| 0 <= v < n implies #[trigger] visited@[v] == (v0[v] || comp@.contains(v as usize)) by {
                        if v == next as int {
                            assert(comp@[comp.len() - 1] == next);
                        } else if old_comp.contains(v as usize) {
                            let i = choose|i: int| 0 <= i < old_comp.len() && old_comp[i] == v as usize;
                            assert(comp@[i] == v as usize);
                        } else if comp@.contains(v as usize) {
                            let i = choose|i: int| 0 <= i < comp.len() && comp@[i] == v as usize;
                            if i < old_comp.len() {
                                assert(old_comp[i] == v as usize);
                            }
                        }
                    }
                    assert forall|i: int, w: usize| 0 <= i < head && #[trigger] linked(from@, to@, comp@[i], w) implies w < n && visited@[w as int] by {
                        assert(comp@[i] == old_comp[i]);
                    }
                }
            }
            j = j + 1;
        }
        proof {
            assert forall|w: usize| #[trigger] linked(from@, to@, node, w) implies w < n && visited@[w as int] by {
                let e = choose|e: int| 0 <= e < from.len() && #[trigger] joins(from@, to@, e, node, w);
                lemma_neighbours(from@, to@, node, from.len() as int, w);
                let k = choose|k: int| 0 <= k < nb.len() && nb@[k] == w;
                assert(visited@[nb@[k] as int]);
            }
        }
        head = head + 1;
        proof {
            lemma_distinct_below(comp@, n as nat);
        }
    }
    proof {
        let c = comp@.to_set();
        assert forall|x: usize, y: usize| #[trigger] c.contains(x) && linked(from@, to@, x, y) implies #[trigger] c.contains(y) by {
            let i = choose|i: int| 0 <= i < comp.len() && comp@[i] == x;
            assert(linked(from@, to@, comp@[i], y));
            assert(y < n && visited@[y as int]);
            if v0[y as int] {
                lemma_linked_symmetric(from@, to@, x, y);
                assert(v0[x as int]);
                assert(!v0[comp@[i] as int]);
            }
        }
        assert(c.contains(s)) by {
            assert(comp@[0] == s);
        }
        assert forall|v: usize| #[trigger] c.contains(v) <==> component(from@, to@, n as nat, s).contains(v) by {
            if c.contains(v) {
                let i = choose|i: int| 0 <= i < comp.len() && comp@[i] == v;
                assert(comp@[i] < n && reaches(from@, to@, s, comp@[i]));
            }
            if component(from@, to@, n as nat, s).contains(v) {
                lemma_closed_holds_reached(from@, to@, c, s, v);
            }
        }
        assert(c =~= component(from@, to@, n as nat, s));
        comp@.unique_seq_to_set();
        assert forall|v: int| 0 <= v < n implies #[trigger] visited@[v] == (v0[v] || reaches(from@, to@, s, v as usize)) by {
            if comp@.contains(v as usize) {
                assert(c.contains(v as usize));
            }
            if reaches(from@, to@, s, v as usize) {
                assert(component(from@, to@, n as nat, s).contains(v as usize));
                assert(c.contains(v as usize));
            }
        }
        assert forall|v: usize, w: usize|
            #![trigger visited@[v as int], linked(from@, to@, v, w)]
            v < visited@.len() && visited@[v as int] && linked(from@, to@, v, w) implies w < visited@.len() && visited@[w as int] by {
            if v0[v as int] {
                assert(w < v0.len() && v0[w as int]);
            } else {
                assert(comp@.contains(v));
                assert(c.contains(v));
                assert(c.contains(w));
                let i = choose|i: int| 0 <= i < comp.len() && comp@[i] == w;
                assert(comp@[i] < n);
            }
        }
    }
    comp
}


proof fn lemma_same_component(from: Seq<usize>, to: Seq<usize>, n: nat, t: usize, u: usize)
    requires
        reaches(from, to, t, u),
    ensures
        component(from, to, n, t) == component(from, to, n, u),
{
    assert forall|v: usize| #[trigger] component(from, to, n, t).contains(v) <==> component(from, to, n, u).contains(v) by {
        if reaches(from, to, t, v) {
            lemma_reaches_symmetric(from, to, t, u);
            lemma_reaches_transitive(from, to, u, t, v);
        }
        if reaches(from, to, u, v) {
            lemma_reaches_transitive(from, to, t, u, v);
        }
    }
    assert(component(from, to, n, t) =~= component(from, to, n, u));
}

/// Marks the nodes of the first largest connected component.
fn largest_component(und: &Vec<Vec<usize>>, from: &Vec<usize>, to: &Vec<usize>, n: usize) -> (main: Vec<bool>)
    requires
        n > 0,
        from.len() == to.len(),
        forall|e: int| 0 <= e < from.len() ==> #[trigger] from@[e] < n && to@[e] < n,
        neighbour_lists(und@, from@, to@, n as nat),
    ensures
        main.len() == n,
        exists|best: usize|
            first_largest(from@, to@, n as nat, best)
            && forall|v: int| 0 <= v < n ==> #[trigger] main@[v] == reaches(from@, to@, best, v as usize),
{
    let mut visited: Vec<bool> = Vec::new();
    while visited.len() < n
        invariant
            visited.len() <= n,
            forall|v: int| 0 <= v < visited.len() ==> !#[trigger] visited@[v],
        decreases n - visited.len(),
    {
        visited.push(false);
    }
    let mut largest: Vec<usize> = Vec::new();
    let ghost mut best: usize = 0;
    let mut start: usize = 0;
    while start < n
        invariant
            from.len() == to.len(),
            forall|e: int| 0 <= e < from.len() ==> #[trigger] from@[e] < n && to@[e] < n,
            neighbour_lists(und@, from@, to@, n as nat),
            start <= n,
            visited.len() == n,
            closed_marks(from@, to@, visited@),
            forall|v: int| 0 <= v < n ==> #[trigger] visited@[v] == exists|t: usize| t < start && #[trigger] reaches(from@, to@, t, v as usize),
            start == 0 ==> largest.len() == 0,
            start > 0 ==> {
                &&& best < start
                &&& largest@.to_set() == component(from@, to@, n as nat, best)
                &&& largest.len() == component(from@, to@, n as nat, best).len()
                &&& forall|t: usize| t < start ==> #[trigger] component(from@, to@, n as nat, t).len() <= component(from@, to@, n as nat, best).len()
                &&& forall|t: usize| t < best ==> #[trigger] component(from@, to@, n as nat, t).len() < component(from@, to@, n as nat, best).len()
            },
        decreases n - start,
    {
        if visited[start] {
            proof {
                assert(visited@[start as int]);
                let t = choose|t: usize| t < start && #[trigger] reaches(from@, to@, t, start);
                lemma_same_component(from@, to@, n as nat, t, start);
                assert(component(from@, to@, n as nat, t).len() <= component(from@, to@, n as nat, best).len());
                assert forall|v: int| 0 <= v < n implies #[trigger] visited@[v] == exists|t: usize| t < start + 1 && #[trigger] reaches(from@, to@, t, v as usize) by {
                    if reaches(from@, to@, start, v as usize) {
                        lemma_reaches_transitive(from@, to@, t, start, v as usize);
                    }
                }
            }
        } else {
            let ghost before = visited@;
            let comp = explore(und, from, to, n, &mut visited, start);
            proof {
                assert forall|v: int| 0 <= v < n implies #[trigger] visited@[v] == exists|t: usize| t < start + 1 && #[trigger] reaches(from@, to@, t, v as usize) by {
                    if exists|t: usize| t < start + 1 && #[trigger] reaches(from@, to@, t, v as usize) {
                        let t = choose|t: usize| t < start + 1 && #[trigger] reaches(from@, to@, t, v as usize);
                        if t < start {
                            assert(before[v]);
                        }
                    }
                }
            }
            proof {
                lemma_reaches_self(from@, to@, start);
                assert(component(from@, to@, n as nat, start).contains(start));
                assert(comp@.to_set().contains(start));
                assert(comp.len() > 0);
            }
            let ghost old_len = largest.len();
            if comp.len() > largest.len() {
                largest = comp;
                proof {
                    best = start;
                }
            }
            proof {
                assert forall|t: usize| t < start + 1 implies #[trigger] component(from@, to@, n as nat, t).len() <= component(from@, to@, n as nat, best).len() by {
                    if t < start {
                        assert(component(from@, to@, n as nat, t).len() <= old_len);
                    }
                }
                assert forall|t: usize| t < best implies #[trigger] component(from@, to@, n as nat, t).len() < component(from@, to@, n as nat, best).len() by {
                    if best == start {
                        assert(component(from@, to@, n as nat, t).len() <= old_len);
                    }
                }
            }
        }
        start = start + 1;
    }
    let mut main: Vec<bool> = Vec::new();
    while main.len() < n
        invariant
            main.len() <= n,
            forall|v: int| 0 <= v < main.len() ==> !#[trigger] main@[v],
        decreases n - main.len(),
    {
        main.push(false);
    }
    let mut i: usize = 0;
    while i < largest.len()
        invariant
            main.len() == n,
            i <= largest.len(),
            largest@.to_set() == component(from@, to@, n as nat, best),
            forall|v: int| 0 <= v < n ==> #[trigger] main@[v] == exists|k: int| 0 <= k < i && #[trigger] largest@[k] == v as usize,
        decreases largest.len() - i,
    {
        let v = largest[i];
        assert(largest@.to_set().contains(v));
        main.set(v, true);
        proof {
            assert forall|w: int| 0 <= w < n implies #[trigger] main@[w] == exists|k: int| 0 <= k < i + 1 && #[trigger] largest@[k] == w as usize by {
                if w == v as int {
                    assert(largest@[i as int] == v);
                }
            }
        }
        i = i + 1;
    }
    proof {
        assert(first_largest(from@, to@, n as nat, best));
        assert forall|v: int| 0 <= v < n implies #[trigger] main@[v] == reaches(from@, to@, best, v as usize) by {
            assert(largest@.to_set().contains(v as usize) == component(from@, to@, n as nat, best).contains(v as usize));
            if largest@.contains(v as usize) {
                let k = choose|k: int| 0 <= k < largest.len() && largest@[k] == v as usize;
            }
        }
    }
    main
}


/// The topology of a routing graph, ready for route search.
pub struct RoadTopology {
    node_count: usize,
    edge_from: Vec<usize>,
    edge_to: Vec<usize>,
    outgoing: Vec<Vec<usize>>,
    main: Vec<bool>,
}

/// Why no route could be read back from a search result.
#[derive(Debug, Clone, Copy, PartialEq, Eq)]
pub enum RouteError {
    /// The end node was not reached ("No connected route; choose another road node").
    NoRoute,
    /// A node on the way back has no recorded incoming edge ("Incomplete route").
    Incomplete,
    /// Walking back took more edges than there are nodes ("Route cycle").
    Cycle,
}

impl RouteError {
    /// The message shown for the failure.
    pub fn message(self) -> (m: &'static str)
        ensures
            self == RouteError::NoRoute ==> m@ == "No connected route; choose another road node"@,
            self == RouteError::Incomplete ==> m@ == "Incomplete route"@,
            self == RouteError::Cycle ==> m@ == "Route cycle"@,
    {
        match self {
            RouteError::NoRoute => "No connected route; choose another road node",
            RouteError::Incomplete => "Incomplete route",
            RouteError::Cycle => "Route cycle",
        }
    }
}

/// The route read back from `node` towards `start` along the incoming edge
/// recorded for each node, with at most `budget - 1` edges: the edges in
/// travel order, or why it cannot be read back.
pub open spec fn back_route(
    parent: Seq<Option<usize>>,
    from: Seq<usize>,
    start: usize,
    node: usize,
    budget: nat,
) -> Result<Seq<usize>, RouteError>
    decreases budget,
{
    if node == start {
        Ok(Seq::empty())
    } else if parent[node as int] is None {
        Err(RouteError::Incomplete)
    } else if budget <= 1 {
        Err(RouteError::Cycle)
    } else {
        let e = parent[node as int]->0;
        match back_route(parent, from, start, from[e as int], (budget - 1) as nat) {
            Ok(p) => Ok(p.push(e)),
            Err(x) => Err(x),
        }
    }
}

/// The points of a route: for each edge its recorded geometry, or its two
/// end nodes where it has none.
pub open spec fn route_points<P>(
    from: Seq<usize>,
    to: Seq<usize>,
    nodes: Seq<P>,
    shapes: Seq<Seq<P>>,
    path: Seq<usize>,
) -> Seq<P>
    decreases path.len(),
{
    if path.len() == 0 {
        Seq::empty()
    } else {
        let e = path.last() as int;
        let piece = if shapes[e].len() == 0 { seq![nodes[from[e] as int], nodes[to[e] as int]] } else { shapes[e] };
        route_points(from, to, nodes, shapes, path.drop_last()) + piece
    }
}

/// The points of one edge: its shape, or its two end nodes when it has none.
pub open spec fn edge_points<P>(from: Seq<usize>, to: Seq<usize>, nodes: Seq<P>, shapes: Seq<Seq<P>>, e: int) -> Seq<P> {
    if shapes[e].len() == 0 { seq![nodes[from[e] as int], nodes[to[e] as int]] } else { shapes[e] }
}

/// The geometry of a route is the geometries of its edges one after
/// another: no route has no points, one edge gives its own points, and two
/// routes joined give their points joined.
pub proof fn lemma_route_points_concat<P>(
    from: Seq<usize>,
    to: Seq<usize>,
    nodes: Seq<P>,
    shapes: Seq<Seq<P>>,
    a: Seq<usize>,
    b: Seq<usize>,
)
    ensures
        route_points(from, to, nodes, shapes, Seq::<usize>::empty()) == Seq::<P>::empty(),
        forall|e: usize| #[trigger] route_points(from, to, nodes, shapes, seq![e]) == edge_points(from, to, nodes, shapes, e as int),
        route_points(from, to, nodes, shapes, a + b) == route_points(from, to, nodes, shapes, a) + route_points(from, to, nodes, shapes, b),
    decreases b.len(),
{
    assert forall|e: usize| #[trigger] route_points(from, to, nodes, shapes, seq![e]) == edge_points(from, to, nodes, shapes, e as int) by {
        assert(seq![e].drop_last() =~= Seq::<usize>::empty());
        assert(route_points(from, to, nodes, shapes, Seq::<usize>::empty()) == Seq::<P>::empty());
        assert(route_points(from, to, nodes, shapes, seq![e]) == route_points(from, to, nodes, shapes, seq![e].drop_last())
            + edge_points(from, to, nodes, shapes, e as int));
        assert(Seq::<P>::empty() + edge_points(from, to, nodes, shapes, e as int) =~= edge_points(from, to, nodes, shapes, e as int));
    }
    if b.len() == 0 {
        assert(a + b =~= a);
        assert(route_points(from, to, nodes, shapes, a) + Seq::<P>::empty() =~= route_points(from, to, nodes, shapes, a));
    } else {
        lemma_route_points_concat(from, to, nodes, shapes, a, b.drop_last());
        assert((a + b).drop_last() =~= a + b.drop_last());
        assert((a + b).last() == b.last());
        let ra = route_points(from, to, nodes, shapes, a);
        let rb = route_points(from, to, nodes, shapes, b.drop_last());
        let piece = edge_points(from, to, nodes, shapes, b.last() as int);
        assert(ra + rb + piece =~= ra + (rb + piece));
    }
}

impl RoadTopology {
    /// Lengths agree and every index held is in range.
    pub closed spec fn wf(self) -> bool {
        &&& self.edge_from.len() == self.edge_to.len()
        &&& self.outgoing.len() == self.node_count
        &&& self.main.len() == self.node_count
        &&& forall|e: int| 0 <= e < self.edge_from.len() ==> #[trigger] self.edge_from@[e] < self.node_count
            && self.edge_to@[e] < self.node_count
        &&& forall|v: int| 0 <= v < self.node_count ==> (#[trigger] self.outgoing@[v])@ == edges_leaving(
            self.edge_from@,
            v,
            self.edge_from.len() as int,
        )
    }

    /// Number of nodes.
    pub closed spec fn spec_node_count(self) -> nat {
        self.node_count as nat
    }

    /// Source node of each edge.
    pub closed spec fn sources(self) -> Seq<usize> {
        self.edge_from@
    }

    /// Target node of each edge.
    pub closed spec fn targets(self) -> Seq<usize> {
        self.edge_to@
    }

    /// Whether each node belongs to the main (first largest) component.
    pub closed spec fn main_marks(self) -> Seq<bool> {
        self.main@
    }

    /// Number of nodes.
    pub fn node_count(&self) -> (n: usize)
        ensures
            n == self.spec_node_count(),
    {
        self.node_count
    }

    /// Number of edges.
    pub fn edge_count(&self) -> (n: usize)
        ensures
            n == self.sources().len(),
    {
        self.edge_from.len()
    }

    /// Source node of edge `e`.
    pub fn source(&self, e: usize) -> (v: usize)
        requires
            e < self.sources().len(),
        ensures
            v == self.sources()[e as int],
    {
        self.edge_from[e]
    }

    /// Target node of edge `e`.
    pub fn target(&self, e: usize) -> (v: usize)
        requires
            self.wf(),
            e < self.sources().len(),
        ensures
            v == self.targets()[e as int],
    {
        self.edge_to[e]
    }

    /// The edges leaving node `v`, in the order they were read.
    pub fn outgoing(&self, v: usize) -> (r: &Vec<usize>)
        requires
            self.wf(),
            v < self.spec_node_count(),
        ensures
            r@ == edges_leaving(self.sources(), v as int, self.sources().len() as int),
    {
        &self.outgoing[v]
    }

    /// Whether node `v` belongs to the main component, the one stops snap to.
    pub fn is_main(&self, v: usize) -> (b: bool)
        requires
            self.wf(),
            v < self.spec_node_count(),
        ensures
            b == self.main_marks()[v as int],
    {
        self.main[v]
    }

    /// Reads back the route that a shortest-path search recorded: `parent`
    /// holds, for each node, the edge the search entered it by; `reached`
    /// tells whether the search reached `end`.
    pub fn route(&self, reached: bool, parent: &Vec<Option<usize>>, start: usize, end: usize) -> (r: Result<Vec<usize>, RouteError>)
        requires
            self.wf(),
            parent.len() == self.spec_node_count(),
            forall|v: int| 0 <= v < parent.len() ==> (#[trigger] parent@[v] matches Some(e) ==> e < self.sources().len()),
            start < self.spec_node_count(),
            end < self.spec_node_count(),
        ensures
            !reached ==> r == Err::<Vec<usize>, RouteError>(RouteError::NoRoute),
            reached ==> match r {
                Ok(p) => back_route(parent@, self.sources(), start, end, (self.spec_node_count() + 1) as nat) == Ok::<Seq<usize>, RouteError>(p@),
                Err(x) => back_route(parent@, self.sources(), start, end, (self.spec_node_count() + 1) as nat) == Err::<Seq<usize>, RouteError>(x),
            },
    {
        if !reached {
            return Err(RouteError::NoRoute);
        }
        let n = self.node_count;
        let mut back: Vec<usize> = Vec::new();
        let mut node = end;
        while node != start
            invariant
                reached,
                self.wf(),
                n == self.node_count,
                parent.len() == n,
                forall|v: int| 0 <= v < parent.len() ==> (#[trigger] parent@[v] matches Some(e) ==> e < self.sources().len()),
                node < n,
                back.len() <= n,
                ({
                    let whole = back_route(parent@, self.sources(), start, end, (n + 1) as nat);
                    let rest = back_route(parent@, self.sources(), start, node, (n + 1 - back.len()) as nat);
                    match rest {
                        Ok(p) => whole == Ok::<Seq<usize>, RouteError>(p + back@.reverse()),
                        Err(x) => whole == Err::<Seq<usize>, RouteError>(x),
                    }
                }),
            decreases n - back.len(),
        {
            let edge = match parent[node] {
                Some(e) => e,
                None => {
                    return Err(RouteError::Incomplete);
                },
            };
            if back.len() >= n {
                return Err(RouteError::Cycle);
            }
            let ghost before = back@;
            back.push(edge);
            node = self.edge_from[edge];
            proof {
                assert(back@.reverse() =~= seq![edge] + before.reverse());
                let rest = back_route(parent@, self.sources(), start, node, (n + 1 - back.len()) as nat);
                if let Ok(p) = rest {
                    assert(p + back@.reverse() =~= p.push(edge) + before.reverse());
                }
            }
        }
        let mut path: Vec<usize> = Vec::new();
        let mut k: usize = back.len();
        while k > 0
            invariant
                k <= back.len(),
                path@ == back@.reverse().take((back.len() - k) as int),
            decreases k,
        {
            k = k - 1;
            path.push(back[k]);
            assert(back@.reverse().take((back.len() - k) as int) =~= back@.reverse().take((back.len() - k - 1) as int).push(back@[k as int]));
        }
        assert(back@.reverse().take(back.len() as int) =~= back@.reverse());
        assert(Seq::<usize>::empty() + back@.reverse() =~= back@.reverse());
        Ok(path)
    }

    /// The points to draw for `path`: each edge's recorded geometry, or its
    /// two end nodes where it has none.
    pub fn route_geometry<P: Copy>(&self, nodes: &Vec<P>, shapes: &Vec<Vec<P>>, path: &Vec<usize>) -> (r: Vec<P>)
        requires
            self.wf(),
            nodes.len() == self.spec_node_count(),
            shapes.len() == self.sources().len(),
            forall|i: int| 0 <= i < path.len() ==> #[trigger] path@[i] < self.sources().len(),
        ensures
            r@ == route_points(self.sources(), self.targets(), nodes@, shapes@.map_values(|s: Vec<P>| s@), path@),
    {
        let ghost views = shapes@.map_values(|s: Vec<P>| s@);
        let mut points: Vec<P> = Vec::new();
        let mut i: usize = 0;
        while i < path.len()
            invariant
                self.wf(),
                nodes.len() == self.spec_node_count(),
                shapes.len() == self.sources().len(),
                views == shapes@.map_values(|s: Vec<P>| s@),
                forall|j: int| 0 <= j < path.len() ==> #[trigger] path@[j] < self.sources().len(),
                i <= path.len(),
                points@ == route_points(self.sources(), self.targets(), nodes@, views, path@.take(i as int)),
            decreases path.len() - i,
        {
            let e = path[i];
            assert(path@.take(i + 1).drop_last() =~= path@.take(i as int));
            assert(views[e as int] == shapes@[e as int]@);
            let shape = &shapes[e];
            if shape.len() == 0 {
                points.push(nodes[self.edge_from[e]]);
                points.push(nodes[self.edge_to[e]]);
            } else {
                let ghost before = points@;
                let mut j: usize = 0;
                while j < shape.len()
                    invariant
                        j <= shape.len(),
                        points@ == before + shape@.take(j as int),
                    decreases shape.len() - j,
                {
                    points.push(shape[j]);
                    assert(shape@.take(j + 1) =~= shape@.take(j as int).push(shape@[j as int]));
                    j = j + 1;
                }
                assert(shape@.take(shape.len() as int) =~= shape@);
            }
            i = i + 1;
        }
        assert(path@.take(path.len() as int) =~= path@);
        points
    }
}

impl GraphBuilder {
    /// Ends reading: the topology with its edge lists and main component,
    /// or why there is none.
    pub fn finish(self) -> (r: Result<RoadTopology, GraphError>)
        requires
            self.wf(),
        ensures
            self.sources().len() == 0 <==> r is Err,
            r matches Err(x) ==> x == GraphError::NoEdges,
            r matches Ok(t) ==> {
                &&& t.wf()
                &&& t.spec_node_count() == self.spec_node_count()
                &&& t.sources() == self.sources()
                &&& t.targets() == self.targets()
                &&& exists|best: usize|
                    first_largest(t.sources(), t.targets(), t.spec_node_count(), best)
                    && forall|v: int| 0 <= v < t.spec_node_count() ==> #[trigger] t.main_marks()[v] == reaches(t.sources(), t.targets(), best, v as usize)
            },
    {
        if self.edge_from.len() == 0 {
            return Err(GraphError::NoEdges);
        }
        let n = self.node_count;
        assert(self.edge_from@[0] < n);
        let lists = build_lists(n, &self.edge_from, &self.edge_to);
        let (outgoing, und) = lists;
        let main = largest_component(&und, &self.edge_from, &self.edge_to, n);
        let t = RoadTopology { node_count: n, edge_from: self.edge_from, edge_to: self.edge_to, outgoing, main };
        proof {
            assert(t.wf());
            assert(t.sources() == self.sources());
            let best = choose|best: usize|
                first_largest(t.edge_from@, t.edge_to@, n as nat, best)
                && forall|v: int| 0 <= v < n ==> #[trigger] t.main@[v] == reaches(t.edge_from@, t.edge_to@, best, v as usize);
            assert(first_largest(t.sources(), t.targets(), t.spec_node_count(), best));
            assert forall|v: int| 0 <= v < t.spec_node_count() implies #[trigger] t.main_marks()[v] == reaches(t.sources(), t.targets(), best, v as usize) by {
                assert(t.main@[v] == reaches(t.edge_from@, t.edge_to@, best, v as usize));
            }
        }
        Ok(t)
    }
}


/// Every recorded incoming edge of a node really enters that node.
pub open spec fn parents_enter(parent: Seq<Option<usize>>, from: Seq<usize>, to: Seq<usize>) -> bool {
    forall|v: int|
        0 <= v < parent.len() ==> (#[trigger] parent[v] matches Some(e) ==> e < from.len() && to[e as int] == v)
}

/// Law: when every recorded incoming edge enters its node, a route read
/// back is a chain of edges that leaves `start`, ends at `end`, joins each
/// edge to the next, and uses fewer edges than the budget.
pub proof fn lemma_route_is_chain(
    parent: Seq<Option<usize>>,
    from: Seq<usize>,
    to: Seq<usize>,
    start: usize,
    end: usize,
    budget: nat,
)
    requires
        from.len() == to.len(),
        budget >= 1,
        end < parent.len(),
        forall|e: int| 0 <= e < from.len() ==> #[trigger] from[e] < parent.len(),
        parents_enter(parent, from, to),
    ensures
        back_route(parent, from, start, end, budget) matches Ok(p) ==> {
            &&& p.len() < budget
            &&& p.len() == 0 ==> start == end
            &&& p.len() > 0 ==> from[p[0] as int] == start && to[p.last() as int] == end
            &&& forall|i: int| 0 <= i < p.len() - 1 ==> #[trigger] to[p[i] as int] == from[p[i + 1] as int]
        },
    decreases budget,
{
    if end != start && parent[end as int] is Some && budget > 1 {
        let e = parent[end as int]->0;
        assert(e < from.len() && to[e as int] == end);
        lemma_route_is_chain(parent, from, to, start, from[e as int], (budget - 1) as nat);
        if let Ok(q) = back_route(parent, from, start, from[e as int], (budget - 1) as nat) {
            let p = q.push(e);
            assert(back_route(parent, from, start, end, budget) == Ok::<Seq<usize>, RouteError>(p));
            assert(p.last() == e);
            if q.len() == 0 {
                assert(p[0] == e);
            } else {
                assert(p[0] == q[0]);
            }
            assert forall|i: int| 0 <= i < p.len() - 1 implies #[trigger] to[p[i] as int] == from[p[i + 1] as int] by {
                if i < q.len() - 1 {
                    assert(to[q[i] as int] == from[q[i + 1] as int]);
                } else {
                    assert(i == q.len() - 1);
                }
            }
        }
    }
}

/// What choosing a stop did to the stop list.
#[derive(Debug, Clone, Copy, PartialEq, Eq)]
pub enum StopChange {
    /// The node is already the last stop; nothing changes.
    Unchanged,
    /// The node was added after the existing stop.
    Added,
    /// Start and finish were already chosen; the node starts a new list.
    Restarted,
}

/// Adds a clicked road node to the start/finish stop list.
pub fn choose_stop(stops: &mut Vec<usize>, node: usize) -> (c: StopChange)
    ensures
        old(stops)@.len() > 0 && old(stops)@.last() == node ==> c == StopChange::Unchanged && final(stops)@ == old(stops)@,
        !(old(stops)@.len() > 0 && old(stops)@.last() == node) && old(stops)@.len() >= 2 ==> c == StopChange::Restarted
            && final(stops)@ == seq![node],
        !(old(stops)@.len() > 0 && old(stops)@.last() == node) && old(stops)@.len() < 2 ==> c == StopChange::Added
            && final(stops)@ == old(stops)@.push(node),
{
    let count = stops.len();
    if count > 0 && stops[count - 1] == node {
        return StopChange::Unchanged;
    }
    if count >= 2 {
        stops.clear();
        stops.push(node);
        assert(stops@ =~= seq![node]);
        StopChange::Restarted
    } else {
        stops.push(node);
        StopChange::Added
    }
}

/// Law: choosing stops never leaves more than a start and a finish.
pub proof fn lemma_stops_stay_two(before: Seq<usize>, after: Seq<usize>, node: usize)
    requires
        before.len() <= 2,
        before.len() > 0 && before.last() == node ==> after == before,
        !(before.len() > 0 && before.last() == node) && before.len() >= 2 ==> after == seq![node],
        !(before.len() > 0 && before.last() == node) && before.len() < 2 ==> after == before.push(node),
    ensures
        1 <= after.len() <= 2,
        after.last() == node,
{
}

} // verus!
