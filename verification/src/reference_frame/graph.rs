//! The graph of transformations between reference frames.
//!
//! Each edge leads from one frame to another and carries the identifier of
//! the transformation parameters that convert positions along it. The
//! parameters themselves are held by the caller; the graph decides which of
//! them a conversion uses.
use super::frame::{lemma_same_frame_key, ReferenceFrame, TransformationNotFound};
use vstd::prelude::*;
use vstd::set_lib::{lemma_int_range, lemma_len_subset, set_int_range};

verus! {

/// The identity of a frame, as [`ReferenceFrame::frame_key`] gives it.
pub type FrameKey = (int, Seq<char>);

/// A transformation from one reference frame to another, by the identifier
/// of its parameters
#[derive(Debug)]
pub struct FrameEdge {
    /// The frame that the transformation starts from
    pub from: ReferenceFrame,
    /// The frame that the transformation leads to
    pub to: ReferenceFrame,
    /// The identifier of the transformation's parameters
    pub id: usize,
}

impl Clone for FrameEdge {
    fn clone(&self) -> (e: FrameEdge)
        ensures
            edge_keys(e) == edge_keys(*self),
            e.id == self.id,
    {
        FrameEdge { from: self.from.clone(), to: self.to.clone(), id: self.id }
    }
}

/// The key pair of an edge.
pub open spec fn edge_keys(e: FrameEdge) -> (FrameKey, FrameKey) {
    (e.from.frame_key(), e.to.frame_key())
}

/// No two edges of the sequence join the same pair of frames.
pub open spec fn distinct_edges(edges: Seq<FrameEdge>) -> bool {
    forall|i: int, j: int|
        0 <= i < edges.len() && 0 <= j < edges.len() && i != j ==> edge_keys(edges[i])
            != edge_keys(edges[j])
}

/// The identifier of the edge that joins `keys`, if any.
pub open spec fn lookup(edges: Seq<FrameEdge>, keys: (FrameKey, FrameKey)) -> Option<usize>
    decreases edges.len(),
{
    if edges.len() == 0 {
        None
    } else if edge_keys(edges.last()) == keys {
        Some(edges.last().id)
    } else {
        lookup(edges.drop_last(), keys)
    }
}

/// The identifier of the edge for each pair of frames that `edges` joins.
pub open spec fn edge_map(edges: Seq<FrameEdge>) -> Map<(FrameKey, FrameKey), usize> {
    Map::new(
        |k: (FrameKey, FrameKey)| lookup(edges, k) is Some,
        |k: (FrameKey, FrameKey)| lookup(edges, k).unwrap(),
    )
}

/// A set of transformations between reference frames, at most one for each
/// ordered pair of frames
#[derive(Debug)]
pub struct FrameGraph {
    edges: Vec<FrameEdge>,
}

impl FrameGraph {
    #[verifier::type_invariant]
    spec fn well_formed(self) -> bool {
        distinct_edges(self.edges@)
    }

    /// The edges of the graph, in the order in which their frame pairs were
    /// first added.
    pub closed spec fn edges_spec(self) -> Seq<FrameEdge> {
        self.edges@
    }

    /// The transformation identifier for each ordered pair of frames that
    /// the graph joins.
    pub open spec fn view(self) -> Map<(FrameKey, FrameKey), usize> {
        edge_map(self.edges_spec())
    }

    /// Create an empty graph
    pub fn new() -> (g: FrameGraph)
        ensures
            g.edges_spec().len() == 0,
            g@ == Map::<(FrameKey, FrameKey), usize>::empty(),
    {
        let g = FrameGraph { edges: Vec::new() };
        proof {
            assert(g@ =~= Map::<(FrameKey, FrameKey), usize>::empty());
        }
        g
    }

    /// Adds a transformation from `from` to `to`, replacing the one that the
    /// graph held for that pair of frames, if any.
    pub fn add_edge(&mut self, from: ReferenceFrame, to: ReferenceFrame, id: usize)
        ensures
            forall|k: (FrameKey, FrameKey)|
                lookup(final(self).edges_spec(), k) == if k == (from.frame_key(), to.frame_key()) {
                    Some(id)
                } else {
                    lookup(old(self).edges_spec(), k)
                },
            final(self).edges_spec().len() == old(self).edges_spec().len() + if lookup(
                old(self).edges_spec(),
                (from.frame_key(), to.frame_key()),
            ) is Some {
                0int
            } else {
                1int
            },
            final(self)@ == old(self)@.insert((from.frame_key(), to.frame_key()), id),
    {
        proof {
            use_type_invariant(&*self);
        }
        let ghost old_edges = self.edges@;
        let ghost keys = (from.frame_key(), to.frame_key());
        let n = self.edges.len();
        let mut i: usize = 0;
        while i < n
            invariant
                n == self.edges@.len(),
                self.edges@ == old_edges,
                old_edges == old(self).edges@,
                distinct_edges(old_edges),
                i <= n,
                keys == (from.frame_key(), to.frame_key()),
                forall|j: int| 0 <= j < i ==> edge_keys(old_edges[j]) != keys,
            decreases n - i,
        {
            let same = self.edges[i].from == from && self.edges[i].to == to;
            proof {
                lemma_same_frame_key(old_edges[i as int].from, from);
                lemma_same_frame_key(old_edges[i as int].to, to);
            }
            if same {
                let mut edges = Vec::new();
                std::mem::swap(&mut edges, &mut self.edges);
                let ghost new_edge = FrameEdge { from, to, id };
                edges.set(i, FrameEdge { from, to, id });
                proof {
                    assert(edges@ == old_edges.update(i as int, new_edge));
                    lemma_lookup_replace(old_edges, i as int, new_edge);
                    lemma_lookup_found(old_edges, i as int);
                    lemma_edge_map_insert(old_edges, edges@, keys, id);
                }
                self.edges = edges;
                return ;
            }
            i = i + 1;
        }
        proof {
            lemma_lookup_absent(old_edges, keys);
        }
        let mut edges = Vec::new();
        std::mem::swap(&mut edges, &mut self.edges);
        edges.push(FrameEdge { from, to, id });
        proof {
            assert(edges@.drop_last() =~= old_edges);
            assert forall|a: int, b: int|
                0 <= a < edges@.len() && 0 <= b < edges@.len() && a != b implies edge_keys(
                edges@[a],
            ) != edge_keys(edges@[b]) by {
                if a < old_edges.len() && b < old_edges.len() {
                    assert(edges@[a] == old_edges[a]);
                    assert(edges@[b] == old_edges[b]);
                }
            }
            lemma_edge_map_insert(old_edges, edges@, keys, id);
        }
        self.edges = edges;
    }

    /// Adds a transformation from `from` to `to` with parameters `forward`,
    /// and its inverse from `to` to `from` with parameters `backward`,
    /// replacing those that the graph held for these pairs of frames.
    pub fn add_transformation(
        &mut self,
        from: ReferenceFrame,
        to: ReferenceFrame,
        forward: usize,
        backward: usize,
    )
        ensures
            final(self)@ == old(self)@.insert((from.frame_key(), to.frame_key()), forward).insert(
                (to.frame_key(), from.frame_key()),
                backward,
            ),
    {
        let from2 = from.clone();
        let to2 = to.clone();
        self.add_edge(from, to, forward);
        self.add_edge(to2, from2, backward);
    }

    /// Get the number of transformations stored in the graph: the number of
    /// ordered pairs of frames that it joins.
    pub fn count(&self) -> (n: usize)
        ensures
            n == self.edges_spec().len(),
            n == self@.dom().len(),
    {
        proof {
            use_type_invariant(self);
            lemma_edge_map_len(self.edges@);
        }
        self.edges.len()
    }
}

/// Where lookups agree but for one pair, the maps agree but for that pair.
proof fn lemma_edge_map_insert(
    a: Seq<FrameEdge>,
    b: Seq<FrameEdge>,
    keys: (FrameKey, FrameKey),
    id: usize,
)
    requires
        forall|k: (FrameKey, FrameKey)|
            lookup(b, k) == if k == keys {
                Some(id)
            } else {
                lookup(a, k)
            },
    ensures
        edge_map(b) == edge_map(a).insert(keys, id),
{
    assert(edge_map(b) =~= edge_map(a).insert(keys, id));
}

/// Sequences of edges that agree in keys and identifiers, position by
/// position, agree in every lookup.
proof fn lemma_lookup_same(a: Seq<FrameEdge>, b: Seq<FrameEdge>, k: (FrameKey, FrameKey))
    requires
        a.len() == b.len(),
        forall|j: int|
            0 <= j < a.len() ==> edge_keys(#[trigger] a[j]) == edge_keys(b[j]) && a[j].id == b[j].id,
    ensures
        lookup(a, k) == lookup(b, k),
    decreases a.len(),
{
    if a.len() > 0 {
        lemma_lookup_same(a.drop_last(), b.drop_last(), k);
    }
}

/// A sequence of edges with distinct keys joins as many pairs of frames as
/// it has edges.
proof fn lemma_edge_map_len(edges: Seq<FrameEdge>)
    requires
        distinct_edges(edges),
    ensures
        edge_map(edges).dom().len() == edges.len(),
        edge_map(edges).dom().finite(),
{
    let keys = edges.map_values(|e: FrameEdge| edge_keys(e));
    assert(keys.no_duplicates()) by {
        assert forall|i: int, j: int|
            0 <= i < keys.len() && 0 <= j < keys.len() && i != j implies keys[i] != keys[j] by {
            assert(keys[i] == edge_keys(edges[i]));
            assert(keys[j] == edge_keys(edges[j]));
        }
    }
    keys.unique_seq_to_set();
    assert forall|k: (FrameKey, FrameKey)| edge_map(edges).dom().contains(k) <==> keys.to_set().contains(k) by {
        if lookup(edges, k) is Some {
            let i = lemma_lookup_some(edges, k);
            assert(keys[i] == k);
        }
        if keys.to_set().contains(k) {
            let i = choose|i: int| 0 <= i < keys.len() && keys[i] == k;
            lemma_lookup_present(edges, i);
        }
    }
    assert(edge_map(edges).dom() =~= keys.to_set());
}

/// Looking up a pair of frames that no edge joins finds nothing.
proof fn lemma_lookup_absent(edges: Seq<FrameEdge>, keys: (FrameKey, FrameKey))
    requires
        forall|j: int| 0 <= j < edges.len() ==> edge_keys(edges[j]) != keys,
    ensures
        lookup(edges, keys) is None,
    decreases edges.len(),
{
    if edges.len() > 0 {
        lemma_lookup_absent(edges.drop_last(), keys);
    }
}

/// Looking up the keys of edge `i` of a sequence with distinct keys finds
/// that edge.
proof fn lemma_lookup_found(edges: Seq<FrameEdge>, i: int)
    requires
        distinct_edges(edges),
        0 <= i < edges.len(),
    ensures
        lookup(edges, edge_keys(edges[i])) == Some(edges[i].id),
    decreases edges.len(),
{
    if i < edges.len() - 1 {
        lemma_lookup_found(edges.drop_last(), i);
    }
}

/// Replacing edge `i` by one with the same keys keeps the keys distinct and
/// changes the lookup of those keys only.
proof fn lemma_lookup_replace(edges: Seq<FrameEdge>, i: int, e: FrameEdge)
    requires
        distinct_edges(edges),
        0 <= i < edges.len(),
        edge_keys(e) == edge_keys(edges[i]),
    ensures
        distinct_edges(edges.update(i, e)),
        forall|k: (FrameKey, FrameKey)|
            lookup(edges.update(i, e), k) == if k == edge_keys(e) {
                Some(e.id)
            } else {
                lookup(edges, k)
            },
    decreases edges.len(),
{
    let u = edges.update(i, e);
    assert forall|a: int, b: int|
        0 <= a < u.len() && 0 <= b < u.len() && a != b implies edge_keys(u[a]) != edge_keys(
        u[b],
    ) by {
        assert(edge_keys(u[a]) == edge_keys(edges[a]));
        assert(edge_keys(u[b]) == edge_keys(edges[b]));
    }
    assert forall|k: (FrameKey, FrameKey)|
        lookup(u, k) == if k == edge_keys(e) {
            Some(e.id)
        } else {
            lookup(edges, k)
        } by {
        lemma_lookup_replace_at(edges, i, e, k);
    }
}

proof fn lemma_lookup_replace_at(
    edges: Seq<FrameEdge>,
    i: int,
    e: FrameEdge,
    k: (FrameKey, FrameKey),
)
    requires
        distinct_edges(edges),
        0 <= i < edges.len(),
        edge_keys(e) == edge_keys(edges[i]),
    ensures
        lookup(edges.update(i, e), k) == if k == edge_keys(e) {
            Some(e.id)
        } else {
            lookup(edges, k)
        },
    decreases edges.len(),
{
    let u = edges.update(i, e);
    if i == edges.len() - 1 {
        assert(u.drop_last() =~= edges.drop_last());
        if k != edge_keys(e) {
        } else {
        }
    } else {
        assert(u.drop_last() =~= edges.drop_last().update(i, e));
        assert(distinct_edges(edges.drop_last()));
        lemma_lookup_replace_at(edges.drop_last(), i, e, k);
        if k == edge_keys(e) {
            assert(edge_keys(edges.last()) != edge_keys(edges[i]));
        }
    }
}

/// The frame that a walk along edge positions `p`, starting at frame
/// `src`, ends at.
pub open spec fn walk_end(edges: Seq<FrameEdge>, src: FrameKey, p: Seq<int>) -> FrameKey {
    if p.len() == 0 {
        src
    } else {
        edges[p.last()].to.frame_key()
    }
}

/// Whether `p` is a walk from frame `src`: a sequence of positions of edges,
/// each starting at the frame that the previous one (or `src`) ends at.
pub open spec fn is_walk(edges: Seq<FrameEdge>, src: FrameKey, p: Seq<int>) -> bool
    decreases p.len(),
{
    if p.len() == 0 {
        true
    } else {
        &&& is_walk(edges, src, p.drop_last())
        &&& 0 <= p.last() < edges.len()
        &&& edges[p.last()].from.frame_key() == walk_end(edges, src, p.drop_last())
    }
}

/// Whether `p` is a chain of transformations from frame `src` to frame `dst`.
pub open spec fn is_edge_path(edges: Seq<FrameEdge>, src: FrameKey, dst: FrameKey, p: Seq<int>) -> bool {
    is_walk(edges, src, p) && walk_end(edges, src, p) == dst
}

/// Whether some frame of `frames` has the key `k`.
pub open spec fn holds_key(frames: Seq<ReferenceFrame>, k: FrameKey) -> bool {
    exists|j: int| 0 <= j < frames.len() && #[trigger] frames[j].frame_key() == k
}

/// Extending a walk by an edge from its end gives a walk.
proof fn lemma_walk_push(edges: Seq<FrameEdge>, src: FrameKey, p: Seq<int>, e: int)
    requires
        is_walk(edges, src, p),
        0 <= e < edges.len(),
        edges[e].from.frame_key() == walk_end(edges, src, p),
    ensures
        is_walk(edges, src, p.push(e)),
        walk_end(edges, src, p.push(e)) == edges[e].to.frame_key(),
{
    assert(p.push(e).drop_last() =~= p);
}

/// If every edge that starts at a frame of `frames` ends at one too, every
/// walk from a frame of `frames` ends at a frame of `frames`.
proof fn lemma_closed_walks(edges: Seq<FrameEdge>, frames: Seq<ReferenceFrame>, src: FrameKey, p: Seq<int>)
    requires
        holds_key(frames, src),
        forall|e: int|
            0 <= e < edges.len() && holds_key(frames, #[trigger] edges[e].from.frame_key())
                ==> holds_key(frames, edges[e].to.frame_key()),
        is_walk(edges, src, p),
    ensures
        holds_key(frames, walk_end(edges, src, p)),
    decreases p.len(),
{
    if p.len() > 0 {
        lemma_closed_walks(edges, frames, src, p.drop_last());
        let e = p.last();
        assert(holds_key(frames, edges[e].from.frame_key()));
    }
}

/// Every pair of frames that `m` joins is joined the other way too.
pub open spec fn is_symmetric(m: Map<(FrameKey, FrameKey), usize>) -> bool {
    forall|k: (FrameKey, FrameKey)| #[trigger] m.dom().contains(k) ==> m.dom().contains((k.1, k.0))
}

/// An empty graph is symmetric, and adding a transformation together with
/// its inverse keeps a graph symmetric: every frame that can be converted
/// to another can be converted back.
pub proof fn lemma_add_transformation_symmetric(
    m: Map<(FrameKey, FrameKey), usize>,
    a: FrameKey,
    b: FrameKey,
    forward: usize,
    backward: usize,
)
    requires
        is_symmetric(m),
    ensures
        is_symmetric(Map::<(FrameKey, FrameKey), usize>::empty()),
        is_symmetric(m.insert((a, b), forward).insert((b, a), backward)),
{
}

/// A pair of frames that the lookup finds is joined by an edge of the
/// sequence.
proof fn lemma_lookup_some(edges: Seq<FrameEdge>, k: (FrameKey, FrameKey)) -> (i: int)
    requires
        lookup(edges, k) is Some,
    ensures
        0 <= i < edges.len(),
        edge_keys(edges[i]) == k,
    decreases edges.len(),
{
    if edge_keys(edges.last()) == k {
        edges.len() - 1
    } else {
        lemma_lookup_some(edges.drop_last(), k)
    }
}

/// The lookup finds every pair of frames that an edge of the sequence joins.
proof fn lemma_lookup_present(edges: Seq<FrameEdge>, e: int)
    requires
        0 <= e < edges.len(),
    ensures
        lookup(edges, edge_keys(edges[e])) is Some,
    decreases edges.len(),
{
    if e < edges.len() - 1 && edge_keys(edges.last()) != edge_keys(edges[e]) {
        lemma_lookup_present(edges.drop_last(), e);
    }
}

/// An edge into the start of a walk, followed by the walk, is a walk.
proof fn lemma_walk_prepend(edges: Seq<FrameEdge>, src: FrameKey, i: int, q: Seq<int>)
    requires
        0 <= i < edges.len(),
        edges[i].from.frame_key() == src,
        is_walk(edges, edges[i].to.frame_key(), q),
    ensures
        is_walk(edges, src, seq![i] + q),
        walk_end(edges, src, seq![i] + q) == walk_end(edges, edges[i].to.frame_key(), q),
    decreases q.len(),
{
    let mid = edges[i].to.frame_key();
    if q.len() == 0 {
        assert(seq![i] + q =~= seq![i]);
        assert(seq![i].drop_last() =~= Seq::<int>::empty());
        assert(seq![i].last() == i);
        assert(is_walk(edges, src, seq![i].drop_last()));
        assert(is_walk(edges, src, seq![i]));
    } else {
        let r = q.drop_last();
        lemma_walk_prepend(edges, src, i, r);
        assert((seq![i] + q).drop_last() =~= seq![i] + r);
        assert((seq![i] + q).last() == q.last());
        assert(is_walk(edges, mid, r));
        assert(is_walk(edges, src, (seq![i] + q).drop_last()));
        assert(is_walk(edges, src, seq![i] + q));
    }
}

/// In a graph whose pairs of frames are all joined both ways, every chain of
/// transformations from `src` to `dst` has a reverse: a chain of the same
/// length from `dst` to `src`.
pub proof fn lemma_reverse_path(g: FrameGraph, src: FrameKey, dst: FrameKey, p: Seq<int>) -> (q: Seq<int>)
    requires
        is_symmetric(g@),
        is_edge_path(g.edges_spec(), src, dst, p),
    ensures
        is_edge_path(g.edges_spec(), dst, src, q),
        q.len() == p.len(),
    decreases p.len(),
{
    let edges = g.edges_spec();
    if p.len() == 0 {
        p
    } else {
        let r = p.drop_last();
        let e = p.last();
        let mid = walk_end(edges, src, r);
        lemma_lookup_present(edges, e);
        assert(g@.dom().contains((mid, dst)));
        assert(g@.dom().contains((dst, mid)));
        let i = lemma_lookup_some(edges, (dst, mid));
        let back = lemma_reverse_path(g, src, mid, r);
        lemma_walk_prepend(edges, dst, i, back);
        seq![i] + back
    }
}

/// In a graph whose pairs of frames are all joined both ways, the shortest
/// chain from `a` to `b` is as long as the shortest chain from `b` to `a`.
pub proof fn lemma_shortest_path_symmetric(
    g: FrameGraph,
    a: FrameKey,
    b: FrameKey,
    p: Seq<int>,
    q: Seq<int>,
)
    requires
        is_symmetric(g@),
        is_edge_path(g.edges_spec(), a, b, p),
        forall|r: Seq<int>| is_edge_path(g.edges_spec(), a, b, r) ==> p.len() <= r.len(),
        is_edge_path(g.edges_spec(), b, a, q),
        forall|r: Seq<int>| is_edge_path(g.edges_spec(), b, a, r) ==> q.len() <= r.len(),
    ensures
        p.len() == q.len(),
{
    let p2 = lemma_reverse_path(g, a, b, p);
    let q2 = lemma_reverse_path(g, b, a, q);
}

/// Edge positions held as machine integers, read as integers.
pub open spec fn positions(p: Seq<usize>) -> Seq<int> {
    p.map_values(|x: usize| x as int)
}

/// Every edge that starts at one of the first `n` frames of `frames` ends at
/// a frame of `frames`.
spec fn closed_below(edges: Seq<FrameEdge>, frames: Seq<ReferenceFrame>, n: int) -> bool {
    forall|e: int, j: int|
        0 <= e < edges.len() && 0 <= j < n && #[trigger] edges[e].from.frame_key()
            == #[trigger] frames[j].frame_key() ==> holds_key(frames, edges[e].to.frame_key())
}

/// Appending a frame keeps every key that was held, and holds the new one.
proof fn lemma_holds_key_push(frames: Seq<ReferenceFrame>, f: ReferenceFrame)
    ensures
        forall|k: FrameKey| holds_key(frames, k) ==> #[trigger] holds_key(frames.push(f), k),
        holds_key(frames.push(f), f.frame_key()),
        forall|k: FrameKey|
            #[trigger] holds_key(frames.push(f), k) ==> holds_key(frames, k) || k == f.frame_key(),
{
    let g = frames.push(f);
    assert forall|k: FrameKey| holds_key(frames, k) implies #[trigger] holds_key(g, k) by {
        let j = choose|j: int| 0 <= j < frames.len() && #[trigger] frames[j].frame_key() == k;
        assert(g[j] == frames[j]);
    }
    assert(g[frames.len() as int] == f);
    assert forall|k: FrameKey| #[trigger] holds_key(g, k) implies holds_key(frames, k) || k
        == f.frame_key() by {
        let j = choose|j: int| 0 <= j < g.len() && #[trigger] g[j].frame_key() == k;
        if j < frames.len() {
            assert(g[j] == frames[j]);
        }
    }
}

/// Appending a frame keeps the edges from the first `n` frames closed.
proof fn lemma_closed_below_push(
    edges: Seq<FrameEdge>,
    frames: Seq<ReferenceFrame>,
    f: ReferenceFrame,
    n: int,
)
    requires
        closed_below(edges, frames, n),
        n <= frames.len(),
    ensures
        closed_below(edges, frames.push(f), n),
{
    let g = frames.push(f);
    lemma_holds_key_push(frames, f);
    assert forall|e: int, j: int|
        0 <= e < edges.len() && 0 <= j < n && #[trigger] edges[e].from.frame_key()
            == #[trigger] g[j].frame_key() implies holds_key(g, edges[e].to.frame_key()) by {
        assert(g[j] == frames[j]);
        assert(holds_key(frames, edges[e].to.frame_key()));
    }
}

/// Every edge along a walk is a position of the sequence, and it is the
/// edge that the map of the sequence holds for its pair of frames.
proof fn lemma_walk_edges_in_view(edges: Seq<FrameEdge>, src: FrameKey, q: Seq<int>)
    requires
        distinct_edges(edges),
        is_walk(edges, src, q),
    ensures
        forall|i: int|
            0 <= i < q.len() ==> {
                &&& 0 <= #[trigger] q[i] < edges.len()
                &&& edge_map(edges).dom().contains(edge_keys(edges[q[i]]))
                &&& edge_map(edges)[edge_keys(edges[q[i]])] == edges[q[i]].id
            },
    decreases q.len(),
{
    if q.len() > 0 {
        lemma_walk_edges_in_view(edges, src, q.drop_last());
        assert forall|i: int| 0 <= i < q.len() implies {
            &&& 0 <= #[trigger] q[i] < edges.len()
            &&& edge_map(edges).dom().contains(edge_keys(edges[q[i]]))
            &&& edge_map(edges)[edge_keys(edges[q[i]])] == edges[q[i]].id
        } by {
            if i < q.len() - 1 {
                assert(q[i] == q.drop_last()[i]);
            } else {
                lemma_lookup_found(edges, q[i]);
            }
        }
    }
}

/// The position of a frame of `frames` that is the same frame as `f`, if any.
fn find_frame(frames: &Vec<ReferenceFrame>, f: &ReferenceFrame) -> (r: Option<usize>)
    ensures
        r matches Some(j) ==> j < frames@.len() && frames@[j as int].frame_key() == f.frame_key(),
        r is None ==> !holds_key(frames@, f.frame_key()),
{
    let mut j: usize = 0;
    while j < frames.len()
        invariant
            j <= frames@.len(),
            forall|i: int| 0 <= i < j ==> frames@[i].frame_key() != f.frame_key(),
        decreases frames@.len() - j,
    {
        let same = frames[j] == *f;
        proof {
            lemma_same_frame_key(frames@[j as int], *f);
        }
        if same {
            return Some(j);
        }
        j = j + 1;
    }
    None
}

impl Clone for FrameGraph {
    fn clone(&self) -> (g: FrameGraph)
        ensures
            g@ == self@,
            g.edges_spec().len() == self.edges_spec().len(),
            forall|j: int|
                0 <= j < self.edges_spec().len() ==> edge_keys(#[trigger] g.edges_spec()[j])
                    == edge_keys(self.edges_spec()[j]) && g.edges_spec()[j].id
                    == self.edges_spec()[j].id,
    {
        proof {
            use_type_invariant(self);
        }
        let mut edges: Vec<FrameEdge> = Vec::new();
        let mut i: usize = 0;
        while i < self.edges.len()
            invariant
                i <= self.edges@.len(),
                edges@.len() == i,
                forall|j: int|
                    0 <= j < i ==> edge_keys(#[trigger] edges@[j]) == edge_keys(self.edges@[j])
                        && edges@[j].id == self.edges@[j].id,
            decreases self.edges@.len() - i,
        {
            edges.push(self.edges[i].clone());
            i = i + 1;
        }
        proof {
            assert forall|a: int, b: int|
                0 <= a < edges@.len() && 0 <= b < edges@.len() && a != b implies edge_keys(
                edges@[a],
            ) != edge_keys(edges@[b]) by {
                assert(edge_keys(edges@[a]) == edge_keys(self.edges@[a]));
                assert(edge_keys(edges@[b]) == edge_keys(self.edges@[b]));
            }
            assert forall|k: (FrameKey, FrameKey)| lookup(edges@, k) == lookup(self.edges@, k) by {
                lemma_lookup_same(edges@, self.edges@, k);
            }
            assert(edge_map(edges@) =~= edge_map(self.edges@));
        }
        FrameGraph { edges }
    }
}

impl FrameGraph {
    /// The edge at a position.
    pub fn edge(&self, pos: usize) -> (e: &FrameEdge)
        requires
            pos < self.edges_spec().len(),
        ensures
            *e == self.edges_spec()[pos as int],
            distinct_edges(self.edges_spec()),
            self@.dom().contains(edge_keys(*e)),
            self@[edge_keys(*e)] == e.id,
    {
        proof {
            use_type_invariant(self);
            lemma_lookup_found(self.edges@, pos as int);
        }
        &self.edges[pos]
    }

    /// Find the shortest chain of transformations between reference frames
    ///
    /// Uses breadth-first search to find the minimal sequence of transformations
    /// needed to convert between reference frames, as the positions of the
    /// edges along it. The result is empty if source and destination frames are
    /// the same.
    ///
    /// # Errors
    ///
    /// [`TransformationNotFound`] if no chain of transformations joins the frames
    #[verifier::loop_isolation(false)]
    #[verifier::rlimit(50)]
    pub fn get_shortest_path(&self, from: &ReferenceFrame, to: &ReferenceFrame) -> (r: Result<
        Vec<usize>,
        TransformationNotFound,
    >)
        ensures
            r matches Ok(p) ==> {
                &&& is_edge_path(self.edges_spec(), from.frame_key(), to.frame_key(), positions(p@))
                &&& forall|q: Seq<int>|
                    is_edge_path(self.edges_spec(), from.frame_key(), to.frame_key(), q) ==> p@.len()
                        <= q.len()
                &&& forall|i: int|
                    0 <= i < p@.len() ==> {
                        &&& #[trigger] p@[i] < self.edges_spec().len()
                        &&& self@.dom().contains(edge_keys(self.edges_spec()[p@[i] as int]))
                        &&& self@[edge_keys(self.edges_spec()[p@[i] as int])]
                            == self.edges_spec()[p@[i] as int].id
                    }
            },
            r is Err <==> forall|q: Seq<int>|
                !is_edge_path(self.edges_spec(), from.frame_key(), to.frame_key(), q),
            r matches Err(e) ==> e.0.frame_key() == from.frame_key() && e.1.frame_key()
                == to.frame_key(),
    {
        proof {
            use_type_invariant(self);
        }
        let ghost edges = self.edges@;
        let ghost src = from.frame_key();
        let ghost dst = to.frame_key();
        let same = *from == *to;
        proof {
            lemma_same_frame_key(*from, *to);
        }
        if same {
            let p: Vec<usize> = Vec::new();
            proof {
                assert(positions(p@) =~= Seq::<int>::empty());
                assert(is_edge_path(self.edges_spec(), from.frame_key(), to.frame_key(), positions(p@)));
            }
            return Ok(p);
        }
        let mut frames: Vec<ReferenceFrame> = Vec::new();
        frames.push(from.clone());
        let mut paths: Vec<Vec<usize>> = Vec::new();
        paths.push(Vec::new());
        let ghost mut used: Set<int> = Set::empty();
        let mut lo: usize = 0;
        let ghost mut level: int = 0;
        proof {
            lemma_int_range(0, edges.len() as int);
            assert(holds_key(frames@, frames@[0].frame_key()));
            assert forall|q: Seq<int>| is_walk(edges, src, q) && q.len() <= level implies holds_key(
                frames@,
                walk_end(edges, src, q),
            ) by {
                assert(frames@[0].frame_key() == src);
            }
            assert(positions(paths@[0]@) =~= Seq::<int>::empty());
        }
        loop
            invariant
                edges == self.edges@,
                distinct_edges(edges),
                src == from.frame_key(),
                dst == to.frame_key(),
                src != dst,
                frames@.len() == paths@.len(),
                1 <= frames@.len() <= edges.len() + 1,
                lo <= frames@.len(),
                0 <= level,
                frames@[0].frame_key() == src,
                forall|j: int|
                    0 <= j < frames@.len() ==> {
                        &&& is_walk(edges, src, #[trigger] positions(paths@[j]@))
                        &&& walk_end(edges, src, positions(paths@[j]@)) == frames@[j].frame_key()
                    },
                forall|i: int, j: int|
                    0 <= i < frames@.len() && 0 <= j < frames@.len() && i != j
                        ==> #[trigger] frames@[i].frame_key() != #[trigger] frames@[j].frame_key(),
                !holds_key(frames@, dst),
                forall|j: int| 0 <= j < lo ==> #[trigger] paths@[j]@.len() < level,
                forall|j: int| lo <= j < frames@.len() ==> #[trigger] paths@[j]@.len() == level,
                forall|q: Seq<int>|
                    is_walk(edges, src, q) && q.len() <= level ==> holds_key(
                        frames@,
                        #[trigger] walk_end(edges, src, q),
                    ),
                closed_below(edges, frames@, lo as int),
                set_int_range(0, edges.len() as int).finite(),
                set_int_range(0, edges.len() as int).len() == edges.len(),
                used.finite(),
                used.len() + 1 == frames@.len(),
                used.subset_of(set_int_range(0, edges.len() as int)),
                forall|e: int| #[trigger] used.contains(e) ==> holds_key(frames@, edges[e].to.frame_key()),
            decreases edges.len() + 1 - lo,
        {
            let hi = frames.len();
            if lo == hi {
                proof {
                    assert(holds_key(frames@, frames@[0].frame_key()));
                    assert forall|e: int|
                        0 <= e < edges.len() && holds_key(frames@, #[trigger] edges[e].from.frame_key())
                            implies holds_key(frames@, edges[e].to.frame_key()) by {
                        let j = choose|j: int|
                            0 <= j < frames@.len() && #[trigger] frames@[j].frame_key()
                                == edges[e].from.frame_key();
                    }
                    assert forall|q: Seq<int>| !is_edge_path(edges, src, dst, q) by {
                        if is_edge_path(edges, src, dst, q) {
                            lemma_closed_walks(edges, frames@, src, q);
                        }
                    }
                }
                return Err(TransformationNotFound(from.clone(), to.clone()));
            }
            let ghost start = frames@;
            proof {
                assert forall|q: Seq<int>| is_walk(edges, src, q) && q.len() <= level implies holds_key(
                    start,
                    #[trigger] walk_end(edges, src, q),
                ) by {}
            }
            let mut cur: usize = lo;
            while cur < hi
                invariant
                    lo <= cur <= hi,
                    hi <= frames@.len(),
                    forall|q: Seq<int>|
                        is_walk(edges, src, q) && q.len() <= level ==> holds_key(
                            start,
                            #[trigger] walk_end(edges, src, q),
                        ),
                    frames@.len() == paths@.len(),
                    frames@.len() <= edges.len() + 1,
                    forall|j: int| 0 <= j < hi ==> frames@[j] == start[j],
                    forall|j: int|
                        0 <= j < frames@.len() ==> {
                            &&& is_walk(edges, src, #[trigger] positions(paths@[j]@))
                            &&& walk_end(edges, src, positions(paths@[j]@)) == frames@[j].frame_key()
                        },
                    forall|i: int, j: int|
                        0 <= i < frames@.len() && 0 <= j < frames@.len() && i != j
                            ==> #[trigger] frames@[i].frame_key() != #[trigger] frames@[j].frame_key(),
                    !holds_key(frames@, dst),
                    forall|j: int| 0 <= j < lo ==> #[trigger] paths@[j]@.len() < level,
                    forall|j: int| lo <= j < hi ==> #[trigger] paths@[j]@.len() == level,
                    forall|j: int| hi <= j < frames@.len() ==> #[trigger] paths@[j]@.len() == level + 1,
                    forall|k: FrameKey| #[trigger] holds_key(start, k) ==> holds_key(frames@, k),
                    closed_below(edges, frames@, cur as int),
                    used.finite(),
                    used.len() + 1 == frames@.len(),
                    used.subset_of(set_int_range(0, edges.len() as int)),
                    forall|e: int| #[trigger] used.contains(e) ==> holds_key(frames@, edges[e].to.frame_key()),
                decreases hi - cur,
            {
                let mut e: usize = 0;
                while e < self.edges.len()
                    invariant
                        lo <= cur < hi,
                        e <= edges.len(),
                        hi <= frames@.len(),
                        frames@.len() == paths@.len(),
                        frames@.len() <= edges.len() + 1,
                        forall|j: int| 0 <= j < hi ==> frames@[j] == start[j],
                        forall|j: int|
                            0 <= j < frames@.len() ==> {
                                &&& is_walk(edges, src, #[trigger] positions(paths@[j]@))
                                &&& walk_end(edges, src, positions(paths@[j]@))
                                    == frames@[j].frame_key()
                            },
                        forall|i: int, j: int|
                            0 <= i < frames@.len() && 0 <= j < frames@.len() && i != j
                                ==> #[trigger] frames@[i].frame_key()
                                != #[trigger] frames@[j].frame_key(),
                        !holds_key(frames@, dst),
                        forall|j: int| 0 <= j < lo ==> #[trigger] paths@[j]@.len() < level,
                        forall|j: int| lo <= j < hi ==> #[trigger] paths@[j]@.len() == level,
                        forall|j: int|
                            hi <= j < frames@.len() ==> #[trigger] paths@[j]@.len() == level + 1,
                        forall|k: FrameKey| #[trigger] holds_key(start, k) ==> holds_key(frames@, k),
                        closed_below(edges, frames@, cur as int),
                        forall|d: int|
                            0 <= d < e && edges[d].from.frame_key() == frames@[cur as int].frame_key()
                                ==> holds_key(frames@, #[trigger] edges[d].to.frame_key()),
                        used.finite(),
                        used.len() + 1 == frames@.len(),
                        used.subset_of(set_int_range(0, edges.len() as int)),
                        forall|d: int|
                            #[trigger] used.contains(d) ==> holds_key(frames@, edges[d].to.frame_key()),
                    decreases edges.len() - e,
                {
                    let is_from = self.edges[e].from == frames[cur];
                    proof {
                        lemma_same_frame_key(edges[e as int].from, frames@[cur as int]);
                    }
                    if is_from {
                        let found = find_frame(&frames, &self.edges[e].to);
                        if found.is_none() {
                            let mut p = paths[cur].clone();
                            proof {
                                assert(p@ =~= paths@[cur as int]@);
                            }
                            p.push(e);
                            proof {
                                lemma_walk_push(edges, src, positions(paths@[cur as int]@), e as int);
                                assert(positions(p@) =~= positions(paths@[cur as int]@).push(e as int));
                            }
                            let reached = self.edges[e].to == *to;
                            proof {
                                lemma_same_frame_key(edges[e as int].to, *to);
                            }
                            if reached {
                                proof {
                                    assert forall|q: Seq<int>|
                                        is_edge_path(edges, src, dst, q) implies p@.len() <= q.len() by {
                                        if q.len() <= level {
                                            assert(holds_key(start, walk_end(edges, src, q)));
                                        }
                                    }
                                    assert(is_edge_path(
                                        self.edges_spec(),
                                        from.frame_key(),
                                        to.frame_key(),
                                        positions(p@),
                                    ));
                                    lemma_walk_edges_in_view(edges, src, positions(p@));
                                    assert forall|i: int| 0 <= i < p@.len() implies positions(p@)[i]
                                        == p@[i] as int by {}
                                }
                                return Ok(p);
                            }
                            let ghost old_frames = frames@;
                            let f = self.edges[e].to.clone();
                            let ghost nf = f;
                            frames.push(f);
                            paths.push(p);
                            proof {
                                lemma_holds_key_push(old_frames, nf);
                                lemma_closed_below_push(edges, old_frames, nf, cur as int);
                                assert(!used.contains(e as int));
                                used = used.insert(e as int);
                                lemma_len_subset(used, set_int_range(0, edges.len() as int));
                                assert forall|i: int, j: int|
                                    0 <= i < frames@.len() && 0 <= j < frames@.len() && i != j
                                        implies #[trigger] frames@[i].frame_key()
                                        != #[trigger] frames@[j].frame_key() by {
                                    if i < old_frames.len() {
                                        assert(frames@[i] == old_frames[i]);
                                    }
                                    if j < old_frames.len() {
                                        assert(frames@[j] == old_frames[j]);
                                    }
                                }
                                assert forall|j: int|
                                    0 <= j < frames@.len() implies {
                                        &&& is_walk(edges, src, #[trigger] positions(paths@[j]@))
                                        &&& walk_end(edges, src, positions(paths@[j]@))
                                            == frames@[j].frame_key()
                                    } by {
                                    if j < old_frames.len() {
                                        assert(frames@[j] == old_frames[j]);
                                    }
                                }
                            }
                        } else {
                            proof {
                                let j = found.unwrap() as int;
                                assert(frames@[j].frame_key() == edges[e as int].to.frame_key());
                            }
                        }
                    }
                    e = e + 1;
                }
                proof {
                    assert forall|d: int, j: int|
                        0 <= d < edges.len() && 0 <= j < cur + 1 && #[trigger] edges[d].from.frame_key()
                            == #[trigger] frames@[j].frame_key() implies holds_key(
                            frames@,
                            edges[d].to.frame_key(),
                        ) by {
                        if j == cur {
                            assert(holds_key(frames@, edges[d].to.frame_key()));
                        }
                    }
                }
                cur = cur + 1;
            }
            proof {
                assert forall|q: Seq<int>|
                    is_walk(edges, src, q) && q.len() <= level + 1 implies holds_key(
                        frames@,
                        #[trigger] walk_end(edges, src, q),
                    ) by {
                    if q.len() <= level {
                        assert(holds_key(start, walk_end(edges, src, q)));
                    } else {
                        let r = q.drop_last();
                        assert(is_walk(edges, src, r));
                        assert(holds_key(start, walk_end(edges, src, r)));
                        let j = choose|j: int|
                            0 <= j < start.len() && #[trigger] start[j].frame_key() == walk_end(
                                edges,
                                src,
                                r,
                            );
                        assert(frames@[j] == start[j]);
                        assert(edges[q.last()].from.frame_key() == frames@[j].frame_key());
                    }
                }
                level = level + 1;
            }
            lo = hi;
        }
    }
}

} // verus!
