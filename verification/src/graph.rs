//! The graph of content: nodes keyed by author and id, directed edges between
//! them, and the meaning of one atomic write.

use vstd::prelude::*;
use vstd::string::*;
use crate::reference::ResourceKind;
use crate::value::{clone_props, props_view, Property, Scalar};

verus! {

/// The key of a node: its kind, the user who authored it and its id. A user
/// is keyed by its own id, with an empty local id.
#[derive(Debug)]
pub struct NodeKey {
    pub kind: ResourceKind,
    pub author: String,
    pub id: String,
}

/// The mathematical value of a [`NodeKey`].
pub struct NodeId {
    pub kind: ResourceKind,
    pub author: Seq<char>,
    pub id: Seq<char>,
}

impl View for NodeKey {
    type V = NodeId;

    open spec fn view(&self) -> NodeId {
        NodeId { kind: self.kind, author: self.author@, id: self.id@ }
    }
}

/// The key of a user's own node.
pub open spec fn user_node(user_id: Seq<char>) -> NodeId {
    NodeId { kind: ResourceKind::User, author: user_id, id: Seq::empty() }
}

impl NodeKey {
    /// The key of a resource of `author`.
    pub fn new(kind: ResourceKind, author: &str, id: &str) -> (k: NodeKey)
        ensures
            k@ == (NodeId { kind, author: author@, id: id@ }),
    {
        NodeKey { kind, author: String::from_str(author), id: String::from_str(id) }
    }

    /// The key of a user's own node.
    pub fn user(user_id: &str) -> (k: NodeKey)
        ensures
            k@ == user_node(user_id@),
    {
        NodeKey { kind: ResourceKind::User, author: String::from_str(user_id), id: String::new() }
    }

    /// Whether two keys name the same node.
    pub fn same(&self, other: &NodeKey) -> (b: bool)
        ensures
            b == (self@ == other@),
    {
        let b = self.kind == other.kind && self.author == other.author && self.id == other.id;
        proof {
            if b {
                assert(self@.author =~= other@.author);
                assert(self@.id =~= other@.id);
            }
        }
        b
    }

    /// A copy of this key.
    pub fn duplicate(&self) -> (k: NodeKey)
        ensures
            k@ == self@,
    {
        NodeKey { kind: self.kind, author: self.author.clone(), id: self.id.clone() }
    }
}

/// The kinds of edge between nodes. That a user authored a node is part of
/// the node's key and needs no edge of its own.
#[derive(Debug, Clone, Copy, PartialEq, Eq, Structural)]
pub enum EdgeKind {
    Replied,
    Reposted,
    Mentioned,
    Follows,
    Muted,
    Bookmarked,
    Tagged,
    CanAuthor,
    BelongsTo,
    RsvpTo,
}

/// A directed edge. The label tells apart several tags between one pair of
/// nodes and is empty for every other kind.
#[derive(Debug)]
pub struct Edge {
    pub kind: EdgeKind,
    pub from: NodeKey,
    pub to: NodeKey,
    pub label: String,
}

/// The mathematical value of an [`Edge`].
pub struct EdgeId {
    pub kind: EdgeKind,
    pub from: NodeId,
    pub to: NodeId,
    pub label: Seq<char>,
}

impl View for Edge {
    type V = EdgeId;

    open spec fn view(&self) -> EdgeId {
        EdgeId { kind: self.kind, from: self.from@, to: self.to@, label: self.label@ }
    }
}

impl Edge {
    /// Whether two edges are the same edge.
    pub fn same(&self, other: &Edge) -> (b: bool)
        ensures
            b == (self@ == other@),
    {
        let b = self.kind == other.kind && self.from.same(&other.from) && self.to.same(&other.to)
            && self.label == other.label;
        proof {
            if b {
                assert(self@.label =~= other@.label);
            }
        }
        b
    }
}

/// A stored node.
#[derive(Debug)]
pub struct Node {
    pub key: NodeKey,
    pub props: Vec<Property>,
}

/// The mathematical value of a graph: the properties of each node that
/// exists, and the set of edges.
pub struct GraphState {
    pub nodes: Map<NodeId, Seq<(Seq<char>, Scalar)>>,
    pub edges: Set<EdgeId>,
}

/// No two stored nodes share a key.
pub open spec fn distinct_keys(s: Seq<Node>) -> bool {
    forall|i: int, j: int| 0 <= i < j < s.len() ==> (#[trigger] s[i]).key@ != (#[trigger] s[j]).key@
}

/// Whether some stored node has the key `k`.
pub open spec fn holds_key(s: Seq<Node>, k: NodeId) -> bool {
    exists|i: int| 0 <= i < s.len() && (#[trigger] s[i]).key@ == k
}

/// The properties stored under each key.
pub open spec fn node_map(s: Seq<Node>) -> Map<NodeId, Seq<(Seq<char>, Scalar)>> {
    Map::new(
        |k: NodeId| holds_key(s, k),
        |k: NodeId| props_view(s[choose|i: int| 0 <= i < s.len() && (#[trigger] s[i]).key@ == k].props@),
    )
}

/// The set of stored edges.
pub open spec fn edge_set(s: Seq<Edge>) -> Set<EdgeId> {
    Set::new(|e: EdgeId| exists|i: int| 0 <= i < s.len() && (#[trigger] s[i])@ == e)
}

/// With distinct keys, the map holds under each stored key that node's properties.
pub proof fn node_map_at(s: Seq<Node>, i: int)
    requires
        distinct_keys(s),
        0 <= i < s.len(),
    ensures
        node_map(s).contains_key(s[i].key@),
        node_map(s)[s[i].key@] == props_view(s[i].props@),
{
    let k = s[i].key@;
    let c = choose|j: int| 0 <= j < s.len() && (#[trigger] s[j]).key@ == k;
    assert(c == i) by {
        if c < i {
            assert(s[c].key@ != s[i].key@);
        } else if i < c {
            assert(s[i].key@ != s[c].key@);
        }
    }
}

/// Adding a node under a fresh key adds one entry to the map.
pub proof fn node_map_push(s: Seq<Node>, n: Node)
    requires
        distinct_keys(s),
        !holds_key(s, n.key@),
    ensures
        distinct_keys(s.push(n)),
        node_map(s.push(n)) == node_map(s).insert(n.key@, props_view(n.props@)),
{
    let t = s.push(n);
    assert(distinct_keys(t)) by {
        assert forall|i: int, j: int| 0 <= i < j < t.len() implies (#[trigger] t[i]).key@ != (
        #[trigger] t[j]).key@ by {
            if j < s.len() {
                assert(s[i].key@ != s[j].key@);
            } else {
                assert(s[i].key@ != n.key@);
            }
        }
    }
    let m = node_map(s).insert(n.key@, props_view(n.props@));
    assert forall|k: NodeId| node_map(t).contains_key(k) <==> m.contains_key(k) by {
        if holds_key(t, k) {
            let i = choose|i: int| 0 <= i < t.len() && (#[trigger] t[i]).key@ == k;
            if i < s.len() {
                assert(s[i].key@ == k);
            }
        }
        if holds_key(s, k) {
            let i = choose|i: int| 0 <= i < s.len() && (#[trigger] s[i]).key@ == k;
            assert(t[i].key@ == k);
        }
        if k == n.key@ {
            assert(t[s.len() as int].key@ == k);
        }
    }
    assert forall|k: NodeId| node_map(t).contains_key(k) implies node_map(t)[k] == m[k] by {
        let i = choose|i: int| 0 <= i < t.len() && (#[trigger] t[i]).key@ == k;
        node_map_at(t, i);
        if i < s.len() {
            assert(s[i].key@ == k);
            node_map_at(s, i);
        }
    }
    assert(node_map(t) =~= m);
}

/// Replacing a node by one with the same key replaces its entry in the map.
pub proof fn node_map_update(s: Seq<Node>, at: int, n: Node)
    requires
        distinct_keys(s),
        0 <= at < s.len(),
        s[at].key@ == n.key@,
    ensures
        distinct_keys(s.update(at, n)),
        node_map(s.update(at, n)) == node_map(s).insert(n.key@, props_view(n.props@)),
{
    let t = s.update(at, n);
    assert(distinct_keys(t)) by {
        assert forall|i: int, j: int| 0 <= i < j < t.len() implies (#[trigger] t[i]).key@ != (
        #[trigger] t[j]).key@ by {
            assert(s[i].key@ != s[j].key@);
        }
    }
    let m = node_map(s).insert(n.key@, props_view(n.props@));
    assert forall|k: NodeId| node_map(t).contains_key(k) <==> m.contains_key(k) by {
        if holds_key(t, k) {
            let i = choose|i: int| 0 <= i < t.len() && (#[trigger] t[i]).key@ == k;
            assert(s[i].key@ == k);
        }
        if holds_key(s, k) {
            let i = choose|i: int| 0 <= i < s.len() && (#[trigger] s[i]).key@ == k;
            assert(t[i].key@ == k);
        }
        if k == n.key@ {
            assert(t[at].key@ == k);
        }
    }
    assert forall|k: NodeId| node_map(t).contains_key(k) implies node_map(t)[k] == m[k] by {
        let i = choose|i: int| 0 <= i < t.len() && (#[trigger] t[i]).key@ == k;
        node_map_at(t, i);
        if i != at {
            assert(s[i].key@ == k);
            node_map_at(s, i);
        }
    }
    assert(node_map(t) =~= m);
}

/// Taking a node out takes its entry out of the map.
pub proof fn node_map_remove(s: Seq<Node>, at: int)
    requires
        distinct_keys(s),
        0 <= at < s.len(),
    ensures
        distinct_keys(s.remove(at)),
        node_map(s.remove(at)) == node_map(s).remove(s[at].key@),
{
    let t = s.remove(at);
    assert forall|i: int| 0 <= i < t.len() implies #[trigger] t[i] == s[if i < at { i } else { i + 1 }] by {}
    assert(distinct_keys(t)) by {
        assert forall|i: int, j: int| 0 <= i < j < t.len() implies (#[trigger] t[i]).key@ != (
        #[trigger] t[j]).key@ by {
            let a = if i < at { i } else { i + 1 };
            let b = if j < at { j } else { j + 1 };
            assert(s[a].key@ != s[b].key@);
        }
    }
    let m = node_map(s).remove(s[at].key@);
    assert forall|k: NodeId| node_map(t).contains_key(k) <==> m.contains_key(k) by {
        if holds_key(t, k) {
            let i = choose|i: int| 0 <= i < t.len() && (#[trigger] t[i]).key@ == k;
            let a = if i < at { i } else { i + 1 };
            assert(s[a].key@ == k);
            if a < at {
                assert(s[a].key@ != s[at].key@);
            } else {
                assert(s[at].key@ != s[a].key@);
            }
        }
        if holds_key(s, k) && k != s[at].key@ {
            let i = choose|i: int| 0 <= i < s.len() && (#[trigger] s[i]).key@ == k;
            let a = if i < at { i } else { i - 1 };
            assert(t[a].key@ == k);
        }
    }
    assert forall|k: NodeId| node_map(t).contains_key(k) implies node_map(t)[k] == m[k] by {
        let i = choose|i: int| 0 <= i < t.len() && (#[trigger] t[i]).key@ == k;
        node_map_at(t, i);
        let a = if i < at { i } else { i + 1 };
        assert(s[a].key@ == k);
        node_map_at(s, a);
    }
    assert(node_map(t) =~= m);
}

/// Adding an edge adds it to the set.
pub proof fn edge_set_push(s: Seq<Edge>, e: Edge)
    ensures
        edge_set(s.push(e)) == edge_set(s).insert(e@),
{
    let t = s.push(e);
    assert forall|x: EdgeId| edge_set(t).contains(x) <==> edge_set(s).insert(e@).contains(x) by {
        if edge_set(t).contains(x) {
            let i = choose|i: int| 0 <= i < t.len() && (#[trigger] t[i])@ == x;
            if i < s.len() {
                assert(s[i]@ == x);
            }
        }
        if edge_set(s).contains(x) {
            let i = choose|i: int| 0 <= i < s.len() && (#[trigger] s[i])@ == x;
            assert(t[i]@ == x);
        }
        if x == e@ {
            assert(t[s.len() as int]@ == x);
        }
    }
    assert(edge_set(t) =~= edge_set(s).insert(e@));
}

/// How a write ended.
#[derive(Debug, Clone, Copy, PartialEq, Eq, Structural)]
pub enum Outcome {
    /// The node did not exist before the write.
    Created,
    /// The node existed and was changed in place.
    Updated,
    /// A node that the write depends on is absent; nothing was written.
    MissingDependency,
}

/// An edge between the written node and another node.
#[derive(Debug)]
pub struct Link {
    pub edge: EdgeKind,
    pub node: NodeKey,
}

/// The mathematical value of a [`Link`].
pub struct LinkView {
    pub edge: EdgeKind,
    pub node: NodeId,
}

impl View for Link {
    type V = LinkView;

    open spec fn view(&self) -> LinkView {
        LinkView { edge: self.edge, node: self.node@ }
    }
}

/// One atomic write: the node, its properties, the nodes it cannot do
/// without, the nodes it is tied to where they exist, and the kind of edge
/// whose former set at this node the write replaces.
#[derive(Debug)]
pub struct WriteRequest {
    pub target: NodeKey,
    pub props: Vec<Property>,
    pub hard: Vec<Link>,
    pub soft: Vec<Link>,
    pub resync: Option<EdgeKind>,
}

/// The mathematical value of a [`WriteRequest`].
pub struct WriteView {
    pub target: NodeId,
    pub props: Seq<(Seq<char>, Scalar)>,
    pub hard: Seq<LinkView>,
    pub soft: Seq<LinkView>,
    pub resync: Option<EdgeKind>,
}

/// The mathematical values of a list of links.
pub open spec fn links_view(s: Seq<Link>) -> Seq<LinkView> {
    s.map_values(|l: Link| l@)
}

impl View for WriteRequest {
    type V = WriteView;

    open spec fn view(&self) -> WriteView {
        WriteView {
            target: self.target@,
            props: props_view(self.props@),
            hard: links_view(self.hard@),
            soft: links_view(self.soft@),
            resync: self.resync,
        }
    }
}

/// The edge that ties the written node to the other end of a link. Authors
/// point at the calendar they may write to; every other edge leaves the
/// written node.
pub open spec fn link_edge(target: NodeId, link: LinkView) -> EdgeId {
    if link.edge == EdgeKind::CanAuthor {
        EdgeId { kind: link.edge, from: link.node, to: target, label: Seq::empty() }
    } else {
        EdgeId { kind: link.edge, from: target, to: link.node, label: Seq::empty() }
    }
}

/// Whether an edge of the replaced kind sits at the written node.
pub open spec fn replaced(w: WriteView, e: EdgeId) -> bool {
    w.resync == Some(e.kind) && if e.kind == EdgeKind::CanAuthor {
        e.to == w.target
    } else {
        e.from == w.target
    }
}

/// Whether the author of the written node exists. A user is its own author.
pub open spec fn author_present(g: GraphState, w: WriteView) -> bool {
    w.target.kind == ResourceKind::User || g.nodes.contains_key(user_node(w.target.author))
}

/// Whether the first `n` nodes that the write cannot do without all exist.
pub open spec fn hard_present(g: GraphState, w: WriteView, n: int) -> bool {
    forall|j: int| 0 <= j < n ==> g.nodes.contains_key((#[trigger] w.hard[j]).node)
}

/// The edges to the first `n` nodes that the write cannot do without.
pub open spec fn hard_edges(w: WriteView, n: int) -> Set<EdgeId> {
    Set::new(|e: EdgeId| exists|j: int| 0 <= j < n && e == link_edge(w.target, #[trigger] w.hard[j]))
}

/// Whether a node exists once the written node does.
pub open spec fn present_after(g: GraphState, w: WriteView, k: NodeId) -> bool {
    k == w.target || g.nodes.contains_key(k)
}

/// The edges to those of the first `n` optional nodes that exist once the
/// written node does.
pub open spec fn soft_edges(g: GraphState, w: WriteView, n: int) -> Set<EdgeId> {
    Set::new(
        |e: EdgeId|
            exists|j: int|
                0 <= j < n && present_after(g, w, (#[trigger] w.soft[j]).node) && e == link_edge(
                    w.target,
                    w.soft[j],
                ),
    )
}

/// Whether the write can go through: its author and every node it cannot do
/// without exist.
pub open spec fn writable(g: GraphState, w: WriteView) -> bool {
    author_present(g, w) && hard_present(g, w, w.hard.len() as int)
}

/// The graph after a write that goes through: the node holds the written
/// properties, the edges of the replaced kind at the node are gone, and the
/// edges that the write implies are there.
pub open spec fn written(g: GraphState, w: WriteView) -> GraphState {
    GraphState {
        nodes: g.nodes.insert(w.target, w.props),
        edges: g.edges.filter(|e: EdgeId| !replaced(w, e)) + hard_edges(w, w.hard.len() as int)
            + soft_edges(g, w, w.soft.len() as int),
    }
}

/// The graph after a write, whether it goes through or not.
pub open spec fn after_write(g: GraphState, w: WriteView) -> GraphState {
    if writable(g, w) {
        written(g, w)
    } else {
        g
    }
}

/// How a write ends.
pub open spec fn outcome_of(g: GraphState, w: WriteView) -> Outcome {
    if !writable(g, w) {
        Outcome::MissingDependency
    } else if g.nodes.contains_key(w.target) {
        Outcome::Updated
    } else {
        Outcome::Created
    }
}

/// Whether a list of edges holds the given edge.
pub fn edges_contain(edges: &Vec<Edge>, edge: &Edge) -> (b: bool)
    ensures
        b == edge_set(edges@).contains(edge@),
{
    let mut i: usize = 0;
    while i < edges.len()
        invariant
            i <= edges.len(),
            forall|j: int| 0 <= j < i ==> (#[trigger] edges[j])@ != edge@,
        decreases edges.len() - i,
    {
        if edges[i].same(edge) {
            return true;
        }
        i = i + 1;
    }
    false
}

/// Puts an edge into a list of edges unless it is there already.
pub fn add_edge(edges: &mut Vec<Edge>, edge: Edge)
    ensures
        edge_set(final(edges)@) == edge_set(old(edges)@).insert(edge@),
{
    if edges_contain(edges, &edge) {
        proof {
            assert(edge_set(edges@).insert(edge@) =~= edge_set(edges@));
        }
    } else {
        proof {
            edge_set_push(edges@, edge);
        }
        edges.push(edge);
    }
}

impl Edge {
    /// A copy of this edge.
    pub fn duplicate(&self) -> (e: Edge)
        ensures
            e@ == self@,
    {
        Edge { kind: self.kind, from: self.from.duplicate(), to: self.to.duplicate(), label: self.label.clone() }
    }
}

impl Link {
    /// The edge that ties the written node to the other end of this link.
    pub fn edge_at(&self, target: &NodeKey) -> (e: Edge)
        ensures
            e@ == link_edge(target@, self@),
    {
        if self.edge == EdgeKind::CanAuthor {
            Edge { kind: self.edge, from: self.node.duplicate(), to: target.duplicate(), label: String::new() }
        } else {
            Edge { kind: self.edge, from: target.duplicate(), to: self.node.duplicate(), label: String::new() }
        }
    }
}

impl WriteRequest {
    /// Whether the write replaces the given edge.
    pub fn replaces(&self, edge: &Edge) -> (b: bool)
        ensures
            b == replaced(self@, edge@),
    {
        match self.resync {
            None => false,
            Some(kind) => {
                if kind != edge.kind {
                    false
                } else if edge.kind == EdgeKind::CanAuthor {
                    edge.to.same(&self.target)
                } else {
                    edge.from.same(&self.target)
                }
            },
        }
    }
}

/// The edges of a list that a write leaves in place.
pub fn surviving_edges(edges: &Vec<Edge>, req: &WriteRequest) -> (kept: Vec<Edge>)
    ensures
        edge_set(kept@) == edge_set(edges@).filter(|e: EdgeId| !replaced(req@, e)),
{
    let mut kept: Vec<Edge> = Vec::new();
    let mut i: usize = 0;
    proof {
        assert(edge_set(kept@) =~= edge_set(edges@.take(0)).filter(|e: EdgeId| !replaced(req@, e)));
    }
    while i < edges.len()
        invariant
            i <= edges.len(),
            edge_set(kept@) == edge_set(edges@.take(i as int)).filter(|e: EdgeId| !replaced(req@, e)),
        decreases edges.len() - i,
    {
        proof {
            assert(edges@.take(i + 1) =~= edges@.take(i as int).push(edges@[i as int]));
            edge_set_push(edges@.take(i as int), edges@[i as int]);
        }
        if !req.replaces(&edges[i]) {
            let copy = edges[i].duplicate();
            proof {
                assert(edge_set(kept@).insert(copy@) =~= edge_set(edges@.take(i + 1)).filter(
                    |e: EdgeId| !replaced(req@, e),
                ));
            }
            add_edge(&mut kept, copy);
        } else {
            proof {
                assert(edge_set(kept@) =~= edge_set(edges@.take(i + 1)).filter(
                    |e: EdgeId| !replaced(req@, e),
                ));
            }
        }
        i = i + 1;
    }
    proof {
        assert(edges@.take(edges.len() as int) =~= edges@);
    }
    kept
}

/// A write that cannot go through changes nothing and says so.
pub proof fn refused_write_changes_nothing(g: GraphState, w: WriteView)
    requires
        !writable(g, w),
    ensures
        after_write(g, w) == g,
        outcome_of(g, w) == Outcome::MissingDependency,
{
}

/// A write that goes through leaves exactly one node under its key, holding
/// the written properties, and touches no other node.
pub proof fn write_sets_one_node(g: GraphState, w: WriteView)
    requires
        writable(g, w),
    ensures
        after_write(g, w).nodes.dom() == g.nodes.dom().insert(w.target),
        after_write(g, w).nodes[w.target] == w.props,
        forall|k: NodeId| k != w.target && g.nodes.contains_key(k) ==> after_write(g, w).nodes[k] == g.nodes[k],
        outcome_of(g, w) == if g.nodes.contains_key(w.target) {
            Outcome::Updated
        } else {
            Outcome::Created
        },
{
    assert(after_write(g, w).nodes.dom() =~= g.nodes.dom().insert(w.target));
}

/// Applying the same write again changes nothing more, and the second
/// application reports an update.
pub proof fn write_is_idempotent(g: GraphState, w: WriteView)
    ensures
        after_write(after_write(g, w), w) == after_write(g, w),
        writable(g, w) ==> outcome_of(after_write(g, w), w) == Outcome::Updated,
{
    if writable(g, w) {
        let h = after_write(g, w);
        let n = w.hard.len() as int;
        let m = w.soft.len() as int;
        assert(writable(h, w)) by {
            assert forall|j: int| 0 <= j < n implies h.nodes.contains_key((#[trigger] w.hard[j]).node) by {
                assert(g.nodes.contains_key(w.hard[j].node));
            }
        }
        assert(h.nodes.insert(w.target, w.props) =~= h.nodes);
        assert(soft_edges(h, w, m) =~= soft_edges(g, w, m)) by {
            assert forall|k: NodeId| present_after(h, w, k) == present_after(g, w, k) by {}
        }
        assert(written(h, w).edges =~= h.edges);
    }
}

/// Writing a node again with other properties keeps the node single: the
/// second write reports an update and its properties are the ones that stay.
pub proof fn rewrite_keeps_last(g: GraphState, first: WriteView, second: WriteView)
    requires
        first.target == second.target,
        writable(g, first),
        writable(after_write(g, first), second),
    ensures
        outcome_of(after_write(g, first), second) == Outcome::Updated,
        after_write(after_write(g, first), second).nodes[second.target] == second.props,
        after_write(after_write(g, first), second).nodes.dom() == after_write(g, first).nodes.dom(),
{
    let h = after_write(g, first);
    assert(after_write(h, second).nodes.dom() =~= h.nodes.dom());
}

/// After a write, the edges of the replaced kind at the written node are
/// exactly the ones that the write implies: none of the former set stays
/// unless the write names it again.
pub proof fn replaced_edges_are_exact(g: GraphState, w: WriteView, e: EdgeId)
    requires
        writable(g, w),
        replaced(w, e),
    ensures
        after_write(g, w).edges.contains(e) <==> (hard_edges(w, w.hard.len() as int).contains(e) || soft_edges(
            g,
            w,
            w.soft.len() as int,
        ).contains(e)),
{
}

/// Optional links never decide whether a write goes through.
pub proof fn optional_links_never_block(g: GraphState, w: WriteView, soft: Seq<LinkView>)
    ensures
        writable(g, WriteView { soft, ..w }) == writable(g, w),
        outcome_of(g, WriteView { soft, ..w }) == outcome_of(g, w),
{
    let v = WriteView { soft, ..w };
    assert(hard_present(g, v, v.hard.len() as int) == hard_present(g, w, w.hard.len() as int));
}

/// After a write, no edge of the replaced kind at the written node leads to
/// a node that does not exist.
pub proof fn replaced_edges_reach_nodes(g: GraphState, w: WriteView, e: EdgeId)
    requires
        writable(g, w),
        replaced(w, e),
        after_write(g, w).edges.contains(e),
    ensures
        ends_present(after_write(g, w), e),
{
    let n = w.hard.len() as int;
    let m = w.soft.len() as int;
    if hard_edges(w, n).contains(e) {
        let j = choose|j: int| 0 <= j < n && e == link_edge(w.target, #[trigger] w.hard[j]);
        assert(g.nodes.contains_key(w.hard[j].node));
    } else {
        assert(soft_edges(g, w, m).contains(e));
        let j = choose|j: int|
            0 <= j < m && present_after(g, w, (#[trigger] w.soft[j]).node) && e == link_edge(
                w.target,
                w.soft[j],
            );
        assert(present_after(g, w, w.soft[j].node));
    }
}

/// A write whose dependency is absent is refused; once the dependency has
/// been written, the same write goes through, creates the node and ties it
/// to the dependency.
pub proof fn write_succeeds_after_dependency(g: GraphState, dep: WriteView, w: WriteView, at: int)
    requires
        0 <= at < w.hard.len(),
        w.hard[at].node == dep.target,
        w.target != dep.target,
        !g.nodes.contains_key(dep.target),
        !g.nodes.contains_key(w.target),
        writable(g, dep),
        author_present(g, w),
        forall|j: int| 0 <= j < w.hard.len() ==> (#[trigger] w.hard[j]).node == dep.target || g.nodes.contains_key(
            w.hard[j].node,
        ),
    ensures
        outcome_of(g, w) == Outcome::MissingDependency,
        after_write(g, w) == g,
        outcome_of(after_write(g, dep), w) == Outcome::Created,
        after_write(after_write(g, dep), w).edges.contains(link_edge(w.target, w.hard[at])),
{
    let h = after_write(g, dep);
    let n = w.hard.len() as int;
    assert(!hard_present(g, w, n)) by {
        assert(!g.nodes.contains_key(w.hard[at].node));
    }
    assert(writable(h, w)) by {
        assert forall|j: int| 0 <= j < n implies h.nodes.contains_key((#[trigger] w.hard[j]).node) by {}
    }
    assert(hard_edges(w, n).contains(link_edge(w.target, w.hard[at])));
}

/// Whether an edge starts or ends at a node.
pub open spec fn touches(e: EdgeId, k: NodeId) -> bool {
    e.from == k || e.to == k
}

/// The graph after a node is deleted: the node is gone, and with it every
/// edge that starts or ends there.
pub open spec fn after_delete(g: GraphState, k: NodeId) -> GraphState {
    GraphState { nodes: g.nodes.remove(k), edges: g.edges.filter(|e: EdgeId| !touches(e, k)) }
}

/// Whether both ends of an edge exist.
pub open spec fn ends_present(g: GraphState, e: EdgeId) -> bool {
    g.nodes.contains_key(e.from) && g.nodes.contains_key(e.to)
}

/// The graph after an edge is put between two nodes: unchanged where an end
/// is absent, else with the edge in it.
pub open spec fn after_relate(g: GraphState, e: EdgeId) -> GraphState {
    if ends_present(g, e) {
        GraphState { nodes: g.nodes, edges: g.edges.insert(e) }
    } else {
        g
    }
}

/// How putting an edge between two nodes ends.
pub open spec fn relate_outcome(g: GraphState, e: EdgeId) -> Outcome {
    if !ends_present(g, e) {
        Outcome::MissingDependency
    } else if g.edges.contains(e) {
        Outcome::Updated
    } else {
        Outcome::Created
    }
}

/// The edges of a list that neither start nor end at a node.
pub fn edges_apart_from(edges: &Vec<Edge>, key: &NodeKey) -> (kept: Vec<Edge>)
    ensures
        edge_set(kept@) == edge_set(edges@).filter(|e: EdgeId| !touches(e, key@)),
{
    let mut kept: Vec<Edge> = Vec::new();
    let mut i: usize = 0;
    proof {
        assert(edge_set(kept@) =~= edge_set(edges@.take(0)).filter(|e: EdgeId| !touches(e, key@)));
    }
    while i < edges.len()
        invariant
            i <= edges.len(),
            edge_set(kept@) == edge_set(edges@.take(i as int)).filter(|e: EdgeId| !touches(e, key@)),
        decreases edges.len() - i,
    {
        proof {
            assert(edges@.take(i + 1) =~= edges@.take(i as int).push(edges@[i as int]));
            edge_set_push(edges@.take(i as int), edges@[i as int]);
        }
        if !edges[i].from.same(key) && !edges[i].to.same(key) {
            let copy = edges[i].duplicate();
            proof {
                assert(edge_set(kept@).insert(copy@) =~= edge_set(edges@.take(i + 1)).filter(
                    |e: EdgeId| !touches(e, key@),
                ));
            }
            add_edge(&mut kept, copy);
        } else {
            proof {
                assert(edge_set(kept@) =~= edge_set(edges@.take(i + 1)).filter(
                    |e: EdgeId| !touches(e, key@),
                ));
            }
        }
        i = i + 1;
    }
    proof {
        assert(edges@.take(edges.len() as int) =~= edges@);
    }
    kept
}

/// Whether every edge of a graph starts and ends at a node that exists.
pub open spec fn closed(g: GraphState) -> bool {
    forall|e: EdgeId| #[trigger] g.edges.contains(e) ==> ends_present(g, e)
}

/// A write leaves no edge without one of its ends.
pub proof fn write_keeps_edges_closed(g: GraphState, w: WriteView)
    requires
        closed(g),
    ensures
        closed(after_write(g, w)),
{
    if writable(g, w) {
        let h = after_write(g, w);
        let n = w.hard.len() as int;
        let m = w.soft.len() as int;
        assert forall|e: EdgeId| #[trigger] h.edges.contains(e) implies ends_present(h, e) by {
            if hard_edges(w, n).contains(e) {
                let j = choose|j: int| 0 <= j < n && e == link_edge(w.target, #[trigger] w.hard[j]);
                assert(g.nodes.contains_key(w.hard[j].node));
            } else if soft_edges(g, w, m).contains(e) {
                let j = choose|j: int|
                    0 <= j < m && present_after(g, w, (#[trigger] w.soft[j]).node) && e == link_edge(
                        w.target,
                        w.soft[j],
                    );
                assert(present_after(g, w, w.soft[j].node));
            } else {
                assert(g.edges.contains(e));
            }
        }
    }
}

/// A delete leaves no edge without one of its ends: every edge at the
/// deleted node goes with it.
pub proof fn delete_keeps_edges_closed(g: GraphState, k: NodeId)
    requires
        closed(g),
    ensures
        closed(after_delete(g, k)),
        forall|e: EdgeId| #[trigger] after_delete(g, k).edges.contains(e) ==> !touches(e, k),
        !after_delete(g, k).nodes.contains_key(k),
{
    let h = after_delete(g, k);
    assert forall|e: EdgeId| #[trigger] h.edges.contains(e) implies ends_present(h, e) by {
        assert(g.edges.contains(e));
    }
}

/// Putting an edge between two nodes leaves no edge without one of its ends.
pub proof fn relate_keeps_edges_closed(g: GraphState, e: EdgeId)
    requires
        closed(g),
    ensures
        closed(after_relate(g, e)),
{
    let h = after_relate(g, e);
    assert forall|x: EdgeId| #[trigger] h.edges.contains(x) implies ends_present(h, x) by {
        if x != e {
            assert(g.edges.contains(x));
        }
    }
}

/// The mathematical values of a list of keys.
pub open spec fn node_ids(keys: Seq<NodeKey>) -> Seq<NodeId> {
    keys.map_values(|k: NodeKey| k@)
}

/// The nodes from which an edge of a kind leads to a node, one for each
/// such edge, in the order in which the edges are stored.
pub open spec fn sources_of(edges: Seq<Edge>, kind: EdgeKind, to: NodeId) -> Seq<NodeId>
    decreases edges.len(),
{
    if edges.len() == 0 {
        Seq::empty()
    } else {
        let before = sources_of(edges.drop_last(), kind, to);
        if edges.last().kind == kind && edges.last().to@ == to {
            before.push(edges.last().from@)
        } else {
            before
        }
    }
}

/// The edge of a kind between two nodes under a label.
pub open spec fn labelled_edge(kind: EdgeKind, from: NodeId, to: NodeId, label: Seq<char>) -> EdgeId {
    EdgeId { kind, from, to, label }
}

/// A node is among the sources of a node exactly where the graph holds an
/// edge of the kind from the one to the other, under whatever label.
pub proof fn sources_are_the_edges_into(edges: Seq<Edge>, kind: EdgeKind, to: NodeId, k: NodeId)
    ensures
        sources_of(edges, kind, to).contains(k) <==> exists|label: Seq<char>|
            edge_set(edges).contains(#[trigger] labelled_edge(kind, k, to, label)),
    decreases edges.len(),
{
    if edges.len() > 0 {
        let init = edges.drop_last();
        let last = edges.last();
        sources_are_the_edges_into(init, kind, to, k);
        assert(edges =~= init.push(last));
        edge_set_push(init, last);
        let before = sources_of(init, kind, to);
        let hit = last.kind == kind && last.to@ == to;
        if sources_of(edges, kind, to).contains(k) {
            let i = choose|i: int| 0 <= i < sources_of(edges, kind, to).len() && sources_of(edges, kind, to)[i] == k;
            if hit && i == before.len() {
                assert(last@ == labelled_edge(kind, k, to, last.label@));
                assert(edge_set(edges).contains(labelled_edge(kind, k, to, last.label@)));
            } else {
                assert(before[i] == k);
                assert(before.contains(k));
                let label = choose|label: Seq<char>|
                    edge_set(init).contains(#[trigger] labelled_edge(kind, k, to, label));
                assert(edge_set(edges).contains(labelled_edge(kind, k, to, label)));
            }
        }
        if exists|label: Seq<char>| edge_set(edges).contains(#[trigger] labelled_edge(kind, k, to, label)) {
            let label = choose|label: Seq<char>| edge_set(edges).contains(#[trigger] labelled_edge(kind, k, to, label));
            if edge_set(init).contains(labelled_edge(kind, k, to, label)) {
                assert(before.contains(k));
                let i = choose|i: int| 0 <= i < before.len() && before[i] == k;
                assert(sources_of(edges, kind, to)[i] == k);
            } else {
                assert(last@ == labelled_edge(kind, k, to, label));
                assert(sources_of(edges, kind, to)[before.len() as int] == k);
            }
        }
    } else {
        assert(forall|label: Seq<char>| !edge_set(edges).contains(#[trigger] labelled_edge(kind, k, to, label)));
    }
}

/// The keys of the stored nodes of a kind, in the order in which they are stored.
pub open spec fn keys_of_kind(nodes: Seq<Node>, kind: ResourceKind) -> Seq<NodeId>
    decreases nodes.len(),
{
    if nodes.len() == 0 {
        Seq::empty()
    } else {
        let before = keys_of_kind(nodes.drop_last(), kind);
        if nodes.last().key.kind == kind {
            before.push(nodes.last().key@)
        } else {
            before
        }
    }
}

/// Those keys of a list whose node is tied to the other end of a link, in
/// the order of the list.
pub open spec fn linked_keys(keys: Seq<NodeId>, edges: Set<EdgeId>, link: LinkView) -> Seq<NodeId>
    decreases keys.len(),
{
    if keys.len() == 0 {
        Seq::empty()
    } else {
        let before = linked_keys(keys.drop_last(), edges, link);
        if edges.contains(link_edge(keys.last(), link)) {
            before.push(keys.last())
        } else {
            before
        }
    }
}

/// An in-memory graph with the write semantics that the indexer asks of its
/// graph store.
#[derive(Debug)]
pub struct Graph {
    pub nodes: Vec<Node>,
    pub edges: Vec<Edge>,
}

impl View for Graph {
    type V = GraphState;

    open spec fn view(&self) -> GraphState {
        GraphState { nodes: node_map(self.nodes@), edges: edge_set(self.edges@) }
    }
}

impl Graph {
    /// Whether the graph is well formed: no two nodes share a key.
    pub open spec fn wf(&self) -> bool {
        distinct_keys(self.nodes@)
    }

    /// The empty graph.
    pub fn new() -> (g: Graph)
        ensures
            g.wf(),
            g@.nodes == Map::<NodeId, Seq<(Seq<char>, Scalar)>>::empty(),
            g@.edges == Set::<EdgeId>::empty(),
    {
        let g = Graph { nodes: Vec::new(), edges: Vec::new() };
        proof {
            assert(g@.nodes =~= Map::<NodeId, Seq<(Seq<char>, Scalar)>>::empty());
            assert(g@.edges =~= Set::<EdgeId>::empty());
        }
        g
    }

    /// Where the node with the given key is stored, if it exists.
    pub fn position(&self, key: &NodeKey) -> (at: Option<usize>)
        requires
            self.wf(),
        ensures
            at.is_some() == self@.nodes.contains_key(key@),
            at.is_some() ==> at.unwrap() < self.nodes.len() && self.nodes[at.unwrap() as int].key@ == key@,
    {
        let mut i: usize = 0;
        while i < self.nodes.len()
            invariant
                self.wf(),
                i <= self.nodes.len(),
                forall|j: int| 0 <= j < i ==> (#[trigger] self.nodes[j]).key@ != key@,
            decreases self.nodes.len() - i,
        {
            if self.nodes[i].key.same(key) {
                proof {
                    node_map_at(self.nodes@, i as int);
                }
                return Some(i);
            }
            i = i + 1;
        }
        None
    }

    /// Whether the node with the given key exists.
    pub fn contains(&self, key: &NodeKey) -> (b: bool)
        requires
            self.wf(),
        ensures
            b == self@.nodes.contains_key(key@),
    {
        self.position(key).is_some()
    }

    /// The properties of the node with the given key, if it exists.
    pub fn properties(&self, key: &NodeKey) -> (r: Option<Vec<Property>>)
        requires
            self.wf(),
        ensures
            r.is_some() == self@.nodes.contains_key(key@),
            r.is_some() ==> props_view(r.unwrap()@) == self@.nodes[key@],
    {
        match self.position(key) {
            None => None,
            Some(at) => {
                proof {
                    node_map_at(self.nodes@, at as int);
                }
                Some(clone_props(&self.nodes[at].props))
            },
        }
    }

    /// Whether the graph holds the given edge.
    pub fn has_edge(&self, edge: &Edge) -> (b: bool)
        ensures
            b == self@.edges.contains(edge@),
    {
        edges_contain(&self.edges, edge)
    }

    /// Whether the author of a write and every node it cannot do without exist.
    pub fn can_write(&self, req: &WriteRequest) -> (b: bool)
        requires
            self.wf(),
        ensures
            b == writable(self@, req@),
    {
        if req.target.kind != ResourceKind::User {
            let author = NodeKey::user(req.target.author.as_str());
            if !self.contains(&author) {
                return false;
            }
        }
        let mut i: usize = 0;
        while i < req.hard.len()
            invariant
                self.wf(),
                i <= req.hard.len(),
                hard_present(self@, req@, i as int),
            decreases req.hard.len() - i,
        {
            if !self.contains(&req.hard[i].node) {
                proof {
                    assert(req@.hard[i as int] == req.hard@[i as int]@);
                }
                return false;
            }
            proof {
                assert(req@.hard[i as int] == req.hard@[i as int]@);
            }
            i = i + 1;
        }
        true
    }

    /// Applies one write atomically: either the author or a node that the
    /// write cannot do without is absent and nothing changes, or the node
    /// takes the written properties and its edges are brought in line.
    pub fn upsert(&mut self, req: &WriteRequest) -> (out: Outcome)
        requires
            old(self).wf(),
        ensures
            final(self).wf(),
            final(self)@ == after_write(old(self)@, req@),
            out == outcome_of(old(self)@, req@),
    {
        if !self.can_write(req) {
            return Outcome::MissingDependency;
        }
        let ghost g = self@;
        let ghost w = req@;
        let mut edges = surviving_edges(&self.edges, req);
        let ghost kept = edge_set(edges@);
        let mut i: usize = 0;
        proof {
            assert(kept + hard_edges(w, 0) =~= kept);
        }
        while i < req.hard.len()
            invariant
                i <= req.hard.len(),
                w == req@,
                edge_set(edges@) == kept + hard_edges(w, i as int),
            decreases req.hard.len() - i,
        {
            let edge = req.hard[i].edge_at(&req.target);
            proof {
                assert(w.hard[i as int] == req.hard@[i as int]@);
                assert(hard_edges(w, i + 1) =~= hard_edges(w, i as int).insert(edge@));
                assert((kept + hard_edges(w, i as int)).insert(edge@) =~= kept + hard_edges(w, i + 1));
            }
            add_edge(&mut edges, edge);
            i = i + 1;
        }
        let ghost firm = edge_set(edges@);
        let mut j: usize = 0;
        proof {
            assert(firm + soft_edges(g, w, 0) =~= firm);
        }
        while j < req.soft.len()
            invariant
                self.wf(),
                self@ == g,
                j <= req.soft.len(),
                w == req@,
                edge_set(edges@) == firm + soft_edges(g, w, j as int),
            decreases req.soft.len() - j,
        {
            proof {
                assert(w.soft[j as int] == req.soft@[j as int]@);
            }
            if req.soft[j].node.same(&req.target) || self.contains(&req.soft[j].node) {
                let edge = req.soft[j].edge_at(&req.target);
                proof {
                    assert(soft_edges(g, w, j + 1) =~= soft_edges(g, w, j as int).insert(edge@));
                    assert((firm + soft_edges(g, w, j as int)).insert(edge@) =~= firm + soft_edges(
                        g,
                        w,
                        j + 1,
                    ));
                }
                add_edge(&mut edges, edge);
            } else {
                proof {
                    assert(soft_edges(g, w, j + 1) =~= soft_edges(g, w, j as int));
                }
            }
            j = j + 1;
        }
        let found = self.position(&req.target);
        let node = Node { key: req.target.duplicate(), props: clone_props(&req.props) };
        let out = match found {
            Some(at) => {
                proof {
                    node_map_update(self.nodes@, at as int, node);
                }
                self.nodes.set(at, node);
                Outcome::Updated
            },
            None => {
                proof {
                    node_map_push(self.nodes@, node);
                }
                self.nodes.push(node);
                Outcome::Created
            },
        };
        self.edges = edges;
        proof {
            assert(self@.nodes == g.nodes.insert(w.target, w.props));
            assert(self@.edges == written(g, w).edges);
        }
        out
    }
    /// Deletes a node and every edge that starts or ends at it. Tells
    /// whether the node existed.
    pub fn delete(&mut self, key: &NodeKey) -> (existed: bool)
        requires
            old(self).wf(),
        ensures
            final(self).wf(),
            final(self)@ == after_delete(old(self)@, key@),
            existed == old(self)@.nodes.contains_key(key@),
    {
        let edges = edges_apart_from(&self.edges, key);
        self.edges = edges;
        match self.position(key) {
            Some(at) => {
                proof {
                    node_map_remove(self.nodes@, at as int);
                }
                self.nodes.remove(at);
                true
            },
            None => {
                proof {
                    assert(self@.nodes.remove(key@) =~= self@.nodes);
                }
                false
            },
        }
    }

    /// Puts an edge between two nodes that exist. Where an end is absent
    /// nothing changes; where the edge was there already it stays single.
    pub fn relate(&mut self, edge: Edge) -> (out: Outcome)
        requires
            old(self).wf(),
        ensures
            final(self).wf(),
            final(self)@ == after_relate(old(self)@, edge@),
            out == relate_outcome(old(self)@, edge@),
    {
        if !self.contains(&edge.from) || !self.contains(&edge.to) {
            return Outcome::MissingDependency;
        }
        let existed = self.has_edge(&edge);
        add_edge(&mut self.edges, edge);
        if existed {
            Outcome::Updated
        } else {
            Outcome::Created
        }
    }
    /// The nodes from which an edge of a kind leads to a node, one for each
    /// such edge, in the order in which the edges are stored.
    pub fn sources(&self, kind: EdgeKind, to: &NodeKey) -> (r: Vec<NodeKey>)
        ensures
            node_ids(r@) == sources_of(self.edges@, kind, to@),
    {
        let mut r: Vec<NodeKey> = Vec::new();
        let mut i: usize = 0;
        proof {
            assert(node_ids(r@) =~= sources_of(self.edges@.take(0), kind, to@));
        }
        while i < self.edges.len()
            invariant
                i <= self.edges.len(),
                node_ids(r@) == sources_of(self.edges@.take(i as int), kind, to@),
            decreases self.edges.len() - i,
        {
            proof {
                assert(self.edges@.take(i + 1).drop_last() =~= self.edges@.take(i as int));
                assert(self.edges@.take(i + 1).last() == self.edges@[i as int]);
            }
            if self.edges[i].kind == kind && self.edges[i].to.same(to) {
                let key = self.edges[i].from.duplicate();
                proof {
                    assert(node_ids(r@.push(key)) =~= node_ids(r@).push(key@));
                }
                r.push(key);
            }
            i = i + 1;
        }
        proof {
            assert(self.edges@.take(self.edges.len() as int) =~= self.edges@);
        }
        r
    }

    /// The keys of the nodes of a kind, in the order in which they are stored.
    pub fn keys(&self, kind: ResourceKind) -> (r: Vec<NodeKey>)
        ensures
            node_ids(r@) == keys_of_kind(self.nodes@, kind),
    {
        let mut r: Vec<NodeKey> = Vec::new();
        let mut i: usize = 0;
        proof {
            assert(node_ids(r@) =~= keys_of_kind(self.nodes@.take(0), kind));
        }
        while i < self.nodes.len()
            invariant
                i <= self.nodes.len(),
                node_ids(r@) == keys_of_kind(self.nodes@.take(i as int), kind),
            decreases self.nodes.len() - i,
        {
            proof {
                assert(self.nodes@.take(i + 1).drop_last() =~= self.nodes@.take(i as int));
                assert(self.nodes@.take(i + 1).last() == self.nodes@[i as int]);
            }
            if self.nodes[i].key.kind == kind {
                let key = self.nodes[i].key.duplicate();
                proof {
                    assert(node_ids(r@.push(key)) =~= node_ids(r@).push(key@));
                }
                r.push(key);
            }
            i = i + 1;
        }
        proof {
            assert(self.nodes@.take(self.nodes.len() as int) =~= self.nodes@);
        }
        r
    }
    /// Those keys of a list whose node is tied to the other end of a link.
    pub fn linked(&self, keys: &Vec<NodeKey>, link: &Link) -> (r: Vec<NodeKey>)
        ensures
            node_ids(r@) == linked_keys(node_ids(keys@), self@.edges, link@),
    {
        let mut r: Vec<NodeKey> = Vec::new();
        let mut i: usize = 0;
        proof {
            assert(node_ids(keys@.take(0)) =~= Seq::<NodeId>::empty());
            assert(node_ids(r@) =~= linked_keys(node_ids(keys@.take(0)), self@.edges, link@));
        }
        while i < keys.len()
            invariant
                i <= keys.len(),
                node_ids(r@) == linked_keys(node_ids(keys@.take(i as int)), self@.edges, link@),
            decreases keys.len() - i,
        {
            proof {
                assert(node_ids(keys@.take(i + 1)).drop_last() =~= node_ids(keys@.take(i as int)));
                assert(node_ids(keys@.take(i + 1)).last() == keys@[i as int]@);
            }
            let edge = link.edge_at(&keys[i]);
            if self.has_edge(&edge) {
                let key = keys[i].duplicate();
                proof {
                    assert(node_ids(r@.push(key)) =~= node_ids(r@).push(key@));
                }
                r.push(key);
            }
            i = i + 1;
        }
        proof {
            assert(keys@.take(keys.len() as int) =~= keys@);
        }
        r
    }
}

} // verus!
