//! The indexer: a graph as the source of truth and a cache derived from it.

use vstd::prelude::*;
use crate::cache::Cache;
use crate::graph::{
    after_delete, after_write, outcome_of, writable, Graph, GraphState, NodeId, NodeKey, Outcome, WriteRequest,
    WriteView,
};
use crate::value::{props_view, Property, Scalar};

verus! {

/// A graph and the cache in front of it, owned together.
#[derive(Debug)]
pub struct Indexer {
    pub graph: Graph,
    pub cache: Cache,
}

/// The mathematical value of an [`Indexer`].
pub struct IndexerState {
    pub graph: GraphState,
    pub cache: Map<NodeId, Seq<(Seq<char>, Scalar)>>,
}

impl View for Indexer {
    type V = IndexerState;

    open spec fn view(&self) -> IndexerState {
        IndexerState { graph: self.graph@, cache: self.cache@ }
    }
}

/// Whether every cached record is the record that the graph holds.
pub open spec fn coherent(s: IndexerState) -> bool {
    forall|k: NodeId| #[trigger]
        s.cache.contains_key(k) ==> s.graph.nodes.contains_key(k) && s.cache[k] == s.graph.nodes[k]
}

/// The record cached under a key, if there is one.
pub open spec fn cached(s: IndexerState, k: NodeId) -> Option<Seq<(Seq<char>, Scalar)>> {
    if s.cache.contains_key(k) {
        Some(s.cache[k])
    } else {
        None
    }
}

/// The record that the graph holds under a key, if there is one.
pub open spec fn stored(s: IndexerState, k: NodeId) -> Option<Seq<(Seq<char>, Scalar)>> {
    if s.graph.nodes.contains_key(k) {
        Some(s.graph.nodes[k])
    } else {
        None
    }
}

/// What a read finds: the cached record, else the graph's.
pub open spec fn found(s: IndexerState, k: NodeId) -> Option<Seq<(Seq<char>, Scalar)>> {
    if s.cache.contains_key(k) {
        Some(s.cache[k])
    } else if s.graph.nodes.contains_key(k) {
        Some(s.graph.nodes[k])
    } else {
        None
    }
}

/// The state after a read: a record found in the graph alone is in the cache.
pub open spec fn after_read(s: IndexerState, k: NodeId) -> IndexerState {
    if !s.cache.contains_key(k) && s.graph.nodes.contains_key(k) {
        IndexerState { graph: s.graph, cache: s.cache.insert(k, s.graph.nodes[k]) }
    } else {
        s
    }
}

/// The state after a reindex: the cached record is discarded and, where the
/// graph holds the node, computed anew from it.
pub open spec fn after_reindex(s: IndexerState, k: NodeId) -> IndexerState {
    if s.graph.nodes.contains_key(k) {
        IndexerState { graph: s.graph, cache: s.cache.insert(k, s.graph.nodes[k]) }
    } else {
        IndexerState { graph: s.graph, cache: s.cache.remove(k) }
    }
}

/// The state after a write and the cache refresh that follows it.
pub open spec fn after_index(s: IndexerState, w: WriteView) -> IndexerState {
    if writable(s.graph, w) {
        IndexerState { graph: after_write(s.graph, w), cache: s.cache.insert(w.target, w.props) }
    } else {
        s
    }
}

/// The state after a delete: the node leaves the graph, then the cache.
pub open spec fn after_removal(s: IndexerState, k: NodeId) -> IndexerState {
    IndexerState { graph: after_delete(s.graph, k), cache: s.cache.remove(k) }
}

/// How the cache is brought in line after a write that went through.
#[derive(Debug, Clone, Copy, PartialEq, Eq, Structural)]
pub enum Refresh {
    /// The written record goes into the cache as it is.
    WriteThrough,
    /// The cached record is discarded and read back from the graph.
    Reindex,
}

/// The refresh that follows a write: none where it was refused, a
/// write-through for a new node and for an updated node without edge sets
/// to bring in line, a reindex for an updated node with such sets.
pub open spec fn refresh_after(outcome: Outcome, synchronized: bool) -> Option<Refresh> {
    match outcome {
        Outcome::MissingDependency => None,
        Outcome::Created => Some(Refresh::WriteThrough),
        Outcome::Updated => Some(
            if synchronized {
                Refresh::Reindex
            } else {
                Refresh::WriteThrough
            },
        ),
    }
}

/// Chooses the refresh that follows a write.
pub fn choose_refresh(outcome: Outcome, synchronized: bool) -> (r: Option<Refresh>)
    ensures
        r == refresh_after(outcome, synchronized),
{
    match outcome {
        Outcome::MissingDependency => None,
        Outcome::Created => Some(Refresh::WriteThrough),
        Outcome::Updated => {
            if synchronized {
                Some(Refresh::Reindex)
            } else {
                Some(Refresh::WriteThrough)
            }
        },
    }
}

/// What a read does next.
#[derive(Debug)]
pub enum ReadStep {
    /// The read is over, with the record or without.
    Done(Option<Vec<Property>>),
    /// The cache had nothing: the graph is asked.
    AskGraph,
    /// The graph had the record: it goes into the cache, then to the reader.
    Fill(Vec<Property>),
}

/// Decides what follows the look into the cache: a hit ends the read, a
/// miss sends it to the graph.
pub fn after_lookup(hit: Option<Vec<Property>>) -> (step: ReadStep)
    ensures
        step == match hit {
            Some(record) => ReadStep::Done(Some(record)),
            None => ReadStep::AskGraph,
        },
{
    match hit {
        Some(record) => ReadStep::Done(Some(record)),
        None => ReadStep::AskGraph,
    }
}

/// Decides what follows the look into the graph after a miss in the
/// cache: a record is cached on its way to the reader, and without a
/// record the read ends with nothing.
pub fn after_graph_read(hit: Option<Vec<Property>>) -> (step: ReadStep)
    ensures
        step == match hit {
            Some(record) => ReadStep::Fill(record),
            None => ReadStep::Done(None),
        },
{
    match hit {
        Some(record) => ReadStep::Fill(record),
        None => ReadStep::Done(None),
    }
}

/// The mathematical value of an optional record.
pub open spec fn record_view(r: Option<Vec<Property>>) -> Option<Seq<(Seq<char>, Scalar)>> {
    match r {
        None => None,
        Some(p) => Some(props_view(p@)),
    }
}

impl Indexer {
    /// Whether both stores are well formed.
    pub open spec fn wf(&self) -> bool {
        self.graph.wf() && self.cache.wf()
    }

    /// An indexer over an empty graph and an empty cache.
    pub fn new() -> (x: Indexer)
        ensures
            x.wf(),
            x@.graph.nodes == Map::<NodeId, Seq<(Seq<char>, Scalar)>>::empty(),
            x@.graph.edges.is_empty(),
            x@.cache == Map::<NodeId, Seq<(Seq<char>, Scalar)>>::empty(),
            coherent(x@),
    {
        Indexer { graph: Graph::new(), cache: Cache::new() }
    }

    /// The record cached under a key, if there is one.
    pub fn get_from_index(&self, key: &NodeKey) -> (r: Option<Vec<Property>>)
        requires
            self.wf(),
        ensures
            record_view(r) == cached(self@, key@),
    {
        self.cache.get(key)
    }

    /// The record that the graph holds under a key, if there is one.
    pub fn get_from_graph(&self, key: &NodeKey) -> (r: Option<Vec<Property>>)
        requires
            self.wf(),
        ensures
            record_view(r) == stored(self@, key@),
    {
        self.graph.properties(key)
    }

    /// Caches a record under a key.
    pub fn put_to_index(&mut self, key: &NodeKey, props: &Vec<Property>)
        requires
            old(self).wf(),
        ensures
            final(self).wf(),
            final(self)@.graph == old(self)@.graph,
            final(self)@.cache == old(self)@.cache.insert(key@, props_view(props@)),
    {
        self.cache.put(key, props);
    }

    /// Reads a record: from the cache where it is there, else from the
    /// graph, filling the cache on the way.
    pub fn get_by_id(&mut self, key: &NodeKey) -> (r: Option<Vec<Property>>)
        requires
            old(self).wf(),
        ensures
            final(self).wf(),
            record_view(r) == found(old(self)@, key@),
            final(self)@ == after_read(old(self)@, key@),
    {
        match after_lookup(self.cache.get(key)) {
            ReadStep::Done(r) => r,
            ReadStep::Fill(record) => Some(record),
            ReadStep::AskGraph => match after_graph_read(self.graph.properties(key)) {
                ReadStep::Fill(record) => {
                    self.cache.put(key, &record);
                    Some(record)
                },
                ReadStep::Done(r) => r,
                ReadStep::AskGraph => None,
            },
        }
    }

    /// Discards the cached record of a node and computes it anew from the graph.
    pub fn reindex(&mut self, key: &NodeKey)
        requires
            old(self).wf(),
        ensures
            final(self).wf(),
            final(self)@ == after_reindex(old(self)@, key@),
    {
        match self.graph.properties(key) {
            Some(record) => {
                self.cache.put(key, &record);
            },
            None => {
                self.cache.remove(key);
            },
        }
    }

    /// Applies a write to the graph alone.
    pub fn put_to_graph(&mut self, req: &WriteRequest) -> (out: Outcome)
        requires
            old(self).wf(),
        ensures
            final(self).wf(),
            final(self)@.graph == after_write(old(self)@.graph, req@),
            final(self)@.cache == old(self)@.cache,
            out == outcome_of(old(self)@.graph, req@),
    {
        self.graph.upsert(req)
    }

    /// Applies a write and refreshes the cache: a new node is written
    /// through, an updated node whose edges were brought in line is read
    /// back from the graph, and a refused write leaves both stores alone.
    pub fn index(&mut self, req: &WriteRequest) -> (out: Outcome)
        requires
            old(self).wf(),
        ensures
            final(self).wf(),
            final(self)@ == after_index(old(self)@, req@),
            out == outcome_of(old(self)@.graph, req@),
    {
        let out = self.graph.upsert(req);
        match choose_refresh(out, req.resync.is_some()) {
            None => {},
            Some(Refresh::WriteThrough) => {
                self.cache.put(&req.target, &req.props);
            },
            Some(Refresh::Reindex) => {
                self.reindex(&req.target);
            },
        }
        out
    }

    /// Deletes a node: from the graph first, then from the cache.
    pub fn delete(&mut self, key: &NodeKey)
        requires
            old(self).wf(),
        ensures
            final(self).wf(),
            final(self)@ == after_removal(old(self)@, key@),
    {
        self.graph.delete(key);
        let _ = self.cache.settle_delete(key, Ok(()));
    }
}

/// Every cached record stays the graph's record through a write.
pub proof fn index_keeps_coherence(s: IndexerState, w: WriteView)
    requires
        coherent(s),
    ensures
        coherent(after_index(s, w)),
{
    let t = after_index(s, w);
    assert forall|k: NodeId| #[trigger] t.cache.contains_key(k) implies t.graph.nodes.contains_key(k)
        && t.cache[k] == t.graph.nodes[k] by {
        if writable(s.graph, w) && k != w.target {
            assert(s.cache.contains_key(k));
        }
    }
}

/// Every cached record stays the graph's record through a read.
pub proof fn read_keeps_coherence(s: IndexerState, k: NodeId)
    requires
        coherent(s),
    ensures
        coherent(after_read(s, k)),
        found(after_read(s, k), k) == found(s, k),
        found(s, k) == if s.graph.nodes.contains_key(k) {
            Some(s.graph.nodes[k])
        } else {
            None
        },
{
    let t = after_read(s, k);
    assert forall|j: NodeId| #[trigger] t.cache.contains_key(j) implies t.graph.nodes.contains_key(j)
        && t.cache[j] == t.graph.nodes[j] by {
        if j != k {
            assert(s.cache.contains_key(j));
        }
    }
    if s.cache.contains_key(k) {
        assert(s.graph.nodes.contains_key(k));
    }
}

/// A reindex makes the cached record the graph's record, whatever was
/// cached before, and keeps the rest coherent.
pub proof fn reindex_restores_coherence(s: IndexerState, k: NodeId)
    requires
        forall|j: NodeId| j != k && #[trigger] s.cache.contains_key(j) ==> s.graph.nodes.contains_key(j)
            && s.cache[j] == s.graph.nodes[j],
    ensures
        coherent(after_reindex(s, k)),
{
    let t = after_reindex(s, k);
    assert forall|j: NodeId| #[trigger] t.cache.contains_key(j) implies t.graph.nodes.contains_key(j)
        && t.cache[j] == t.graph.nodes[j] by {
        if j != k {
            assert(s.cache.contains_key(j));
        }
    }
}

/// Every cached record stays the graph's record through a delete, and the
/// deleted node is found in neither store.
pub proof fn delete_keeps_coherence(s: IndexerState, k: NodeId)
    requires
        coherent(s),
    ensures
        coherent(after_removal(s, k)),
        found(after_removal(s, k), k).is_none(),
{
    let t = after_removal(s, k);
    assert forall|j: NodeId| #[trigger] t.cache.contains_key(j) implies t.graph.nodes.contains_key(j)
        && t.cache[j] == t.graph.nodes[j] by {
        assert(s.cache.contains_key(j));
    }
}

} // verus!
