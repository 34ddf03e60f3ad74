//! The read cache, and the indexer that keeps it in line with the graph.

use vstd::prelude::*;
use vstd::string::*;
use crate::graph::{
    distinct_keys, node_map, node_map_at, node_map_push, node_map_remove, node_map_update, Node, NodeId, NodeKey,
};
use crate::value::{clone_props, props_view, Property, Scalar};

verus! {

/// The segments of the key under which a record is cached.
pub fn cache_key(author_id: &str, resource_id: &str) -> (key: Vec<String>)
    ensures
        key@.len() == 2,
        key@[0]@ == author_id@,
        key@[1]@ == resource_id@,
{
    let mut key: Vec<String> = Vec::new();
    key.push(String::from_str(author_id));
    key.push(String::from_str(resource_id));
    key
}

/// A failure of one of the two stores.
#[derive(Debug)]
pub struct StoreFailure {
    pub message: String,
}

/// What a delete does once the graph's step has ended.
#[derive(Debug)]
pub enum DeleteStep {
    /// The graph has deleted the node: the cache entry is removed.
    Invalidate,
    /// The graph has failed: the cache is left alone and the failure is
    /// handed on.
    Abort(StoreFailure),
}

/// Decides what follows the graph's delete step. The cache is touched
/// only once the graph has confirmed.
pub fn after_graph_delete(graph_step: Result<(), StoreFailure>) -> (step: DeleteStep)
    ensures
        step == match graph_step {
            Ok(_) => DeleteStep::Invalidate,
            Err(failure) => DeleteStep::Abort(failure),
        },
{
    match graph_step {
        Ok(_) => DeleteStep::Invalidate,
        Err(failure) => DeleteStep::Abort(failure),
    }
}

/// An in-memory cache of records, each under the key of its node. An entry
/// stays until it is replaced or removed.
#[derive(Debug)]
pub struct Cache {
    pub entries: Vec<Node>,
}

impl View for Cache {
    type V = Map<NodeId, Seq<(Seq<char>, Scalar)>>;

    open spec fn view(&self) -> Map<NodeId, Seq<(Seq<char>, Scalar)>> {
        node_map(self.entries@)
    }
}

/// The cache after the graph's delete step has ended: without the entry
/// where the step succeeded, untouched where it failed.
pub open spec fn after_delete_step(
    c: Map<NodeId, Seq<(Seq<char>, Scalar)>>,
    k: NodeId,
    graph_step_ok: bool,
) -> Map<NodeId, Seq<(Seq<char>, Scalar)>> {
    if graph_step_ok {
        c.remove(k)
    } else {
        c
    }
}

impl Cache {
    /// Whether the cache is well formed: no two entries share a key.
    pub open spec fn wf(&self) -> bool {
        distinct_keys(self.entries@)
    }

    /// The empty cache.
    pub fn new() -> (c: Cache)
        ensures
            c.wf(),
            c@ == Map::<NodeId, Seq<(Seq<char>, Scalar)>>::empty(),
    {
        let c = Cache { entries: Vec::new() };
        proof {
            assert(c@ =~= Map::<NodeId, Seq<(Seq<char>, Scalar)>>::empty());
        }
        c
    }

    fn position(&self, key: &NodeKey) -> (at: Option<usize>)
        requires
            self.wf(),
        ensures
            at.is_some() == self@.contains_key(key@),
            at.is_some() ==> at.unwrap() < self.entries.len() && self.entries[at.unwrap() as int].key@ == key@,
    {
        let mut i: usize = 0;
        while i < self.entries.len()
            invariant
                self.wf(),
                i <= self.entries.len(),
                forall|j: int| 0 <= j < i ==> (#[trigger] self.entries[j]).key@ != key@,
            decreases self.entries.len() - i,
        {
            if self.entries[i].key.same(key) {
                proof {
                    node_map_at(self.entries@, i as int);
                }
                return Some(i);
            }
            i = i + 1;
        }
        None
    }

    /// The record cached under a key, if there is one.
    pub fn get(&self, key: &NodeKey) -> (r: Option<Vec<Property>>)
        requires
            self.wf(),
        ensures
            r.is_some() == self@.contains_key(key@),
            r.is_some() ==> props_view(r.unwrap()@) == self@[key@],
    {
        match self.position(key) {
            None => None,
            Some(at) => {
                proof {
                    node_map_at(self.entries@, at as int);
                }
                Some(clone_props(&self.entries[at].props))
            },
        }
    }

    /// Caches a record under a key, in place of what was there.
    pub fn put(&mut self, key: &NodeKey, props: &Vec<Property>)
        requires
            old(self).wf(),
        ensures
            final(self).wf(),
            final(self)@ == old(self)@.insert(key@, props_view(props@)),
    {
        let entry = Node { key: key.duplicate(), props: clone_props(props) };
        match self.position(key) {
            Some(at) => {
                proof {
                    node_map_update(self.entries@, at as int, entry);
                }
                self.entries.set(at, entry);
            },
            None => {
                proof {
                    node_map_push(self.entries@, entry);
                }
                self.entries.push(entry);
            },
        }
    }

    /// Removes the entry under a key, if there is one.
    pub fn remove(&mut self, key: &NodeKey)
        requires
            old(self).wf(),
        ensures
            final(self).wf(),
            final(self)@ == old(self)@.remove(key@),
    {
        match self.position(key) {
            Some(at) => {
                proof {
                    node_map_remove(self.entries@, at as int);
                }
                self.entries.remove(at);
            },
            None => {
                proof {
                    assert(self@.remove(key@) =~= self@);
                }
            },
        }
    }

    /// Ends a delete once the graph's step has ended: the entry goes only
    /// where the graph's step succeeded, and the graph's failure is handed on.
    pub fn settle_delete(&mut self, key: &NodeKey, graph_step: Result<(), StoreFailure>) -> (r: Result<
        (),
        StoreFailure,
    >)
        requires
            old(self).wf(),
        ensures
            final(self).wf(),
            final(self)@ == after_delete_step(old(self)@, key@, graph_step.is_ok()),
            match graph_step {
                Ok(_) => r.is_ok(),
                Err(failure) => r == Err::<(), StoreFailure>(failure),
            },
    {
        match after_graph_delete(graph_step) {
            DeleteStep::Invalidate => {
                self.remove(key);
                Ok(())
            },
            DeleteStep::Abort(failure) => Err(failure),
        }
    }
}

/// Where the graph's delete step fails, the cache is as it was: a read of
/// the key finds what it found before.
pub proof fn failed_delete_keeps_entry(c: Map<NodeId, Seq<(Seq<char>, Scalar)>>, k: NodeId)
    ensures
        after_delete_step(c, k, false) == c,
        after_delete_step(c, k, false).contains_key(k) == c.contains_key(k),
        c.contains_key(k) ==> after_delete_step(c, k, false)[k] == c[k],
        !after_delete_step(c, k, true).contains_key(k),
{
}

} // verus!
