//! Lists of records read from the graph: limits, pages and typed reads.

use vstd::prelude::*;
use vstd::string::*;
use crate::cache::StoreFailure;
use crate::graph::{node_ids, Graph, GraphState, NodeId, NodeKey};
use crate::value::{props_view, Property, Scalar};

verus! {

/// A record that is stored as a list of named properties.
pub trait Record: Sized {
    /// The record as its list of named properties.
    spec fn fields(&self) -> Seq<(Seq<char>, Scalar)>;

    /// Whether a property list has the form of this kind of record.
    spec fn shaped(p: Seq<(Seq<char>, Scalar)>) -> bool;

    /// Reads a property list back into a record.
    fn decode(props: &Vec<Property>) -> (r: Option<Self>)
        ensures
            r.is_some() == Self::shaped(props_view(props@)),
            r.is_some() ==> r.unwrap().fields() == props_view(props@),
    ;

    /// A copy of this record.
    fn duplicate(&self) -> (r: Self)
        ensures
            r.fields() == self.fields(),
    ;
}

/// The property lists of a list of records.
pub open spec fn fields_of<T: Record>(records: Seq<T>) -> Seq<Seq<(Seq<char>, Scalar)>> {
    records.map_values(|r: T| r.fields())
}

/// The records stored under a list of keys, in the order of the keys. A key
/// without a node gives no record; a node whose record has another form
/// makes the whole list fail.
pub open spec fn records_at<T: Record>(g: GraphState, keys: Seq<NodeId>) -> Option<Seq<Seq<(Seq<char>, Scalar)>>>
    decreases keys.len(),
{
    if keys.len() == 0 {
        Some(Seq::empty())
    } else {
        match records_at::<T>(g, keys.drop_last()) {
            None => None,
            Some(before) => if !g.nodes.contains_key(keys.last()) {
                Some(before)
            } else if T::shaped(g.nodes[keys.last()]) {
                Some(before.push(g.nodes[keys.last()]))
            } else {
                None
            },
        }
    }
}

/// What a failed read of a list of records says.
pub open spec fn misshaped() -> Seq<char> {
    "a stored record has another form"@
}

/// Whether a list of records read from the graph is what is stored there.
pub open spec fn reads_all<T: Record>(r: Result<Vec<T>, StoreFailure>, g: GraphState, keys: Seq<NodeId>) -> bool {
    match records_at::<T>(g, keys) {
        None => match r {
            Err(e) => e.message@ == misshaped(),
            Ok(_) => false,
        },
        Some(stored) => match r {
            Ok(records) => fields_of(records@) == stored,
            Err(_) => false,
        },
    }
}

/// Reads the records stored under a list of keys.
pub fn read_all<T: Record>(graph: &Graph, keys: &Vec<NodeKey>) -> (r: Result<Vec<T>, StoreFailure>)
    requires
        graph.wf(),
    ensures
        reads_all(r, graph@, node_ids(keys@)),
{
    let mut records: Vec<T> = Vec::new();
    let mut i: usize = 0;
    proof {
        assert(node_ids(keys@.take(0)) =~= Seq::<NodeId>::empty());
        assert(fields_of(records@) =~= Seq::<Seq<(Seq<char>, Scalar)>>::empty());
    }
    while i < keys.len()
        invariant
            graph.wf(),
            i <= keys.len(),
            records_at::<T>(graph@, node_ids(keys@.take(i as int))) == Some(fields_of(records@)),
        decreases keys.len() - i,
    {
        proof {
            assert(node_ids(keys@.take(i + 1)).drop_last() =~= node_ids(keys@.take(i as int)));
            assert(node_ids(keys@.take(i + 1)).last() == keys@[i as int]@);
        }
        match graph.properties(&keys[i]) {
            None => {},
            Some(props) => match T::decode(&props) {
                Some(record) => {
                    proof {
                        assert(fields_of(records@.push(record)) =~= fields_of(records@).push(record.fields()));
                    }
                    records.push(record);
                },
                None => {
                    proof {
                        records_fail_for_good::<T>(graph@, node_ids(keys@), i + 1);
                    }
                    return Err(StoreFailure { message: String::from_str("a stored record has another form") });
                },
            },
        }
        i = i + 1;
    }
    proof {
        assert(keys@.take(keys.len() as int) =~= keys@);
    }
    Ok(records)
}

/// Once the records under the first keys fail, the records under all keys fail.
pub proof fn records_fail_for_good<T: Record>(g: GraphState, keys: Seq<NodeId>, n: int)
    requires
        0 <= n <= keys.len(),
        records_at::<T>(g, keys.take(n)).is_none(),
    ensures
        records_at::<T>(g, keys).is_none(),
    decreases keys.len() - n,
{
    if n < keys.len() {
        assert(keys.take(n + 1).drop_last() =~= keys.take(n));
        records_fail_for_good::<T>(g, keys, n + 1);
    } else {
        assert(keys.take(n) =~= keys);
    }
}

/// The first items of a list up to a limit, or all of them without one.
pub open spec fn limited<A>(items: Seq<A>, limit: Option<usize>) -> Seq<A> {
    match limit {
        Some(n) => if n < items.len() {
            items.take(n as int)
        } else {
            items
        },
        None => items,
    }
}

/// Cuts a list of keys down to a limit.
pub fn first_keys(keys: Vec<NodeKey>, limit: Option<usize>) -> (r: Vec<NodeKey>)
    ensures
        node_ids(r@) == limited(node_ids(keys@), limit),
{
    let mut r = keys;
    match limit {
        Some(n) => {
            if n < r.len() {
                r.truncate(n);
                proof {
                    assert(node_ids(r@) =~= node_ids(keys@).take(n as int));
                }
            }
        },
        None => {},
    }
    r
}

/// One page of a list: what is left after `skip` items, up to `limit` items.
pub open spec fn page_of<A>(items: Seq<A>, skip: usize, limit: usize) -> Seq<A> {
    if skip >= items.len() {
        Seq::empty()
    } else if limit < items.len() - skip {
        items.subrange(skip as int, skip + limit)
    } else {
        items.skip(skip as int)
    }
}

/// Cuts one page out of a list of keys.
pub fn page_keys(keys: &Vec<NodeKey>, skip: usize, limit: usize) -> (r: Vec<NodeKey>)
    ensures
        node_ids(r@) == page_of(node_ids(keys@), skip, limit),
{
    let mut r: Vec<NodeKey> = Vec::new();
    if skip >= keys.len() {
        proof {
            assert(node_ids(r@) =~= Seq::<NodeId>::empty());
        }
        return r;
    }
    let end: usize = if limit < keys.len() - skip {
        skip + limit
    } else {
        keys.len()
    };
    let mut i: usize = skip;
    proof {
        assert(node_ids(r@) =~= node_ids(keys@).subrange(skip as int, skip as int));
    }
    while i < end
        invariant
            skip <= i <= end <= keys.len(),
            node_ids(r@) == node_ids(keys@).subrange(skip as int, i as int),
        decreases end - i,
    {
        let key = keys[i].duplicate();
        proof {
            assert(node_ids(r@.push(key)) =~= node_ids(r@).push(key@));
            assert(node_ids(keys@)[i as int] == key@);
            assert(node_ids(keys@).subrange(skip as int, i as int).push(key@) =~= node_ids(keys@).subrange(
                skip as int,
                i + 1,
            ));
        }
        r.push(key);
        i = i + 1;
    }
    proof {
        if limit >= keys.len() - skip {
            assert(node_ids(keys@).subrange(skip as int, keys.len() as int) =~= node_ids(keys@).skip(skip as int));
        }
    }
    r
}

/// Cuts one page out of a list of records.
pub fn page_records<T: Record>(items: &Vec<T>, skip: usize, limit: usize) -> (r: Vec<T>)
    ensures
        fields_of(r@) == page_of(fields_of(items@), skip, limit),
{
    let mut r: Vec<T> = Vec::new();
    if skip >= items.len() {
        proof {
            assert(fields_of(r@) =~= Seq::<Seq<(Seq<char>, Scalar)>>::empty());
        }
        return r;
    }
    let end: usize = if limit < items.len() - skip {
        skip + limit
    } else {
        items.len()
    };
    let mut i: usize = skip;
    proof {
        assert(fields_of(r@) =~= fields_of(items@).subrange(skip as int, skip as int));
    }
    while i < end
        invariant
            skip <= i <= end <= items.len(),
            fields_of(r@) == fields_of(items@).subrange(skip as int, i as int),
        decreases end - i,
    {
        let item = items[i].duplicate();
        proof {
            assert(fields_of(r@.push(item)) =~= fields_of(r@).push(item.fields()));
            assert(fields_of(items@)[i as int] == item.fields());
            assert(fields_of(items@).subrange(skip as int, i as int).push(item.fields()) =~= fields_of(
                items@,
            ).subrange(skip as int, i + 1));
        }
        r.push(item);
        i = i + 1;
    }
    proof {
        if limit >= items.len() - skip {
            assert(fields_of(items@).subrange(skip as int, items.len() as int) =~= fields_of(items@).skip(
                skip as int,
            ));
        }
    }
    r
}

} // verus!
