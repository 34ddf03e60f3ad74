//! What follows a graph write: the cache refresh where it went through, the
//! keys to wait for where a dependency is missing, and the errors in between.

use vstd::prelude::*;
use vstd::string::*;
use crate::cache::StoreFailure;
use crate::errors::ValidationError;
use crate::graph::{writable, Outcome, WriteRequest, WriteView};
use crate::indexer::{after_index, choose_refresh, refresh_after, Indexer, IndexerState, Refresh};
use crate::reference::{resolve_expecting, resolved_as, ResourceKind};
use crate::text::views;

verus! {

/// The author and the id of an object that a write waits for.
#[derive(Debug)]
pub struct DependencyKey {
    pub author_id: String,
    pub resource_id: String,
}

impl View for DependencyKey {
    type V = (Seq<char>, Seq<char>);

    open spec fn view(&self) -> (Seq<char>, Seq<char>) {
        (self.author_id@, self.resource_id@)
    }
}

/// The mathematical values of a list of keys.
pub open spec fn keys_view(keys: Seq<DependencyKey>) -> Seq<(Seq<char>, Seq<char>)> {
    keys.map_values(|k: DependencyKey| k@)
}

/// Why an inbound object was not indexed.
#[derive(Debug)]
pub enum IngestError {
    /// A required field is missing; the object is dropped for good.
    Validation(ValidationError),
    /// Objects that this one refers to are not indexed yet; the object is to
    /// be handed in again once they are.
    MissingDependency(Vec<DependencyKey>),
    /// The object can never be indexed and is dropped without retry.
    SkipIndexing,
    /// The graph was written but the cache was not.
    IndexWriteFailed(String),
    /// The graph store failed; the attempt is lost.
    GraphQuery(String),
}

/// The mathematical value of an [`IngestError`].
pub enum Failure {
    Validation(Seq<char>),
    MissingDependency(Seq<(Seq<char>, Seq<char>)>),
    SkipIndexing,
    IndexWriteFailed(Seq<char>),
    GraphQuery(Seq<char>),
}

impl View for IngestError {
    type V = Failure;

    open spec fn view(&self) -> Failure {
        match self {
            IngestError::Validation(e) => Failure::Validation(e.field@),
            IngestError::MissingDependency(keys) => Failure::MissingDependency(keys_view(keys@)),
            IngestError::SkipIndexing => Failure::SkipIndexing,
            IngestError::IndexWriteFailed(m) => Failure::IndexWriteFailed(m@),
            IngestError::GraphQuery(m) => Failure::GraphQuery(m@),
        }
    }
}

/// The mathematical value of a handler's result.
pub open spec fn result_view(r: Result<(), IngestError>) -> Result<(), Failure> {
    match r {
        Ok(_) => Ok(()),
        Err(e) => Err(e@),
    }
}

/// The keys of those references of a list that name an object of the given
/// kind, in the order of the list.
pub open spec fn dependency_keys_of(uris: Seq<Seq<char>>, kind: ResourceKind) -> Seq<(Seq<char>, Seq<char>)>
    decreases uris.len(),
{
    if uris.len() == 0 {
        Seq::empty()
    } else {
        let before = dependency_keys_of(uris.drop_last(), kind);
        match resolved_as(uris.last(), kind) {
            Ok(r) => before.push((r.author_id, r.resource_id)),
            Err(_) => before,
        }
    }
}

/// Derives the key of each referenced object from its reference. A
/// reference that cannot be resolved to the given kind gives no key.
pub fn dependency_keys(uris: &Vec<String>, kind: ResourceKind) -> (keys: Vec<DependencyKey>)
    ensures
        keys_view(keys@) == dependency_keys_of(views(uris@), kind),
{
    let mut keys: Vec<DependencyKey> = Vec::new();
    let mut i: usize = 0;
    proof {
        assert(views(uris@.take(0)) =~= Seq::<Seq<char>>::empty());
        assert(keys_view(keys@) =~= dependency_keys_of(views(uris@.take(0)), kind));
    }
    while i < uris.len()
        invariant
            i <= uris.len(),
            keys_view(keys@) == dependency_keys_of(views(uris@.take(i as int)), kind),
        decreases uris.len() - i,
    {
        proof {
            assert(views(uris@.take(i + 1)).drop_last() =~= views(uris@.take(i as int)));
            assert(views(uris@.take(i + 1)).last() == uris@[i as int]@);
        }
        match resolve_expecting(uris[i].as_str(), kind) {
            Ok(found) => {
                let key = DependencyKey { author_id: found.author_id, resource_id: found.resource_id };
                proof {
                    assert(keys_view(keys@.push(key)) =~= keys_view(keys@).push(key@));
                }
                keys.push(key);
            },
            Err(_) => {},
        }
        i = i + 1;
    }
    proof {
        assert(uris@.take(uris.len() as int) =~= uris@);
    }
    keys
}

/// What a write with a missing dependency ends in: a retry once the keyed
/// objects are there, or, where no key could be derived, a drop for good.
pub open spec fn unmet(keys: Seq<(Seq<char>, Seq<char>)>) -> Failure {
    if keys.len() == 0 {
        Failure::SkipIndexing
    } else {
        Failure::MissingDependency(keys)
    }
}

/// The error for a write with a missing dependency.
pub fn missing_dependencies(keys: Vec<DependencyKey>) -> (e: IngestError)
    ensures
        e@ == unmet(keys_view(keys@)),
{
    if keys.len() == 0 {
        IngestError::SkipIndexing
    } else {
        IngestError::MissingDependency(keys)
    }
}

/// How the store's answer to a write reads: no row means that a required
/// match found nothing, a row tells whether the node existed before.
pub fn outcome_of_row(flag: Option<bool>) -> (out: Outcome)
    ensures
        out == match flag {
            None => Outcome::MissingDependency,
            Some(true) => Outcome::Updated,
            Some(false) => Outcome::Created,
        },
{
    match flag {
        None => Outcome::MissingDependency,
        Some(true) => Outcome::Updated,
        Some(false) => Outcome::Created,
    }
}

/// What follows a write: the refresh of the cache where it went through,
/// and for a missing dependency the error that carries the keys.
pub open spec fn next_step(
    outcome: Outcome,
    synchronized: bool,
    uris: Seq<Seq<char>>,
    kind: ResourceKind,
) -> Result<Refresh, Failure> {
    match refresh_after(outcome, synchronized) {
        Some(step) => Ok(step),
        None => Err(unmet(dependency_keys_of(uris, kind))),
    }
}

/// Decides what follows a write, given how it ended, whether it brought
/// edge sets in line, and the references that the object depends on.
pub fn settle_write(outcome: Outcome, synchronized: bool, uris: &Vec<String>, kind: ResourceKind) -> (r: Result<
    Refresh,
    IngestError,
>)
    ensures
        match next_step(outcome, synchronized, views(uris@), kind) {
            Ok(step) => r == Ok::<Refresh, IngestError>(step),
            Err(f) => r.is_err() && r.unwrap_err()@ == f,
        },
{
    match choose_refresh(outcome, synchronized) {
        Some(step) => Ok(step),
        None => Err(missing_dependencies(dependency_keys(uris, kind))),
    }
}

/// What the graph's answer to a write ends in: a failure of the store is
/// handed on as it is, and the attempt is lost.
pub fn settle_graph(done: Result<Outcome, StoreFailure>) -> (r: Result<Outcome, IngestError>)
    ensures
        match done {
            Ok(outcome) => r == Ok::<Outcome, IngestError>(outcome),
            Err(cause) => r.is_err() && r.unwrap_err()@ == Failure::GraphQuery(cause.message@),
        },
{
    match done {
        Ok(outcome) => Ok(outcome),
        Err(cause) => Err(IngestError::GraphQuery(cause.message)),
    }
}

/// The message of a failed cache refresh: what was refreshed, then the
/// store's own words.
pub open spec fn refresh_message(what: Seq<char>, cause: Seq<char>) -> Seq<char> {
    what + " index write failed - "@ + cause
}

/// What a cache refresh ends in: a failure of the cache is reported, and
/// the graph write before it stands.
pub fn settle_refresh(what: &str, done: Result<(), StoreFailure>) -> (r: Result<(), IngestError>)
    ensures
        result_view(r) == match done {
            Ok(_) => Ok::<(), Failure>(()),
            Err(cause) => Err(Failure::IndexWriteFailed(refresh_message(what@, cause.message@))),
        },
{
    match done {
        Ok(()) => Ok(()),
        Err(cause) => {
            let message = String::from_str(what).concat(" index write failed - ").concat(cause.message.as_str());
            Err(IngestError::IndexWriteFailed(message))
        },
    }
}

/// How a write through the indexer ends for the handler.
pub open spec fn put_result(s: IndexerState, w: WriteView, uris: Seq<Seq<char>>, kind: ResourceKind) -> Result<
    (),
    Failure,
> {
    if writable(s.graph, w) {
        Ok(())
    } else {
        Err(unmet(dependency_keys_of(uris, kind)))
    }
}

/// Writes an object through the indexer and settles what follows: the
/// cache is refreshed where the write went through; where a dependency is
/// missing nothing changes and the keys to wait for are reported.
pub fn put(indexer: &mut Indexer, req: &WriteRequest, uris: &Vec<String>, kind: ResourceKind) -> (r: Result<
    (),
    IngestError,
>)
    requires
        old(indexer).wf(),
    ensures
        final(indexer).wf(),
        final(indexer)@ == after_index(old(indexer)@, req@),
        result_view(r) == put_result(old(indexer)@, req@, views(uris@), kind),
{
    match indexer.index(req) {
        Outcome::MissingDependency => Err(missing_dependencies(dependency_keys(uris, kind))),
        _ => Ok(()),
    }
}

} // verus!
