//! Inbound events.

use vstd::prelude::*;
use crate::clock::now_millis;
use crate::event::{calendar_uris, event_missing, event_write_of, normalized_event, EventDetails, EventPayload};
use crate::graph::{NodeId, NodeKey};
use crate::indexer::{after_index, after_removal, Indexer, IndexerState};
use crate::ingest::{put, put_result, result_view, Failure, IngestError};
use crate::reference::ResourceKind;
use crate::text::views;

verus! {

/// What indexing a published event at a given time does to the indexer,
/// and how it ends. Where the write is refused, the calendars that the
/// event names are the objects to wait for.
pub open spec fn event_put(s: IndexerState, p: EventPayload, author_id: Seq<char>, event_id: Seq<char>, at: i64) -> (
    IndexerState,
    Result<(), Failure>,
) {
    match event_missing(p) {
        Some(field) => (s, Err(Failure::Validation(field))),
        None => {
            let uris = calendar_uris(p.x_pubky_calendar_uris);
            let w = event_write_of(author_id, event_id, normalized_event(p, author_id, event_id, at), uris);
            (after_index(s, w), put_result(s, w, uris, ResourceKind::Calendar))
        },
    }
}

/// Indexes a published event as of a given time.
pub fn sync_put_at(indexer: &mut Indexer, event: EventPayload, author_id: &str, event_id: &str, indexed_at: i64) -> (r:
    Result<(), IngestError>)
    requires
        old(indexer).wf(),
    ensures
        final(indexer).wf(),
        (final(indexer)@, result_view(r)) == event_put(old(indexer)@, event, author_id@, event_id@, indexed_at),
{
    let details = match EventDetails::normalize(event, author_id, event_id, indexed_at) {
        Ok(details) => details,
        Err(e) => {
            return Err(IngestError::Validation(e));
        },
    };
    let req = details.write_request();
    match &details.x_pubky_calendar_uris {
        Some(uris) => put(indexer, &req, uris, ResourceKind::Calendar),
        None => {
            let uris: Vec<String> = Vec::new();
            proof {
                assert(views(uris@) =~= Seq::<Seq<char>>::empty());
            }
            put(indexer, &req, &uris, ResourceKind::Calendar)
        },
    }
}

/// Indexes a published event as of now.
pub fn sync_put(indexer: &mut Indexer, event: EventPayload, author_id: &str, event_id: &str) -> (r: Result<
    (),
    IngestError,
>)
    requires
        old(indexer).wf(),
    ensures
        final(indexer).wf(),
        exists|at: i64| (final(indexer)@, result_view(r)) == event_put(old(indexer)@, event, author_id@, event_id@, at),
{
    sync_put_at(indexer, event, author_id, event_id, now_millis())
}

/// Deletes an event: from the graph first, then from the cache.
pub fn del(indexer: &mut Indexer, author_id: &str, event_id: &str)
    requires
        old(indexer).wf(),
    ensures
        final(indexer).wf(),
        final(indexer)@ == after_removal(
            old(indexer)@,
            NodeId { kind: ResourceKind::Event, author: author_id@, id: event_id@ },
        ),
{
    indexer.delete(&NodeKey::new(ResourceKind::Event, author_id, event_id));
}

} // verus!
