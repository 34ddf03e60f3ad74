//! Inbound calendars.

use vstd::prelude::*;
use crate::calendar::{
    author_ids, calendar_missing, calendar_write_of, normalized_calendar, CalendarDetails, CalendarPayload,
};
use crate::clock::now_millis;
use crate::graph::{NodeId, NodeKey};
use crate::indexer::{after_index, after_removal, Indexer, IndexerState};
use crate::ingest::{put, put_result, result_view, Failure, IngestError};
use crate::reference::ResourceKind;
use crate::text::views;

verus! {

/// What indexing a published calendar at a given time does to the indexer,
/// and how it ends. A calendar depends on no other object, so a refused
/// write is dropped for good.
pub open spec fn calendar_put(
    s: IndexerState,
    p: CalendarPayload,
    author_id: Seq<char>,
    calendar_id: Seq<char>,
    at: i64,
) -> (IndexerState, Result<(), Failure>) {
    match calendar_missing(p) {
        Some(field) => (s, Err(Failure::Validation(field))),
        None => {
            let w = calendar_write_of(
                author_id,
                calendar_id,
                normalized_calendar(p, author_id, calendar_id, at),
                author_ids(p.x_pubky_authors),
            );
            (after_index(s, w), put_result(s, w, Seq::empty(), ResourceKind::Calendar))
        },
    }
}

/// Indexes a published calendar as of a given time.
pub fn sync_put_at(
    indexer: &mut Indexer,
    calendar: CalendarPayload,
    author_id: &str,
    calendar_id: &str,
    indexed_at: i64,
) -> (r: Result<(), IngestError>)
    requires
        old(indexer).wf(),
    ensures
        final(indexer).wf(),
        (final(indexer)@, result_view(r)) == calendar_put(old(indexer)@, calendar, author_id@, calendar_id@, indexed_at),
{
    let details = match CalendarDetails::normalize(calendar, author_id, calendar_id, indexed_at) {
        Ok(details) => details,
        Err(e) => {
            return Err(IngestError::Validation(e));
        },
    };
    let req = details.write_request();
    let uris: Vec<String> = Vec::new();
    proof {
        assert(views(uris@) =~= Seq::<Seq<char>>::empty());
    }
    put(indexer, &req, &uris, ResourceKind::Calendar)
}

/// Indexes a published calendar as of now.
pub fn sync_put(indexer: &mut Indexer, calendar: CalendarPayload, author_id: &str, calendar_id: &str) -> (r: Result<
    (),
    IngestError,
>)
    requires
        old(indexer).wf(),
    ensures
        final(indexer).wf(),
        exists|at: i64|
            (final(indexer)@, result_view(r)) == calendar_put(old(indexer)@, calendar, author_id@, calendar_id@, at),
{
    sync_put_at(indexer, calendar, author_id, calendar_id, now_millis())
}

/// Deletes a calendar: from the graph first, then from the cache.
pub fn del(indexer: &mut Indexer, author_id: &str, calendar_id: &str)
    requires
        old(indexer).wf(),
    ensures
        final(indexer).wf(),
        final(indexer)@ == after_removal(
            old(indexer)@,
            NodeId { kind: ResourceKind::Calendar, author: author_id@, id: calendar_id@ },
        ),
{
    indexer.delete(&NodeKey::new(ResourceKind::Calendar, author_id, calendar_id));
}

} // verus!
