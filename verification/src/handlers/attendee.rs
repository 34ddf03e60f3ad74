//! Inbound answers to invitations.

use vstd::prelude::*;
use crate::attendee::{attendee_missing, attendee_write_of, normalized_attendee, AttendeeDetails, AttendeePayload};
use crate::clock::now_millis;
use crate::graph::{hard_edges, hard_present, link_edge, user_node, writable, EdgeId, EdgeKind, NodeId, NodeKey};
use crate::indexer::{after_index, after_removal, Indexer, IndexerState};
use crate::ingest::{dependency_keys_of, put, put_result, result_view, Failure, IngestError};
use crate::reference::{resolved_as, ReferenceError, ReferenceView, ResourceKind};
use crate::text::views;

verus! {

/// What indexing a published answer at a given time does to the indexer,
/// and how it ends. An answer whose reference to its event cannot be
/// resolved is dropped for good; where the write is refused, the event is
/// the object to wait for.
pub open spec fn attendee_put(
    s: IndexerState,
    p: AttendeePayload,
    author_id: Seq<char>,
    attendee_id: Seq<char>,
    at: i64,
) -> (IndexerState, Result<(), Failure>) {
    match attendee_missing(p) {
        Some(field) => (s, Err(Failure::Validation(field))),
        None => match attendee_write_of(
            author_id,
            attendee_id,
            normalized_attendee(p, author_id, attendee_id, at),
            p.x_pubky_event_uri@,
        ) {
            Err(_) => (s, Err(Failure::SkipIndexing)),
            Ok(w) => (after_index(s, w), put_result(s, w, seq![p.x_pubky_event_uri@], ResourceKind::Event)),
        },
    }
}

/// Indexes a published answer as of a given time.
pub fn sync_put_at(
    indexer: &mut Indexer,
    attendee: AttendeePayload,
    author_id: &str,
    attendee_id: &str,
    indexed_at: i64,
) -> (r: Result<(), IngestError>)
    requires
        old(indexer).wf(),
    ensures
        final(indexer).wf(),
        (final(indexer)@, result_view(r)) == attendee_put(old(indexer)@, attendee, author_id@, attendee_id@, indexed_at),
{
    let details = match AttendeeDetails::normalize(attendee, author_id, attendee_id, indexed_at) {
        Ok(details) => details,
        Err(e) => {
            return Err(IngestError::Validation(e));
        },
    };
    let req = match details.write_request() {
        Ok(req) => req,
        Err(_) => {
            return Err(IngestError::SkipIndexing);
        },
    };
    let mut uris: Vec<String> = Vec::new();
    uris.push(details.x_pubky_event_uri.clone());
    proof {
        assert(views(uris@) =~= seq![attendee.x_pubky_event_uri@]);
    }
    put(indexer, &req, &uris, ResourceKind::Event)
}

/// Indexes a published answer as of now.
pub fn sync_put(indexer: &mut Indexer, attendee: AttendeePayload, author_id: &str, attendee_id: &str) -> (r: Result<
    (),
    IngestError,
>)
    requires
        old(indexer).wf(),
    ensures
        final(indexer).wf(),
        exists|at: i64|
            (final(indexer)@, result_view(r)) == attendee_put(old(indexer)@, attendee, author_id@, attendee_id@, at),
{
    sync_put_at(indexer, attendee, author_id, attendee_id, now_millis())
}

/// Deletes an answer: from the graph first, then from the cache.
pub fn del(indexer: &mut Indexer, author_id: &str, attendee_id: &str)
    requires
        old(indexer).wf(),
    ensures
        final(indexer).wf(),
        final(indexer)@ == after_removal(
            old(indexer)@,
            NodeId { kind: ResourceKind::Attendee, author: author_id@, id: attendee_id@ },
        ),
{
    indexer.delete(&NodeKey::new(ResourceKind::Attendee, author_id, attendee_id));
}

/// The edge by which an answer points at its event.
pub open spec fn rsvp_edge(
    author_id: Seq<char>,
    attendee_id: Seq<char>,
    event_author: Seq<char>,
    event_id: Seq<char>,
) -> EdgeId {
    EdgeId {
        kind: EdgeKind::RsvpTo,
        from: NodeId { kind: ResourceKind::Attendee, author: author_id, id: attendee_id },
        to: NodeId { kind: ResourceKind::Event, author: event_author, id: event_id },
        label: Seq::empty(),
    }
}

/// Whether a published answer is valid and refers to the given event.
pub open spec fn answers(p: AttendeePayload, event_author: Seq<char>, event_id: Seq<char>) -> bool {
    &&& attendee_missing(p).is_none()
    &&& resolved_as(p.x_pubky_event_uri@, ResourceKind::Event) == Ok::<ReferenceView, ReferenceError>(
        ReferenceView { author_id: event_author, kind: ResourceKind::Event, resource_id: event_id },
    )
}

/// An answer to an event that is not indexed yet changes nothing and is to
/// be handed in again, with the key of the event to wait for.
pub proof fn answer_waits_for_its_event(
    s: IndexerState,
    p: AttendeePayload,
    author_id: Seq<char>,
    attendee_id: Seq<char>,
    at: i64,
    event_author: Seq<char>,
    event_id: Seq<char>,
)
    requires
        answers(p, event_author, event_id),
        !s.graph.nodes.contains_key(NodeId { kind: ResourceKind::Event, author: event_author, id: event_id }),
    ensures
        attendee_put(s, p, author_id, attendee_id, at) == (
            s,
            Err::<(), Failure>(Failure::MissingDependency(seq![(event_author, event_id)])),
        ),
{
    let uris = seq![p.x_pubky_event_uri@];
    let w = attendee_write_of(
        author_id,
        attendee_id,
        normalized_attendee(p, author_id, attendee_id, at),
        p.x_pubky_event_uri@,
    ).unwrap();
    assert(!hard_present(s.graph, w, 1)) by {
        assert(!s.graph.nodes.contains_key(w.hard[0].node));
    }
    assert(uris.drop_last() =~= Seq::<Seq<char>>::empty());
    assert(dependency_keys_of(uris.drop_last(), ResourceKind::Event) =~= Seq::<(Seq<char>, Seq<char>)>::empty());
    assert(dependency_keys_of(uris, ResourceKind::Event) =~= seq![(event_author, event_id)]);
}

/// Once its event and its author are indexed, the same answer goes
/// through: it is created, tied to its event, and cached.
pub proof fn answer_is_indexed_once_its_event_is(
    s: IndexerState,
    p: AttendeePayload,
    author_id: Seq<char>,
    attendee_id: Seq<char>,
    at: i64,
    event_author: Seq<char>,
    event_id: Seq<char>,
)
    requires
        answers(p, event_author, event_id),
        s.graph.nodes.contains_key(NodeId { kind: ResourceKind::Event, author: event_author, id: event_id }),
        s.graph.nodes.contains_key(user_node(author_id)),
    ensures
        attendee_put(s, p, author_id, attendee_id, at).1 == Ok::<(), Failure>(()),
        attendee_put(s, p, author_id, attendee_id, at).0.graph.edges.contains(
            rsvp_edge(author_id, attendee_id, event_author, event_id),
        ),
        attendee_put(s, p, author_id, attendee_id, at).0.cache.contains_key(
            NodeId { kind: ResourceKind::Attendee, author: author_id, id: attendee_id },
        ),
        attendee_put(s, p, author_id, attendee_id, at).0.graph.nodes.contains_key(
            NodeId { kind: ResourceKind::Attendee, author: author_id, id: attendee_id },
        ),
{
    let w = attendee_write_of(
        author_id,
        attendee_id,
        normalized_attendee(p, author_id, attendee_id, at),
        p.x_pubky_event_uri@,
    ).unwrap();
    assert(hard_present(s.graph, w, 1));
    assert(writable(s.graph, w));
    assert(hard_edges(w, 1).contains(link_edge(w.target, w.hard[0])));
}

} // verus!
