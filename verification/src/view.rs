//! Composed views: a record joined with the collections that hang on it.

use vstd::prelude::*;
use vstd::string::*;
use crate::attendee::{answer_keys, AttendeeDetails};
use crate::cache::StoreFailure;
use crate::calendar::{calendar_node, calendar_shaped, CalendarDetails};
use crate::event::{event_node, event_shaped, EventDetails};
use crate::graph::{node_ids, sources_of, Edge, EdgeKind, NodeId, NodeKey};
use crate::indexer::{after_read, found, Indexer};
use crate::listing::{fields_of, first_keys, limited, misshaped, records_at};
use crate::reference::{build_uri, uri_text, ResourceKind};
use crate::tag::TagDetails;
use crate::text::views;
use crate::value::Scalar;

verus! {

/// A calendar with its tags and the references to the events in it.
#[derive(Debug)]
pub struct CalendarView {
    pub details: CalendarDetails,
    pub tags: Vec<TagDetails>,
    pub events: Vec<String>,
}

/// An event with its tags and the answers to it.
#[derive(Debug)]
pub struct EventView {
    pub details: EventDetails,
    pub tags: Vec<TagDetails>,
    pub attendees: Vec<AttendeeDetails>,
}

/// What was fetched for one facet of a view: the collection, nothing, or
/// the failure of the fetch.
pub type Fetched<T> = Result<Option<Vec<T>>, StoreFailure>;

/// The items that a facet shows: what was fetched, and nothing where
/// nothing was found or the fetch failed.
pub open spec fn facet_items<T>(fetched: Fetched<T>) -> Seq<T> {
    match fetched {
        Ok(Some(items)) => items@,
        _ => Seq::empty(),
    }
}

/// The failures that a facet suppresses, to be logged.
pub open spec fn facet_failures<T>(fetched: Fetched<T>) -> Seq<Seq<char>> {
    match fetched {
        Err(failure) => seq![failure.message@],
        _ => Seq::empty(),
    }
}

/// The messages of a list of suppressed failures.
pub open spec fn messages(log: Seq<String>) -> Seq<Seq<char>> {
    log.map_values(|m: String| m@)
}

/// Takes the items of one facet and notes a failed fetch in the log.
pub fn facet<T>(fetched: Fetched<T>, log: &mut Vec<String>) -> (items: Vec<T>)
    ensures
        items@ == facet_items(fetched),
        messages(final(log)@) == messages(old(log)@) + facet_failures(fetched),
{
    match fetched {
        Ok(Some(items)) => {
            proof {
                assert(messages(log@) + Seq::<Seq<char>>::empty() =~= messages(log@));
            }
            items
        },
        Ok(None) => {
            proof {
                assert(messages(log@) + Seq::<Seq<char>>::empty() =~= messages(log@));
            }
            Vec::new()
        },
        Err(failure) => {
            proof {
                assert(messages(log@.push(failure.message)) =~= messages(log@) + seq![failure.message@]);
            }
            log.push(failure.message);
            Vec::new()
        },
    }
}

impl EventView {
    /// Joins an event with its tags and the answers to it. Without the
    /// event there is no view, whatever else was fetched. A facet whose
    /// fetch failed is shown empty, and its failure is handed back to be
    /// logged.
    pub fn compose(details: Option<EventDetails>, tags: Fetched<TagDetails>, attendees: Fetched<AttendeeDetails>) -> (r: (
        Option<EventView>,
        Vec<String>,
    ))
        ensures
            r.0.is_some() == details.is_some(),
            details.is_none() ==> r.1@.len() == 0,
            details.is_some() ==> {
                &&& r.0.unwrap().details == details.unwrap()
                &&& r.0.unwrap().tags@ == facet_items(tags)
                &&& r.0.unwrap().attendees@ == facet_items(attendees)
                &&& messages(r.1@) == facet_failures(tags) + facet_failures(attendees)
            },
    {
        let mut log: Vec<String> = Vec::new();
        match details {
            None => (None, log),
            Some(details) => {
                proof {
                    assert(messages(log@) =~= Seq::<Seq<char>>::empty());
                }
                let tags = facet(tags, &mut log);
                let attendees = facet(attendees, &mut log);
                (Some(EventView { details, tags, attendees }), log)
            },
        }
    }
}

impl CalendarView {
    /// Joins a calendar with its tags and the references to its events.
    /// Without the calendar there is no view, whatever else was fetched. A
    /// facet whose fetch failed is shown empty, and its failure is handed
    /// back to be logged.
    pub fn compose(details: Option<CalendarDetails>, tags: Fetched<TagDetails>, events: Fetched<String>) -> (r: (
        Option<CalendarView>,
        Vec<String>,
    ))
        ensures
            r.0.is_some() == details.is_some(),
            details.is_none() ==> r.1@.len() == 0,
            details.is_some() ==> {
                &&& r.0.unwrap().details == details.unwrap()
                &&& r.0.unwrap().tags@ == facet_items(tags)
                &&& r.0.unwrap().events@ == facet_items(events)
                &&& messages(r.1@) == facet_failures(tags) + facet_failures(events)
            },
    {
        let mut log: Vec<String> = Vec::new();
        match details {
            None => (None, log),
            Some(details) => {
                proof {
                    assert(messages(log@) =~= Seq::<Seq<char>>::empty());
                }
                let tags = facet(tags, &mut log);
                let events = facet(events, &mut log);
                (Some(CalendarView { details, tags, events }), log)
            },
        }
    }
}

/// The references to the events of a calendar, up to a limit: one for
/// each edge from an event to the calendar, in the order in which the edges
/// are stored.
pub open spec fn event_uris_of(edges: Seq<Edge>, author_id: Seq<char>, calendar_id: Seq<char>, limit: Option<usize>) -> Seq<
    Seq<char>,
> {
    limited(sources_of(edges, EdgeKind::BelongsTo, calendar_node(author_id, calendar_id)), limit).map_values(
        |k: NodeId| uri_text(k.author, k.kind, k.id),
    )
}

/// The answers to an event that its view shows: those that the graph
/// holds, and none where one of their records has another form.
pub open spec fn shown_answers(x: &Indexer, author_id: Seq<char>, event_id: Seq<char>, limit: Option<usize>) -> Seq<
    Seq<(Seq<char>, Scalar)>,
> {
    match records_at::<AttendeeDetails>(x@.graph, answer_keys(x.graph.edges@, author_id, event_id, limit)) {
        Some(records) => records,
        None => Seq::empty(),
    }
}

/// The failure that the view of an event suppresses for its answers.
pub open spec fn answers_failure(x: &Indexer, author_id: Seq<char>, event_id: Seq<char>, limit: Option<usize>) -> Seq<
    Seq<char>,
> {
    match records_at::<AttendeeDetails>(x@.graph, answer_keys(x.graph.edges@, author_id, event_id, limit)) {
        Some(_) => Seq::empty(),
        None => seq![misshaped()],
    }
}

impl CalendarView {
    /// The references to the events of a calendar, up to a limit.
    pub fn get_event_uris(indexer: &Indexer, author_id: &str, calendar_id: &str, limit: Option<usize>) -> (r: Vec<String>)
        ensures
            views(r@) == event_uris_of(indexer.graph.edges@, author_id@, calendar_id@, limit),
    {
        let calendar = NodeKey::new(ResourceKind::Calendar, author_id, calendar_id);
        let keys = first_keys(indexer.graph.sources(EdgeKind::BelongsTo, &calendar), limit);
        let mut uris: Vec<String> = Vec::new();
        let mut i: usize = 0;
        let ghost ids = node_ids(keys@);
        proof {
            assert(views(uris@) =~= ids.take(0).map_values(|k: NodeId| uri_text(k.author, k.kind, k.id)));
        }
        while i < keys.len()
            invariant
                i <= keys.len(),
                ids == node_ids(keys@),
                views(uris@) == ids.take(i as int).map_values(|k: NodeId| uri_text(k.author, k.kind, k.id)),
            decreases keys.len() - i,
        {
            let uri = build_uri(keys[i].author.as_str(), keys[i].kind, keys[i].id.as_str());
            proof {
                assert(ids[i as int] == keys@[i as int]@);
                assert(views(uris@.push(uri)) =~= views(uris@).push(uri@));
                assert(ids.take(i + 1).map_values(|k: NodeId| uri_text(k.author, k.kind, k.id)) =~= ids.take(
                    i as int,
                ).map_values(|k: NodeId| uri_text(k.author, k.kind, k.id)).push(uri@));
            }
            uris.push(uri);
            i = i + 1;
        }
        proof {
            assert(ids.take(keys.len() as int) =~= ids);
        }
        uris
    }

    /// The view of a calendar with the given tags and the references to
    /// its events, up to a limit. The calendar is read through the cache;
    /// without it there is no view.
    pub fn get_by_id_with_events(
        indexer: &mut Indexer,
        author_id: &str,
        calendar_id: &str,
        tags: Fetched<TagDetails>,
        limit_events: Option<usize>,
    ) -> (r: Result<(Option<CalendarView>, Vec<String>), StoreFailure>)
        requires
            old(indexer).wf(),
        ensures
            final(indexer).wf(),
            final(indexer)@ == after_read(old(indexer)@, calendar_node(author_id@, calendar_id@)),
            match found(old(indexer)@, calendar_node(author_id@, calendar_id@)) {
                None => r.is_ok() && r.unwrap().0.is_none() && r.unwrap().1@.len() == 0,
                Some(record) => if calendar_shaped(record) {
                    &&& r.is_ok()
                    &&& r.unwrap().0.is_some()
                    &&& r.unwrap().0.unwrap().details@ == record
                    &&& r.unwrap().0.unwrap().tags@ == facet_items(tags)
                    &&& views(r.unwrap().0.unwrap().events@) == event_uris_of(
                        old(indexer).graph.edges@,
                        author_id@,
                        calendar_id@,
                        limit_events,
                    )
                    &&& messages(r.unwrap().1@) == facet_failures(tags)
                } else {
                    r.is_err()
                },
            },
    {
        let events = CalendarView::get_event_uris(indexer, author_id, calendar_id, limit_events);
        let details = match CalendarDetails::get_by_id(indexer, author_id, calendar_id) {
            Ok(details) => details,
            Err(e) => {
                return Err(e);
            },
        };
        let composed = CalendarView::compose(details, tags, Ok(Some(events)));
        proof {
            assert(facet_failures(tags) + Seq::<Seq<char>>::empty() =~= facet_failures(tags));
        }
        Ok(composed)
    }

    /// The view of a calendar with the given tags and the references to
    /// its first hundred events.
    pub fn get_by_id(indexer: &mut Indexer, author_id: &str, calendar_id: &str, tags: Fetched<TagDetails>) -> (r: Result<
        (Option<CalendarView>, Vec<String>),
        StoreFailure,
    >)
        requires
            old(indexer).wf(),
        ensures
            final(indexer).wf(),
            final(indexer)@ == after_read(old(indexer)@, calendar_node(author_id@, calendar_id@)),
            match found(old(indexer)@, calendar_node(author_id@, calendar_id@)) {
                None => r.is_ok() && r.unwrap().0.is_none() && r.unwrap().1@.len() == 0,
                Some(record) => if calendar_shaped(record) {
                    &&& r.is_ok()
                    &&& r.unwrap().0.is_some()
                    &&& r.unwrap().0.unwrap().details@ == record
                    &&& r.unwrap().0.unwrap().tags@ == facet_items(tags)
                    &&& views(r.unwrap().0.unwrap().events@) == event_uris_of(
                        old(indexer).graph.edges@,
                        author_id@,
                        calendar_id@,
                        Some(DEFAULT_EVENT_LIMIT),
                    )
                    &&& messages(r.unwrap().1@) == facet_failures(tags)
                } else {
                    r.is_err()
                },
            },
    {
        CalendarView::get_by_id_with_events(indexer, author_id, calendar_id, tags, Some(DEFAULT_EVENT_LIMIT))
    }
}

/// The number of events that the view of a calendar shows where the
/// caller names no limit.
pub const DEFAULT_EVENT_LIMIT: usize = 100;

impl EventView {
    /// The view of an event with the given tags and the answers to it, up
    /// to a limit. The event is read through the cache; without it there
    /// is no view. Where the answers cannot be read they are shown empty
    /// and the failure is handed back to be logged.
    pub fn get_by_id(
        indexer: &mut Indexer,
        author_id: &str,
        event_id: &str,
        tags: Fetched<TagDetails>,
        limit_attendees: Option<usize>,
    ) -> (r: Result<(Option<EventView>, Vec<String>), StoreFailure>)
        requires
            old(indexer).wf(),
        ensures
            final(indexer).wf(),
            final(indexer)@ == after_read(old(indexer)@, event_node(author_id@, event_id@)),
            match found(old(indexer)@, event_node(author_id@, event_id@)) {
                None => r.is_ok() && r.unwrap().0.is_none() && r.unwrap().1@.len() == 0,
                Some(record) => if event_shaped(record) {
                    &&& r.is_ok()
                    &&& r.unwrap().0.is_some()
                    &&& r.unwrap().0.unwrap().details@ == record
                    &&& r.unwrap().0.unwrap().tags@ == facet_items(tags)
                    &&& fields_of(r.unwrap().0.unwrap().attendees@) == shown_answers(
                        old(indexer),
                        author_id@,
                        event_id@,
                        limit_attendees,
                    )
                    &&& messages(r.unwrap().1@) == facet_failures(tags) + answers_failure(
                        old(indexer),
                        author_id@,
                        event_id@,
                        limit_attendees,
                    )
                } else {
                    r.is_err()
                },
            },
    {
        let attendees = AttendeeDetails::get_for_event(indexer, author_id, event_id, limit_attendees);
        let details = match EventDetails::get_by_id(indexer, author_id, event_id) {
            Ok(details) => details,
            Err(e) => {
                return Err(e);
            },
        };
        proof {
            assert(fields_of(Seq::<AttendeeDetails>::empty()) =~= Seq::<Seq<(Seq<char>, Scalar)>>::empty());
        }
        Ok(EventView::compose(details, tags, attendees))
    }
}

} // verus!
