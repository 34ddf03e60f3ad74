//! Events: the normalized record and the write that stores it.

use vstd::prelude::*;
use vstd::string::*;
use crate::cache::StoreFailure;
use crate::clock::now_millis;
use crate::errors::{is_blank, ValidationError};
use crate::graph::{
    after_write, keys_of_kind, linked_keys, links_view, node_ids, outcome_of, EdgeId, EdgeKind, Link, LinkView, Node,
    NodeId, NodeKey, Outcome, WriteRequest, WriteView,
};
use crate::indexer::{after_read, after_reindex, after_removal, cached, found, record_view, stored, Indexer};
use crate::listing::{fields_of, misshaped, page_of, page_records, read_all, records_at, Record};
use crate::reference::{build_uri, is_text, resolve_expecting, resolved_as, uri_text, ResourceKind};
use crate::text::{opt_view, views};
use crate::value::{
    clone_opt_string, clone_opt_strings, named_maybe_list, named_maybe_number, named_maybe_small, named_maybe_text,
    named_number, named_text, opt_int, opt_list, opt_small, opt_text, props_view, take_maybe_list, take_maybe_number,
    take_maybe_small, take_maybe_text, take_number, take_text, Property, Scalar,
};

verus! {

/// An event as its homeserver publishes it.
#[derive(Debug)]
pub struct EventPayload {
    pub uid: String,
    pub dtstamp: i64,
    pub dtstart: String,
    pub summary: String,
    pub dtend: Option<String>,
    pub duration: Option<String>,
    pub dtstart_tzid: Option<String>,
    pub dtend_tzid: Option<String>,
    pub rrule: Option<String>,
    pub rdate: Option<Vec<String>>,
    pub exdate: Option<Vec<String>>,
    pub description: Option<String>,
    pub status: Option<String>,
    pub location: Option<String>,
    pub geo: Option<String>,
    pub url: Option<String>,
    pub sequence: Option<i32>,
    pub last_modified: Option<i64>,
    pub created: Option<i64>,
    pub recurrence_id: Option<String>,
    pub image_uri: Option<String>,
    pub styled_description: Option<String>,
    pub x_pubky_calendar_uris: Option<Vec<String>>,
    pub x_pubky_rsvp_access: Option<String>,
}

/// An event as the index holds it.
#[derive(Debug)]
pub struct EventDetails {
    pub id: String,
    pub indexed_at: i64,
    pub author: String,
    pub uri: String,
    pub uid: String,
    pub dtstamp: i64,
    pub dtstart: String,
    pub summary: String,
    pub dtend: Option<String>,
    pub duration: Option<String>,
    pub dtstart_tzid: Option<String>,
    pub dtend_tzid: Option<String>,
    pub rrule: Option<String>,
    pub rdate: Option<Vec<String>>,
    pub exdate: Option<Vec<String>>,
    pub description: Option<String>,
    pub status: Option<String>,
    pub location: Option<String>,
    pub geo: Option<String>,
    pub url: Option<String>,
    pub sequence: Option<i32>,
    pub last_modified: Option<i64>,
    pub created: Option<i64>,
    pub recurrence_id: Option<String>,
    pub image_uri: Option<String>,
    pub styled_description: Option<String>,
    pub x_pubky_calendar_uris: Option<Vec<String>>,
    pub x_pubky_rsvp_access: Option<String>,
}

impl View for EventDetails {
    type V = Seq<(Seq<char>, Scalar)>;

    open spec fn view(&self) -> Seq<(Seq<char>, Scalar)> {
        seq![
            ("id"@, Scalar::Text(self.id@)),
            ("indexed_at"@, Scalar::Int(self.indexed_at as int)),
            ("author"@, Scalar::Text(self.author@)),
            ("uri"@, Scalar::Text(self.uri@)),
            ("uid"@, Scalar::Text(self.uid@)),
            ("dtstamp"@, Scalar::Int(self.dtstamp as int)),
            ("dtstart"@, Scalar::Text(self.dtstart@)),
            ("summary"@, Scalar::Text(self.summary@)),
            ("dtend"@, opt_text(self.dtend)),
            ("duration"@, opt_text(self.duration)),
            ("dtstart_tzid"@, opt_text(self.dtstart_tzid)),
            ("dtend_tzid"@, opt_text(self.dtend_tzid)),
            ("rrule"@, opt_text(self.rrule)),
            ("rdate"@, opt_list(self.rdate)),
            ("exdate"@, opt_list(self.exdate)),
            ("description"@, opt_text(self.description)),
            ("status"@, opt_text(self.status)),
            ("location"@, opt_text(self.location)),
            ("geo"@, opt_text(self.geo)),
            ("url"@, opt_text(self.url)),
            ("sequence"@, opt_small(self.sequence)),
            ("last_modified"@, opt_int(self.last_modified)),
            ("created"@, opt_int(self.created)),
            ("recurrence_id"@, opt_text(self.recurrence_id)),
            ("image_uri"@, opt_text(self.image_uri)),
            ("styled_description"@, opt_text(self.styled_description)),
            ("x_pubky_calendar_uris"@, opt_list(self.x_pubky_calendar_uris)),
            ("x_pubky_rsvp_access"@, opt_text(self.x_pubky_rsvp_access)),
        ]
    }
}

/// The record that a published event becomes under an author and an id,
/// indexed at a given time.
pub open spec fn normalized_event(p: EventPayload, author_id: Seq<char>, event_id: Seq<char>, indexed_at: i64) -> Seq<
    (Seq<char>, Scalar),
> {
    seq![
        ("id"@, Scalar::Text(event_id)),
        ("indexed_at"@, Scalar::Int(indexed_at as int)),
        ("author"@, Scalar::Text(author_id)),
        ("uri"@, Scalar::Text(uri_text(author_id, ResourceKind::Event, event_id))),
        ("uid"@, Scalar::Text(p.uid@)),
        ("dtstamp"@, Scalar::Int(p.dtstamp as int)),
        ("dtstart"@, Scalar::Text(p.dtstart@)),
        ("summary"@, Scalar::Text(p.summary@)),
        ("dtend"@, opt_text(p.dtend)),
        ("duration"@, opt_text(p.duration)),
        ("dtstart_tzid"@, opt_text(p.dtstart_tzid)),
        ("dtend_tzid"@, opt_text(p.dtend_tzid)),
        ("rrule"@, opt_text(p.rrule)),
        ("rdate"@, opt_list(p.rdate)),
        ("exdate"@, opt_list(p.exdate)),
        ("description"@, opt_text(p.description)),
        ("status"@, opt_text(p.status)),
        ("location"@, opt_text(p.location)),
        ("geo"@, opt_text(p.geo)),
        ("url"@, opt_text(p.url)),
        ("sequence"@, opt_small(p.sequence)),
        ("last_modified"@, opt_int(p.last_modified)),
        ("created"@, opt_int(p.created)),
        ("recurrence_id"@, opt_text(p.recurrence_id)),
        ("image_uri"@, opt_text(p.image_uri)),
        ("styled_description"@, opt_text(p.styled_description)),
        ("x_pubky_calendar_uris"@, opt_list(p.x_pubky_calendar_uris)),
        ("x_pubky_rsvp_access"@, opt_text(p.x_pubky_rsvp_access)),
    ]
}

/// The first required field that a published event leaves empty.
pub open spec fn event_missing(p: EventPayload) -> Option<Seq<char>> {
    if p.uid@.len() == 0 {
        Some("uid"@)
    } else if p.dtstart@.len() == 0 {
        Some("dtstart"@)
    } else if p.summary@.len() == 0 {
        Some("summary"@)
    } else {
        None
    }
}

impl EventDetails {
    /// Normalizes a published event: a required field left empty is
    /// refused, everything else is taken over as it is.
    pub fn normalize(payload: EventPayload, author_id: &str, event_id: &str, indexed_at: i64) -> (r: Result<
        EventDetails,
        ValidationError,
    >)
        ensures
            match event_missing(payload) {
                Some(field) => r.is_err() && r.unwrap_err().field@ == field,
                None => r.is_ok() && r.unwrap()@ == normalized_event(payload, author_id@, event_id@, indexed_at)
                    && r.unwrap().author@ == author_id@ && r.unwrap().id@ == event_id@ && r.unwrap().x_pubky_calendar_uris
                    == payload.x_pubky_calendar_uris,
            },
    {
        if is_blank(&payload.uid) {
            return Err(ValidationError::missing("uid"));
        }
        if is_blank(&payload.dtstart) {
            return Err(ValidationError::missing("dtstart"));
        }
        if is_blank(&payload.summary) {
            return Err(ValidationError::missing("summary"));
        }
        let record = EventDetails {
            id: String::from_str(event_id),
            indexed_at,
            author: String::from_str(author_id),
            uri: build_uri(author_id, ResourceKind::Event, event_id),
            uid: payload.uid,
            dtstamp: payload.dtstamp,
            dtstart: payload.dtstart,
            summary: payload.summary,
            dtend: payload.dtend,
            duration: payload.duration,
            dtstart_tzid: payload.dtstart_tzid,
            dtend_tzid: payload.dtend_tzid,
            rrule: payload.rrule,
            rdate: payload.rdate,
            exdate: payload.exdate,
            description: payload.description,
            status: payload.status,
            location: payload.location,
            geo: payload.geo,
            url: payload.url,
            sequence: payload.sequence,
            last_modified: payload.last_modified,
            created: payload.created,
            recurrence_id: payload.recurrence_id,
            image_uri: payload.image_uri,
            styled_description: payload.styled_description,
            x_pubky_calendar_uris: payload.x_pubky_calendar_uris,
            x_pubky_rsvp_access: payload.x_pubky_rsvp_access,
        };
        proof {
            assert(record@ =~= normalized_event(payload, author_id@, event_id@, indexed_at));
        }
        Ok(record)
    }

    /// Normalizes a published event as of now.
    pub fn from_homeserver(payload: EventPayload, author_id: &str, event_id: &str) -> (r: Result<EventDetails, ValidationError>)
        ensures
            match event_missing(payload) {
                Some(field) => r.is_err() && r.unwrap_err().field@ == field,
                None => r.is_ok() && r.unwrap()@ == normalized_event(
                    payload,
                    author_id@,
                    event_id@,
                    r.unwrap().indexed_at,
                ),
            },
    {
        EventDetails::normalize(payload, author_id, event_id, now_millis())
    }

    /// The record as a list of named properties.
    pub fn properties(&self) -> (r: Vec<Property>)
        ensures
            props_view(r@) == self@,
    {
        let mut r: Vec<Property> = Vec::new();
        r.push(Property::text("id", &self.id));
        r.push(Property::number("indexed_at", self.indexed_at));
        r.push(Property::text("author", &self.author));
        r.push(Property::text("uri", &self.uri));
        r.push(Property::text("uid", &self.uid));
        r.push(Property::number("dtstamp", self.dtstamp));
        r.push(Property::text("dtstart", &self.dtstart));
        r.push(Property::text("summary", &self.summary));
        r.push(Property::maybe_text("dtend", &self.dtend));
        r.push(Property::maybe_text("duration", &self.duration));
        r.push(Property::maybe_text("dtstart_tzid", &self.dtstart_tzid));
        r.push(Property::maybe_text("dtend_tzid", &self.dtend_tzid));
        r.push(Property::maybe_text("rrule", &self.rrule));
        r.push(Property::maybe_list("rdate", &self.rdate));
        r.push(Property::maybe_list("exdate", &self.exdate));
        r.push(Property::maybe_text("description", &self.description));
        r.push(Property::maybe_text("status", &self.status));
        r.push(Property::maybe_text("location", &self.location));
        r.push(Property::maybe_text("geo", &self.geo));
        r.push(Property::maybe_text("url", &self.url));
        r.push(Property::maybe_small("sequence", &self.sequence));
        r.push(Property::maybe_number("last_modified", &self.last_modified));
        r.push(Property::maybe_number("created", &self.created));
        r.push(Property::maybe_text("recurrence_id", &self.recurrence_id));
        r.push(Property::maybe_text("image_uri", &self.image_uri));
        r.push(Property::maybe_text("styled_description", &self.styled_description));
        r.push(Property::maybe_list("x_pubky_calendar_uris", &self.x_pubky_calendar_uris));
        r.push(Property::maybe_text("x_pubky_rsvp_access", &self.x_pubky_rsvp_access));
        proof {
            assert(props_view(r@) =~= self@);
        }
        r
    }

    /// The key of the event's node.
    pub fn key(&self) -> (k: NodeKey)
        ensures
            k@ == (NodeId { kind: ResourceKind::Event, author: self.author@, id: self.id@ }),
    {
        NodeKey { kind: ResourceKind::Event, author: self.author.clone(), id: self.id.clone() }
    }
}

/// The links to the calendars that a list of references names. An entry
/// that is no reference to a calendar gives no link.
pub open spec fn calendar_links(uris: Seq<Seq<char>>) -> Seq<LinkView>
    decreases uris.len(),
{
    if uris.len() == 0 {
        Seq::empty()
    } else {
        let before = calendar_links(uris.drop_last());
        match resolved_as(uris.last(), ResourceKind::Calendar) {
            Ok(r) => before.push(
                LinkView {
                    edge: EdgeKind::BelongsTo,
                    node: NodeId { kind: ResourceKind::Calendar, author: r.author_id, id: r.resource_id },
                },
            ),
            Err(_) => before,
        }
    }
}

/// The references to the calendars that an event names.
pub open spec fn calendar_uris(uris: Option<Vec<String>>) -> Seq<Seq<char>> {
    match uris {
        None => Seq::empty(),
        Some(l) => views(l@),
    }
}

/// The write that stores an event: every calendar it names must exist, and
/// the former set of calendars it belonged to is replaced.
pub open spec fn event_write_of(
    author_id: Seq<char>,
    event_id: Seq<char>,
    props: Seq<(Seq<char>, Scalar)>,
    uris: Seq<Seq<char>>,
) -> WriteView {
    WriteView {
        target: NodeId { kind: ResourceKind::Event, author: author_id, id: event_id },
        props,
        hard: calendar_links(uris),
        soft: Seq::empty(),
        resync: Some(EdgeKind::BelongsTo),
    }
}

/// The write that stores a given event.
pub open spec fn event_write(e: EventDetails) -> WriteView {
    event_write_of(e.author@, e.id@, e@, calendar_uris(e.x_pubky_calendar_uris))
}

/// The links to the calendars that a list of references names.
pub fn links_to_calendars(uris: &Vec<String>) -> (links: Vec<Link>)
    ensures
        links_view(links@) == calendar_links(views(uris@)),
{
    let mut links: Vec<Link> = Vec::new();
    let mut i: usize = 0;
    proof {
        assert(views(uris@.take(0)) =~= Seq::<Seq<char>>::empty());
        assert(links_view(links@) =~= calendar_links(views(uris@.take(0))));
    }
    while i < uris.len()
        invariant
            i <= uris.len(),
            links_view(links@) == calendar_links(views(uris@.take(i as int))),
        decreases uris.len() - i,
    {
        proof {
            assert(views(uris@.take(i + 1)).drop_last() =~= views(uris@.take(i as int)));
            assert(views(uris@.take(i + 1)).last() == uris@[i as int]@);
        }
        match resolve_expecting(uris[i].as_str(), ResourceKind::Calendar) {
            Ok(found) => {
                let link = Link {
                    edge: EdgeKind::BelongsTo,
                    node: NodeKey { kind: ResourceKind::Calendar, author: found.author_id, id: found.resource_id },
                };
                proof {
                    assert(links_view(links@.push(link)) =~= links_view(links@).push(link@));
                }
                links.push(link);
            },
            Err(_) => {},
        }
        i = i + 1;
    }
    proof {
        assert(uris@.take(uris.len() as int) =~= uris@);
    }
    links
}

impl EventDetails {
    /// The write that stores this event.
    pub fn write_request(&self) -> (req: WriteRequest)
        ensures
            req@ == event_write(*self),
    {
        let hard = match &self.x_pubky_calendar_uris {
            None => {
                let none: Vec<Link> = Vec::new();
                proof {
                    assert(links_view(none@) =~= calendar_links(Seq::empty()));
                }
                none
            },
            Some(uris) => links_to_calendars(uris),
        };
        let soft: Vec<Link> = Vec::new();
        proof {
            assert(links_view(soft@) =~= Seq::<LinkView>::empty());
        }
        WriteRequest {
            target: self.key(),
            props: self.properties(),
            hard,
            soft,
            resync: Some(EdgeKind::BelongsTo),
        }
    }
}

/// Whether a property list has the form of the record of an event.
pub open spec fn event_shaped(p: Seq<(Seq<char>, Scalar)>) -> bool {
    &&& p.len() == 28
    &&& named_text(p, 0, "id"@)
    &&& named_number(p, 1, "indexed_at"@)
    &&& named_text(p, 2, "author"@)
    &&& named_text(p, 3, "uri"@)
    &&& named_text(p, 4, "uid"@)
    &&& named_number(p, 5, "dtstamp"@)
    &&& named_text(p, 6, "dtstart"@)
    &&& named_text(p, 7, "summary"@)
    &&& named_maybe_text(p, 8, "dtend"@)
    &&& named_maybe_text(p, 9, "duration"@)
    &&& named_maybe_text(p, 10, "dtstart_tzid"@)
    &&& named_maybe_text(p, 11, "dtend_tzid"@)
    &&& named_maybe_text(p, 12, "rrule"@)
    &&& named_maybe_list(p, 13, "rdate"@)
    &&& named_maybe_list(p, 14, "exdate"@)
    &&& named_maybe_text(p, 15, "description"@)
    &&& named_maybe_text(p, 16, "status"@)
    &&& named_maybe_text(p, 17, "location"@)
    &&& named_maybe_text(p, 18, "geo"@)
    &&& named_maybe_text(p, 19, "url"@)
    &&& named_maybe_small(p, 20, "sequence"@)
    &&& named_maybe_number(p, 21, "last_modified"@)
    &&& named_maybe_number(p, 22, "created"@)
    &&& named_maybe_text(p, 23, "recurrence_id"@)
    &&& named_maybe_text(p, 24, "image_uri"@)
    &&& named_maybe_text(p, 25, "styled_description"@)
    &&& named_maybe_list(p, 26, "x_pubky_calendar_uris"@)
    &&& named_maybe_text(p, 27, "x_pubky_rsvp_access"@)
}

/// The key of the node of an event.
pub open spec fn event_node(author_id: Seq<char>, event_id: Seq<char>) -> NodeId {
    NodeId { kind: ResourceKind::Event, author: author_id, id: event_id }
}

/// How a stored record reads as an event: nothing where nothing is stored,
/// the event where the record has its form, a failure where it has not.
pub open spec fn reads_as_event(r: Result<Option<EventDetails>, StoreFailure>, record: Option<Seq<(Seq<char>, Scalar)>>) -> bool {
    match record {
        None => r.is_ok() && r.unwrap().is_none(),
        Some(p) => if event_shaped(p) {
            r.is_ok() && r.unwrap().is_some() && r.unwrap().unwrap()@ == p
        } else {
            r.is_err()
        },
    }
}

impl EventDetails {
    /// Reads a property list back into the record of an event.
    pub fn from_properties(props: &Vec<Property>) -> (r: Option<EventDetails>)
        ensures
            r.is_some() == event_shaped(props_view(props@)),
            r.is_some() ==> r.unwrap()@ == props_view(props@),
    {
        if props.len() != 28 {
            return None;
        }
        let id = match take_text(props, 0, "id") {
            Some(v) => v,
            None => {
                return None;
            },
        };
        let indexed_at = match take_number(props, 1, "indexed_at") {
            Some(v) => v,
            None => {
                return None;
            },
        };
        let author = match take_text(props, 2, "author") {
            Some(v) => v,
            None => {
                return None;
            },
        };
        let uri = match take_text(props, 3, "uri") {
            Some(v) => v,
            None => {
                return None;
            },
        };
        let uid = match take_text(props, 4, "uid") {
            Some(v) => v,
            None => {
                return None;
            },
        };
        let dtstamp = match take_number(props, 5, "dtstamp") {
            Some(v) => v,
            None => {
                return None;
            },
        };
        let dtstart = match take_text(props, 6, "dtstart") {
            Some(v) => v,
            None => {
                return None;
            },
        };
        let summary = match take_text(props, 7, "summary") {
            Some(v) => v,
            None => {
                return None;
            },
        };
        let dtend = match take_maybe_text(props, 8, "dtend") {
            Some(v) => v,
            None => {
                return None;
            },
        };
        let duration = match take_maybe_text(props, 9, "duration") {
            Some(v) => v,
            None => {
                return None;
            },
        };
        let dtstart_tzid = match take_maybe_text(props, 10, "dtstart_tzid") {
            Some(v) => v,
            None => {
                return None;
            },
        };
        let dtend_tzid = match take_maybe_text(props, 11, "dtend_tzid") {
            Some(v) => v,
            None => {
                return None;
            },
        };
        let rrule = match take_maybe_text(props, 12, "rrule") {
            Some(v) => v,
            None => {
                return None;
            },
        };
        let rdate = match take_maybe_list(props, 13, "rdate") {
            Some(v) => v,
            None => {
                return None;
            },
        };
        let exdate = match take_maybe_list(props, 14, "exdate") {
            Some(v) => v,
            None => {
                return None;
            },
        };
        let description = match take_maybe_text(props, 15, "description") {
            Some(v) => v,
            None => {
                return None;
            },
        };
        let status = match take_maybe_text(props, 16, "status") {
            Some(v) => v,
            None => {
                return None;
            },
        };
        let location = match take_maybe_text(props, 17, "location") {
            Some(v) => v,
            None => {
                return None;
            },
        };
        let geo = match take_maybe_text(props, 18, "geo") {
            Some(v) => v,
            None => {
                return None;
            },
        };
        let url = match take_maybe_text(props, 19, "url") {
            Some(v) => v,
            None => {
                return None;
            },
        };
        let sequence = match take_maybe_small(props, 20, "sequence") {
            Some(v) => v,
            None => {
                return None;
            },
        };
        let last_modified = match take_maybe_number(props, 21, "last_modified") {
            Some(v) => v,
            None => {
                return None;
            },
        };
        let created = match take_maybe_number(props, 22, "created") {
            Some(v) => v,
            None => {
                return None;
            },
        };
        let recurrence_id = match take_maybe_text(props, 23, "recurrence_id") {
            Some(v) => v,
            None => {
                return None;
            },
        };
        let image_uri = match take_maybe_text(props, 24, "image_uri") {
            Some(v) => v,
            None => {
                return None;
            },
        };
        let styled_description = match take_maybe_text(props, 25, "styled_description") {
            Some(v) => v,
            None => {
                return None;
            },
        };
        let x_pubky_calendar_uris = match take_maybe_list(props, 26, "x_pubky_calendar_uris") {
            Some(v) => v,
            None => {
                return None;
            },
        };
        let x_pubky_rsvp_access = match take_maybe_text(props, 27, "x_pubky_rsvp_access") {
            Some(v) => v,
            None => {
                return None;
            },
        };
        let record = EventDetails {
            id,
            indexed_at,
            author,
            uri,
            uid,
            dtstamp,
            dtstart,
            summary,
            dtend,
            duration,
            dtstart_tzid,
            dtend_tzid,
            rrule,
            rdate,
            exdate,
            description,
            status,
            location,
            geo,
            url,
            sequence,
            last_modified,
            created,
            recurrence_id,
            image_uri,
            styled_description,
            x_pubky_calendar_uris,
            x_pubky_rsvp_access,
        };
        proof {
            assert(record@ =~= props_view(props@));
        }
        Some(record)
    }

    /// Reads what a store holds as the record of an event.
    pub fn read(record: Option<Vec<Property>>) -> (r: Result<Option<EventDetails>, StoreFailure>)
        ensures
            reads_as_event(r, record_view(record)),
    {
        match record {
            None => Ok(None),
            Some(props) => match EventDetails::from_properties(&props) {
                Some(found) => Ok(Some(found)),
                None => Err(StoreFailure { message: String::from_str("the stored record is no event") }),
            },
        }
    }

    /// The cached event of an author, if there is one.
    pub fn get_from_index(indexer: &Indexer, author_id: &str, event_id: &str) -> (r: Result<Option<EventDetails>, StoreFailure>)
        requires
            indexer.wf(),
        ensures
            reads_as_event(r, cached(indexer@, event_node(author_id@, event_id@))),
    {
        EventDetails::read(indexer.get_from_index(&NodeKey::new(ResourceKind::Event, author_id, event_id)))
    }

    /// The event of an author as the graph holds it, if there is one.
    pub fn get_from_graph(indexer: &Indexer, author_id: &str, event_id: &str) -> (r: Result<Option<EventDetails>, StoreFailure>)
        requires
            indexer.wf(),
        ensures
            reads_as_event(r, stored(indexer@, event_node(author_id@, event_id@))),
    {
        EventDetails::read(indexer.get_from_graph(&NodeKey::new(ResourceKind::Event, author_id, event_id)))
    }

    /// The event of an author: from the cache where it is there, else
    /// from the graph, filling the cache on the way.
    pub fn get_by_id(indexer: &mut Indexer, author_id: &str, event_id: &str) -> (r: Result<Option<EventDetails>, StoreFailure>)
        requires
            old(indexer).wf(),
        ensures
            final(indexer).wf(),
            final(indexer)@ == after_read(old(indexer)@, event_node(author_id@, event_id@)),
            reads_as_event(r, found(old(indexer)@, event_node(author_id@, event_id@))),
    {
        EventDetails::read(indexer.get_by_id(&NodeKey::new(ResourceKind::Event, author_id, event_id)))
    }

    /// Caches this event under an author and an id.
    pub fn put_to_index(&self, indexer: &mut Indexer, author_id: &str, event_id: &str)
        requires
            old(indexer).wf(),
        ensures
            final(indexer).wf(),
            final(indexer)@.graph == old(indexer)@.graph,
            final(indexer)@.cache == old(indexer)@.cache.insert(event_node(author_id@, event_id@), self@),
    {
        indexer.put_to_index(&NodeKey::new(ResourceKind::Event, author_id, event_id), &self.properties());
    }

    /// Discards the cached event and computes it anew from the graph.
    pub fn reindex(indexer: &mut Indexer, author_id: &str, event_id: &str)
        requires
            old(indexer).wf(),
        ensures
            final(indexer).wf(),
            final(indexer)@ == after_reindex(old(indexer)@, event_node(author_id@, event_id@)),
    {
        indexer.reindex(&NodeKey::new(ResourceKind::Event, author_id, event_id));
    }

    /// Writes this event to the graph.
    pub fn put_to_graph(&self, indexer: &mut Indexer) -> (out: Outcome)
        requires
            old(indexer).wf(),
        ensures
            final(indexer).wf(),
            final(indexer)@.cache == old(indexer)@.cache,
            final(indexer)@.graph == after_write(old(indexer)@.graph, event_write(*self)),
            out == outcome_of(old(indexer)@.graph, event_write(*self)),
    {
        indexer.put_to_graph(&self.write_request())
    }

    /// Deletes the event of an author: from the graph first, then from
    /// the cache.
    pub fn delete(indexer: &mut Indexer, author_id: &str, event_id: &str)
        requires
            old(indexer).wf(),
        ensures
            final(indexer).wf(),
            final(indexer)@ == after_removal(old(indexer)@, event_node(author_id@, event_id@)),
    {
        indexer.delete(&NodeKey::new(ResourceKind::Event, author_id, event_id));
    }
}

/// The keys of the events of the stream: the events in the order in which
/// they are stored, those alone that belong to a given calendar where one
/// is given. A reference that names no calendar gives no event.
pub open spec fn event_stream_keys(nodes: Seq<Node>, edges: Set<EdgeId>, calendar: Option<Seq<char>>) -> Seq<NodeId> {
    let events = keys_of_kind(nodes, ResourceKind::Event);
    match calendar {
        None => events,
        Some(uri) => match resolved_as(uri, ResourceKind::Calendar) {
            Ok(r) => linked_keys(
                events,
                edges,
                LinkView {
                    edge: EdgeKind::BelongsTo,
                    node: NodeId { kind: ResourceKind::Calendar, author: r.author_id, id: r.resource_id },
                },
            ),
            Err(_) => Seq::empty(),
        },
    }
}

/// Whether the record of an event carries the given status.
pub open spec fn has_status(record: Seq<(Seq<char>, Scalar)>, status: Seq<char>) -> bool {
    record.len() > 16 && record[16].1 == Scalar::Text(status)
}

/// Those records of a list that carry the given status, in the order of the list.
pub open spec fn having_status(records: Seq<Seq<(Seq<char>, Scalar)>>, status: Seq<char>) -> Seq<
    Seq<(Seq<char>, Scalar)>,
>
    decreases records.len(),
{
    if records.len() == 0 {
        Seq::empty()
    } else {
        let before = having_status(records.drop_last(), status);
        if has_status(records.last(), status) {
            before.push(records.last())
        } else {
            before
        }
    }
}

/// The events of the stream before it is cut into pages.
pub open spec fn streamed(records: Seq<Seq<(Seq<char>, Scalar)>>, status: Option<Seq<char>>) -> Seq<
    Seq<(Seq<char>, Scalar)>,
> {
    match status {
        None => records,
        Some(wanted) => having_status(records, wanted),
    }
}

/// Those events of a list that carry the given status.
pub fn keep_status(events: &Vec<EventDetails>, status: &str) -> (kept: Vec<EventDetails>)
    ensures
        fields_of(kept@) == having_status(fields_of(events@), status@),
{
    let mut kept: Vec<EventDetails> = Vec::new();
    let mut i: usize = 0;
    proof {
        assert(fields_of(events@.take(0)) =~= Seq::<Seq<(Seq<char>, Scalar)>>::empty());
        assert(fields_of(kept@) =~= having_status(fields_of(events@.take(0)), status@));
    }
    while i < events.len()
        invariant
            i <= events.len(),
            fields_of(kept@) == having_status(fields_of(events@.take(i as int)), status@),
        decreases events.len() - i,
    {
        proof {
            assert(fields_of(events@.take(i + 1)).drop_last() =~= fields_of(events@.take(i as int)));
            assert(fields_of(events@.take(i + 1)).last() == events@[i as int]@);
        }
        let matches = match &events[i].status {
            Some(s) => is_text(s, status),
            None => false,
        };
        if matches {
            let copy = events[i].duplicate();
            proof {
                assert(fields_of(kept@.push(copy)) =~= fields_of(kept@).push(copy@));
            }
            kept.push(copy);
        }
        i = i + 1;
    }
    proof {
        assert(events@.take(events.len() as int) =~= events@);
    }
    kept
}

impl EventDetails {
    /// One page of the stream of events: the events of a calendar where
    /// one is given, with a status where one is given.
    pub fn stream(indexer: &Indexer, skip: usize, limit: usize, calendar: Option<String>, status: Option<String>) -> (r:
        Result<Vec<EventDetails>, StoreFailure>)
        requires
            indexer.wf(),
        ensures
            match records_at::<EventDetails>(
                indexer@.graph,
                event_stream_keys(indexer.graph.nodes@, indexer@.graph.edges, opt_view(calendar)),
            ) {
                None => r.is_err() && r.unwrap_err().message@ == misshaped(),
                Some(records) => r.is_ok() && fields_of(r.unwrap()@) == page_of(
                    streamed(records, opt_view(status)),
                    skip,
                    limit,
                ),
            },
    {
        let events = indexer.graph.keys(ResourceKind::Event);
        let keys = match calendar {
            None => events,
            Some(uri) => match resolve_expecting(uri.as_str(), ResourceKind::Calendar) {
                Ok(found) => {
                    let link = Link {
                        edge: EdgeKind::BelongsTo,
                        node: NodeKey { kind: ResourceKind::Calendar, author: found.author_id, id: found.resource_id },
                    };
                    indexer.graph.linked(&events, &link)
                },
                Err(_) => {
                    let none: Vec<NodeKey> = Vec::new();
                    proof {
                        assert(node_ids(none@) =~= Seq::<NodeId>::empty());
                    }
                    none
                },
            },
        };
        let all = match read_all::<EventDetails>(&indexer.graph, &keys) {
            Ok(all) => all,
            Err(e) => {
                return Err(e);
            },
        };
        let wanted = match status {
            None => all,
            Some(s) => keep_status(&all, s.as_str()),
        };
        Ok(page_records(&wanted, skip, limit))
    }
}

impl Record for EventDetails {
    open spec fn fields(&self) -> Seq<(Seq<char>, Scalar)> {
        self@
    }

    open spec fn shaped(p: Seq<(Seq<char>, Scalar)>) -> bool {
        event_shaped(p)
    }

    fn decode(props: &Vec<Property>) -> (r: Option<EventDetails>) {
        EventDetails::from_properties(props)
    }

    fn duplicate(&self) -> (r: EventDetails) {
        let copy = EventDetails {
            id: self.id.clone(),
            indexed_at: self.indexed_at,
            author: self.author.clone(),
            uri: self.uri.clone(),
            uid: self.uid.clone(),
            dtstamp: self.dtstamp,
            dtstart: self.dtstart.clone(),
            summary: self.summary.clone(),
            dtend: clone_opt_string(&self.dtend),
            duration: clone_opt_string(&self.duration),
            dtstart_tzid: clone_opt_string(&self.dtstart_tzid),
            dtend_tzid: clone_opt_string(&self.dtend_tzid),
            rrule: clone_opt_string(&self.rrule),
            rdate: clone_opt_strings(&self.rdate),
            exdate: clone_opt_strings(&self.exdate),
            description: clone_opt_string(&self.description),
            status: clone_opt_string(&self.status),
            location: clone_opt_string(&self.location),
            geo: clone_opt_string(&self.geo),
            url: clone_opt_string(&self.url),
            sequence: self.sequence,
            last_modified: self.last_modified,
            created: self.created,
            recurrence_id: clone_opt_string(&self.recurrence_id),
            image_uri: clone_opt_string(&self.image_uri),
            styled_description: clone_opt_string(&self.styled_description),
            x_pubky_calendar_uris: clone_opt_strings(&self.x_pubky_calendar_uris),
            x_pubky_rsvp_access: clone_opt_string(&self.x_pubky_rsvp_access),
        };
        proof {
            assert(copy@ =~= self@);
        }
        copy
    }
}

/// The record of an event always has the form that reading it back asks
/// for: what was written as properties reads back as the same record.
pub proof fn event_record_reads_back(record: EventDetails)
    ensures
        event_shaped(record@),
{
}

} // verus!
