//! Answers to invitations: the normalized record and the write that stores it.

use vstd::prelude::*;
use vstd::string::*;
use crate::cache::StoreFailure;
use crate::clock::now_millis;
use crate::errors::{is_blank, ValidationError};
use crate::graph::{
    after_write, links_view, outcome_of, sources_of, Edge, EdgeKind, Link, LinkView, NodeId, NodeKey, Outcome,
    WriteRequest, WriteView,
};
use crate::indexer::{after_read, after_reindex, after_removal, cached, found, record_view, stored, Indexer};
use crate::listing::{fields_of, first_keys, limited, misshaped, read_all, records_at, Record};
use crate::reference::{build_uri, resolve_expecting, resolved_as, uri_text, ReferenceError, ResourceKind};
use crate::value::{
    named_maybe_number, named_number, named_text, opt_int, props_view, take_maybe_number, take_number, take_text,
    Property, Scalar,
};

verus! {

/// An answer to an invitation as its homeserver publishes it.
#[derive(Debug)]
pub struct AttendeePayload {
    pub partstat: String,
    pub x_pubky_event_uri: String,
    pub created_at: i64,
    pub last_modified: Option<i64>,
    pub recurrence_id: Option<i64>,
}

/// An answer to an invitation as the index holds it.
#[derive(Debug)]
pub struct AttendeeDetails {
    pub id: String,
    pub indexed_at: i64,
    pub author: String,
    pub uri: String,
    pub partstat: String,
    pub x_pubky_event_uri: String,
    pub created_at: i64,
    pub last_modified: Option<i64>,
    pub recurrence_id: Option<i64>,
}

impl View for AttendeeDetails {
    type V = Seq<(Seq<char>, Scalar)>;

    open spec fn view(&self) -> Seq<(Seq<char>, Scalar)> {
        seq![
            ("id"@, Scalar::Text(self.id@)),
            ("indexed_at"@, Scalar::Int(self.indexed_at as int)),
            ("author"@, Scalar::Text(self.author@)),
            ("uri"@, Scalar::Text(self.uri@)),
            ("partstat"@, Scalar::Text(self.partstat@)),
            ("x_pubky_event_uri"@, Scalar::Text(self.x_pubky_event_uri@)),
            ("created_at"@, Scalar::Int(self.created_at as int)),
            ("last_modified"@, opt_int(self.last_modified)),
            ("recurrence_id"@, opt_int(self.recurrence_id)),
        ]
    }
}

/// The record that a published attendee becomes under an author and an id,
/// indexed at a given time.
pub open spec fn normalized_attendee(p: AttendeePayload, author_id: Seq<char>, attendee_id: Seq<char>, indexed_at: i64) -> Seq<
    (Seq<char>, Scalar),
> {
    seq![
        ("id"@, Scalar::Text(attendee_id)),
        ("indexed_at"@, Scalar::Int(indexed_at as int)),
        ("author"@, Scalar::Text(author_id)),
        ("uri"@, Scalar::Text(uri_text(author_id, ResourceKind::Attendee, attendee_id))),
        ("partstat"@, Scalar::Text(p.partstat@)),
        ("x_pubky_event_uri"@, Scalar::Text(p.x_pubky_event_uri@)),
        ("created_at"@, Scalar::Int(p.created_at as int)),
        ("last_modified"@, opt_int(p.last_modified)),
        ("recurrence_id"@, opt_int(p.recurrence_id)),
    ]
}

/// The first required field that a published attendee leaves empty.
pub open spec fn attendee_missing(p: AttendeePayload) -> Option<Seq<char>> {
    if p.partstat@.len() == 0 {
        Some("partstat"@)
    } else if p.x_pubky_event_uri@.len() == 0 {
        Some("x_pubky_event_uri"@)
    } else {
        None
    }
}

impl AttendeeDetails {
    /// Normalizes a published attendee: a required field left empty is
    /// refused, everything else is taken over as it is.
    pub fn normalize(payload: AttendeePayload, author_id: &str, attendee_id: &str, indexed_at: i64) -> (r: Result<
        AttendeeDetails,
        ValidationError,
    >)
        ensures
            match attendee_missing(payload) {
                Some(field) => r.is_err() && r.unwrap_err().field@ == field,
                None => r.is_ok() && r.unwrap()@ == normalized_attendee(payload, author_id@, attendee_id@, indexed_at)
                    && r.unwrap().author@ == author_id@ && r.unwrap().id@ == attendee_id@ && r.unwrap().x_pubky_event_uri
                    == payload.x_pubky_event_uri,
            },
    {
        if is_blank(&payload.partstat) {
            return Err(ValidationError::missing("partstat"));
        }
        if is_blank(&payload.x_pubky_event_uri) {
            return Err(ValidationError::missing("x_pubky_event_uri"));
        }
        let record = AttendeeDetails {
            id: String::from_str(attendee_id),
            indexed_at,
            author: String::from_str(author_id),
            uri: build_uri(author_id, ResourceKind::Attendee, attendee_id),
            partstat: payload.partstat,
            x_pubky_event_uri: payload.x_pubky_event_uri,
            created_at: payload.created_at,
            last_modified: payload.last_modified,
            recurrence_id: payload.recurrence_id,
        };
        proof {
            assert(record@ =~= normalized_attendee(payload, author_id@, attendee_id@, indexed_at));
        }
        Ok(record)
    }

    /// Normalizes a published attendee as of now.
    pub fn from_homeserver(payload: AttendeePayload, author_id: &str, attendee_id: &str) -> (r: Result<AttendeeDetails, ValidationError>)
        ensures
            match attendee_missing(payload) {
                Some(field) => r.is_err() && r.unwrap_err().field@ == field,
                None => r.is_ok() && r.unwrap()@ == normalized_attendee(
                    payload,
                    author_id@,
                    attendee_id@,
                    r.unwrap().indexed_at,
                ),
            },
    {
        AttendeeDetails::normalize(payload, author_id, attendee_id, now_millis())
    }

    /// The record as a list of named properties.
    pub fn properties(&self) -> (r: Vec<Property>)
        ensures
            props_view(r@) == self@,
    {
        let mut r: Vec<Property> = Vec::new();
        r.push(Property::text("id", &self.id));
        r.push(Property::number("indexed_at", self.indexed_at));
        r.push(Property::text("author", &self.author));
        r.push(Property::text("uri", &self.uri));
        r.push(Property::text("partstat", &self.partstat));
        r.push(Property::text("x_pubky_event_uri", &self.x_pubky_event_uri));
        r.push(Property::number("created_at", self.created_at));
        r.push(Property::maybe_number("last_modified", &self.last_modified));
        r.push(Property::maybe_number("recurrence_id", &self.recurrence_id));
        proof {
            assert(props_view(r@) =~= self@);
        }
        r
    }

    /// The key of the attendee's node.
    pub fn key(&self) -> (k: NodeKey)
        ensures
            k@ == (NodeId { kind: ResourceKind::Attendee, author: self.author@, id: self.id@ }),
    {
        NodeKey { kind: ResourceKind::Attendee, author: self.author.clone(), id: self.id.clone() }
    }
}

/// The write that stores an answer: the event it answers must exist. Where
/// the reference to the event cannot be resolved there is no write.
pub open spec fn attendee_write_of(
    author_id: Seq<char>,
    attendee_id: Seq<char>,
    props: Seq<(Seq<char>, Scalar)>,
    event_uri: Seq<char>,
) -> Result<WriteView, ReferenceError> {
    match resolved_as(event_uri, ResourceKind::Event) {
        Err(e) => Err(e),
        Ok(r) => Ok(
            WriteView {
                target: NodeId { kind: ResourceKind::Attendee, author: author_id, id: attendee_id },
                props,
                hard: seq![
                    LinkView {
                        edge: EdgeKind::RsvpTo,
                        node: NodeId { kind: ResourceKind::Event, author: r.author_id, id: r.resource_id },
                    },
                ],
                soft: Seq::empty(),
                resync: None,
            },
        ),
    }
}

/// The write that stores a given answer.
pub open spec fn attendee_write(a: AttendeeDetails) -> Result<WriteView, ReferenceError> {
    attendee_write_of(a.author@, a.id@, a@, a.x_pubky_event_uri@)
}

impl AttendeeDetails {
    /// The write that stores this answer.
    pub fn write_request(&self) -> (r: Result<WriteRequest, ReferenceError>)
        ensures
            match attendee_write(*self) {
                Ok(w) => r.is_ok() && r.unwrap()@ == w,
                Err(e) => r.is_err() && r.unwrap_err() == e,
            },
    {
        match resolve_expecting(self.x_pubky_event_uri.as_str(), ResourceKind::Event) {
            Err(e) => Err(e),
            Ok(found) => {
                let link = Link {
                    edge: EdgeKind::RsvpTo,
                    node: NodeKey { kind: ResourceKind::Event, author: found.author_id, id: found.resource_id },
                };
                let mut hard: Vec<Link> = Vec::new();
                hard.push(link);
                let soft: Vec<Link> = Vec::new();
                proof {
                    assert(links_view(hard@) =~= seq![link@]);
                    assert(links_view(soft@) =~= Seq::<LinkView>::empty());
                }
                Ok(WriteRequest { target: self.key(), props: self.properties(), hard, soft, resync: None })
            },
        }
    }
}

/// Whether a property list has the form of the record of an answer to an invitation.
pub open spec fn attendee_shaped(p: Seq<(Seq<char>, Scalar)>) -> bool {
    &&& p.len() == 9
    &&& named_text(p, 0, "id"@)
    &&& named_number(p, 1, "indexed_at"@)
    &&& named_text(p, 2, "author"@)
    &&& named_text(p, 3, "uri"@)
    &&& named_text(p, 4, "partstat"@)
    &&& named_text(p, 5, "x_pubky_event_uri"@)
    &&& named_number(p, 6, "created_at"@)
    &&& named_maybe_number(p, 7, "last_modified"@)
    &&& named_maybe_number(p, 8, "recurrence_id"@)
}

/// The key of the node of an answer to an invitation.
pub open spec fn attendee_node(author_id: Seq<char>, attendee_id: Seq<char>) -> NodeId {
    NodeId { kind: ResourceKind::Attendee, author: author_id, id: attendee_id }
}

/// How a stored record reads as an answer to an invitation: nothing where nothing is stored,
/// the answer where the record has its form, a failure where it has not.
pub open spec fn reads_as_attendee(r: Result<Option<AttendeeDetails>, StoreFailure>, record: Option<Seq<(Seq<char>, Scalar)>>) -> bool {
    match record {
        None => r.is_ok() && r.unwrap().is_none(),
        Some(p) => if attendee_shaped(p) {
            r.is_ok() && r.unwrap().is_some() && r.unwrap().unwrap()@ == p
        } else {
            r.is_err()
        },
    }
}

impl AttendeeDetails {
    /// Reads a property list back into the record of an answer to an invitation.
    pub fn from_properties(props: &Vec<Property>) -> (r: Option<AttendeeDetails>)
        ensures
            r.is_some() == attendee_shaped(props_view(props@)),
            r.is_some() ==> r.unwrap()@ == props_view(props@),
    {
        if props.len() != 9 {
            return None;
        }
        let id = match take_text(props, 0, "id") {
            Some(v) => v,
            None => {
                return None;
            },
        };
        let indexed_at = match take_number(props, 1, "indexed_at") {
            Some(v) => v,
            None => {
                return None;
            },
        };
        let author = match take_text(props, 2, "author") {
            Some(v) => v,
            None => {
                return None;
            },
        };
        let uri = match take_text(props, 3, "uri") {
            Some(v) => v,
            None => {
                return None;
            },
        };
        let partstat = match take_text(props, 4, "partstat") {
            Some(v) => v,
            None => {
                return None;
            },
        };
        let x_pubky_event_uri = match take_text(props, 5, "x_pubky_event_uri") {
            Some(v) => v,
            None => {
                return None;
            },
        };
        let created_at = match take_number(props, 6, "created_at") {
            Some(v) => v,
            None => {
                return None;
            },
        };
        let last_modified = match take_maybe_number(props, 7, "last_modified") {
            Some(v) => v,
            None => {
                return None;
            },
        };
        let recurrence_id = match take_maybe_number(props, 8, "recurrence_id") {
            Some(v) => v,
            None => {
                return None;
            },
        };
        let record = AttendeeDetails {
            id,
            indexed_at,
            author,
            uri,
            partstat,
            x_pubky_event_uri,
            created_at,
            last_modified,
            recurrence_id,
        };
        proof {
            assert(record@ =~= props_view(props@));
        }
        Some(record)
    }

    /// Reads what a store holds as the record of an answer to an invitation.
    pub fn read(record: Option<Vec<Property>>) -> (r: Result<Option<AttendeeDetails>, StoreFailure>)
        ensures
            reads_as_attendee(r, record_view(record)),
    {
        match record {
            None => Ok(None),
            Some(props) => match AttendeeDetails::from_properties(&props) {
                Some(found) => Ok(Some(found)),
                None => Err(StoreFailure { message: String::from_str("the stored record is no answer") }),
            },
        }
    }

    /// The cached answer of an author, if there is one.
    pub fn get_from_index(indexer: &Indexer, author_id: &str, attendee_id: &str) -> (r: Result<Option<AttendeeDetails>, StoreFailure>)
        requires
            indexer.wf(),
        ensures
            reads_as_attendee(r, cached(indexer@, attendee_node(author_id@, attendee_id@))),
    {
        AttendeeDetails::read(indexer.get_from_index(&NodeKey::new(ResourceKind::Attendee, author_id, attendee_id)))
    }

    /// The answer of an author as the graph holds it, if there is one.
    pub fn get_from_graph(indexer: &Indexer, author_id: &str, attendee_id: &str) -> (r: Result<Option<AttendeeDetails>, StoreFailure>)
        requires
            indexer.wf(),
        ensures
            reads_as_attendee(r, stored(indexer@, attendee_node(author_id@, attendee_id@))),
    {
        AttendeeDetails::read(indexer.get_from_graph(&NodeKey::new(ResourceKind::Attendee, author_id, attendee_id)))
    }

    /// The answer of an author: from the cache where it is there, else
    /// from the graph, filling the cache on the way.
    pub fn get_by_id(indexer: &mut Indexer, author_id: &str, attendee_id: &str) -> (r: Result<Option<AttendeeDetails>, StoreFailure>)
        requires
            old(indexer).wf(),
        ensures
            final(indexer).wf(),
            final(indexer)@ == after_read(old(indexer)@, attendee_node(author_id@, attendee_id@)),
            reads_as_attendee(r, found(old(indexer)@, attendee_node(author_id@, attendee_id@))),
    {
        AttendeeDetails::read(indexer.get_by_id(&NodeKey::new(ResourceKind::Attendee, author_id, attendee_id)))
    }

    /// Caches this answer under an author and an id.
    pub fn put_to_index(&self, indexer: &mut Indexer, author_id: &str, attendee_id: &str)
        requires
            old(indexer).wf(),
        ensures
            final(indexer).wf(),
            final(indexer)@.graph == old(indexer)@.graph,
            final(indexer)@.cache == old(indexer)@.cache.insert(attendee_node(author_id@, attendee_id@), self@),
    {
        indexer.put_to_index(&NodeKey::new(ResourceKind::Attendee, author_id, attendee_id), &self.properties());
    }

    /// Discards the cached answer and computes it anew from the graph.
    pub fn reindex(indexer: &mut Indexer, author_id: &str, attendee_id: &str)
        requires
            old(indexer).wf(),
        ensures
            final(indexer).wf(),
            final(indexer)@ == after_reindex(old(indexer)@, attendee_node(author_id@, attendee_id@)),
    {
        indexer.reindex(&NodeKey::new(ResourceKind::Attendee, author_id, attendee_id));
    }

    /// Writes this answer to the graph. Where the reference to its event
    /// cannot be resolved nothing is written.
    pub fn put_to_graph(&self, indexer: &mut Indexer) -> (r: Result<Outcome, ReferenceError>)
        requires
            old(indexer).wf(),
        ensures
            final(indexer).wf(),
            final(indexer)@.cache == old(indexer)@.cache,
            match attendee_write(*self) {
                Ok(w) => r == Ok::<Outcome, ReferenceError>(outcome_of(old(indexer)@.graph, w)) && final(indexer)@.graph
                    == after_write(old(indexer)@.graph, w),
                Err(e) => r == Err::<Outcome, ReferenceError>(e) && final(indexer)@.graph == old(indexer)@.graph,
            },
    {
        match self.write_request() {
            Ok(req) => Ok(indexer.put_to_graph(&req)),
            Err(e) => Err(e),
        }
    }

    /// Deletes the answer of an author: from the graph first, then from
    /// the cache.
    pub fn delete(indexer: &mut Indexer, author_id: &str, attendee_id: &str)
        requires
            old(indexer).wf(),
        ensures
            final(indexer).wf(),
            final(indexer)@ == after_removal(old(indexer)@, attendee_node(author_id@, attendee_id@)),
    {
        indexer.delete(&NodeKey::new(ResourceKind::Attendee, author_id, attendee_id));
    }
}

/// The keys of the answers to an event, up to a limit: one for each edge
/// from an answer to the event, in the order in which the edges are stored.
pub open spec fn answer_keys(edges: Seq<Edge>, author_id: Seq<char>, event_id: Seq<char>, limit: Option<usize>) -> Seq<
    NodeId,
> {
    limited(
        sources_of(edges, EdgeKind::RsvpTo, NodeId { kind: ResourceKind::Event, author: author_id, id: event_id }),
        limit,
    )
}

impl AttendeeDetails {
    /// The answers to an event as the graph holds them, up to a limit.
    pub fn get_for_event(indexer: &Indexer, author_id: &str, event_id: &str, limit: Option<usize>) -> (r: Result<
        Option<Vec<AttendeeDetails>>,
        StoreFailure,
    >)
        requires
            indexer.wf(),
        ensures
            match records_at::<AttendeeDetails>(
                indexer@.graph,
                answer_keys(indexer.graph.edges@, author_id@, event_id@, limit),
            ) {
                None => r.is_err() && r.unwrap_err().message@ == misshaped(),
                Some(records) => r.is_ok() && r.unwrap().is_some() && fields_of(r.unwrap().unwrap()@) == records,
            },
    {
        let event = NodeKey::new(ResourceKind::Event, author_id, event_id);
        let keys = first_keys(indexer.graph.sources(EdgeKind::RsvpTo, &event), limit);
        match read_all::<AttendeeDetails>(&indexer.graph, &keys) {
            Ok(answers) => Ok(Some(answers)),
            Err(e) => Err(e),
        }
    }
}

impl Record for AttendeeDetails {
    open spec fn fields(&self) -> Seq<(Seq<char>, Scalar)> {
        self@
    }

    open spec fn shaped(p: Seq<(Seq<char>, Scalar)>) -> bool {
        attendee_shaped(p)
    }

    fn decode(props: &Vec<Property>) -> (r: Option<AttendeeDetails>) {
        AttendeeDetails::from_properties(props)
    }

    fn duplicate(&self) -> (r: AttendeeDetails) {
        let copy = AttendeeDetails {
            id: self.id.clone(),
            indexed_at: self.indexed_at,
            author: self.author.clone(),
            uri: self.uri.clone(),
            partstat: self.partstat.clone(),
            x_pubky_event_uri: self.x_pubky_event_uri.clone(),
            created_at: self.created_at,
            last_modified: self.last_modified,
            recurrence_id: self.recurrence_id,
        };
        proof {
            assert(copy@ =~= self@);
        }
        copy
    }
}

/// The record of an answer to an invitation always has the form that reading it back asks
/// for: what was written as properties reads back as the same record.
pub proof fn attendee_record_reads_back(record: AttendeeDetails)
    ensures
        attendee_shaped(record@),
{
}

} // verus!
