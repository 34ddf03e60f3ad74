//! Reminders: the normalized record and the write that stores it.

use vstd::prelude::*;
use vstd::string::*;
use crate::cache::StoreFailure;
use crate::clock::now_millis;
use crate::errors::{is_blank, ValidationError};
use crate::graph::{
    after_write, links_view, outcome_of, Link, LinkView, NodeId, NodeKey, Outcome, WriteRequest, WriteView,
};
use crate::indexer::{after_read, after_reindex, after_removal, cached, found, record_view, stored, Indexer};
use crate::listing::Record;
use crate::reference::{build_uri, uri_text, ResourceKind};
use crate::value::{
    clone_opt_string, clone_opt_strings, named_maybe_list, named_maybe_small, named_maybe_text, named_number,
    named_text, opt_list, opt_small, opt_text, props_view, take_maybe_list, take_maybe_small, take_maybe_text,
    take_number, take_text, Property, Scalar,
};

verus! {

/// A reminder as its homeserver publishes it.
#[derive(Debug)]
pub struct AlarmPayload {
    pub action: String,
    pub trigger: String,
    pub x_pubky_target_uri: String,
    pub duration: Option<String>,
    pub repeat: Option<i32>,
    pub attach: Option<Vec<String>>,
    pub description: Option<String>,
    pub summary: Option<String>,
    pub attendees: Option<Vec<String>>,
}

/// A reminder as the index holds it.
#[derive(Debug)]
pub struct AlarmDetails {
    pub id: String,
    pub indexed_at: i64,
    pub author: String,
    pub uri: String,
    pub action: String,
    pub trigger: String,
    pub x_pubky_target_uri: String,
    pub duration: Option<String>,
    pub repeat: Option<i32>,
    pub attach: Option<Vec<String>>,
    pub description: Option<String>,
    pub summary: Option<String>,
    pub attendees: Option<Vec<String>>,
}

impl View for AlarmDetails {
    type V = Seq<(Seq<char>, Scalar)>;

    open spec fn view(&self) -> Seq<(Seq<char>, Scalar)> {
        seq![
            ("id"@, Scalar::Text(self.id@)),
            ("indexed_at"@, Scalar::Int(self.indexed_at as int)),
            ("author"@, Scalar::Text(self.author@)),
            ("uri"@, Scalar::Text(self.uri@)),
            ("action"@, Scalar::Text(self.action@)),
            ("trigger"@, Scalar::Text(self.trigger@)),
            ("x_pubky_target_uri"@, Scalar::Text(self.x_pubky_target_uri@)),
            ("duration"@, opt_text(self.duration)),
            ("repeat"@, opt_small(self.repeat)),
            ("attach"@, opt_list(self.attach)),
            ("description"@, opt_text(self.description)),
            ("summary"@, opt_text(self.summary)),
            ("attendees"@, opt_list(self.attendees)),
        ]
    }
}

/// The record that a published alarm becomes under an author and an id,
/// indexed at a given time.
pub open spec fn normalized_alarm(p: AlarmPayload, author_id: Seq<char>, alarm_id: Seq<char>, indexed_at: i64) -> Seq<
    (Seq<char>, Scalar),
> {
    seq![
        ("id"@, Scalar::Text(alarm_id)),
        ("indexed_at"@, Scalar::Int(indexed_at as int)),
        ("author"@, Scalar::Text(author_id)),
        ("uri"@, Scalar::Text(uri_text(author_id, ResourceKind::Alarm, alarm_id))),
        ("action"@, Scalar::Text(p.action@)),
        ("trigger"@, Scalar::Text(p.trigger@)),
        ("x_pubky_target_uri"@, Scalar::Text(p.x_pubky_target_uri@)),
        ("duration"@, opt_text(p.duration)),
        ("repeat"@, opt_small(p.repeat)),
        ("attach"@, opt_list(p.attach)),
        ("description"@, opt_text(p.description)),
        ("summary"@, opt_text(p.summary)),
        ("attendees"@, opt_list(p.attendees)),
    ]
}

/// The first required field that a published alarm leaves empty.
pub open spec fn alarm_missing(p: AlarmPayload) -> Option<Seq<char>> {
    if p.action@.len() == 0 {
        Some("action"@)
    } else if p.trigger@.len() == 0 {
        Some("trigger"@)
    } else if p.x_pubky_target_uri@.len() == 0 {
        Some("x_pubky_target_uri"@)
    } else {
        None
    }
}

impl AlarmDetails {
    /// Normalizes a published alarm: a required field left empty is
    /// refused, everything else is taken over as it is.
    pub fn normalize(payload: AlarmPayload, author_id: &str, alarm_id: &str, indexed_at: i64) -> (r: Result<
        AlarmDetails,
        ValidationError,
    >)
        ensures
            match alarm_missing(payload) {
                Some(field) => r.is_err() && r.unwrap_err().field@ == field,
                None => r.is_ok() && r.unwrap()@ == normalized_alarm(payload, author_id@, alarm_id@, indexed_at)
                    && r.unwrap().author@ == author_id@ && r.unwrap().id@ == alarm_id@ && r.unwrap().x_pubky_target_uri
                    == payload.x_pubky_target_uri,
            },
    {
        if is_blank(&payload.action) {
            return Err(ValidationError::missing("action"));
        }
        if is_blank(&payload.trigger) {
            return Err(ValidationError::missing("trigger"));
        }
        if is_blank(&payload.x_pubky_target_uri) {
            return Err(ValidationError::missing("x_pubky_target_uri"));
        }
        let record = AlarmDetails {
            id: String::from_str(alarm_id),
            indexed_at,
            author: String::from_str(author_id),
            uri: build_uri(author_id, ResourceKind::Alarm, alarm_id),
            action: payload.action,
            trigger: payload.trigger,
            x_pubky_target_uri: payload.x_pubky_target_uri,
            duration: payload.duration,
            repeat: payload.repeat,
            attach: payload.attach,
            description: payload.description,
            summary: payload.summary,
            attendees: payload.attendees,
        };
        proof {
            assert(record@ =~= normalized_alarm(payload, author_id@, alarm_id@, indexed_at));
        }
        Ok(record)
    }

    /// Normalizes a published alarm as of now.
    pub fn from_homeserver(payload: AlarmPayload, author_id: &str, alarm_id: &str) -> (r: Result<AlarmDetails, ValidationError>)
        ensures
            match alarm_missing(payload) {
                Some(field) => r.is_err() && r.unwrap_err().field@ == field,
                None => r.is_ok() && r.unwrap()@ == normalized_alarm(
                    payload,
                    author_id@,
                    alarm_id@,
                    r.unwrap().indexed_at,
                ),
            },
    {
        AlarmDetails::normalize(payload, author_id, alarm_id, now_millis())
    }

    /// The record as a list of named properties.
    pub fn properties(&self) -> (r: Vec<Property>)
        ensures
            props_view(r@) == self@,
    {
        let mut r: Vec<Property> = Vec::new();
        r.push(Property::text("id", &self.id));
        r.push(Property::number("indexed_at", self.indexed_at));
        r.push(Property::text("author", &self.author));
        r.push(Property::text("uri", &self.uri));
        r.push(Property::text("action", &self.action));
        r.push(Property::text("trigger", &self.trigger));
        r.push(Property::text("x_pubky_target_uri", &self.x_pubky_target_uri));
        r.push(Property::maybe_text("duration", &self.duration));
        r.push(Property::maybe_small("repeat", &self.repeat));
        r.push(Property::maybe_list("attach", &self.attach));
        r.push(Property::maybe_text("description", &self.description));
        r.push(Property::maybe_text("summary", &self.summary));
        r.push(Property::maybe_list("attendees", &self.attendees));
        proof {
            assert(props_view(r@) =~= self@);
        }
        r
    }

    /// The key of the alarm's node.
    pub fn key(&self) -> (k: NodeKey)
        ensures
            k@ == (NodeId { kind: ResourceKind::Alarm, author: self.author@, id: self.id@ }),
    {
        NodeKey { kind: ResourceKind::Alarm, author: self.author.clone(), id: self.id.clone() }
    }
}

/// The write that stores a reminder: the node alone, tied to nothing.
pub open spec fn alarm_write(a: AlarmDetails) -> WriteView {
    WriteView {
        target: NodeId { kind: ResourceKind::Alarm, author: a.author@, id: a.id@ },
        props: a@,
        hard: Seq::empty(),
        soft: Seq::empty(),
        resync: None,
    }
}

impl AlarmDetails {
    /// The write that stores this reminder.
    pub fn write_request(&self) -> (req: WriteRequest)
        ensures
            req@ == alarm_write(*self),
    {
        let hard: Vec<Link> = Vec::new();
        let soft: Vec<Link> = Vec::new();
        proof {
            assert(links_view(hard@) =~= Seq::<LinkView>::empty());
            assert(links_view(soft@) =~= Seq::<LinkView>::empty());
        }
        WriteRequest { target: self.key(), props: self.properties(), hard, soft, resync: None }
    }
}

/// Whether a property list has the form of the record of a reminder.
pub open spec fn alarm_shaped(p: Seq<(Seq<char>, Scalar)>) -> bool {
    &&& p.len() == 13
    &&& named_text(p, 0, "id"@)
    &&& named_number(p, 1, "indexed_at"@)
    &&& named_text(p, 2, "author"@)
    &&& named_text(p, 3, "uri"@)
    &&& named_text(p, 4, "action"@)
    &&& named_text(p, 5, "trigger"@)
    &&& named_text(p, 6, "x_pubky_target_uri"@)
    &&& named_maybe_text(p, 7, "duration"@)
    &&& named_maybe_small(p, 8, "repeat"@)
    &&& named_maybe_list(p, 9, "attach"@)
    &&& named_maybe_text(p, 10, "description"@)
    &&& named_maybe_text(p, 11, "summary"@)
    &&& named_maybe_list(p, 12, "attendees"@)
}

/// The key of the node of a reminder.
pub open spec fn alarm_node(author_id: Seq<char>, alarm_id: Seq<char>) -> NodeId {
    NodeId { kind: ResourceKind::Alarm, author: author_id, id: alarm_id }
}

/// How a stored record reads as a reminder: nothing where nothing is stored,
/// the reminder where the record has its form, a failure where it has not.
pub open spec fn reads_as_alarm(r: Result<Option<AlarmDetails>, StoreFailure>, record: Option<Seq<(Seq<char>, Scalar)>>) -> bool {
    match record {
        None => r.is_ok() && r.unwrap().is_none(),
        Some(p) => if alarm_shaped(p) {
            r.is_ok() && r.unwrap().is_some() && r.unwrap().unwrap()@ == p
        } else {
            r.is_err()
        },
    }
}

impl AlarmDetails {
    /// Reads a property list back into the record of a reminder.
    pub fn from_properties(props: &Vec<Property>) -> (r: Option<AlarmDetails>)
        ensures
            r.is_some() == alarm_shaped(props_view(props@)),
            r.is_some() ==> r.unwrap()@ == props_view(props@),
    {
        if props.len() != 13 {
            return None;
        }
        let id = match take_text(props, 0, "id") {
            Some(v) => v,
            None => {
                return None;
            },
        };
        let indexed_at = match take_number(props, 1, "indexed_at") {
            Some(v) => v,
            None => {
                return None;
            },
        };
        let author = match take_text(props, 2, "author") {
            Some(v) => v,
            None => {
                return None;
            },
        };
        let uri = match take_text(props, 3, "uri") {
            Some(v) => v,
            None => {
                return None;
            },
        };
        let action = match take_text(props, 4, "action") {
            Some(v) => v,
            None => {
                return None;
            },
        };
        let trigger = match take_text(props, 5, "trigger") {
            Some(v) => v,
            None => {
                return None;
            },
        };
        let x_pubky_target_uri = match take_text(props, 6, "x_pubky_target_uri") {
            Some(v) => v,
            None => {
                return None;
            },
        };
        let duration = match take_maybe_text(props, 7, "duration") {
            Some(v) => v,
            None => {
                return None;
            },
        };
        let repeat = match take_maybe_small(props, 8, "repeat") {
            Some(v) => v,
            None => {
                return None;
            },
        };
        let attach = match take_maybe_list(props, 9, "attach") {
            Some(v) => v,
            None => {
                return None;
            },
        };
        let description = match take_maybe_text(props, 10, "description") {
            Some(v) => v,
            None => {
                return None;
            },
        };
        let summary = match take_maybe_text(props, 11, "summary") {
            Some(v) => v,
            None => {
                return None;
            },
        };
        let attendees = match take_maybe_list(props, 12, "attendees") {
            Some(v) => v,
            None => {
                return None;
            },
        };
        let record = AlarmDetails {
            id,
            indexed_at,
            author,
            uri,
            action,
            trigger,
            x_pubky_target_uri,
            duration,
            repeat,
            attach,
            description,
            summary,
            attendees,
        };
        proof {
            assert(record@ =~= props_view(props@));
        }
        Some(record)
    }

    /// Reads what a store holds as the record of a reminder.
    pub fn read(record: Option<Vec<Property>>) -> (r: Result<Option<AlarmDetails>, StoreFailure>)
        ensures
            reads_as_alarm(r, record_view(record)),
    {
        match record {
            None => Ok(None),
            Some(props) => match AlarmDetails::from_properties(&props) {
                Some(found) => Ok(Some(found)),
                None => Err(StoreFailure { message: String::from_str("the stored record is no reminder") }),
            },
        }
    }

    /// The cached reminder of an author, if there is one.
    pub fn get_from_index(indexer: &Indexer, author_id: &str, alarm_id: &str) -> (r: Result<Option<AlarmDetails>, StoreFailure>)
        requires
            indexer.wf(),
        ensures
            reads_as_alarm(r, cached(indexer@, alarm_node(author_id@, alarm_id@))),
    {
        AlarmDetails::read(indexer.get_from_index(&NodeKey::new(ResourceKind::Alarm, author_id, alarm_id)))
    }

    /// The reminder of an author as the graph holds it, if there is one.
    pub fn get_from_graph(indexer: &Indexer, author_id: &str, alarm_id: &str) -> (r: Result<Option<AlarmDetails>, StoreFailure>)
        requires
            indexer.wf(),
        ensures
            reads_as_alarm(r, stored(indexer@, alarm_node(author_id@, alarm_id@))),
    {
        AlarmDetails::read(indexer.get_from_graph(&NodeKey::new(ResourceKind::Alarm, author_id, alarm_id)))
    }

    /// The reminder of an author: from the cache where it is there, else
    /// from the graph, filling the cache on the way.
    pub fn get_by_id(indexer: &mut Indexer, author_id: &str, alarm_id: &str) -> (r: Result<Option<AlarmDetails>, StoreFailure>)
        requires
            old(indexer).wf(),
        ensures
            final(indexer).wf(),
            final(indexer)@ == after_read(old(indexer)@, alarm_node(author_id@, alarm_id@)),
            reads_as_alarm(r, found(old(indexer)@, alarm_node(author_id@, alarm_id@))),
    {
        AlarmDetails::read(indexer.get_by_id(&NodeKey::new(ResourceKind::Alarm, author_id, alarm_id)))
    }

    /// Caches this reminder under an author and an id.
    pub fn put_to_index(&self, indexer: &mut Indexer, author_id: &str, alarm_id: &str)
        requires
            old(indexer).wf(),
        ensures
            final(indexer).wf(),
            final(indexer)@.graph == old(indexer)@.graph,
            final(indexer)@.cache == old(indexer)@.cache.insert(alarm_node(author_id@, alarm_id@), self@),
    {
        indexer.put_to_index(&NodeKey::new(ResourceKind::Alarm, author_id, alarm_id), &self.properties());
    }

    /// Discards the cached reminder and computes it anew from the graph.
    pub fn reindex(indexer: &mut Indexer, author_id: &str, alarm_id: &str)
        requires
            old(indexer).wf(),
        ensures
            final(indexer).wf(),
            final(indexer)@ == after_reindex(old(indexer)@, alarm_node(author_id@, alarm_id@)),
    {
        indexer.reindex(&NodeKey::new(ResourceKind::Alarm, author_id, alarm_id));
    }

    /// Writes this reminder to the graph.
    pub fn put_to_graph(&self, indexer: &mut Indexer) -> (out: Outcome)
        requires
            old(indexer).wf(),
        ensures
            final(indexer).wf(),
            final(indexer)@.cache == old(indexer)@.cache,
            final(indexer)@.graph == after_write(old(indexer)@.graph, alarm_write(*self)),
            out == outcome_of(old(indexer)@.graph, alarm_write(*self)),
    {
        indexer.put_to_graph(&self.write_request())
    }

    /// Deletes the reminder of an author: from the graph first, then from
    /// the cache.
    pub fn delete(indexer: &mut Indexer, author_id: &str, alarm_id: &str)
        requires
            old(indexer).wf(),
        ensures
            final(indexer).wf(),
            final(indexer)@ == after_removal(old(indexer)@, alarm_node(author_id@, alarm_id@)),
    {
        indexer.delete(&NodeKey::new(ResourceKind::Alarm, author_id, alarm_id));
    }
}

impl Record for AlarmDetails {
    open spec fn fields(&self) -> Seq<(Seq<char>, Scalar)> {
        self@
    }

    open spec fn shaped(p: Seq<(Seq<char>, Scalar)>) -> bool {
        alarm_shaped(p)
    }

    fn decode(props: &Vec<Property>) -> (r: Option<AlarmDetails>) {
        AlarmDetails::from_properties(props)
    }

    fn duplicate(&self) -> (r: AlarmDetails) {
        let copy = AlarmDetails {
            id: self.id.clone(),
            indexed_at: self.indexed_at,
            author: self.author.clone(),
            uri: self.uri.clone(),
            action: self.action.clone(),
            trigger: self.trigger.clone(),
            x_pubky_target_uri: self.x_pubky_target_uri.clone(),
            duration: clone_opt_string(&self.duration),
            repeat: self.repeat,
            attach: clone_opt_strings(&self.attach),
            description: clone_opt_string(&self.description),
            summary: clone_opt_string(&self.summary),
            attendees: clone_opt_strings(&self.attendees),
        };
        proof {
            assert(copy@ =~= self@);
        }
        copy
    }
}

/// The record of a reminder always has the form that reading it back asks
/// for: what was written as properties reads back as the same record.
pub proof fn alarm_record_reads_back(record: AlarmDetails)
    ensures
        alarm_shaped(record@),
{
}

} // verus!
