//! Calendars: the normalized record and the write that stores it.

use vstd::prelude::*;
use vstd::string::*;
use crate::cache::StoreFailure;
use crate::clock::now_millis;
use crate::errors::{is_blank, ValidationError};
use crate::graph::{
    after_write, hard_edges, keys_of_kind, link_edge, linked_keys, links_view, outcome_of, present_after, replaced,
    soft_edges, user_node, writable, EdgeId, EdgeKind, GraphState, Link, LinkView, Node, NodeId, NodeKey, Outcome,
    WriteRequest, WriteView,
};
use crate::indexer::{after_read, after_reindex, after_removal, cached, found, record_view, stored, Indexer};
use crate::listing::{page_keys, page_of, read_all, reads_all, Record};
use crate::reference::{build_uri, uri_text, ResourceKind};
use crate::text::{opt_view, views};
use crate::value::{
    clone_opt_string, clone_opt_strings, named_maybe_list, named_maybe_number, named_maybe_text, named_number,
    named_text, opt_int, opt_list, opt_text, props_view, take_maybe_list, take_maybe_number, take_maybe_text,
    take_number, take_text, Property, Scalar,
};

verus! {

/// A calendar as its homeserver publishes it.
#[derive(Debug)]
pub struct CalendarPayload {
    pub name: String,
    pub timezone: String,
    pub color: Option<String>,
    pub description: Option<String>,
    pub url: Option<String>,
    pub image_uri: Option<String>,
    pub x_pubky_authors: Option<Vec<String>>,
    pub created: Option<i64>,
}

/// A calendar as the index holds it.
#[derive(Debug)]
pub struct CalendarDetails {
    pub id: String,
    pub indexed_at: i64,
    pub author: String,
    pub uri: String,
    pub name: String,
    pub timezone: String,
    pub color: Option<String>,
    pub description: Option<String>,
    pub url: Option<String>,
    pub image_uri: Option<String>,
    pub x_pubky_authors: Option<Vec<String>>,
    pub created: Option<i64>,
}

impl View for CalendarDetails {
    type V = Seq<(Seq<char>, Scalar)>;

    open spec fn view(&self) -> Seq<(Seq<char>, Scalar)> {
        seq![
            ("id"@, Scalar::Text(self.id@)),
            ("indexed_at"@, Scalar::Int(self.indexed_at as int)),
            ("author"@, Scalar::Text(self.author@)),
            ("uri"@, Scalar::Text(self.uri@)),
            ("name"@, Scalar::Text(self.name@)),
            ("timezone"@, Scalar::Text(self.timezone@)),
            ("color"@, opt_text(self.color)),
            ("description"@, opt_text(self.description)),
            ("url"@, opt_text(self.url)),
            ("image_uri"@, opt_text(self.image_uri)),
            ("x_pubky_authors"@, opt_list(self.x_pubky_authors)),
            ("created"@, opt_int(self.created)),
        ]
    }
}

/// The record that a published calendar becomes under an author and an id,
/// indexed at a given time.
pub open spec fn normalized_calendar(p: CalendarPayload, author_id: Seq<char>, calendar_id: Seq<char>, indexed_at: i64) -> Seq<
    (Seq<char>, Scalar),
> {
    seq![
        ("id"@, Scalar::Text(calendar_id)),
        ("indexed_at"@, Scalar::Int(indexed_at as int)),
        ("author"@, Scalar::Text(author_id)),
        ("uri"@, Scalar::Text(uri_text(author_id, ResourceKind::Calendar, calendar_id))),
        ("name"@, Scalar::Text(p.name@)),
        ("timezone"@, Scalar::Text(p.timezone@)),
        ("color"@, opt_text(p.color)),
        ("description"@, opt_text(p.description)),
        ("url"@, opt_text(p.url)),
        ("image_uri"@, opt_text(p.image_uri)),
        ("x_pubky_authors"@, opt_list(p.x_pubky_authors)),
        ("created"@, opt_int(p.created)),
    ]
}

/// The first required field that a published calendar leaves empty.
pub open spec fn calendar_missing(p: CalendarPayload) -> Option<Seq<char>> {
    if p.name@.len() == 0 {
        Some("name"@)
    } else if p.timezone@.len() == 0 {
        Some("timezone"@)
    } else {
        None
    }
}

impl CalendarDetails {
    /// Normalizes a published calendar: a required field left empty is
    /// refused, everything else is taken over as it is.
    pub fn normalize(payload: CalendarPayload, author_id: &str, calendar_id: &str, indexed_at: i64) -> (r: Result<
        CalendarDetails,
        ValidationError,
    >)
        ensures
            match calendar_missing(payload) {
                Some(field) => r.is_err() && r.unwrap_err().field@ == field,
                None => r.is_ok() && r.unwrap()@ == normalized_calendar(payload, author_id@, calendar_id@, indexed_at)
                    && r.unwrap().author@ == author_id@ && r.unwrap().id@ == calendar_id@ && r.unwrap().x_pubky_authors
                    == payload.x_pubky_authors,
            },
    {
        if is_blank(&payload.name) {
            return Err(ValidationError::missing("name"));
        }
        if is_blank(&payload.timezone) {
            return Err(ValidationError::missing("timezone"));
        }
        let record = CalendarDetails {
            id: String::from_str(calendar_id),
            indexed_at,
            author: String::from_str(author_id),
            uri: build_uri(author_id, ResourceKind::Calendar, calendar_id),
            name: payload.name,
            timezone: payload.timezone,
            color: payload.color,
            description: payload.description,
            url: payload.url,
            image_uri: payload.image_uri,
            x_pubky_authors: payload.x_pubky_authors,
            created: payload.created,
        };
        proof {
            assert(record@ =~= normalized_calendar(payload, author_id@, calendar_id@, indexed_at));
        }
        Ok(record)
    }

    /// Normalizes a published calendar as of now.
    pub fn from_homeserver(payload: CalendarPayload, author_id: &str, calendar_id: &str) -> (r: Result<CalendarDetails, ValidationError>)
        ensures
            match calendar_missing(payload) {
                Some(field) => r.is_err() && r.unwrap_err().field@ == field,
                None => r.is_ok() && r.unwrap()@ == normalized_calendar(
                    payload,
                    author_id@,
                    calendar_id@,
                    r.unwrap().indexed_at,
                ),
            },
    {
        CalendarDetails::normalize(payload, author_id, calendar_id, now_millis())
    }

    /// The record as a list of named properties.
    pub fn properties(&self) -> (r: Vec<Property>)
        ensures
            props_view(r@) == self@,
    {
        let mut r: Vec<Property> = Vec::new();
        r.push(Property::text("id", &self.id));
        r.push(Property::number("indexed_at", self.indexed_at));
        r.push(Property::text("author", &self.author));
        r.push(Property::text("uri", &self.uri));
        r.push(Property::text("name", &self.name));
        r.push(Property::text("timezone", &self.timezone));
        r.push(Property::maybe_text("color", &self.color));
        r.push(Property::maybe_text("description", &self.description));
        r.push(Property::maybe_text("url", &self.url));
        r.push(Property::maybe_text("image_uri", &self.image_uri));
        r.push(Property::maybe_list("x_pubky_authors", &self.x_pubky_authors));
        r.push(Property::maybe_number("created", &self.created));
        proof {
            assert(props_view(r@) =~= self@);
        }
        r
    }

    /// The key of the calendar's node.
    pub fn key(&self) -> (k: NodeKey)
        ensures
            k@ == (NodeId { kind: ResourceKind::Calendar, author: self.author@, id: self.id@ }),
    {
        NodeKey { kind: ResourceKind::Calendar, author: self.author.clone(), id: self.id.clone() }
    }
}

/// The links from the users who may write to a calendar.
pub open spec fn author_links(ids: Seq<Seq<char>>) -> Seq<LinkView> {
    ids.map_values(|id: Seq<char>| LinkView { edge: EdgeKind::CanAuthor, node: user_node(id) })
}

/// The ids of the users who may write to a calendar.
pub open spec fn author_ids(ids: Option<Vec<String>>) -> Seq<Seq<char>> {
    match ids {
        None => Seq::empty(),
        Some(l) => views(l@),
    }
}

/// The write that stores a calendar: no node it cannot do without, one
/// optional link from each permitted author, and the former set of
/// permitted authors replaced.
pub open spec fn calendar_write_of(
    author_id: Seq<char>,
    calendar_id: Seq<char>,
    props: Seq<(Seq<char>, Scalar)>,
    authors: Seq<Seq<char>>,
) -> WriteView {
    WriteView {
        target: NodeId { kind: ResourceKind::Calendar, author: author_id, id: calendar_id },
        props,
        hard: Seq::empty(),
        soft: author_links(authors),
        resync: Some(EdgeKind::CanAuthor),
    }
}

/// The write that stores a given calendar.
pub open spec fn calendar_write(c: CalendarDetails) -> WriteView {
    calendar_write_of(c.author@, c.id@, c@, author_ids(c.x_pubky_authors))
}

impl CalendarDetails {
    /// The write that stores this calendar.
    pub fn write_request(&self) -> (req: WriteRequest)
        ensures
            req@ == calendar_write(*self),
    {
        let mut soft: Vec<Link> = Vec::new();
        match &self.x_pubky_authors {
            None => {
                proof {
                    assert(links_view(soft@) =~= author_links(Seq::empty()));
                }
            },
            Some(ids) => {
                let mut i: usize = 0;
                proof {
                    assert(links_view(soft@) =~= author_links(views(ids@.take(0))));
                }
                while i < ids.len()
                    invariant
                        i <= ids.len(),
                        links_view(soft@) == author_links(views(ids@.take(i as int))),
                    decreases ids.len() - i,
                {
                    let link = Link { edge: EdgeKind::CanAuthor, node: NodeKey::user(ids[i].as_str()) };
                    proof {
                        assert(ids@.take(i + 1) =~= ids@.take(i as int).push(ids@[i as int]));
                        assert(links_view(soft@.push(link)) =~= links_view(soft@).push(link@));
                        assert(author_links(views(ids@.take(i as int).push(ids@[i as int]))) =~= author_links(
                            views(ids@.take(i as int)),
                        ).push(link@));
                    }
                    soft.push(link);
                    i = i + 1;
                }
                proof {
                    assert(ids@.take(ids.len() as int) =~= ids@);
                }
            },
        }
        let hard: Vec<Link> = Vec::new();
        proof {
            assert(links_view(hard@) =~= Seq::<LinkView>::empty());
        }
        WriteRequest {
            target: self.key(),
            props: self.properties(),
            hard,
            soft,
            resync: Some(EdgeKind::CanAuthor),
        }
    }
}

/// Whether a property list has the form of the record of a calendar.
pub open spec fn calendar_shaped(p: Seq<(Seq<char>, Scalar)>) -> bool {
    &&& p.len() == 12
    &&& named_text(p, 0, "id"@)
    &&& named_number(p, 1, "indexed_at"@)
    &&& named_text(p, 2, "author"@)
    &&& named_text(p, 3, "uri"@)
    &&& named_text(p, 4, "name"@)
    &&& named_text(p, 5, "timezone"@)
    &&& named_maybe_text(p, 6, "color"@)
    &&& named_maybe_text(p, 7, "description"@)
    &&& named_maybe_text(p, 8, "url"@)
    &&& named_maybe_text(p, 9, "image_uri"@)
    &&& named_maybe_list(p, 10, "x_pubky_authors"@)
    &&& named_maybe_number(p, 11, "created"@)
}

/// The key of the node of a calendar.
pub open spec fn calendar_node(author_id: Seq<char>, calendar_id: Seq<char>) -> NodeId {
    NodeId { kind: ResourceKind::Calendar, author: author_id, id: calendar_id }
}

/// How a stored record reads as a calendar: nothing where nothing is stored,
/// the calendar where the record has its form, a failure where it has not.
pub open spec fn reads_as_calendar(r: Result<Option<CalendarDetails>, StoreFailure>, record: Option<Seq<(Seq<char>, Scalar)>>) -> bool {
    match record {
        None => r.is_ok() && r.unwrap().is_none(),
        Some(p) => if calendar_shaped(p) {
            r.is_ok() && r.unwrap().is_some() && r.unwrap().unwrap()@ == p
        } else {
            r.is_err()
        },
    }
}

impl CalendarDetails {
    /// Reads a property list back into the record of a calendar.
    pub fn from_properties(props: &Vec<Property>) -> (r: Option<CalendarDetails>)
        ensures
            r.is_some() == calendar_shaped(props_view(props@)),
            r.is_some() ==> r.unwrap()@ == props_view(props@),
    {
        if props.len() != 12 {
            return None;
        }
        let id = match take_text(props, 0, "id") {
            Some(v) => v,
            None => {
                return None;
            },
        };
        let indexed_at = match take_number(props, 1, "indexed_at") {
            Some(v) => v,
            None => {
                return None;
            },
        };
        let author = match take_text(props, 2, "author") {
            Some(v) => v,
            None => {
                return None;
            },
        };
        let uri = match take_text(props, 3, "uri") {
            Some(v) => v,
            None => {
                return None;
            },
        };
        let name = match take_text(props, 4, "name") {
            Some(v) => v,
            None => {
                return None;
            },
        };
        let timezone = match take_text(props, 5, "timezone") {
            Some(v) => v,
            None => {
                return None;
            },
        };
        let color = match take_maybe_text(props, 6, "color") {
            Some(v) => v,
            None => {
                return None;
            },
        };
        let description = match take_maybe_text(props, 7, "description") {
            Some(v) => v,
            None => {
                return None;
            },
        };
        let url = match take_maybe_text(props, 8, "url") {
            Some(v) => v,
            None => {
                return None;
            },
        };
        let image_uri = match take_maybe_text(props, 9, "image_uri") {
            Some(v) => v,
            None => {
                return None;
            },
        };
        let x_pubky_authors = match take_maybe_list(props, 10, "x_pubky_authors") {
            Some(v) => v,
            None => {
                return None;
            },
        };
        let created = match take_maybe_number(props, 11, "created") {
            Some(v) => v,
            None => {
                return None;
            },
        };
        let record = CalendarDetails {
            id,
            indexed_at,
            author,
            uri,
            name,
            timezone,
            color,
            description,
            url,
            image_uri,
            x_pubky_authors,
            created,
        };
        proof {
            assert(record@ =~= props_view(props@));
        }
        Some(record)
    }

    /// Reads what a store holds as the record of a calendar.
    pub fn read(record: Option<Vec<Property>>) -> (r: Result<Option<CalendarDetails>, StoreFailure>)
        ensures
            reads_as_calendar(r, record_view(record)),
    {
        match record {
            None => Ok(None),
            Some(props) => match CalendarDetails::from_properties(&props) {
                Some(found) => Ok(Some(found)),
                None => Err(StoreFailure { message: String::from_str("the stored record is no calendar") }),
            },
        }
    }

    /// The cached calendar of an author, if there is one.
    pub fn get_from_index(indexer: &Indexer, author_id: &str, calendar_id: &str) -> (r: Result<Option<CalendarDetails>, StoreFailure>)
        requires
            indexer.wf(),
        ensures
            reads_as_calendar(r, cached(indexer@, calendar_node(author_id@, calendar_id@))),
    {
        CalendarDetails::read(indexer.get_from_index(&NodeKey::new(ResourceKind::Calendar, author_id, calendar_id)))
    }

    /// The calendar of an author as the graph holds it, if there is one.
    pub fn get_from_graph(indexer: &Indexer, author_id: &str, calendar_id: &str) -> (r: Result<Option<CalendarDetails>, StoreFailure>)
        requires
            indexer.wf(),
        ensures
            reads_as_calendar(r, stored(indexer@, calendar_node(author_id@, calendar_id@))),
    {
        CalendarDetails::read(indexer.get_from_graph(&NodeKey::new(ResourceKind::Calendar, author_id, calendar_id)))
    }

    /// The calendar of an author: from the cache where it is there, else
    /// from the graph, filling the cache on the way.
    pub fn get_by_id(indexer: &mut Indexer, author_id: &str, calendar_id: &str) -> (r: Result<Option<CalendarDetails>, StoreFailure>)
        requires
            old(indexer).wf(),
        ensures
            final(indexer).wf(),
            final(indexer)@ == after_read(old(indexer)@, calendar_node(author_id@, calendar_id@)),
            reads_as_calendar(r, found(old(indexer)@, calendar_node(author_id@, calendar_id@))),
    {
        CalendarDetails::read(indexer.get_by_id(&NodeKey::new(ResourceKind::Calendar, author_id, calendar_id)))
    }

    /// Caches this calendar under an author and an id.
    pub fn put_to_index(&self, indexer: &mut Indexer, author_id: &str, calendar_id: &str)
        requires
            old(indexer).wf(),
        ensures
            final(indexer).wf(),
            final(indexer)@.graph == old(indexer)@.graph,
            final(indexer)@.cache == old(indexer)@.cache.insert(calendar_node(author_id@, calendar_id@), self@),
    {
        indexer.put_to_index(&NodeKey::new(ResourceKind::Calendar, author_id, calendar_id), &self.properties());
    }

    /// Discards the cached calendar and computes it anew from the graph.
    pub fn reindex(indexer: &mut Indexer, author_id: &str, calendar_id: &str)
        requires
            old(indexer).wf(),
        ensures
            final(indexer).wf(),
            final(indexer)@ == after_reindex(old(indexer)@, calendar_node(author_id@, calendar_id@)),
    {
        indexer.reindex(&NodeKey::new(ResourceKind::Calendar, author_id, calendar_id));
    }

    /// Writes this calendar to the graph.
    pub fn put_to_graph(&self, indexer: &mut Indexer) -> (out: Outcome)
        requires
            old(indexer).wf(),
        ensures
            final(indexer).wf(),
            final(indexer)@.cache == old(indexer)@.cache,
            final(indexer)@.graph == after_write(old(indexer)@.graph, calendar_write(*self)),
            out == outcome_of(old(indexer)@.graph, calendar_write(*self)),
    {
        indexer.put_to_graph(&self.write_request())
    }

    /// Deletes the calendar of an author: from the graph first, then from
    /// the cache.
    pub fn delete(indexer: &mut Indexer, author_id: &str, calendar_id: &str)
        requires
            old(indexer).wf(),
        ensures
            final(indexer).wf(),
            final(indexer)@ == after_removal(old(indexer)@, calendar_node(author_id@, calendar_id@)),
    {
        indexer.delete(&NodeKey::new(ResourceKind::Calendar, author_id, calendar_id));
    }
}

/// The keys of one page of the stream of calendars: the calendars in the
/// order in which they are stored, those alone that a given user may write
/// to where one is given.
pub open spec fn calendar_stream_keys(
    nodes: Seq<Node>,
    edges: Set<EdgeId>,
    admin: Option<Seq<char>>,
    skip: usize,
    limit: usize,
) -> Seq<NodeId> {
    let calendars = keys_of_kind(nodes, ResourceKind::Calendar);
    page_of(
        match admin {
            None => calendars,
            Some(user_id) => linked_keys(calendars, edges, LinkView { edge: EdgeKind::CanAuthor, node: user_node(user_id) }),
        },
        skip,
        limit,
    )
}

impl CalendarDetails {
    /// One page of the stream of calendars.
    pub fn stream(indexer: &Indexer, skip: usize, limit: usize, admin: Option<String>) -> (r: Result<
        Vec<CalendarDetails>,
        StoreFailure,
    >)
        requires
            indexer.wf(),
        ensures
            reads_all(
                r,
                indexer@.graph,
                calendar_stream_keys(indexer.graph.nodes@, indexer@.graph.edges, opt_view(admin), skip, limit),
            ),
    {
        let calendars = indexer.graph.keys(ResourceKind::Calendar);
        let wanted = match admin {
            None => calendars,
            Some(user_id) => {
                let link = Link { edge: EdgeKind::CanAuthor, node: NodeKey::user(user_id.as_str()) };
                indexer.graph.linked(&calendars, &link)
            },
        };
        let keys = page_keys(&wanted, skip, limit);
        read_all::<CalendarDetails>(&indexer.graph, &keys)
    }
}

impl Record for CalendarDetails {
    open spec fn fields(&self) -> Seq<(Seq<char>, Scalar)> {
        self@
    }

    open spec fn shaped(p: Seq<(Seq<char>, Scalar)>) -> bool {
        calendar_shaped(p)
    }

    fn decode(props: &Vec<Property>) -> (r: Option<CalendarDetails>) {
        CalendarDetails::from_properties(props)
    }

    fn duplicate(&self) -> (r: CalendarDetails) {
        let copy = CalendarDetails {
            id: self.id.clone(),
            indexed_at: self.indexed_at,
            author: self.author.clone(),
            uri: self.uri.clone(),
            name: self.name.clone(),
            timezone: self.timezone.clone(),
            color: clone_opt_string(&self.color),
            description: clone_opt_string(&self.description),
            url: clone_opt_string(&self.url),
            image_uri: clone_opt_string(&self.image_uri),
            x_pubky_authors: clone_opt_strings(&self.x_pubky_authors),
            created: self.created,
        };
        proof {
            assert(copy@ =~= self@);
        }
        copy
    }
}

/// The record of a calendar always has the form that reading it back asks
/// for: what was written as properties reads back as the same record.
pub proof fn calendar_record_reads_back(record: CalendarDetails)
    ensures
        calendar_shaped(record@),
{
}

/// The edge by which a user may write to a calendar.
pub open spec fn can_author_edge(user_id: Seq<char>, author_id: Seq<char>, calendar_id: Seq<char>) -> EdgeId {
    EdgeId {
        kind: EdgeKind::CanAuthor,
        from: user_node(user_id),
        to: calendar_node(author_id, calendar_id),
        label: Seq::empty(),
    }
}

/// The write of a calendar goes through exactly where its owner exists:
/// no entry of the list of permitted authors can make it fail.
pub proof fn calendar_write_needs_only_its_owner(
    g: GraphState,
    author_id: Seq<char>,
    calendar_id: Seq<char>,
    props: Seq<(Seq<char>, Scalar)>,
    authors: Seq<Seq<char>>,
)
    ensures
        writable(g, calendar_write_of(author_id, calendar_id, props, authors)) == g.nodes.contains_key(
            user_node(author_id),
        ),
{
}

/// After the write of a calendar, a user may write to it exactly where the
/// list names the user and the user exists: an edge from an earlier list
/// that the new list does not name is gone, and a listed user who does not
/// exist gets no edge.
pub proof fn calendar_authors_are_exact(
    g: GraphState,
    author_id: Seq<char>,
    calendar_id: Seq<char>,
    props: Seq<(Seq<char>, Scalar)>,
    authors: Seq<Seq<char>>,
    user_id: Seq<char>,
)
    requires
        g.nodes.contains_key(user_node(author_id)),
    ensures
        after_write(g, calendar_write_of(author_id, calendar_id, props, authors)).edges.contains(
            can_author_edge(user_id, author_id, calendar_id),
        ) <==> authors.contains(user_id) && g.nodes.contains_key(user_node(user_id)),
{
    let w = calendar_write_of(author_id, calendar_id, props, authors);
    let e = can_author_edge(user_id, author_id, calendar_id);
    let m = w.soft.len() as int;
    assert(writable(g, w));
    assert(replaced(w, e));
    assert(hard_edges(w, 0) =~= Set::<EdgeId>::empty());
    if soft_edges(g, w, m).contains(e) {
        let j = choose|j: int|
            0 <= j < m && present_after(g, w, (#[trigger] w.soft[j]).node) && e == link_edge(w.target, w.soft[j]);
        assert(w.soft[j].node == user_node(authors[j]));
        assert(authors[j] == user_id);
    }
    if authors.contains(user_id) && g.nodes.contains_key(user_node(user_id)) {
        let j = choose|j: int| 0 <= j < authors.len() && authors[j] == user_id;
        assert(present_after(g, w, w.soft[j].node));
        assert(e == link_edge(w.target, w.soft[j]));
    }
}

} // verus!
