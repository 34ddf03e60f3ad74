//! Graph queries: the text of a statement and the parameters bound to it.
//! Every value that a statement matches on or stores is a bound parameter;
//! none is written into the text.

use vstd::prelude::*;
use vstd::string::*;
use crate::alarm::AlarmDetails;
use crate::attendee::AttendeeDetails;
use crate::calendar::{author_ids, CalendarDetails};
use crate::event::{event_write, links_to_calendars, EventDetails};
use crate::graph::{links_view, Link, LinkView};
use crate::post::{FileDetails, PostDetails, PostRelationships, UserDetails};
use crate::reference::{resolve_expecting, resolved_as, ReferenceError, ResourceKind};
use crate::text::views;
use crate::value::{clone_strings, props_view, Property, Scalar};

verus! {

/// A statement for the graph store with its bound parameters.
#[derive(Debug)]
pub struct GraphQuery {
    pub text: String,
    pub params: Vec<Property>,
}

/// The mathematical value of a [`GraphQuery`].
pub struct QueryView {
    pub text: Seq<char>,
    pub params: Seq<(Seq<char>, Scalar)>,
}

impl View for GraphQuery {
    type V = QueryView;

    open spec fn view(&self) -> QueryView {
        QueryView { text: self.text@, params: props_view(self.params@) }
    }
}

/// The names of a list of properties.
pub open spec fn names_of(props: Seq<(Seq<char>, Scalar)>) -> Seq<Seq<char>> {
    props.map_values(|p: (Seq<char>, Scalar)| p.0)
}

/// The text that stores one parameter in the property of the same name.
pub open spec fn assignment(var: Seq<char>, name: Seq<char>) -> Seq<char> {
    var + "."@ + name + " = $"@ + name
}

/// The assignments of a list of names, separated by commas.
pub open spec fn assignments(var: Seq<char>, names: Seq<Seq<char>>) -> Seq<char>
    decreases names.len(),
{
    if names.len() == 0 {
        Seq::empty()
    } else if names.len() == 1 {
        assignment(var, names[0])
    } else {
        assignments(var, names.drop_last()) + ", "@ + assignment(var, names.last())
    }
}

/// The clause that stores each parameter in the property of the same name.
pub open spec fn set_text(var: Seq<char>, names: Seq<Seq<char>>) -> Seq<char> {
    "SET "@ + assignments(var, names)
}

/// Writes the clause that stores each of the given properties, from the
/// parameter of the same name, in the node bound to `var`.
pub fn set_clause(var: &str, props: &Vec<Property>) -> (clause: String)
    ensures
        clause@ == set_text(var@, names_of(props_view(props@))),
{
    let mut clause = String::from_str("SET ");
    let ghost names = names_of(props_view(props@));
    let mut i: usize = 0;
    proof {
        assert("SET "@ + assignments(var@, names.take(0)) =~= "SET "@);
    }
    while i < props.len()
        invariant
            i <= props.len(),
            names == names_of(props_view(props@)),
            names.len() == props.len(),
            clause@ == "SET "@ + assignments(var@, names.take(i as int)),
        decreases props.len() - i,
    {
        let ghost before = clause@;
        if i > 0 {
            clause.append(", ");
        }
        clause.append(var);
        clause.append(".");
        clause.append(props[i].name.as_str());
        clause.append(" = $");
        clause.append(props[i].name.as_str());
        proof {
            let name = props@[i as int].name@;
            assert(names[i as int] == name);
            assert(names.take(i + 1).drop_last() =~= names.take(i as int));
            assert(names.take(i + 1).last() == name);
            if i == 0 {
                assert(names.take(0).len() == 0);
                assert(assignments(var@, names.take(1)) == assignment(var@, name));
                assert(clause@ =~= "SET "@ + assignment(var@, name));
            } else {
                assert(assignments(var@, names.take(i + 1)) == assignments(var@, names.take(i as int)) + ", "@
                    + assignment(var@, name));
                assert(clause@ =~= before + ", "@ + assignment(var@, name));
                assert(clause@ =~= "SET "@ + assignments(var@, names.take(i + 1)));
            }
        }
        i = i + 1;
    }
    proof {
        assert(names.take(props.len() as int) =~= names);
    }
    clause
}

/// The query that writes a node: a fixed opening, the clause that stores the
/// record's properties in the node bound to `n`, and a fixed close. Its
/// parameters are the record's properties and those that the opening and
/// the close name besides.
pub open spec fn node_query_view(
    head: Seq<char>,
    record: Seq<(Seq<char>, Scalar)>,
    extras: Seq<(Seq<char>, Scalar)>,
    tail: Seq<char>,
) -> QueryView {
    QueryView { text: head + set_text("n"@, names_of(record)) + tail, params: record + extras }
}

/// Builds the query that writes a node.
pub fn node_query(head: &str, record: Vec<Property>, extras: Vec<Property>, tail: &str) -> (q: GraphQuery)
    ensures
        q@ == node_query_view(head@, props_view(record@), props_view(extras@), tail@),
{
    let mut text = String::from_str(head);
    let clause = set_clause("n", &record);
    text.append(clause.as_str());
    text.append(tail);
    let mut params = record;
    let mut rest = extras;
    let ghost a = params@;
    let ghost b = rest@;
    params.append(&mut rest);
    proof {
        assert(props_view(a + b) =~= props_view(a) + props_view(b));
    }
    GraphQuery { text, params }
}

/// The opening of the statement that writes a user.
pub const USER_HEAD: &'static str = "MERGE (n:User {id: $id})
";

/// The close of a statement that reports nothing.
pub const PLAIN_TAIL: &'static str = ";";

/// The query that writes a user.
pub fn create_user(user: &UserDetails) -> (q: GraphQuery)
    ensures
        q@ == node_query_view(USER_HEAD@, user@, Seq::empty(), PLAIN_TAIL@),
{
    let extras: Vec<Property> = Vec::new();
    proof {
        assert(props_view(extras@) =~= Seq::<(Seq<char>, Scalar)>::empty());
    }
    node_query(USER_HEAD, user.properties(), extras, PLAIN_TAIL)
}

/// The opening of the statement that writes a file.
pub const FILE_HEAD: &'static str = "MERGE (n:File {id: $id, owner_id: $owner_id})
";

/// The query that writes a file.
pub fn create_file(file: &FileDetails) -> (q: GraphQuery)
    ensures
        q@ == node_query_view(FILE_HEAD@, file@, Seq::empty(), PLAIN_TAIL@),
{
    let extras: Vec<Property> = Vec::new();
    proof {
        assert(props_view(extras@) =~= Seq::<(Seq<char>, Scalar)>::empty());
    }
    node_query(FILE_HEAD, file.properties(), extras, PLAIN_TAIL)
}

/// The close of a statement that reports whether the node existed before.
pub const FLAG_TAIL: &'static str = "
RETURN existing IS NOT NULL AS flag";

/// The opening of the statement that writes a reminder.
pub const ALARM_HEAD: &'static str = "MATCH (u:User {id: $author})
OPTIONAL MATCH (u)-[:AUTHORED]->(existing:Alarm {id: $id})
MERGE (u)-[:AUTHORED]->(n:Alarm {id: $id})
";

/// The query that writes a reminder.
pub fn create_alarm(alarm: &AlarmDetails) -> (q: GraphQuery)
    ensures
        q@ == node_query_view(ALARM_HEAD@, alarm@, Seq::empty(), FLAG_TAIL@),
{
    let extras: Vec<Property> = Vec::new();
    proof {
        assert(props_view(extras@) =~= Seq::<(Seq<char>, Scalar)>::empty());
    }
    node_query(ALARM_HEAD, alarm.properties(), extras, FLAG_TAIL)
}

/// The opening of the statement that writes a calendar.
pub const CALENDAR_HEAD: &'static str = "MATCH (u:User {id: $author})
OPTIONAL MATCH (u)-[:AUTHORED]->(existing:Calendar {id: $id})
MERGE (u)-[:AUTHORED]->(n:Calendar {id: $id})
";

/// The close of the statement that writes a calendar: the former permitted
/// authors are untied, then each user of the bound list who exists is tied.
pub const CALENDAR_TAIL: &'static str = "
WITH n, existing
OPTIONAL MATCH (:User)-[stale:CAN_AUTHOR]->(n)
DELETE stale
WITH DISTINCT n, existing
OPTIONAL MATCH (member:User) WHERE member.id IN $author_ids
FOREACH (_ IN CASE WHEN member IS NOT NULL THEN [1] ELSE [] END |
    MERGE (member)-[:CAN_AUTHOR {indexed_at: $indexed_at}]->(n))
WITH DISTINCT existing
RETURN existing IS NOT NULL AS flag";

/// The query that writes a calendar and brings its permitted authors in
/// line. The authors are bound as one list.
pub fn create_calendar(calendar: &CalendarDetails) -> (q: GraphQuery)
    ensures
        q@ == node_query_view(
            CALENDAR_HEAD@,
            calendar@,
            seq![("author_ids"@, Scalar::List(author_ids(calendar.x_pubky_authors)))],
            CALENDAR_TAIL@,
        ),
{
    let ids = match &calendar.x_pubky_authors {
        None => {
            let none: Vec<String> = Vec::new();
            proof {
                assert(views(none@) =~= Seq::<Seq<char>>::empty());
            }
            none
        },
        Some(ids) => clone_strings(ids),
    };
    let mut extras: Vec<Property> = Vec::new();
    extras.push(Property::list("author_ids", ids));
    proof {
        assert(props_view(extras@) =~= seq![("author_ids"@, Scalar::List(author_ids(calendar.x_pubky_authors)))]);
    }
    node_query(CALENDAR_HEAD, calendar.properties(), extras, CALENDAR_TAIL)
}

/// The opening of the statement that writes an event: every calendar of the
/// bound list must exist under its author, else the statement gives no row.
pub const EVENT_HEAD: &'static str = "MATCH (u:User {id: $author})
WITH u, [key IN $calendar_keys WHERE NOT EXISTS {
    MATCH (owner:User)-[:AUTHORED]->(cal:Calendar) WHERE owner.id + '/' + cal.id = key
}] AS missing
WHERE size(missing) = 0
OPTIONAL MATCH (u)-[:AUTHORED]->(existing:Event {id: $id})
MERGE (u)-[:AUTHORED]->(n:Event {id: $id})
";

/// The close of the statement that writes an event: the former calendars
/// are untied, then each calendar of the bound list is tied.
pub const EVENT_TAIL: &'static str = "
WITH n, existing
OPTIONAL MATCH (n)-[stale:BELONGS_TO]->(:Calendar)
DELETE stale
WITH DISTINCT n, existing
OPTIONAL MATCH (owner:User)-[:AUTHORED]->(cal:Calendar) WHERE owner.id + '/' + cal.id IN $calendar_keys
FOREACH (_ IN CASE WHEN cal IS NOT NULL THEN [1] ELSE [] END |
    MERGE (n)-[:BELONGS_TO {indexed_at: $indexed_at}]->(cal))
WITH DISTINCT existing
RETURN existing IS NOT NULL AS flag";

/// The text that names the node of a link: its author, a slash, its id.
pub open spec fn link_keys(links: Seq<LinkView>) -> Seq<Seq<char>> {
    links.map_values(|l: LinkView| l.node.author + "/"@ + l.node.id)
}

/// The texts that name the nodes of a list of links.
pub fn keys_of_links(links: &Vec<Link>) -> (keys: Vec<String>)
    ensures
        views(keys@) == link_keys(links_view(links@)),
{
    let mut keys: Vec<String> = Vec::new();
    let mut i: usize = 0;
    proof {
        assert(views(keys@) =~= link_keys(links_view(links@.take(0))));
    }
    while i < links.len()
        invariant
            i <= links.len(),
            views(keys@) == link_keys(links_view(links@.take(i as int))),
        decreases links.len() - i,
    {
        let key = links[i].node.author.clone().concat("/").concat(links[i].node.id.as_str());
        proof {
            assert(links@.take(i + 1) =~= links@.take(i as int).push(links@[i as int]));
            assert(views(keys@.push(key)) =~= views(keys@).push(key@));
            assert(link_keys(links_view(links@.take(i as int).push(links@[i as int]))) =~= link_keys(
                links_view(links@.take(i as int)),
            ).push(key@));
        }
        keys.push(key);
        i = i + 1;
    }
    proof {
        assert(links@.take(links.len() as int) =~= links@);
    }
    keys
}

/// The query that writes an event and brings the calendars it belongs to
/// in line. The calendars are bound as one list.
pub fn create_event(event: &EventDetails) -> (q: GraphQuery)
    ensures
        q@ == node_query_view(
            EVENT_HEAD@,
            event@,
            seq![("calendar_keys"@, Scalar::List(link_keys(event_write(*event).hard)))],
            EVENT_TAIL@,
        ),
{
    let keys = match &event.x_pubky_calendar_uris {
        None => {
            let none: Vec<String> = Vec::new();
            proof {
                assert(views(none@) =~= link_keys(Seq::<LinkView>::empty()));
            }
            none
        },
        Some(uris) => {
            let links = links_to_calendars(uris);
            keys_of_links(&links)
        },
    };
    let mut extras: Vec<Property> = Vec::new();
    extras.push(Property::list("calendar_keys", keys));
    proof {
        assert(props_view(extras@) =~= seq![("calendar_keys"@, Scalar::List(link_keys(event_write(*event).hard)))]);
    }
    node_query(EVENT_HEAD, event.properties(), extras, EVENT_TAIL)
}

/// The opening of the statement that writes an answer to an invitation:
/// the event must exist under its author, else the statement gives no row.
pub const ATTENDEE_HEAD: &'static str = "MATCH (u:User {id: $author})
MATCH (:User {id: $event_author})-[:AUTHORED]->(e:Event {id: $event_id})
OPTIONAL MATCH (u)-[:AUTHORED]->(existing:Attendee {id: $id})
MERGE (u)-[:AUTHORED]->(n:Attendee {id: $id})
MERGE (n)-[r:RSVP_TO]->(e)
SET r.indexed_at = $indexed_at
";

/// The parameters that name the event of an answer, or why its reference
/// cannot be resolved.
pub open spec fn event_params(a: AttendeeDetails) -> Result<Seq<(Seq<char>, Scalar)>, ReferenceError> {
    match resolved_as(a.x_pubky_event_uri@, ResourceKind::Event) {
        Err(e) => Err(e),
        Ok(r) => Ok(seq![("event_author"@, Scalar::Text(r.author_id)), ("event_id"@, Scalar::Text(r.resource_id))]),
    }
}

/// The query that writes an answer to an invitation and ties it to its
/// event. Where the reference to the event cannot be resolved there is no
/// query.
pub fn create_attendee(attendee: &AttendeeDetails) -> (r: Result<GraphQuery, ReferenceError>)
    ensures
        match event_params(*attendee) {
            Ok(extras) => r.is_ok() && r.unwrap()@ == node_query_view(ATTENDEE_HEAD@, attendee@, extras, FLAG_TAIL@),
            Err(e) => r.is_err() && r.unwrap_err() == e,
        },
{
    match resolve_expecting(attendee.x_pubky_event_uri.as_str(), ResourceKind::Event) {
        Err(e) => Err(e),
        Ok(found) => {
            let mut extras: Vec<Property> = Vec::new();
            extras.push(Property::text("event_author", &found.author_id));
            extras.push(Property::text("event_id", &found.resource_id));
            proof {
                assert(props_view(extras@) =~= event_params(*attendee).unwrap());
            }
            Ok(node_query(ATTENDEE_HEAD, attendee.properties(), extras, FLAG_TAIL))
        },
    }
}

/// The line that asks for the post that a post answers.
pub const REPLY_MATCH: &'static str =
    "MATCH (:User {id: $reply_parent_author_id})-[:AUTHORED]->(reply_parent_post:Post {id: $reply_parent_post_id})
";

/// The line that asks for the post that a post repeats.
pub const REPOST_MATCH: &'static str =
    "MATCH (:User {id: $repost_parent_author_id})-[:AUTHORED]->(repost_parent_post:Post {id: $repost_parent_post_id})
";

/// The lines that write the node of a post.
pub const POST_MERGE: &'static str = "MATCH (author:User {id: $author})
OPTIONAL MATCH (author)-[:AUTHORED]->(existing:Post {id: $id})
MERGE (author)-[:AUTHORED]->(n:Post {id: $id})
";

/// The line that ties a post to the post it answers.
pub const REPLY_MERGE: &'static str = "MERGE (n)-[:REPLIED]->(reply_parent_post)
";

/// The line that ties a post to the post it repeats.
pub const REPOST_MERGE: &'static str = "MERGE (n)-[:REPOSTED]->(repost_parent_post)
";

/// The opening of the statement that writes a post, by the relationships
/// that the post has.
pub open spec fn post_head(replied: bool, reposted: bool) -> Seq<char> {
    (if replied {
        REPLY_MATCH@
    } else {
        Seq::empty()
    }) + (if reposted {
        REPOST_MATCH@
    } else {
        Seq::empty()
    }) + POST_MERGE@ + (if replied {
        REPLY_MERGE@
    } else {
        Seq::empty()
    }) + (if reposted {
        REPOST_MERGE@
    } else {
        Seq::empty()
    })
}

/// The parameters that name the post behind one relationship.
pub open spec fn parent_params(uri: Option<String>, author_param: Seq<char>, post_param: Seq<char>) -> Result<
    Seq<(Seq<char>, Scalar)>,
    ReferenceError,
> {
    match uri {
        None => Ok(Seq::empty()),
        Some(text) => match resolved_as(text@, ResourceKind::Post) {
            Err(e) => Err(e),
            Ok(r) => Ok(seq![(author_param, Scalar::Text(r.author_id)), (post_param, Scalar::Text(r.resource_id))]),
        },
    }
}

/// The parameters that name the posts behind the relationships of a post.
pub open spec fn post_params(rel: PostRelationships) -> Result<Seq<(Seq<char>, Scalar)>, ReferenceError> {
    match parent_params(rel.replied, "reply_parent_author_id"@, "reply_parent_post_id"@) {
        Err(e) => Err(e),
        Ok(replied) => match parent_params(rel.reposted, "repost_parent_author_id"@, "repost_parent_post_id"@) {
            Err(e) => Err(e),
            Ok(reposted) => Ok(replied + reposted),
        },
    }
}

/// Adds the parameters that name the post behind one relationship.
pub fn add_relationship_params(params: &mut Vec<Property>, uri: &Option<String>, author_param: &str, post_param: &str) -> (r:
    Result<(), ReferenceError>)
    ensures
        match parent_params(*uri, author_param@, post_param@) {
            Ok(more) => r.is_ok() && props_view(final(params)@) == props_view(old(params)@) + more,
            Err(e) => r.is_err() && r.unwrap_err() == e && final(params)@ == old(params)@,
        },
{
    match uri {
        None => {
            proof {
                assert(props_view(params@) + Seq::<(Seq<char>, Scalar)>::empty() =~= props_view(params@));
            }
            Ok(())
        },
        Some(text) => match resolve_expecting(text.as_str(), ResourceKind::Post) {
            Err(e) => Err(e),
            Ok(found) => {
                let ghost before = params@;
                let a = Property::text(author_param, &found.author_id);
                let b = Property::text(post_param, &found.resource_id);
                proof {
                    assert(props_view(before.push(a).push(b)) =~= props_view(before) + seq![a@, b@]);
                }
                params.push(a);
                params.push(b);
                Ok(())
            },
        },
    }
}

/// The query that writes a post and ties it to the post it answers and the
/// post it repeats. Where one of the two references cannot be resolved
/// there is no query.
pub fn create_post(post: &PostDetails, post_relationships: &PostRelationships) -> (r: Result<
    GraphQuery,
    ReferenceError,
>)
    ensures
        match post_params(*post_relationships) {
            Ok(extras) => r.is_ok() && r.unwrap()@ == node_query_view(
                post_head(post_relationships.replied.is_some(), post_relationships.reposted.is_some()),
                post@,
                extras,
                FLAG_TAIL@,
            ),
            Err(e) => r.is_err() && r.unwrap_err() == e,
        },
{
    let mut extras: Vec<Property> = Vec::new();
    proof {
        assert(props_view(extras@) =~= Seq::<(Seq<char>, Scalar)>::empty());
    }
    match add_relationship_params(
        &mut extras,
        &post_relationships.replied,
        "reply_parent_author_id",
        "reply_parent_post_id",
    ) {
        Err(e) => {
            return Err(e);
        },
        Ok(()) => {},
    }
    match add_relationship_params(
        &mut extras,
        &post_relationships.reposted,
        "repost_parent_author_id",
        "repost_parent_post_id",
    ) {
        Err(e) => {
            return Err(e);
        },
        Ok(()) => {},
    }
    let replied = post_relationships.replied.is_some();
    let reposted = post_relationships.reposted.is_some();
    let mut head = String::new();
    if replied {
        head.append(REPLY_MATCH);
    }
    if reposted {
        head.append(REPOST_MATCH);
    }
    head.append(POST_MERGE);
    if replied {
        head.append(REPLY_MERGE);
    }
    if reposted {
        head.append(REPOST_MERGE);
    }
    proof {
        assert(head@ =~= post_head(replied, reposted));
        let ghost a = parent_params(post_relationships.replied, "reply_parent_author_id"@, "reply_parent_post_id"@).unwrap();
        let ghost b = parent_params(
            post_relationships.reposted,
            "repost_parent_author_id"@,
            "repost_parent_post_id"@,
        ).unwrap();
        assert(props_view(extras@) =~= a + b);
    }
    Ok(node_query(head.as_str(), post.properties(), extras, FLAG_TAIL))
}

/// The statement that records that one user follows another.
pub const FOLLOW: &'static str =
    "MATCH (follower:User {id: $follower_id}), (followee:User {id: $followee_id})
OPTIONAL MATCH (follower)-[existing:FOLLOWS]->(followee)
MERGE (follower)-[r:FOLLOWS]->(followee)
SET r.indexed_at = $indexed_at
RETURN existing IS NOT NULL AS flag;";

/// The query that records that one user follows another as of a given time.
pub fn create_follow(follower_id: &str, followee_id: &str, indexed_at: i64) -> (q: GraphQuery)
    ensures
        q@.text == FOLLOW@,
        q@.params == seq![
            ("follower_id"@, Scalar::Text(follower_id@)),
            ("followee_id"@, Scalar::Text(followee_id@)),
            ("indexed_at"@, Scalar::Int(indexed_at as int)),
        ],
{
    let mut params: Vec<Property> = Vec::new();
    params.push(Property::label("follower_id", follower_id));
    params.push(Property::label("followee_id", followee_id));
    params.push(Property::number("indexed_at", indexed_at));
    let q = GraphQuery { text: String::from_str(FOLLOW), params };
    proof {
        assert(q@.params =~= seq![
            ("follower_id"@, Scalar::Text(follower_id@)),
            ("followee_id"@, Scalar::Text(followee_id@)),
            ("indexed_at"@, Scalar::Int(indexed_at as int)),
        ]);
    }
    q
}

/// The statement that records that a user mutes another.
pub const MUTE: &'static str =
    "MATCH (user:User {id: $user_id}), (muted:User {id: $muted_id})
OPTIONAL MATCH (user)-[existing:MUTED]->(muted)
MERGE (user)-[r:MUTED]->(muted)
SET r.indexed_at = $indexed_at
RETURN existing IS NOT NULL AS flag;";

/// The query that records that a user mutes another as of a given time.
pub fn create_mute(user_id: &str, muted_id: &str, indexed_at: i64) -> (q: GraphQuery)
    ensures
        q@.text == MUTE@,
        q@.params == seq![
            ("user_id"@, Scalar::Text(user_id@)),
            ("muted_id"@, Scalar::Text(muted_id@)),
            ("indexed_at"@, Scalar::Int(indexed_at as int)),
        ],
{
    let mut params: Vec<Property> = Vec::new();
    params.push(Property::label("user_id", user_id));
    params.push(Property::label("muted_id", muted_id));
    params.push(Property::number("indexed_at", indexed_at));
    let q = GraphQuery { text: String::from_str(MUTE), params };
    proof {
        assert(q@.params =~= seq![
            ("user_id"@, Scalar::Text(user_id@)),
            ("muted_id"@, Scalar::Text(muted_id@)),
            ("indexed_at"@, Scalar::Int(indexed_at as int)),
        ]);
    }
    q
}

/// The statement that ties a post to a user it mentions.
pub const MENTION: &'static str =
    "MATCH (author:User {id: $author_id})-[:AUTHORED]->(post:Post {id: $post_id}),
      (mentioned_user:User {id: $mentioned_user_id})
MERGE (post)-[:MENTIONED]->(mentioned_user)";

/// The query that ties a post to a user it mentions.
pub fn create_mention_relationship(author_id: &str, post_id: &str, mentioned_user_id: &str) -> (q: GraphQuery)
    ensures
        q@.text == MENTION@,
        q@.params == seq![
            ("author_id"@, Scalar::Text(author_id@)),
            ("post_id"@, Scalar::Text(post_id@)),
            ("mentioned_user_id"@, Scalar::Text(mentioned_user_id@)),
        ],
{
    let mut params: Vec<Property> = Vec::new();
    params.push(Property::label("author_id", author_id));
    params.push(Property::label("post_id", post_id));
    params.push(Property::label("mentioned_user_id", mentioned_user_id));
    let q = GraphQuery { text: String::from_str(MENTION), params };
    proof {
        assert(q@.params =~= seq![
            ("author_id"@, Scalar::Text(author_id@)),
            ("post_id"@, Scalar::Text(post_id@)),
            ("mentioned_user_id"@, Scalar::Text(mentioned_user_id@)),
        ]);
    }
    q
}

/// The statement that records that a user bookmarks a post.
pub const BOOKMARK: &'static str =
    "MATCH (u:User {id: $user_id})
MATCH (author:User {id: $author_id})-[:AUTHORED]->(p:Post {id: $post_id})
OPTIONAL MATCH (u)-[existing:BOOKMARKED]->(p)
MERGE (u)-[b:BOOKMARKED]->(p)
SET b.indexed_at = $indexed_at,
    b.id = $bookmark_id
RETURN existing IS NOT NULL AS flag;";

/// The query that records that a user bookmarks a post of an author.
pub fn create_post_bookmark(user_id: &str, author_id: &str, post_id: &str, bookmark_id: &str, indexed_at: i64) -> (q: GraphQuery)
    ensures
        q@.text == BOOKMARK@,
        q@.params == seq![
            ("user_id"@, Scalar::Text(user_id@)),
            ("author_id"@, Scalar::Text(author_id@)),
            ("post_id"@, Scalar::Text(post_id@)),
            ("bookmark_id"@, Scalar::Text(bookmark_id@)),
            ("indexed_at"@, Scalar::Int(indexed_at as int)),
        ],
{
    let mut params: Vec<Property> = Vec::new();
    params.push(Property::label("user_id", user_id));
    params.push(Property::label("author_id", author_id));
    params.push(Property::label("post_id", post_id));
    params.push(Property::label("bookmark_id", bookmark_id));
    params.push(Property::number("indexed_at", indexed_at));
    let q = GraphQuery { text: String::from_str(BOOKMARK), params };
    proof {
        assert(q@.params =~= seq![
            ("user_id"@, Scalar::Text(user_id@)),
            ("author_id"@, Scalar::Text(author_id@)),
            ("post_id"@, Scalar::Text(post_id@)),
            ("bookmark_id"@, Scalar::Text(bookmark_id@)),
            ("indexed_at"@, Scalar::Int(indexed_at as int)),
        ]);
    }
    q
}

/// The statement that puts a labelled tag of a user on a post.
pub const POST_TAG: &'static str =
    "MATCH (user:User {id: $user_id})
MATCH (author:User {id: $author_id})-[:AUTHORED]->(post:Post {id: $post_id})
OPTIONAL MATCH (user)-[existing:TAGGED {label: $label}]->(post)
MERGE (user)-[t:TAGGED {label: $label}]->(post)
SET t.indexed_at = $indexed_at,
    t.id = $tag_id
RETURN existing IS NOT NULL AS flag;";

/// The query that puts a labelled tag of a user on a post of an author.
pub fn create_post_tag(user_id: &str, author_id: &str, post_id: &str, tag_id: &str, label: &str, indexed_at: i64) -> (q: GraphQuery)
    ensures
        q@.text == POST_TAG@,
        q@.params == seq![
            ("user_id"@, Scalar::Text(user_id@)),
            ("author_id"@, Scalar::Text(author_id@)),
            ("post_id"@, Scalar::Text(post_id@)),
            ("tag_id"@, Scalar::Text(tag_id@)),
            ("label"@, Scalar::Text(label@)),
            ("indexed_at"@, Scalar::Int(indexed_at as int)),
        ],
{
    let mut params: Vec<Property> = Vec::new();
    params.push(Property::label("user_id", user_id));
    params.push(Property::label("author_id", author_id));
    params.push(Property::label("post_id", post_id));
    params.push(Property::label("tag_id", tag_id));
    params.push(Property::label("label", label));
    params.push(Property::number("indexed_at", indexed_at));
    let q = GraphQuery { text: String::from_str(POST_TAG), params };
    proof {
        assert(q@.params =~= seq![
            ("user_id"@, Scalar::Text(user_id@)),
            ("author_id"@, Scalar::Text(author_id@)),
            ("post_id"@, Scalar::Text(post_id@)),
            ("tag_id"@, Scalar::Text(tag_id@)),
            ("label"@, Scalar::Text(label@)),
            ("indexed_at"@, Scalar::Int(indexed_at as int)),
        ]);
    }
    q
}

/// The statement that puts a labelled tag of a user on another user.
pub const USER_TAG: &'static str =
    "MATCH (tagged_user:User {id: $tagged_user_id})
MATCH (tagger:User {id: $tagger_user_id})
OPTIONAL MATCH (tagger)-[existing:TAGGED {label: $label}]->(tagged_user)
MERGE (tagger)-[t:TAGGED {label: $label}]->(tagged_user)
SET t.indexed_at = $indexed_at,
    t.id = $tag_id
RETURN existing IS NOT NULL AS flag;";

/// The query that puts a labelled tag of a user on another user.
pub fn create_user_tag(tagger_user_id: &str, tagged_user_id: &str, tag_id: &str, label: &str, indexed_at: i64) -> (q: GraphQuery)
    ensures
        q@.text == USER_TAG@,
        q@.params == seq![
            ("tagger_user_id"@, Scalar::Text(tagger_user_id@)),
            ("tagged_user_id"@, Scalar::Text(tagged_user_id@)),
            ("tag_id"@, Scalar::Text(tag_id@)),
            ("label"@, Scalar::Text(label@)),
            ("indexed_at"@, Scalar::Int(indexed_at as int)),
        ],
{
    let mut params: Vec<Property> = Vec::new();
    params.push(Property::label("tagger_user_id", tagger_user_id));
    params.push(Property::label("tagged_user_id", tagged_user_id));
    params.push(Property::label("tag_id", tag_id));
    params.push(Property::label("label", label));
    params.push(Property::number("indexed_at", indexed_at));
    let q = GraphQuery { text: String::from_str(USER_TAG), params };
    proof {
        assert(q@.params =~= seq![
            ("tagger_user_id"@, Scalar::Text(tagger_user_id@)),
            ("tagged_user_id"@, Scalar::Text(tagged_user_id@)),
            ("tag_id"@, Scalar::Text(tag_id@)),
            ("label"@, Scalar::Text(label@)),
            ("indexed_at"@, Scalar::Int(indexed_at as int)),
        ]);
    }
    q
}

/// The statement that puts a labelled tag of a user on an event.
pub const EVENT_TAG: &'static str =
    "MATCH (user:User {id: $user_id})
MATCH (author:User {id: $author_id})-[:AUTHORED]->(event:Event {id: $event_id})
OPTIONAL MATCH (user)-[existing:TAGGED {label: $label}]->(event)
MERGE (user)-[t:TAGGED {label: $label}]->(event)
SET t.indexed_at = $indexed_at,
    t.id = $tag_id
RETURN existing IS NOT NULL AS flag;";

/// The query that puts a labelled tag of a user on an event of an author.
pub fn create_event_tag(user_id: &str, author_id: &str, event_id: &str, tag_id: &str, label: &str, indexed_at: i64) -> (q: GraphQuery)
    ensures
        q@.text == EVENT_TAG@,
        q@.params == seq![
            ("user_id"@, Scalar::Text(user_id@)),
            ("author_id"@, Scalar::Text(author_id@)),
            ("event_id"@, Scalar::Text(event_id@)),
            ("tag_id"@, Scalar::Text(tag_id@)),
            ("label"@, Scalar::Text(label@)),
            ("indexed_at"@, Scalar::Int(indexed_at as int)),
        ],
{
    let mut params: Vec<Property> = Vec::new();
    params.push(Property::label("user_id", user_id));
    params.push(Property::label("author_id", author_id));
    params.push(Property::label("event_id", event_id));
    params.push(Property::label("tag_id", tag_id));
    params.push(Property::label("label", label));
    params.push(Property::number("indexed_at", indexed_at));
    let q = GraphQuery { text: String::from_str(EVENT_TAG), params };
    proof {
        assert(q@.params =~= seq![
            ("user_id"@, Scalar::Text(user_id@)),
            ("author_id"@, Scalar::Text(author_id@)),
            ("event_id"@, Scalar::Text(event_id@)),
            ("tag_id"@, Scalar::Text(tag_id@)),
            ("label"@, Scalar::Text(label@)),
            ("indexed_at"@, Scalar::Int(indexed_at as int)),
        ]);
    }
    q
}

/// The statement that puts a labelled tag of a user on a calendar.
pub const CALENDAR_TAG: &'static str =
    "MATCH (user:User {id: $user_id})
MATCH (author:User {id: $author_id})-[:AUTHORED]->(calendar:Calendar {id: $calendar_id})
OPTIONAL MATCH (user)-[existing:TAGGED {label: $label}]->(calendar)
MERGE (user)-[t:TAGGED {label: $label}]->(calendar)
SET t.indexed_at = $indexed_at,
    t.id = $tag_id
RETURN existing IS NOT NULL AS flag;";

/// The query that puts a labelled tag of a user on a calendar of an author.
pub fn create_calendar_tag(user_id: &str, author_id: &str, calendar_id: &str, tag_id: &str, label: &str, indexed_at: i64) -> (q: GraphQuery)
    ensures
        q@.text == CALENDAR_TAG@,
        q@.params == seq![
            ("user_id"@, Scalar::Text(user_id@)),
            ("author_id"@, Scalar::Text(author_id@)),
            ("calendar_id"@, Scalar::Text(calendar_id@)),
            ("tag_id"@, Scalar::Text(tag_id@)),
            ("label"@, Scalar::Text(label@)),
            ("indexed_at"@, Scalar::Int(indexed_at as int)),
        ],
{
    let mut params: Vec<Property> = Vec::new();
    params.push(Property::label("user_id", user_id));
    params.push(Property::label("author_id", author_id));
    params.push(Property::label("calendar_id", calendar_id));
    params.push(Property::label("tag_id", tag_id));
    params.push(Property::label("label", label));
    params.push(Property::number("indexed_at", indexed_at));
    let q = GraphQuery { text: String::from_str(CALENDAR_TAG), params };
    proof {
        assert(q@.params =~= seq![
            ("user_id"@, Scalar::Text(user_id@)),
            ("author_id"@, Scalar::Text(author_id@)),
            ("calendar_id"@, Scalar::Text(calendar_id@)),
            ("tag_id"@, Scalar::Text(tag_id@)),
            ("label"@, Scalar::Text(label@)),
            ("indexed_at"@, Scalar::Int(indexed_at as int)),
        ]);
    }
    q
}

/// The statement that makes sure a homeserver is known.
pub const HOMESERVER: &'static str =
    "MERGE (hs:Homeserver {id: $id})
RETURN hs;";

/// The query that makes sure a homeserver is known.
pub fn create_homeserver(homeserver_id: &str) -> (q: GraphQuery)
    ensures
        q@.text == HOMESERVER@,
        q@.params == seq![
            ("id"@, Scalar::Text(homeserver_id@)),
        ],
{
    let mut params: Vec<Property> = Vec::new();
    params.push(Property::label("id", homeserver_id));
    let q = GraphQuery { text: String::from_str(HOMESERVER), params };
    proof {
        assert(q@.params =~= seq![
            ("id"@, Scalar::Text(homeserver_id@)),
        ]);
    }
    q
}

} // verus!
