//! Content references: the URI that names an author's resource, and its parts.

use vstd::prelude::*;
use vstd::string::*;
use crate::text::views;

verus! {

/// The kinds of resource a reference can name.
#[derive(Debug, Clone, Copy, PartialEq, Eq, Structural)]
pub enum ResourceKind {
    User,
    Post,
    File,
    Calendar,
    Event,
    Attendee,
    Alarm,
    /// A well-formed path that names none of the kinds above.
    Unknown,
}

/// Why a reference could not be resolved.
#[derive(Debug, Clone, Copy, PartialEq, Eq, Structural)]
pub enum ReferenceError {
    /// The text is no reference at all, or belongs to another application.
    Malformed,
    /// The reference names another kind of resource than the caller asked for.
    KindMismatch,
}

/// A resolved reference.
#[derive(Debug)]
pub struct Reference {
    pub author_id: String,
    pub kind: ResourceKind,
    pub resource_id: String,
}

/// The mathematical value of a [`Reference`].
pub struct ReferenceView {
    pub author_id: Seq<char>,
    pub kind: ResourceKind,
    pub resource_id: Seq<char>,
}

impl View for Reference {
    type V = ReferenceView;

    open spec fn view(&self) -> ReferenceView {
        ReferenceView { author_id: self.author_id@, kind: self.kind, resource_id: self.resource_id@ }
    }
}

/// The structural parts of a reference: who owns it, which application it
/// belongs to, and the path segments below the application.
#[derive(Debug)]
pub struct PathParts {
    pub user_id: String,
    pub app: String,
    pub segments: Vec<String>,
}

/// What `pubky_app_specs::try_parse_pubky_path` makes of a text: the owner,
/// the application and the segments below it, or nothing where it refuses
/// the text.
pub uninterp spec fn pubky_path(uri: Seq<char>) -> Option<(Seq<char>, Seq<char>, Seq<Seq<char>>)>;

/// Calls `pubky_app_specs::try_parse_pubky_path`, which parses the text as a
/// URL, checks the scheme and the owner's key, and cuts the path. The result
/// is named by [`pubky_path`]; its error message is dropped.
#[verifier::external_body]
fn parse_path(uri: &str) -> (r: Option<PathParts>)
    ensures
        match r {
            Some(p) => pubky_path(uri@) == Some((p.user_id@, p.app@, views(p.segments@))),
            None => pubky_path(uri@).is_none(),
        },
{
    match pubky_app_specs::try_parse_pubky_path(uri) {
        Ok(p) => Some(PathParts { user_id: p.user_id.to_string(), app: p.app, segments: p.segments }),
        Err(_) => None,
    }
}

/// Calls `pubky_app_specs::base_uri_builder`, which puts the owner between
/// the protocol and the public path of the application.
#[verifier::external_body]
fn base_uri(user_id: &str) -> (r: String)
    ensures
        r@ == "pubky://"@ + user_id@ + "/pub/"@ + "pubky.app/"@,
{
    pubky_app_specs::base_uri_builder(user_id.to_string())
}

/// The path segment under which resources of a kind live, with its closing
/// slash; empty for the kinds that have no collection.
pub open spec fn collection_of(kind: ResourceKind) -> Seq<char> {
    match kind {
        ResourceKind::Post => "posts/"@,
        ResourceKind::File => "files/"@,
        ResourceKind::Calendar => "calendars/"@,
        ResourceKind::Event => "events/"@,
        ResourceKind::Attendee => "attendees/"@,
        ResourceKind::Alarm => "alarms/"@,
        ResourceKind::User => "profile.json"@,
        ResourceKind::Unknown => Seq::<char>::empty(),
    }
}

/// The kind that a collection segment names.
pub open spec fn kind_of_segment(segment: Seq<char>) -> ResourceKind {
    if segment == "posts"@ {
        ResourceKind::Post
    } else if segment == "files"@ {
        ResourceKind::File
    } else if segment == "calendars"@ {
        ResourceKind::Calendar
    } else if segment == "events"@ {
        ResourceKind::Event
    } else if segment == "attendees"@ {
        ResourceKind::Attendee
    } else if segment == "alarms"@ {
        ResourceKind::Alarm
    } else {
        ResourceKind::Unknown
    }
}

/// The reference that the parts of a path stand for.
pub open spec fn reference_of(user: Seq<char>, app: Seq<char>, segments: Seq<Seq<char>>) -> Result<
    ReferenceView,
    ReferenceError,
> {
    if app != "pubky.app"@ {
        Err(ReferenceError::Malformed)
    } else if segments.len() == 1 && segments[0] == "profile.json"@ {
        Ok(ReferenceView { author_id: user, kind: ResourceKind::User, resource_id: Seq::empty() })
    } else if segments.len() >= 2 && segments[1].len() > 0 && kind_of_segment(segments[0])
        != ResourceKind::Unknown {
        Ok(ReferenceView { author_id: user, kind: kind_of_segment(segments[0]), resource_id: segments[1] })
    } else {
        Ok(ReferenceView { author_id: user, kind: ResourceKind::Unknown, resource_id: Seq::empty() })
    }
}

/// The reference that a text stands for.
pub open spec fn resolved(uri: Seq<char>) -> Result<ReferenceView, ReferenceError> {
    match pubky_path(uri) {
        None => Err(ReferenceError::Malformed),
        Some((user, app, segments)) => reference_of(user, app, segments),
    }
}

/// The reference that a text stands for where a given kind is expected.
pub open spec fn resolved_as(uri: Seq<char>, kind: ResourceKind) -> Result<ReferenceView, ReferenceError> {
    match resolved(uri) {
        Err(e) => Err(e),
        Ok(r) => if r.kind == kind {
            Ok(r)
        } else {
            Err(ReferenceError::KindMismatch)
        },
    }
}

/// Whether a result of resolving agrees with its mathematical value.
pub open spec fn agrees(r: Result<Reference, ReferenceError>, v: Result<ReferenceView, ReferenceError>) -> bool {
    match v {
        Ok(x) => r.is_ok() && r.unwrap()@ == x,
        Err(e) => r.is_err() && r.unwrap_err() == e,
    }
}

/// Whether `s` holds exactly the text `lit`.
pub fn is_text(s: &String, lit: &str) -> (b: bool)
    ensures
        b == (s@ == lit@),
{
    let t = String::from_str(lit);
    *s == t
}

fn segment_kind(segment: &String) -> (k: ResourceKind)
    ensures
        k == kind_of_segment(segment@),
{
    if is_text(segment, "posts") {
        ResourceKind::Post
    } else if is_text(segment, "files") {
        ResourceKind::File
    } else if is_text(segment, "calendars") {
        ResourceKind::Calendar
    } else if is_text(segment, "events") {
        ResourceKind::Event
    } else if is_text(segment, "attendees") {
        ResourceKind::Attendee
    } else if is_text(segment, "alarms") {
        ResourceKind::Alarm
    } else {
        ResourceKind::Unknown
    }
}

/// Tells which resource the parts of a path name.
pub fn resolve_parts(parts: &PathParts) -> (r: Result<Reference, ReferenceError>)
    ensures
        agrees(r, reference_of(parts.user_id@, parts.app@, views(parts.segments@))),
{
    if !is_text(&parts.app, "pubky.app") {
        return Err(ReferenceError::Malformed);
    }
    let n = parts.segments.len();
    if n == 1 && is_text(&parts.segments[0], "profile.json") {
        return Ok(Reference { author_id: parts.user_id.clone(), kind: ResourceKind::User, resource_id: String::new() });
    }
    if n >= 2 {
        let kind = segment_kind(&parts.segments[0]);
        if parts.segments[1].as_str().unicode_len() > 0 && kind != ResourceKind::Unknown {
            return Ok(Reference { author_id: parts.user_id.clone(), kind, resource_id: parts.segments[1].clone() });
        }
    }
    Ok(Reference { author_id: parts.user_id.clone(), kind: ResourceKind::Unknown, resource_id: String::new() })
}

/// Resolves a reference into its author, kind and resource id.
pub fn resolve(uri: &str) -> (r: Result<Reference, ReferenceError>)
    ensures
        agrees(r, resolved(uri@)),
{
    match parse_path(uri) {
        None => Err(ReferenceError::Malformed),
        Some(parts) => resolve_parts(&parts),
    }
}

/// Resolves a reference that must name a resource of the given kind.
pub fn resolve_expecting(uri: &str, kind: ResourceKind) -> (r: Result<Reference, ReferenceError>)
    ensures
        agrees(r, resolved_as(uri@, kind)),
{
    match resolve(uri) {
        Err(e) => Err(e),
        Ok(found) => if found.kind == kind {
            Ok(found)
        } else {
            Err(ReferenceError::KindMismatch)
        },
    }
}

/// The text of the reference to a resource.
pub open spec fn uri_text(author_id: Seq<char>, kind: ResourceKind, resource_id: Seq<char>) -> Seq<char> {
    "pubky://"@ + author_id + "/pub/"@ + "pubky.app/"@ + collection_of(kind) + resource_id
}

fn collection(kind: ResourceKind) -> (s: &'static str)
    ensures
        s@ == collection_of(kind),
{
    match kind {
        ResourceKind::Post => "posts/",
        ResourceKind::File => "files/",
        ResourceKind::Calendar => "calendars/",
        ResourceKind::Event => "events/",
        ResourceKind::Attendee => "attendees/",
        ResourceKind::Alarm => "alarms/",
        ResourceKind::User => "profile.json",
        ResourceKind::Unknown => {
            proof {
                reveal_strlit("");
            }
            ""
        },
    }
}

/// Builds the reference to a resource of an author.
pub fn build_uri(author_id: &str, kind: ResourceKind, resource_id: &str) -> (uri: String)
    ensures
        uri@ == uri_text(author_id@, kind, resource_id@),
{
    let base = base_uri(author_id);
    base.concat(collection(kind)).concat(resource_id)
}

} // verus!
