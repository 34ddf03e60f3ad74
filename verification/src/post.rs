//! Users, posts and files: the records and the writes that store them.

use vstd::prelude::*;
use vstd::string::*;
use crate::graph::{links_view, EdgeKind, Link, LinkView, NodeId, NodeKey, WriteRequest, WriteView};
use crate::reference::{resolve_expecting, resolved_as, ReferenceError, ResourceKind};
use crate::value::{opt_list, opt_text, props_view, Property, Scalar};

verus! {

/// A user profile as the index holds it. The links are kept as JSON text.
#[derive(Debug)]
pub struct UserDetails {
    pub id: String,
    pub name: String,
    pub bio: Option<String>,
    pub status: Option<String>,
    pub links: Option<String>,
    pub image: Option<String>,
    pub indexed_at: i64,
}

impl View for UserDetails {
    type V = Seq<(Seq<char>, Scalar)>;

    open spec fn view(&self) -> Seq<(Seq<char>, Scalar)> {
        seq![
            ("id"@, Scalar::Text(self.id@)),
            ("name"@, Scalar::Text(self.name@)),
            ("bio"@, opt_text(self.bio)),
            ("status"@, opt_text(self.status)),
            ("links"@, opt_text(self.links)),
            ("image"@, opt_text(self.image)),
            ("indexed_at"@, Scalar::Int(self.indexed_at as int)),
        ]
    }
}

impl UserDetails {
    /// The record as a list of named properties.
    pub fn properties(&self) -> (r: Vec<Property>)
        ensures
            props_view(r@) == self@,
    {
        let mut r: Vec<Property> = Vec::new();
        r.push(Property::text("id", &self.id));
        r.push(Property::text("name", &self.name));
        r.push(Property::maybe_text("bio", &self.bio));
        r.push(Property::maybe_text("status", &self.status));
        r.push(Property::maybe_text("links", &self.links));
        r.push(Property::maybe_text("image", &self.image));
        r.push(Property::number("indexed_at", self.indexed_at));
        proof {
            assert(props_view(r@) =~= self@);
        }
        r
    }
}

/// A post as the index holds it.
#[derive(Debug)]
pub struct PostDetails {
    pub id: String,
    pub author: String,
    pub content: String,
    pub indexed_at: i64,
    pub kind: String,
    pub attachments: Option<Vec<String>>,
    pub uri: String,
}

impl View for PostDetails {
    type V = Seq<(Seq<char>, Scalar)>;

    open spec fn view(&self) -> Seq<(Seq<char>, Scalar)> {
        seq![
            ("id"@, Scalar::Text(self.id@)),
            ("author"@, Scalar::Text(self.author@)),
            ("content"@, Scalar::Text(self.content@)),
            ("indexed_at"@, Scalar::Int(self.indexed_at as int)),
            ("kind"@, Scalar::Text(self.kind@)),
            ("attachments"@, opt_list(self.attachments)),
            ("uri"@, Scalar::Text(self.uri@)),
        ]
    }
}

impl PostDetails {
    /// The record as a list of named properties.
    pub fn properties(&self) -> (r: Vec<Property>)
        ensures
            props_view(r@) == self@,
    {
        let mut r: Vec<Property> = Vec::new();
        r.push(Property::text("id", &self.id));
        r.push(Property::text("author", &self.author));
        r.push(Property::text("content", &self.content));
        r.push(Property::number("indexed_at", self.indexed_at));
        r.push(Property::text("kind", &self.kind));
        r.push(Property::maybe_list("attachments", &self.attachments));
        r.push(Property::text("uri", &self.uri));
        proof {
            assert(props_view(r@) =~= self@);
        }
        r
    }
}

/// A file as the index holds it. The addresses of its variants are kept as JSON text.
#[derive(Debug)]
pub struct FileDetails {
    pub id: String,
    pub owner_id: String,
    pub uri: String,
    pub indexed_at: i64,
    pub created_at: i64,
    pub size: i64,
    pub src: String,
    pub name: String,
    pub content_type: String,
    pub urls: String,
}

impl View for FileDetails {
    type V = Seq<(Seq<char>, Scalar)>;

    open spec fn view(&self) -> Seq<(Seq<char>, Scalar)> {
        seq![
            ("id"@, Scalar::Text(self.id@)),
            ("owner_id"@, Scalar::Text(self.owner_id@)),
            ("uri"@, Scalar::Text(self.uri@)),
            ("indexed_at"@, Scalar::Int(self.indexed_at as int)),
            ("created_at"@, Scalar::Int(self.created_at as int)),
            ("size"@, Scalar::Int(self.size as int)),
            ("src"@, Scalar::Text(self.src@)),
            ("name"@, Scalar::Text(self.name@)),
            ("content_type"@, Scalar::Text(self.content_type@)),
            ("urls"@, Scalar::Text(self.urls@)),
        ]
    }
}

impl FileDetails {
    /// The record as a list of named properties.
    pub fn properties(&self) -> (r: Vec<Property>)
        ensures
            props_view(r@) == self@,
    {
        let mut r: Vec<Property> = Vec::new();
        r.push(Property::text("id", &self.id));
        r.push(Property::text("owner_id", &self.owner_id));
        r.push(Property::text("uri", &self.uri));
        r.push(Property::number("indexed_at", self.indexed_at));
        r.push(Property::number("created_at", self.created_at));
        r.push(Property::number("size", self.size));
        r.push(Property::text("src", &self.src));
        r.push(Property::text("name", &self.name));
        r.push(Property::text("content_type", &self.content_type));
        r.push(Property::text("urls", &self.urls));
        proof {
            assert(props_view(r@) =~= self@);
        }
        r
    }
}

/// The posts that a post answers or repeats, and the users it mentions.
#[derive(Debug)]
pub struct PostRelationships {
    pub replied: Option<String>,
    pub reposted: Option<String>,
    pub mentioned: Vec<String>,
}

/// The write that stores a user: the node alone. A user is its own author.
pub open spec fn user_write(u: UserDetails) -> WriteView {
    WriteView {
        target: NodeId { kind: ResourceKind::User, author: u.id@, id: Seq::empty() },
        props: u@,
        hard: Seq::empty(),
        soft: Seq::empty(),
        resync: None,
    }
}

/// The write that stores a file: the node alone, under its owner.
pub open spec fn file_write(f: FileDetails) -> WriteView {
    WriteView {
        target: NodeId { kind: ResourceKind::File, author: f.owner_id@, id: f.id@ },
        props: f@,
        hard: Seq::empty(),
        soft: Seq::empty(),
        resync: None,
    }
}

/// The link to the post that a reference names, where there is a reference.
pub open spec fn post_link(uri: Option<String>, edge: EdgeKind) -> Result<Seq<LinkView>, ReferenceError> {
    match uri {
        None => Ok(Seq::empty()),
        Some(text) => match resolved_as(text@, ResourceKind::Post) {
            Err(e) => Err(e),
            Ok(r) => Ok(
                seq![
                    LinkView { edge, node: NodeId { kind: ResourceKind::Post, author: r.author_id, id: r.resource_id } },
                ],
            ),
        },
    }
}

/// The write that stores a post: the post it answers and the post it
/// repeats must both exist. Where one of the two references cannot be
/// resolved there is no write.
pub open spec fn post_write(p: PostDetails, rel: PostRelationships) -> Result<WriteView, ReferenceError> {
    match post_link(rel.replied, EdgeKind::Replied) {
        Err(e) => Err(e),
        Ok(replied) => match post_link(rel.reposted, EdgeKind::Reposted) {
            Err(e) => Err(e),
            Ok(reposted) => Ok(
                WriteView {
                    target: NodeId { kind: ResourceKind::Post, author: p.author@, id: p.id@ },
                    props: p@,
                    hard: replied + reposted,
                    soft: Seq::empty(),
                    resync: None,
                },
            ),
        },
    }
}

/// Adds to a list of links the link to the post that a reference names.
pub fn add_post_link(links: &mut Vec<Link>, uri: &Option<String>, edge: EdgeKind) -> (r: Result<(), ReferenceError>)
    ensures
        match post_link(*uri, edge) {
            Ok(more) => r.is_ok() && links_view(final(links)@) == links_view(old(links)@) + more,
            Err(e) => r.is_err() && r.unwrap_err() == e && final(links)@ == old(links)@,
        },
{
    match uri {
        None => {
            proof {
                assert(links_view(links@) + Seq::<LinkView>::empty() =~= links_view(links@));
            }
            Ok(())
        },
        Some(text) => match resolve_expecting(text.as_str(), ResourceKind::Post) {
            Err(e) => Err(e),
            Ok(found) => {
                let link = Link {
                    edge,
                    node: NodeKey { kind: ResourceKind::Post, author: found.author_id, id: found.resource_id },
                };
                proof {
                    assert(links_view(links@.push(link)) =~= links_view(links@) + seq![link@]);
                }
                links.push(link);
                Ok(())
            },
        },
    }
}

impl UserDetails {
    /// The write that stores this user.
    pub fn write_request(&self) -> (req: WriteRequest)
        ensures
            req@ == user_write(*self),
    {
        let hard: Vec<Link> = Vec::new();
        let soft: Vec<Link> = Vec::new();
        proof {
            assert(links_view(hard@) =~= Seq::<LinkView>::empty());
            assert(links_view(soft@) =~= Seq::<LinkView>::empty());
        }
        WriteRequest {
            target: NodeKey { kind: ResourceKind::User, author: self.id.clone(), id: String::new() },
            props: self.properties(),
            hard,
            soft,
            resync: None,
        }
    }
}

impl FileDetails {
    /// The write that stores this file.
    pub fn write_request(&self) -> (req: WriteRequest)
        ensures
            req@ == file_write(*self),
    {
        let hard: Vec<Link> = Vec::new();
        let soft: Vec<Link> = Vec::new();
        proof {
            assert(links_view(hard@) =~= Seq::<LinkView>::empty());
            assert(links_view(soft@) =~= Seq::<LinkView>::empty());
        }
        WriteRequest {
            target: NodeKey { kind: ResourceKind::File, author: self.owner_id.clone(), id: self.id.clone() },
            props: self.properties(),
            hard,
            soft,
            resync: None,
        }
    }
}

impl PostDetails {
    /// The write that stores this post with its relationships.
    pub fn write_request(&self, rel: &PostRelationships) -> (r: Result<WriteRequest, ReferenceError>)
        ensures
            match post_write(*self, *rel) {
                Ok(w) => r.is_ok() && r.unwrap()@ == w,
                Err(e) => r.is_err() && r.unwrap_err() == e,
            },
    {
        let mut hard: Vec<Link> = Vec::new();
        proof {
            assert(links_view(hard@) =~= Seq::<LinkView>::empty());
        }
        match add_post_link(&mut hard, &rel.replied, EdgeKind::Replied) {
            Err(e) => {
                return Err(e);
            },
            Ok(()) => {},
        }
        match add_post_link(&mut hard, &rel.reposted, EdgeKind::Reposted) {
            Err(e) => {
                return Err(e);
            },
            Ok(()) => {},
        }
        let soft: Vec<Link> = Vec::new();
        proof {
            assert(links_view(soft@) =~= Seq::<LinkView>::empty());
            let ghost a = post_link(rel.replied, EdgeKind::Replied).unwrap();
            let ghost b = post_link(rel.reposted, EdgeKind::Reposted).unwrap();
            assert(links_view(hard@) =~= a + b);
        }
        Ok(
            WriteRequest {
                target: NodeKey { kind: ResourceKind::Post, author: self.author.clone(), id: self.id.clone() },
                props: self.properties(),
                hard,
                soft,
                resync: None,
            },
        )
    }
}

} // verus!
