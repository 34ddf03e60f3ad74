use nexus_engine::attendee::{AttendeeDetails, AttendeePayload};
use nexus_engine::calendar::{CalendarDetails, CalendarPayload};
use nexus_engine::driver::to_driver;
use nexus_engine::event::{EventDetails, EventPayload};
use nexus_engine::post::{FileDetails, PostDetails, PostRelationships, UserDetails};
use nexus_engine::query::{
    create_alarm, create_attendee, create_calendar, create_calendar_tag, create_event, create_event_tag, create_file,
    create_follow, create_homeserver, create_mention_relationship, create_mute, create_post, create_post_bookmark,
    create_post_tag, create_user, create_user_tag, keys_of_links, node_query, set_clause, GraphQuery, ALARM_HEAD,
    ATTENDEE_HEAD, CALENDAR_HEAD, CALENDAR_TAIL, EVENT_HEAD, EVENT_TAIL, FLAG_TAIL, FOLLOW, POST_MERGE, REPLY_MATCH,
    REPLY_MERGE, REPOST_MATCH, REPOST_MERGE,
};
use nexus_engine::alarm::{AlarmDetails, AlarmPayload};
use nexus_engine::graph::{EdgeKind, Link, NodeKey};
use nexus_engine::reference::{build_uri, ReferenceError, ResourceKind};
use nexus_engine::value::{Property, Value};

const ALICE: &str = "operrr8wsbpr3ue9d4qj41ge1kcc6r7fdiy6o3ugjrrhi4y77rdo";
const BOB: &str = "8pinxxgqs41n4aididenw5apqp1urfmzdztr8jt4abrkdn435ewo";

fn names(q: &GraphQuery) -> Vec<String> {
    q.params.iter().map(|p| p.name.clone()).collect()
}

fn text_param(q: &GraphQuery, name: &str) -> String {
    match &q.params.iter().find(|p| p.name == name).unwrap().value {
        Value::Text(s) => s.clone(),
        other => panic!("{:?}", other),
    }
}

fn list_param(q: &GraphQuery, name: &str) -> Vec<String> {
    match &q.params.iter().find(|p| p.name == name).unwrap().value {
        Value::List(l) => l.clone(),
        other => panic!("{:?}", other),
    }
}

// Every `$name` in the text of a query.
fn placeholders(text: &str) -> Vec<String> {
    let mut found = Vec::new();
    let chars: Vec<char> = text.chars().collect();
    let mut i = 0;
    while i < chars.len() {
        if chars[i] == '$' {
            let mut j = i + 1;
            while j < chars.len() && (chars[j].is_alphanumeric() || chars[j] == '_') {
                j += 1;
            }
            found.push(chars[i + 1..j].iter().collect());
            i = j;
        } else {
            i += 1;
        }
    }
    found
}

fn every_placeholder_is_bound(q: &GraphQuery) {
    let bound = names(q);
    for name in placeholders(&q.text) {
        assert!(bound.contains(&name), "{} is not bound in {}", name, q.text);
    }
}

fn a_calendar(authors: Option<Vec<String>>) -> CalendarDetails {
    CalendarDetails::normalize(
        CalendarPayload {
            name: "team".to_string(),
            timezone: "UTC".to_string(),
            color: None,
            description: None,
            url: None,
            image_uri: None,
            x_pubky_authors: authors,
            created: None,
        },
        ALICE,
        "CAL1",
        42,
    )
    .unwrap()
}

fn an_event(calendars: Option<Vec<String>>) -> EventDetails {
    EventDetails::normalize(
        EventPayload {
            uid: "uid-1".to_string(),
            dtstamp: 100,
            dtstart: "2026-01-01T10:00:00".to_string(),
            summary: "party".to_string(),
            dtend: None,
            duration: None,
            dtstart_tzid: None,
            dtend_tzid: None,
            rrule: None,
            rdate: None,
            exdate: None,
            description: None,
            status: None,
            location: None,
            geo: None,
            url: None,
            sequence: None,
            last_modified: None,
            created: None,
            recurrence_id: None,
            image_uri: None,
            styled_description: None,
            x_pubky_calendar_uris: calendars,
            x_pubky_rsvp_access: None,
        },
        BOB,
        "EV1",
        43,
    )
    .unwrap()
}

#[test]
fn the_set_clause_stores_each_property_from_its_parameter() {
    let props = vec![Property::label("a", "x"), Property::number("b", 1), Property::label("c", "y")];
    assert_eq!(set_clause("n", &props), "SET n.a = $a, n.b = $b, n.c = $c");
    assert_eq!(set_clause("node", &props[..1].iter().map(|p| p.duplicate()).collect()), "SET node.a = $a");
    assert_eq!(set_clause("n", &vec![]), "SET ");
}

#[test]
fn a_node_query_is_head_clause_and_tail() {
    let q = node_query("HEAD\n", vec![Property::label("id", "1")], vec![Property::number("extra", 2)], "\nTAIL");
    assert_eq!(q.text, "HEAD\nSET n.id = $id\nTAIL");
    assert_eq!(names(&q), vec!["id", "extra"]);
}

#[test]
fn the_calendar_query_binds_the_authors_as_one_list() {
    let q = create_calendar(&a_calendar(Some(vec![BOB.to_string(), "x' OR 1=1".to_string()])));
    assert!(q.text.starts_with(CALENDAR_HEAD));
    assert!(q.text.ends_with(CALENDAR_TAIL));
    assert!(q.text.contains("SET n.id = $id, n.indexed_at = $indexed_at, n.author = $author, n.uri = $uri"));
    assert!(!q.text.contains(BOB));
    assert!(!q.text.contains("OR 1=1"));
    assert_eq!(list_param(&q, "author_ids"), vec![BOB.to_string(), "x' OR 1=1".to_string()]);
    assert_eq!(q.params.len(), 13);
    every_placeholder_is_bound(&q);
    let none = create_calendar(&a_calendar(None));
    assert!(list_param(&none, "author_ids").is_empty());
    assert_eq!(none.text, q.text);
}

#[test]
fn the_event_query_binds_the_calendars_as_one_list() {
    let uris = vec![
        build_uri(ALICE, ResourceKind::Calendar, "CAL1"),
        "nonsense".to_string(),
        build_uri(BOB, ResourceKind::Calendar, "CAL2"),
    ];
    let q = create_event(&an_event(Some(uris)));
    assert!(q.text.starts_with(EVENT_HEAD));
    assert!(q.text.ends_with(EVENT_TAIL));
    assert_eq!(list_param(&q, "calendar_keys"), vec![format!("{ALICE}/CAL1"), format!("{BOB}/CAL2")]);
    assert_eq!(q.params.len(), 29);
    every_placeholder_is_bound(&q);
    let none = create_event(&an_event(None));
    assert!(list_param(&none, "calendar_keys").is_empty());
    assert_eq!(none.text, q.text);
}

#[test]
fn the_answer_query_binds_its_event() {
    let answer = |uri: String| {
        AttendeeDetails::normalize(
            AttendeePayload {
                partstat: "ACCEPTED".to_string(),
                x_pubky_event_uri: uri,
                created_at: 1,
                last_modified: None,
                recurrence_id: None,
            },
            BOB,
            "AT1",
            44,
        )
        .unwrap()
    };
    let q = create_attendee(&answer(build_uri(ALICE, ResourceKind::Event, "EV1"))).unwrap();
    assert!(q.text.starts_with(ATTENDEE_HEAD));
    assert!(q.text.ends_with(FLAG_TAIL));
    assert_eq!(text_param(&q, "event_author"), ALICE);
    assert_eq!(text_param(&q, "event_id"), "EV1");
    assert!(!q.text.contains(ALICE));
    every_placeholder_is_bound(&q);
    assert_eq!(create_attendee(&answer("nonsense".to_string())).unwrap_err(), ReferenceError::Malformed);
    assert_eq!(
        create_attendee(&answer(build_uri(ALICE, ResourceKind::Post, "POST1"))).unwrap_err(),
        ReferenceError::KindMismatch
    );
}

#[test]
fn the_post_query_follows_the_relationships() {
    let post = PostDetails {
        id: "POST2".to_string(),
        author: BOB.to_string(),
        content: "re".to_string(),
        indexed_at: 1,
        kind: "short".to_string(),
        attachments: Some(vec!["a".to_string()]),
        uri: build_uri(BOB, ResourceKind::Post, "POST2"),
    };
    let set = "SET n.id = $id, n.author = $author, n.content = $content, n.indexed_at = $indexed_at, n.kind = $kind, \
               n.attachments = $attachments, n.uri = $uri";
    let none = PostRelationships { replied: None, reposted: None, mentioned: vec![] };
    let q = create_post(&post, &none).unwrap();
    assert_eq!(q.text, format!("{POST_MERGE}{set}{FLAG_TAIL}"));
    assert_eq!(q.params.len(), 7);
    every_placeholder_is_bound(&q);
    let reply = PostRelationships {
        replied: Some(build_uri(ALICE, ResourceKind::Post, "POST1")),
        reposted: None,
        mentioned: vec![],
    };
    let q = create_post(&post, &reply).unwrap();
    assert_eq!(q.text, format!("{REPLY_MATCH}{POST_MERGE}{REPLY_MERGE}{set}{FLAG_TAIL}"));
    assert_eq!(text_param(&q, "reply_parent_author_id"), ALICE);
    assert_eq!(text_param(&q, "reply_parent_post_id"), "POST1");
    every_placeholder_is_bound(&q);
    let both = PostRelationships {
        replied: Some(build_uri(ALICE, ResourceKind::Post, "POST1")),
        reposted: Some(build_uri(BOB, ResourceKind::Post, "POST0")),
        mentioned: vec![],
    };
    let q = create_post(&post, &both).unwrap();
    assert_eq!(
        q.text,
        format!("{REPLY_MATCH}{REPOST_MATCH}{POST_MERGE}{REPLY_MERGE}{REPOST_MERGE}{set}{FLAG_TAIL}")
    );
    assert_eq!(text_param(&q, "repost_parent_author_id"), BOB);
    assert_eq!(text_param(&q, "repost_parent_post_id"), "POST0");
    assert_eq!(q.params.len(), 11);
    every_placeholder_is_bound(&q);
    let repost = PostRelationships {
        replied: None,
        reposted: Some(build_uri(BOB, ResourceKind::Post, "POST0")),
        mentioned: vec![],
    };
    let q = create_post(&post, &repost).unwrap();
    assert_eq!(q.text, format!("{REPOST_MATCH}{POST_MERGE}{REPOST_MERGE}{set}{FLAG_TAIL}"));
    let bad = PostRelationships {
        replied: Some(build_uri(ALICE, ResourceKind::Calendar, "C")),
        reposted: None,
        mentioned: vec![],
    };
    assert_eq!(create_post(&post, &bad).unwrap_err(), ReferenceError::KindMismatch);
    let worse = PostRelationships { replied: None, reposted: Some("??".to_string()), mentioned: vec![] };
    assert_eq!(create_post(&post, &worse).unwrap_err(), ReferenceError::Malformed);
}

#[test]
fn users_files_and_reminders_have_their_queries() {
    let user = UserDetails {
        id: ALICE.to_string(),
        name: "alice".to_string(),
        bio: None,
        status: None,
        links: None,
        image: None,
        indexed_at: 1,
    };
    let q = create_user(&user);
    assert_eq!(
        q.text,
        "MERGE (n:User {id: $id})\nSET n.id = $id, n.name = $name, n.bio = $bio, n.status = $status, n.links = $links, \
         n.image = $image, n.indexed_at = $indexed_at;"
    );
    every_placeholder_is_bound(&q);
    let file = FileDetails {
        id: "F1".to_string(),
        owner_id: ALICE.to_string(),
        uri: "u".to_string(),
        indexed_at: 1,
        created_at: 2,
        size: 3,
        src: "s".to_string(),
        name: "n".to_string(),
        content_type: "c".to_string(),
        urls: "{}".to_string(),
    };
    let q = create_file(&file);
    assert!(q.text.starts_with("MERGE (n:File {id: $id, owner_id: $owner_id})\nSET n.id = $id, n.owner_id = $owner_id"));
    assert_eq!(q.params.len(), 10);
    every_placeholder_is_bound(&q);
    let alarm = AlarmDetails::normalize(
        AlarmPayload {
            action: "DISPLAY".to_string(),
            trigger: "-PT15M".to_string(),
            x_pubky_target_uri: "x".to_string(),
            duration: None,
            repeat: None,
            attach: None,
            description: None,
            summary: None,
            attendees: None,
        },
        ALICE,
        "AL1",
        1,
    )
    .unwrap();
    let q = create_alarm(&alarm);
    assert!(q.text.starts_with(ALARM_HEAD));
    assert!(q.text.ends_with(FLAG_TAIL));
    assert_eq!(q.params.len(), 13);
    every_placeholder_is_bound(&q);
}

#[test]
fn relationship_queries_bind_what_they_name() {
    let q = create_follow("a", "b", 7);
    assert_eq!(q.text, FOLLOW);
    assert_eq!(names(&q), vec!["follower_id", "followee_id", "indexed_at"]);
    assert_eq!(text_param(&q, "follower_id"), "a");
    assert_eq!(text_param(&q, "followee_id"), "b");
    assert!(matches!(q.params[2].value, Value::Int(7)));
    every_placeholder_is_bound(&q);
    let q = create_mute("a", "b", 7);
    assert_eq!(names(&q), vec!["user_id", "muted_id", "indexed_at"]);
    every_placeholder_is_bound(&q);
    let q = create_mention_relationship("a", "p", "m");
    assert_eq!(names(&q), vec!["author_id", "post_id", "mentioned_user_id"]);
    assert_eq!(text_param(&q, "mentioned_user_id"), "m");
    every_placeholder_is_bound(&q);
    let q = create_post_bookmark("u", "a", "p", "bm", 9);
    assert_eq!(names(&q), vec!["user_id", "author_id", "post_id", "bookmark_id", "indexed_at"]);
    assert_eq!(text_param(&q, "bookmark_id"), "bm");
    every_placeholder_is_bound(&q);
    let q = create_post_tag("u", "a", "p", "t", "cool", 9);
    assert_eq!(names(&q), vec!["user_id", "author_id", "post_id", "tag_id", "label", "indexed_at"]);
    assert_eq!(text_param(&q, "label"), "cool");
    assert!(q.text.contains("(post:Post {id: $post_id})"));
    every_placeholder_is_bound(&q);
    let q = create_user_tag("a", "b", "t", "friend", 9);
    assert_eq!(names(&q), vec!["tagger_user_id", "tagged_user_id", "tag_id", "label", "indexed_at"]);
    assert_eq!(text_param(&q, "tagger_user_id"), "a");
    assert_eq!(text_param(&q, "tagged_user_id"), "b");
    every_placeholder_is_bound(&q);
    let q = create_event_tag("u", "a", "e", "t", "fun", 9);
    assert_eq!(names(&q), vec!["user_id", "author_id", "event_id", "tag_id", "label", "indexed_at"]);
    assert!(q.text.contains("(event:Event {id: $event_id})"));
    every_placeholder_is_bound(&q);
    let q = create_calendar_tag("u", "a", "c", "t", "work", 9);
    assert_eq!(names(&q), vec!["user_id", "author_id", "calendar_id", "tag_id", "label", "indexed_at"]);
    assert!(q.text.contains("(calendar:Calendar {id: $calendar_id})"));
    every_placeholder_is_bound(&q);
    let q = create_homeserver("hs");
    assert_eq!(names(&q), vec!["id"]);
    assert_eq!(text_param(&q, "id"), "hs");
    every_placeholder_is_bound(&q);
}

#[test]
fn link_keys_are_author_slash_id() {
    let links = vec![
        Link { edge: EdgeKind::BelongsTo, node: NodeKey::new(ResourceKind::Calendar, "a", "1") },
        Link { edge: EdgeKind::BelongsTo, node: NodeKey::new(ResourceKind::Calendar, "b", "2") },
    ];
    assert_eq!(keys_of_links(&links), vec!["a/1", "b/2"]);
    assert!(keys_of_links(&vec![]).is_empty());
}

#[test]
fn the_driver_query_holds_every_parameter() {
    let q = create_calendar(&a_calendar(Some(vec![BOB.to_string()])));
    let driver = to_driver(&q);
    for name in names(&q) {
        assert!(driver.has_param_key(&name), "{} is not bound", name);
    }
    assert!(!driver.has_param_key("something_else"));
    let plain = to_driver(&GraphQuery { text: "RETURN 1".to_string(), params: vec![] });
    assert!(!plain.has_param_key("id"));
    let all_kinds = GraphQuery {
        text: "RETURN $a, $b, $c, $d".to_string(),
        params: vec![
            Property { name: "a".to_string(), value: Value::Null },
            Property { name: "b".to_string(), value: Value::Int(-1) },
            Property { name: "c".to_string(), value: Value::Text("t".to_string()) },
            Property { name: "d".to_string(), value: Value::List(vec!["x".to_string()]) },
        ],
    };
    let driver = to_driver(&all_kinds);
    for name in ["a", "b", "c", "d"] {
        assert!(driver.has_param_key(name));
    }
}
