use nexus_engine::alarm::{AlarmDetails, AlarmPayload};
use nexus_engine::attendee::{AttendeeDetails, AttendeePayload};
use nexus_engine::calendar::{CalendarDetails, CalendarPayload};
use nexus_engine::event::{links_to_calendars, EventDetails, EventPayload};
use nexus_engine::graph::{Edge, EdgeKind, NodeKey, Outcome};
use nexus_engine::indexer::Indexer;
use nexus_engine::post::{FileDetails, PostDetails, PostRelationships, UserDetails};
use nexus_engine::reference::{build_uri, ReferenceError, ResourceKind};
use nexus_engine::value::{Property, Value};

const ALICE: &str = "operrr8wsbpr3ue9d4qj41ge1kcc6r7fdiy6o3ugjrrhi4y77rdo";
const BOB: &str = "8pinxxgqs41n4aididenw5apqp1urfmzdztr8jt4abrkdn435ewo";

fn a_user(id: &str) -> UserDetails {
    UserDetails {
        id: id.to_string(),
        name: "someone".to_string(),
        bio: Some("bio".to_string()),
        status: None,
        links: Some("[{\"title\":\"site\",\"url\":\"https://example.com\"}]".to_string()),
        image: None,
        indexed_at: 3,
    }
}

fn a_calendar() -> CalendarPayload {
    CalendarPayload {
        name: "team".to_string(),
        timezone: "UTC".to_string(),
        color: Some("#ff0000".to_string()),
        description: None,
        url: None,
        image_uri: None,
        x_pubky_authors: Some(vec![BOB.to_string()]),
        created: Some(99),
    }
}

fn an_event() -> EventPayload {
    EventPayload {
        uid: "uid-1".to_string(),
        dtstamp: 100,
        dtstart: "2026-01-01T10:00:00".to_string(),
        summary: "party".to_string(),
        dtend: Some("2026-01-01T12:00:00".to_string()),
        duration: None,
        dtstart_tzid: None,
        dtend_tzid: None,
        rrule: None,
        rdate: Some(vec!["2026-02-01".to_string()]),
        exdate: None,
        description: None,
        status: Some("CONFIRMED".to_string()),
        location: None,
        geo: None,
        url: None,
        sequence: Some(-2),
        last_modified: Some(5),
        created: None,
        recurrence_id: None,
        image_uri: None,
        styled_description: Some("{\"format\":\"md\"}".to_string()),
        x_pubky_calendar_uris: Some(vec![build_uri(ALICE, ResourceKind::Calendar, "CAL1")]),
        x_pubky_rsvp_access: None,
    }
}

fn an_alarm() -> AlarmPayload {
    AlarmPayload {
        action: "DISPLAY".to_string(),
        trigger: "-PT15M".to_string(),
        x_pubky_target_uri: build_uri(ALICE, ResourceKind::Event, "EV1"),
        duration: None,
        repeat: Some(3),
        attach: None,
        description: Some("soon".to_string()),
        summary: None,
        attendees: Some(vec![BOB.to_string()]),
    }
}

fn names(props: &[Property]) -> Vec<String> {
    props.iter().map(|p| p.name.clone()).collect()
}

#[test]
fn a_calendar_is_normalized_under_its_author_and_id() {
    let c = CalendarDetails::normalize(a_calendar(), ALICE, "CAL1", 42).unwrap();
    assert_eq!(c.id, "CAL1");
    assert_eq!(c.author, ALICE);
    assert_eq!(c.indexed_at, 42);
    assert_eq!(c.uri, format!("pubky://{ALICE}/pub/pubky.app/calendars/CAL1"));
    assert_eq!(c.name, "team");
    assert_eq!(c.color.as_deref(), Some("#ff0000"));
    assert_eq!(c.x_pubky_authors, Some(vec![BOB.to_string()]));
    assert_eq!(c.created, Some(99));
}

#[test]
fn the_properties_of_a_calendar_are_its_fields_in_order() {
    let c = CalendarDetails::normalize(a_calendar(), ALICE, "CAL1", 42).unwrap();
    let props = c.properties();
    assert_eq!(
        names(&props),
        vec![
            "id", "indexed_at", "author", "uri", "name", "timezone", "color", "description", "url", "image_uri",
            "x_pubky_authors", "created"
        ]
    );
    assert!(matches!(&props[1].value, Value::Int(42)));
    assert!(matches!(&props[7].value, Value::Null));
    assert!(matches!(&props[10].value, Value::List(l) if l == &vec![BOB.to_string()]));
    assert!(matches!(&props[11].value, Value::Int(99)));
}

#[test]
fn records_read_back_from_their_properties() {
    let c = CalendarDetails::normalize(a_calendar(), ALICE, "CAL1", 42).unwrap();
    let back = CalendarDetails::from_properties(&c.properties()).unwrap();
    assert_eq!(format!("{:?}", back), format!("{:?}", c));
    let e = EventDetails::normalize(an_event(), ALICE, "EV1", 43).unwrap();
    let back = EventDetails::from_properties(&e.properties()).unwrap();
    assert_eq!(format!("{:?}", back), format!("{:?}", e));
    assert_eq!(back.sequence, Some(-2));
    let a = AlarmDetails::normalize(an_alarm(), ALICE, "AL1", 44).unwrap();
    let back = AlarmDetails::from_properties(&a.properties()).unwrap();
    assert_eq!(format!("{:?}", back), format!("{:?}", a));
    let event_uri = build_uri(ALICE, ResourceKind::Event, "EV1");
    let att = AttendeeDetails::normalize(
        AttendeePayload {
            partstat: "ACCEPTED".to_string(),
            x_pubky_event_uri: event_uri,
            created_at: 1,
            last_modified: Some(2),
            recurrence_id: None,
        },
        BOB,
        "AT1",
        45,
    )
    .unwrap();
    let back = AttendeeDetails::from_properties(&att.properties()).unwrap();
    assert_eq!(format!("{:?}", back), format!("{:?}", att));
}

#[test]
fn a_list_of_another_form_reads_back_as_nothing() {
    let c = CalendarDetails::normalize(a_calendar(), ALICE, "CAL1", 42).unwrap();
    let mut short = c.properties();
    short.pop();
    assert!(CalendarDetails::from_properties(&short).is_none());
    let mut renamed = c.properties();
    renamed[4].name = "title".to_string();
    assert!(CalendarDetails::from_properties(&renamed).is_none());
    let mut retyped = c.properties();
    retyped[1].value = Value::Text("42".to_string());
    assert!(CalendarDetails::from_properties(&retyped).is_none());
    let e = EventDetails::normalize(an_event(), ALICE, "EV1", 43).unwrap();
    let mut too_large = e.properties();
    too_large[20].value = Value::Int(1 << 40);
    assert!(EventDetails::from_properties(&too_large).is_none());
    assert!(EventDetails::from_properties(&c.properties()).is_none());
}

#[test]
fn required_fields_are_checked_in_order() {
    let mut p = an_event();
    p.uid = String::new();
    p.summary = String::new();
    assert_eq!(EventDetails::normalize(p, ALICE, "EV1", 1).unwrap_err().field, "uid");
    let mut p = an_event();
    p.dtstart = String::new();
    assert_eq!(EventDetails::normalize(p, ALICE, "EV1", 1).unwrap_err().field, "dtstart");
    let mut p = an_alarm();
    p.trigger = String::new();
    assert_eq!(AlarmDetails::normalize(p, ALICE, "AL1", 1).unwrap_err().field, "trigger");
    let mut p = an_alarm();
    p.x_pubky_target_uri = String::new();
    assert_eq!(AlarmDetails::from_homeserver(p, ALICE, "AL1").unwrap_err().field, "x_pubky_target_uri");
    let p = AttendeePayload {
        partstat: "ACCEPTED".to_string(),
        x_pubky_event_uri: String::new(),
        created_at: 1,
        last_modified: None,
        recurrence_id: None,
    };
    assert_eq!(AttendeeDetails::normalize(p, ALICE, "AT1", 1).unwrap_err().field, "x_pubky_event_uri");
}

#[test]
fn records_are_normalized_as_of_now() {
    let c = CalendarDetails::from_homeserver(a_calendar(), ALICE, "CAL1").unwrap();
    assert!(c.indexed_at > 1_600_000_000_000);
    assert_eq!(c.id, "CAL1");
    let e = EventDetails::from_homeserver(an_event(), ALICE, "EV1").unwrap();
    assert!(e.indexed_at > 1_600_000_000_000);
    assert_eq!(e.uri, format!("pubky://{ALICE}/pub/pubky.app/events/EV1"));
}

#[test]
fn the_write_of_a_calendar_ties_its_permitted_authors() {
    let c = CalendarDetails::normalize(a_calendar(), ALICE, "CAL1", 42).unwrap();
    let req = c.write_request();
    assert!(req.target.same(&NodeKey::new(ResourceKind::Calendar, ALICE, "CAL1")));
    assert!(req.hard.is_empty());
    assert_eq!(req.soft.len(), 1);
    assert_eq!(req.soft[0].edge, EdgeKind::CanAuthor);
    assert!(req.soft[0].node.same(&NodeKey::user(BOB)));
    assert_eq!(req.resync, Some(EdgeKind::CanAuthor));
    assert_eq!(req.props.len(), 12);
}

#[test]
fn the_write_of_an_event_needs_the_calendars_it_names() {
    let e = EventDetails::normalize(an_event(), BOB, "EV1", 42).unwrap();
    let req = e.write_request();
    assert_eq!(req.hard.len(), 1);
    assert_eq!(req.hard[0].edge, EdgeKind::BelongsTo);
    assert!(req.hard[0].node.same(&NodeKey::new(ResourceKind::Calendar, ALICE, "CAL1")));
    assert!(req.soft.is_empty());
    assert_eq!(req.resync, Some(EdgeKind::BelongsTo));
    assert_eq!(req.props.len(), 28);
    let links = links_to_calendars(&vec!["x".to_string(), build_uri(BOB, ResourceKind::Calendar, "C2")]);
    assert_eq!(links.len(), 1);
    assert!(links[0].node.same(&NodeKey::new(ResourceKind::Calendar, BOB, "C2")));
}

#[test]
fn the_write_of_an_answer_needs_its_event() {
    let payload = |uri: String| AttendeePayload {
        partstat: "ACCEPTED".to_string(),
        x_pubky_event_uri: uri,
        created_at: 1,
        last_modified: None,
        recurrence_id: Some(9),
    };
    let a = AttendeeDetails::normalize(payload(build_uri(ALICE, ResourceKind::Event, "EV1")), BOB, "AT1", 1).unwrap();
    let req = a.write_request().unwrap();
    assert_eq!(req.hard.len(), 1);
    assert_eq!(req.hard[0].edge, EdgeKind::RsvpTo);
    assert!(req.hard[0].node.same(&NodeKey::new(ResourceKind::Event, ALICE, "EV1")));
    assert_eq!(req.resync, None);
    let a = AttendeeDetails::normalize(payload("nonsense".to_string()), BOB, "AT1", 1).unwrap();
    assert_eq!(a.write_request().unwrap_err(), ReferenceError::Malformed);
    let a = AttendeeDetails::normalize(payload(build_uri(ALICE, ResourceKind::Calendar, "C")), BOB, "AT1", 1).unwrap();
    assert_eq!(a.write_request().unwrap_err(), ReferenceError::KindMismatch);
}

#[test]
fn the_write_of_a_post_needs_the_posts_it_refers_to() {
    let post = PostDetails {
        id: "POST2".to_string(),
        author: BOB.to_string(),
        content: "re".to_string(),
        indexed_at: 1,
        kind: "short".to_string(),
        attachments: None,
        uri: build_uri(BOB, ResourceKind::Post, "POST2"),
    };
    let rel = PostRelationships {
        replied: Some(build_uri(ALICE, ResourceKind::Post, "POST1")),
        reposted: Some(build_uri(ALICE, ResourceKind::Post, "POST0")),
        mentioned: vec![],
    };
    let req = post.write_request(&rel).unwrap();
    assert_eq!(req.hard.len(), 2);
    assert_eq!(req.hard[0].edge, EdgeKind::Replied);
    assert!(req.hard[0].node.same(&NodeKey::new(ResourceKind::Post, ALICE, "POST1")));
    assert_eq!(req.hard[1].edge, EdgeKind::Reposted);
    assert!(req.hard[1].node.same(&NodeKey::new(ResourceKind::Post, ALICE, "POST0")));
    let none = PostRelationships { replied: None, reposted: None, mentioned: vec![] };
    assert!(post.write_request(&none).unwrap().hard.is_empty());
    let bad = PostRelationships { replied: None, reposted: Some("x".to_string()), mentioned: vec![] };
    assert_eq!(post.write_request(&bad).unwrap_err(), ReferenceError::Malformed);
    let wrong = PostRelationships {
        replied: Some(build_uri(ALICE, ResourceKind::Event, "E")),
        reposted: None,
        mentioned: vec![],
    };
    assert_eq!(post.write_request(&wrong).unwrap_err(), ReferenceError::KindMismatch);
}

#[test]
fn users_and_files_are_written_alone() {
    let req = a_user(ALICE).write_request();
    assert!(req.target.same(&NodeKey::user(ALICE)));
    assert!(req.hard.is_empty() && req.soft.is_empty());
    assert_eq!(req.props.len(), 7);
    let file = FileDetails {
        id: "F1".to_string(),
        owner_id: ALICE.to_string(),
        uri: build_uri(ALICE, ResourceKind::File, "F1"),
        indexed_at: 1,
        created_at: 2,
        size: 3,
        src: "src".to_string(),
        name: "a.png".to_string(),
        content_type: "image/png".to_string(),
        urls: "{\"main\":\"x\"}".to_string(),
    };
    let req = file.write_request();
    assert!(req.target.same(&NodeKey::new(ResourceKind::File, ALICE, "F1")));
    assert_eq!(req.props.len(), 10);
    let alarm = AlarmDetails::normalize(an_alarm(), ALICE, "AL1", 1).unwrap();
    let req = alarm.write_request();
    assert!(req.target.same(&NodeKey::new(ResourceKind::Alarm, ALICE, "AL1")));
    assert!(req.hard.is_empty() && req.soft.is_empty() && req.resync.is_none());
}

#[test]
fn typed_reads_go_through_the_cache() {
    let mut x = Indexer::new();
    x.index(&a_user(ALICE).write_request());
    x.index(&a_user(BOB).write_request());
    let c = CalendarDetails::normalize(a_calendar(), ALICE, "CAL1", 42).unwrap();
    assert_eq!(c.put_to_graph(&mut x), Outcome::Created);
    assert!(CalendarDetails::get_from_index(&x, ALICE, "CAL1").unwrap().is_none());
    assert_eq!(CalendarDetails::get_from_graph(&x, ALICE, "CAL1").unwrap().unwrap().name, "team");
    assert_eq!(CalendarDetails::get_by_id(&mut x, ALICE, "CAL1").unwrap().unwrap().name, "team");
    assert_eq!(CalendarDetails::get_from_index(&x, ALICE, "CAL1").unwrap().unwrap().name, "team");
    assert!(CalendarDetails::get_by_id(&mut x, ALICE, "CAL2").unwrap().is_none());
    let mut renamed = a_calendar();
    renamed.name = "crew".to_string();
    let c2 = CalendarDetails::normalize(renamed, ALICE, "CAL1", 43).unwrap();
    assert_eq!(c2.put_to_graph(&mut x), Outcome::Updated);
    assert_eq!(CalendarDetails::get_by_id(&mut x, ALICE, "CAL1").unwrap().unwrap().name, "team");
    CalendarDetails::reindex(&mut x, ALICE, "CAL1");
    assert_eq!(CalendarDetails::get_by_id(&mut x, ALICE, "CAL1").unwrap().unwrap().name, "crew");
    c.put_to_index(&mut x, ALICE, "CAL1");
    assert_eq!(CalendarDetails::get_from_index(&x, ALICE, "CAL1").unwrap().unwrap().name, "team");
    CalendarDetails::delete(&mut x, ALICE, "CAL1");
    assert!(CalendarDetails::get_by_id(&mut x, ALICE, "CAL1").unwrap().is_none());
}

#[test]
fn a_stored_record_of_another_form_is_a_failure() {
    let mut x = Indexer::new();
    let key = NodeKey::new(ResourceKind::Event, ALICE, "EV1");
    x.put_to_index(&key, &vec![Property::label("name", "no event")]);
    let e = EventDetails::get_from_index(&x, ALICE, "EV1").unwrap_err();
    assert_eq!(e.message, "the stored record is no event");
    assert!(EventDetails::get_by_id(&mut x, ALICE, "EV1").is_err());
    assert!(EventDetails::get_from_graph(&x, ALICE, "EV1").unwrap().is_none());
}

#[test]
fn typed_writes_of_events_answers_and_reminders() {
    let mut x = Indexer::new();
    x.index(&a_user(ALICE).write_request());
    x.index(&a_user(BOB).write_request());
    let e = EventDetails::normalize(an_event(), ALICE, "EV1", 1).unwrap();
    assert_eq!(e.put_to_graph(&mut x), Outcome::MissingDependency);
    let c = CalendarDetails::normalize(a_calendar(), ALICE, "CAL1", 1).unwrap();
    assert_eq!(c.put_to_graph(&mut x), Outcome::Created);
    assert_eq!(e.put_to_graph(&mut x), Outcome::Created);
    assert_eq!(EventDetails::get_by_id(&mut x, ALICE, "EV1").unwrap().unwrap().summary, "party");
    let att = AttendeeDetails::normalize(
        AttendeePayload {
            partstat: "TENTATIVE".to_string(),
            x_pubky_event_uri: build_uri(ALICE, ResourceKind::Event, "EV1"),
            created_at: 1,
            last_modified: None,
            recurrence_id: None,
        },
        BOB,
        "AT1",
        2,
    )
    .unwrap();
    assert_eq!(att.put_to_graph(&mut x).unwrap(), Outcome::Created);
    att.put_to_index(&mut x, BOB, "AT1");
    assert_eq!(AttendeeDetails::get_by_id(&mut x, BOB, "AT1").unwrap().unwrap().partstat, "TENTATIVE");
    AttendeeDetails::reindex(&mut x, BOB, "AT1");
    assert_eq!(AttendeeDetails::get_from_index(&x, BOB, "AT1").unwrap().unwrap().created_at, 1);
    let alarm = AlarmDetails::normalize(an_alarm(), BOB, "AL1", 3).unwrap();
    assert_eq!(alarm.put_to_graph(&mut x), Outcome::Created);
    assert_eq!(AlarmDetails::get_by_id(&mut x, BOB, "AL1").unwrap().unwrap().repeat, Some(3));
    AlarmDetails::delete(&mut x, BOB, "AL1");
    assert!(AlarmDetails::get_from_graph(&x, BOB, "AL1").unwrap().is_none());
    EventDetails::delete(&mut x, ALICE, "EV1");
    assert!(x.graph.edges.len() == 1);
    AttendeeDetails::delete(&mut x, BOB, "AT1");
    EventDetails::reindex(&mut x, ALICE, "EV1");
    alarm.put_to_index(&mut x, BOB, "AL1");
    e.put_to_index(&mut x, ALICE, "EV1");
    assert!(AlarmDetails::get_from_index(&x, BOB, "AL1").unwrap().is_some());
    AlarmDetails::reindex(&mut x, BOB, "AL1");
    assert!(AlarmDetails::get_from_index(&x, BOB, "AL1").unwrap().is_none());
}

#[test]
fn a_reply_is_created_then_updated_with_its_edge_in_place() {
    let mut x = Indexer::new();
    x.index(&a_user(ALICE).write_request());
    x.index(&a_user(BOB).write_request());
    let post = |author: &str, id: &str, content: &str| PostDetails {
        id: id.to_string(),
        author: author.to_string(),
        content: content.to_string(),
        indexed_at: 1,
        kind: "short".to_string(),
        attachments: None,
        uri: build_uri(author, ResourceKind::Post, id),
    };
    let alone = PostRelationships { replied: None, reposted: None, mentioned: vec![] };
    let to_first = PostRelationships {
        replied: Some(build_uri(ALICE, ResourceKind::Post, "POST1")),
        reposted: None,
        mentioned: vec![],
    };
    let first = post(ALICE, "POST1", "hello");
    assert_eq!(x.index(&first.write_request(&alone).unwrap()), Outcome::Created);
    let second = post(BOB, "POST2", "a reply");
    assert_eq!(x.index(&second.write_request(&to_first).unwrap()), Outcome::Created);
    let replied = Edge {
        kind: EdgeKind::Replied,
        from: NodeKey::new(ResourceKind::Post, BOB, "POST2"),
        to: NodeKey::new(ResourceKind::Post, ALICE, "POST1"),
        label: String::new(),
    };
    assert!(x.graph.has_edge(&replied));
    let edited = post(BOB, "POST2", "an edited reply");
    assert_eq!(x.index(&edited.write_request(&to_first).unwrap()), Outcome::Updated);
    assert!(x.graph.has_edge(&replied));
    assert_eq!(x.graph.edges.len(), 1);
    let key = NodeKey::new(ResourceKind::Post, BOB, "POST2");
    for record in [x.get_from_graph(&key).unwrap(), x.get_from_index(&key).unwrap()] {
        let content = record.iter().find(|p| p.name == "content").unwrap();
        assert!(matches!(&content.value, Value::Text(s) if s == "an edited reply"));
    }
    assert_eq!(x.graph.nodes.iter().filter(|n| n.key.same(&key)).count(), 1);
}
