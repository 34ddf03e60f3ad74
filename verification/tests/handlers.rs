use nexus_engine::attendee::AttendeePayload;
use nexus_engine::calendar::CalendarPayload;
use nexus_engine::event::EventPayload;
use nexus_engine::graph::{Edge, EdgeKind, NodeKey, Outcome};
use nexus_engine::handlers::{attendee, calendar, event};
use nexus_engine::indexer::Indexer;
use nexus_engine::ingest::{
    dependency_keys, missing_dependencies, outcome_of_row, settle_graph, settle_refresh, settle_write, DependencyKey,
    IngestError,
};
use nexus_engine::cache::StoreFailure;
use nexus_engine::indexer::Refresh;
use nexus_engine::post::UserDetails;
use nexus_engine::reference::{build_uri, ResourceKind};
use nexus_engine::value::{Property, Value};

const ALICE: &str = "operrr8wsbpr3ue9d4qj41ge1kcc6r7fdiy6o3ugjrrhi4y77rdo";
const BOB: &str = "8pinxxgqs41n4aididenw5apqp1urfmzdztr8jt4abrkdn435ewo";

fn with_users(ids: &[&str]) -> Indexer {
    let mut x = Indexer::new();
    for id in ids {
        let user = UserDetails {
            id: id.to_string(),
            name: "someone".to_string(),
            bio: None,
            status: None,
            links: None,
            image: None,
            indexed_at: 1,
        };
        assert_eq!(x.index(&user.write_request()), Outcome::Created);
    }
    x
}

fn a_calendar(name: &str, authors: Option<Vec<&str>>) -> CalendarPayload {
    CalendarPayload {
        name: name.to_string(),
        timezone: "Europe/Zurich".to_string(),
        color: None,
        description: None,
        url: None,
        image_uri: None,
        x_pubky_authors: authors.map(|l| l.iter().map(|a| a.to_string()).collect()),
        created: Some(7),
    }
}

fn an_event(summary: &str, calendars: Option<Vec<String>>) -> EventPayload {
    EventPayload {
        uid: "uid-1".to_string(),
        dtstamp: 100,
        dtstart: "2026-01-01T10:00:00".to_string(),
        summary: summary.to_string(),
        dtend: None,
        duration: None,
        dtstart_tzid: None,
        dtend_tzid: None,
        rrule: None,
        rdate: None,
        exdate: None,
        description: None,
        status: Some("CONFIRMED".to_string()),
        location: None,
        geo: None,
        url: None,
        sequence: Some(2),
        last_modified: None,
        created: None,
        recurrence_id: None,
        image_uri: None,
        styled_description: None,
        x_pubky_calendar_uris: calendars,
        x_pubky_rsvp_access: None,
    }
}

fn an_answer(partstat: &str, event_uri: &str) -> AttendeePayload {
    AttendeePayload {
        partstat: partstat.to_string(),
        x_pubky_event_uri: event_uri.to_string(),
        created_at: 5,
        last_modified: None,
        recurrence_id: None,
    }
}

fn text_of(props: &[Property], name: &str) -> Option<String> {
    props.iter().find(|p| p.name == name).and_then(|p| match &p.value {
        Value::Text(s) => Some(s.clone()),
        _ => None,
    })
}

fn keys_of(e: IngestError) -> Vec<(String, String)> {
    match e {
        IngestError::MissingDependency(keys) => keys.into_iter().map(|k| (k.author_id, k.resource_id)).collect(),
        other => panic!("{:?}", other),
    }
}

#[test]
fn a_calendar_is_created_then_updated() {
    let mut x = with_users(&[ALICE, BOB]);
    assert!(calendar::sync_put_at(&mut x, a_calendar("team", Some(vec![BOB])), ALICE, "CAL1", 10).is_ok());
    let key = NodeKey::new(ResourceKind::Calendar, ALICE, "CAL1");
    let cached = x.get_from_index(&key).unwrap();
    assert_eq!(text_of(&cached, "name").unwrap(), "team");
    assert_eq!(text_of(&cached, "uri").unwrap(), format!("pubky://{ALICE}/pub/pubky.app/calendars/CAL1"));
    assert!(calendar::sync_put_at(&mut x, a_calendar("crew", Some(vec![])), ALICE, "CAL1", 11).is_ok());
    assert_eq!(text_of(&x.get_from_index(&key).unwrap(), "name").unwrap(), "crew");
    assert_eq!(text_of(&x.get_from_graph(&key).unwrap(), "name").unwrap(), "crew");
    assert!(x.graph.edges.is_empty());
    assert_eq!(x.graph.nodes.len(), 3);
}

#[test]
fn a_calendar_with_an_unknown_author_in_its_list_is_indexed() {
    let mut x = with_users(&[ALICE]);
    assert!(calendar::sync_put_at(&mut x, a_calendar("team", Some(vec![BOB])), ALICE, "CAL1", 10).is_ok());
    assert!(x.graph.contains(&NodeKey::new(ResourceKind::Calendar, ALICE, "CAL1")));
    assert!(x.graph.edges.is_empty());
}

#[test]
fn a_calendar_of_an_unknown_user_is_dropped() {
    let mut x = with_users(&[]);
    let r = calendar::sync_put_at(&mut x, a_calendar("team", None), ALICE, "CAL1", 10);
    assert!(matches!(r, Err(IngestError::SkipIndexing)));
    assert!(x.graph.nodes.is_empty());
    assert!(x.cache.entries.is_empty());
}

#[test]
fn a_calendar_without_a_name_is_invalid() {
    let mut x = with_users(&[ALICE]);
    match calendar::sync_put_at(&mut x, a_calendar("", None), ALICE, "CAL1", 10) {
        Err(IngestError::Validation(e)) => assert_eq!(e.field, "name"),
        other => panic!("{:?}", other),
    }
    let mut no_zone = a_calendar("team", None);
    no_zone.timezone = String::new();
    match calendar::sync_put_at(&mut x, no_zone, ALICE, "CAL1", 10) {
        Err(IngestError::Validation(e)) => assert_eq!(e.field, "timezone"),
        other => panic!("{:?}", other),
    }
    assert_eq!(x.graph.nodes.len(), 1);
}

#[test]
fn an_event_waits_for_its_calendar() {
    let mut x = with_users(&[ALICE, BOB]);
    let cal = build_uri(ALICE, ResourceKind::Calendar, "CAL1");
    let r = event::sync_put_at(&mut x, an_event("party", Some(vec![cal.clone()])), BOB, "EV1", 20);
    assert_eq!(keys_of(r.unwrap_err()), vec![(ALICE.to_string(), "CAL1".to_string())]);
    assert!(!x.graph.contains(&NodeKey::new(ResourceKind::Event, BOB, "EV1")));
    assert!(calendar::sync_put_at(&mut x, a_calendar("team", None), ALICE, "CAL1", 21).is_ok());
    assert!(event::sync_put_at(&mut x, an_event("party", Some(vec![cal])), BOB, "EV1", 22).is_ok());
    assert!(x.graph.has_edge(&Edge {
        kind: EdgeKind::BelongsTo,
        from: NodeKey::new(ResourceKind::Event, BOB, "EV1"),
        to: NodeKey::new(ResourceKind::Calendar, ALICE, "CAL1"),
        label: String::new(),
    }));
}

#[test]
fn an_event_leaves_the_calendars_it_no_longer_names() {
    let mut x = with_users(&[ALICE]);
    for id in ["CAL1", "CAL2"] {
        assert!(calendar::sync_put_at(&mut x, a_calendar(id, None), ALICE, id, 1).is_ok());
    }
    let one = build_uri(ALICE, ResourceKind::Calendar, "CAL1");
    let two = build_uri(ALICE, ResourceKind::Calendar, "CAL2");
    assert!(event::sync_put_at(&mut x, an_event("party", Some(vec![one.clone(), two.clone()])), ALICE, "EV1", 2).is_ok());
    assert_eq!(x.graph.edges.len(), 2);
    assert!(event::sync_put_at(&mut x, an_event("party", Some(vec![two])), ALICE, "EV1", 3).is_ok());
    assert_eq!(x.graph.edges.len(), 1);
    assert!(!x.graph.has_edge(&Edge {
        kind: EdgeKind::BelongsTo,
        from: NodeKey::new(ResourceKind::Event, ALICE, "EV1"),
        to: NodeKey::new(ResourceKind::Calendar, ALICE, "CAL1"),
        label: String::new(),
    }));
    assert!(event::sync_put_at(&mut x, an_event("party", None), ALICE, "EV1", 4).is_ok());
    assert!(x.graph.edges.is_empty());
}

#[test]
fn an_event_skips_entries_that_name_no_calendar() {
    let mut x = with_users(&[ALICE]);
    let not_a_calendar = build_uri(ALICE, ResourceKind::Post, "POST1");
    let r = event::sync_put_at(
        &mut x,
        an_event("party", Some(vec!["nonsense".to_string(), not_a_calendar])),
        ALICE,
        "EV1",
        2,
    );
    assert!(r.is_ok());
    assert!(x.graph.edges.is_empty());
}

#[test]
fn an_event_of_an_unknown_user_without_calendars_is_dropped() {
    let mut x = with_users(&[]);
    let r = event::sync_put_at(&mut x, an_event("party", None), ALICE, "EV1", 2);
    assert!(matches!(r, Err(IngestError::SkipIndexing)));
}

#[test]
fn an_event_without_a_summary_is_invalid() {
    let mut x = with_users(&[ALICE]);
    match event::sync_put_at(&mut x, an_event("", None), ALICE, "EV1", 2) {
        Err(IngestError::Validation(e)) => assert_eq!(e.field, "summary"),
        other => panic!("{:?}", other),
    }
}

#[test]
fn an_answer_waits_for_its_event() {
    let mut x = with_users(&[ALICE, BOB]);
    let ev = build_uri(ALICE, ResourceKind::Event, "EV1");
    let r = attendee::sync_put_at(&mut x, an_answer("ACCEPTED", &ev), BOB, "AT1", 30);
    assert_eq!(keys_of(r.unwrap_err()), vec![(ALICE.to_string(), "EV1".to_string())]);
    assert!(x.graph.edges.is_empty());
    assert!(x.get_from_index(&NodeKey::new(ResourceKind::Attendee, BOB, "AT1")).is_none());
    assert!(event::sync_put_at(&mut x, an_event("party", None), ALICE, "EV1", 31).is_ok());
    assert!(attendee::sync_put_at(&mut x, an_answer("ACCEPTED", &ev), BOB, "AT1", 32).is_ok());
    let rsvp = Edge {
        kind: EdgeKind::RsvpTo,
        from: NodeKey::new(ResourceKind::Attendee, BOB, "AT1"),
        to: NodeKey::new(ResourceKind::Event, ALICE, "EV1"),
        label: String::new(),
    };
    assert!(x.graph.has_edge(&rsvp));
    assert!(attendee::sync_put_at(&mut x, an_answer("DECLINED", &ev), BOB, "AT1", 33).is_ok());
    assert!(x.graph.has_edge(&rsvp));
    assert_eq!(x.graph.edges.len(), 1);
    let cached = x.get_from_index(&NodeKey::new(ResourceKind::Attendee, BOB, "AT1")).unwrap();
    assert_eq!(text_of(&cached, "partstat").unwrap(), "DECLINED");
}

#[test]
fn an_answer_to_no_event_is_dropped() {
    let mut x = with_users(&[BOB]);
    let r = attendee::sync_put_at(&mut x, an_answer("ACCEPTED", "nonsense"), BOB, "AT1", 30);
    assert!(matches!(r, Err(IngestError::SkipIndexing)));
    let post = build_uri(ALICE, ResourceKind::Post, "POST1");
    let r = attendee::sync_put_at(&mut x, an_answer("ACCEPTED", &post), BOB, "AT1", 30);
    assert!(matches!(r, Err(IngestError::SkipIndexing)));
    match attendee::sync_put_at(&mut x, an_answer("", &post), BOB, "AT1", 30) {
        Err(IngestError::Validation(e)) => assert_eq!(e.field, "partstat"),
        other => panic!("{:?}", other),
    }
}

#[test]
fn deletes_take_the_object_out_of_both_stores() {
    let mut x = with_users(&[ALICE, BOB]);
    let ev = build_uri(ALICE, ResourceKind::Event, "EV1");
    assert!(calendar::sync_put_at(&mut x, a_calendar("team", Some(vec![BOB])), ALICE, "CAL1", 1).is_ok());
    assert!(event::sync_put_at(&mut x, an_event("party", None), ALICE, "EV1", 2).is_ok());
    assert!(attendee::sync_put_at(&mut x, an_answer("ACCEPTED", &ev), BOB, "AT1", 3).is_ok());
    attendee::del(&mut x, BOB, "AT1");
    assert!(x.get_by_id(&NodeKey::new(ResourceKind::Attendee, BOB, "AT1")).is_none());
    event::del(&mut x, ALICE, "EV1");
    assert!(x.get_by_id(&NodeKey::new(ResourceKind::Event, ALICE, "EV1")).is_none());
    calendar::del(&mut x, ALICE, "CAL1");
    assert!(x.get_by_id(&NodeKey::new(ResourceKind::Calendar, ALICE, "CAL1")).is_none());
    assert!(x.graph.edges.is_empty());
    assert_eq!(x.graph.nodes.len(), 2);
    assert!(x.cache.entries.len() == 2);
}

#[test]
fn handlers_index_as_of_now() {
    let mut x = with_users(&[ALICE]);
    assert!(calendar::sync_put(&mut x, a_calendar("team", None), ALICE, "CAL1").is_ok());
    assert!(event::sync_put(&mut x, an_event("party", None), ALICE, "EV1").is_ok());
    let ev = build_uri(ALICE, ResourceKind::Event, "EV1");
    assert!(attendee::sync_put(&mut x, an_answer("ACCEPTED", &ev), ALICE, "AT1").is_ok());
    let cached = x.get_from_index(&NodeKey::new(ResourceKind::Event, ALICE, "EV1")).unwrap();
    let at = cached.iter().find(|p| p.name == "indexed_at").unwrap();
    match at.value {
        Value::Int(t) => assert!(t > 1_600_000_000_000),
        _ => panic!("indexed_at is no number"),
    }
}

#[test]
fn keys_are_derived_from_the_references_that_resolve() {
    let uris = vec![
        build_uri(ALICE, ResourceKind::Calendar, "CAL1"),
        "nonsense".to_string(),
        build_uri(BOB, ResourceKind::Event, "EV9"),
        build_uri(BOB, ResourceKind::Calendar, "CAL2"),
    ];
    let keys: Vec<(String, String)> =
        dependency_keys(&uris, ResourceKind::Calendar).into_iter().map(|k| (k.author_id, k.resource_id)).collect();
    assert_eq!(keys, vec![(ALICE.to_string(), "CAL1".to_string()), (BOB.to_string(), "CAL2".to_string())]);
    assert!(dependency_keys(&vec![], ResourceKind::Calendar).is_empty());
}

#[test]
fn no_key_means_no_retry() {
    assert!(matches!(missing_dependencies(vec![]), IngestError::SkipIndexing));
    let one = vec![DependencyKey { author_id: "a".to_string(), resource_id: "1".to_string() }];
    assert_eq!(keys_of(missing_dependencies(one)), vec![("a".to_string(), "1".to_string())]);
}

#[test]
fn no_row_is_a_missing_dependency() {
    assert_eq!(outcome_of_row(None), Outcome::MissingDependency);
    assert_eq!(outcome_of_row(Some(true)), Outcome::Updated);
    assert_eq!(outcome_of_row(Some(false)), Outcome::Created);
}

#[test]
fn what_follows_a_write_depends_on_its_outcome() {
    let uris = vec![build_uri(ALICE, ResourceKind::Event, "EV1")];
    assert_eq!(settle_write(Outcome::Created, true, &uris, ResourceKind::Event).unwrap(), Refresh::WriteThrough);
    assert_eq!(settle_write(Outcome::Updated, true, &uris, ResourceKind::Event).unwrap(), Refresh::Reindex);
    assert_eq!(settle_write(Outcome::Updated, false, &uris, ResourceKind::Event).unwrap(), Refresh::WriteThrough);
    let e = settle_write(Outcome::MissingDependency, false, &uris, ResourceKind::Event).unwrap_err();
    assert_eq!(keys_of(e), vec![(ALICE.to_string(), "EV1".to_string())]);
    let e = settle_write(Outcome::MissingDependency, false, &uris, ResourceKind::Calendar).unwrap_err();
    assert!(matches!(e, IngestError::SkipIndexing));
}

#[test]
fn a_failed_refresh_is_reported_with_its_cause() {
    assert!(settle_refresh("calendar", Ok(())).is_ok());
    match settle_refresh("calendar", Err(StoreFailure { message: "timeout".to_string() })) {
        Err(IngestError::IndexWriteFailed(m)) => assert_eq!(m, "calendar index write failed - timeout"),
        other => panic!("{:?}", other),
    }
}

#[test]
fn a_failure_of_the_graph_store_is_handed_on() {
    assert_eq!(settle_graph(Ok(Outcome::Updated)).unwrap(), Outcome::Updated);
    match settle_graph(Err(StoreFailure { message: "connection refused".to_string() })) {
        Err(IngestError::GraphQuery(m)) => assert_eq!(m, "connection refused"),
        other => panic!("{:?}", other),
    }
}

#[test]
fn no_edge_is_left_without_one_of_its_ends() {
    let mut x = with_users(&[ALICE, BOB]);
    let cal = build_uri(ALICE, ResourceKind::Calendar, "CAL1");
    let ev = build_uri(BOB, ResourceKind::Event, "EV1");
    assert!(calendar::sync_put_at(&mut x, a_calendar("team", Some(vec![BOB, "nobody"])), ALICE, "CAL1", 1).is_ok());
    assert!(event::sync_put_at(&mut x, an_event("party", Some(vec![cal])), BOB, "EV1", 2).is_ok());
    assert!(attendee::sync_put_at(&mut x, an_answer("ACCEPTED", &ev), ALICE, "AT1", 3).is_ok());
    let closed = |x: &Indexer| x.graph.edges.iter().all(|e| x.graph.contains(&e.from) && x.graph.contains(&e.to));
    assert_eq!(x.graph.edges.len(), 3);
    assert!(closed(&x));
    event::del(&mut x, BOB, "EV1");
    assert_eq!(x.graph.edges.len(), 1);
    assert!(closed(&x));
    calendar::del(&mut x, ALICE, "CAL1");
    assert!(x.graph.edges.is_empty());
    assert!(closed(&x));
}
