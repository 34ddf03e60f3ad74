use nexus_engine::reference::{
    build_uri, is_text, resolve, resolve_expecting, resolve_parts, PathParts, ReferenceError, ResourceKind,
};

const ALICE: &str = "operrr8wsbpr3ue9d4qj41ge1kcc6r7fdiy6o3ugjrrhi4y77rdo";

fn parts(app: &str, segments: &[&str]) -> PathParts {
    PathParts {
        user_id: ALICE.to_string(),
        app: app.to_string(),
        segments: segments.iter().map(|s| s.to_string()).collect(),
    }
}

#[test]
fn resolves_each_kind_of_resource() {
    let cases = [
        ("posts", ResourceKind::Post),
        ("files", ResourceKind::File),
        ("calendars", ResourceKind::Calendar),
        ("events", ResourceKind::Event),
        ("attendees", ResourceKind::Attendee),
        ("alarms", ResourceKind::Alarm),
    ];
    for (segment, kind) in cases {
        let uri = format!("pubky://{ALICE}/pub/pubky.app/{segment}/0032SSN7Q4EVG");
        let found = resolve(&uri).unwrap();
        assert_eq!(found.author_id, ALICE);
        assert_eq!(found.kind, kind);
        assert_eq!(found.resource_id, "0032SSN7Q4EVG");
    }
}

#[test]
fn resolves_a_profile_as_a_user() {
    let found = resolve(&format!("pubky://{ALICE}/pub/pubky.app/profile.json")).unwrap();
    assert_eq!(found.kind, ResourceKind::User);
    assert_eq!(found.author_id, ALICE);
    assert_eq!(found.resource_id, "");
}

#[test]
fn malformed_references_are_refused() {
    assert_eq!(resolve("").unwrap_err(), ReferenceError::Malformed);
    assert_eq!(resolve("not a uri").unwrap_err(), ReferenceError::Malformed);
    assert_eq!(
        resolve("https://example.com/pub/pubky.app/posts/1").unwrap_err(),
        ReferenceError::Malformed
    );
    assert_eq!(
        resolve("pubky://short/pub/pubky.app/posts/1").unwrap_err(),
        ReferenceError::Malformed
    );
    assert_eq!(
        resolve(&format!("pubky://{ALICE}/priv/pubky.app/posts/1")).unwrap_err(),
        ReferenceError::Malformed
    );
    assert_eq!(
        resolve(&format!("pubky://{ALICE}/pub/other.app/posts/1")).unwrap_err(),
        ReferenceError::Malformed
    );
}

#[test]
fn unknown_paths_resolve_to_the_unknown_kind() {
    let found = resolve(&format!("pubky://{ALICE}/pub/pubky.app/widgets/1")).unwrap();
    assert_eq!(found.kind, ResourceKind::Unknown);
    assert_eq!(found.resource_id, "");
    let found = resolve(&format!("pubky://{ALICE}/pub/pubky.app/posts/")).unwrap();
    assert_eq!(found.kind, ResourceKind::Unknown);
    let found = resolve(&format!("pubky://{ALICE}/pub/pubky.app/posts")).unwrap();
    assert_eq!(found.kind, ResourceKind::Unknown);
}

#[test]
fn a_reference_of_another_kind_is_a_mismatch() {
    let uri = format!("pubky://{ALICE}/pub/pubky.app/calendars/0032SSN7Q4EVG");
    assert_eq!(
        resolve_expecting(&uri, ResourceKind::Post).unwrap_err(),
        ReferenceError::KindMismatch
    );
    let found = resolve_expecting(&uri, ResourceKind::Calendar).unwrap();
    assert_eq!(found.resource_id, "0032SSN7Q4EVG");
    assert_eq!(
        resolve_expecting("nonsense", ResourceKind::Calendar).unwrap_err(),
        ReferenceError::Malformed
    );
}

#[test]
fn parts_decide_the_kind() {
    let found = resolve_parts(&parts("pubky.app", &["events", "E1", "extra"])).unwrap();
    assert_eq!(found.kind, ResourceKind::Event);
    assert_eq!(found.resource_id, "E1");
    assert_eq!(
        resolve_parts(&parts("mapky", &["events", "E1"])).unwrap_err(),
        ReferenceError::Malformed
    );
    let found = resolve_parts(&parts("pubky.app", &[])).unwrap();
    assert_eq!(found.kind, ResourceKind::Unknown);
    let found = resolve_parts(&parts("pubky.app", &["profile.json"])).unwrap();
    assert_eq!(found.kind, ResourceKind::User);
    let found = resolve_parts(&parts("pubky.app", &["profile.json", "x"])).unwrap();
    assert_eq!(found.kind, ResourceKind::Unknown);
}

#[test]
fn built_references_have_the_documented_form() {
    assert_eq!(
        build_uri(ALICE, ResourceKind::Calendar, "CAL1"),
        format!("pubky://{ALICE}/pub/pubky.app/calendars/CAL1")
    );
    assert_eq!(
        build_uri(ALICE, ResourceKind::Attendee, "A1"),
        format!("pubky://{ALICE}/pub/pubky.app/attendees/A1")
    );
    assert_eq!(
        build_uri(ALICE, ResourceKind::User, ""),
        format!("pubky://{ALICE}/pub/pubky.app/profile.json")
    );
}

#[test]
fn built_references_resolve_to_what_they_were_built_from() {
    for kind in [
        ResourceKind::Post,
        ResourceKind::File,
        ResourceKind::Calendar,
        ResourceKind::Event,
        ResourceKind::Attendee,
        ResourceKind::Alarm,
    ] {
        let found = resolve(&build_uri(ALICE, kind, "0032SSN7Q4EVG")).unwrap();
        assert_eq!(found.author_id, ALICE);
        assert_eq!(found.kind, kind);
        assert_eq!(found.resource_id, "0032SSN7Q4EVG");
    }
}

#[test]
fn is_text_compares_whole_texts() {
    assert!(is_text(&"posts".to_string(), "posts"));
    assert!(!is_text(&"posts ".to_string(), "posts"));
    assert!(!is_text(&"".to_string(), "posts"));
}
