use nexus_engine::stream::{CalendarStreamQuery, EventStreamQuery, Pagination, DEFAULT_LIMIT, MAX_LIMIT};

fn events(skip: Option<usize>, limit: Option<usize>) -> EventStreamQuery {
    EventStreamQuery {
        pagination: Pagination { skip, limit },
        tags: Some(vec!["meetup".to_string()]),
        calendar: Some("cal".to_string()),
        start_date: Some(1),
        end_date: Some(2),
        status: Some("CONFIRMED".to_string()),
        location: None,
        author: Some("a".to_string()),
        timezone: None,
        rsvp_access: Some("PUBLIC".to_string()),
    }
}

#[test]
fn the_limits_are_ten_and_a_hundred() {
    assert_eq!(DEFAULT_LIMIT, 10);
    assert_eq!(MAX_LIMIT, 100);
}

#[test]
fn defaults_fill_what_is_absent() {
    let mut q = CalendarStreamQuery { pagination: Pagination { skip: None, limit: None }, tags: None, admin: None };
    q.initialize_defaults();
    assert_eq!(q.pagination.skip, Some(0));
    assert_eq!(q.pagination.limit, Some(10));
    assert_eq!(q.tags, None);
    assert_eq!(q.admin, None);
}

#[test]
fn defaults_keep_what_is_given() {
    let mut q = CalendarStreamQuery {
        pagination: Pagination { skip: Some(30), limit: Some(25) },
        tags: Some(vec!["x".to_string()]),
        admin: Some("alice".to_string()),
    };
    q.initialize_defaults();
    assert_eq!(q.pagination.skip, Some(30));
    assert_eq!(q.pagination.limit, Some(25));
    assert_eq!(q.tags, Some(vec!["x".to_string()]));
    assert_eq!(q.admin.as_deref(), Some("alice"));
}

#[test]
fn the_limit_is_capped() {
    for (given, expected) in [(0, 0), (99, 99), (100, 100), (101, 100), (usize::MAX, 100)] {
        let mut q = events(None, Some(given));
        q.initialize_defaults();
        assert_eq!(q.pagination.limit, Some(expected));
        assert_eq!(q.pagination.skip, Some(0));
    }
}

#[test]
fn the_filters_of_events_are_left_alone() {
    let mut q = events(Some(5), None);
    q.initialize_defaults();
    assert_eq!(q.pagination.skip, Some(5));
    assert_eq!(q.pagination.limit, Some(10));
    assert_eq!(q.tags, Some(vec!["meetup".to_string()]));
    assert_eq!(q.calendar.as_deref(), Some("cal"));
    assert_eq!(q.start_date, Some(1));
    assert_eq!(q.end_date, Some(2));
    assert_eq!(q.status.as_deref(), Some("CONFIRMED"));
    assert_eq!(q.location, None);
    assert_eq!(q.author.as_deref(), Some("a"));
    assert_eq!(q.timezone, None);
    assert_eq!(q.rsvp_access.as_deref(), Some("PUBLIC"));
}

#[test]
fn filling_the_defaults_twice_changes_nothing_more() {
    let mut p = Pagination { skip: None, limit: Some(500) };
    p.initialize_defaults();
    p.initialize_defaults();
    assert_eq!(p.skip, Some(0));
    assert_eq!(p.limit, Some(100));
}
