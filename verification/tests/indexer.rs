use nexus_engine::cache::{after_graph_delete, cache_key, Cache, DeleteStep, StoreFailure};
use nexus_engine::graph::{EdgeKind, Link, NodeKey, Outcome, WriteRequest};
use nexus_engine::indexer::{choose_refresh, Indexer, Refresh};
use nexus_engine::reference::ResourceKind;
use nexus_engine::value::{Property, Value};

fn user(id: &str) -> WriteRequest {
    WriteRequest { target: NodeKey::user(id), props: vec![Property::label("id", id)], hard: vec![], soft: vec![], resync: None }
}

fn calendar(author: &str, id: &str, name: &str, authors: &[&str]) -> WriteRequest {
    WriteRequest {
        target: NodeKey::new(ResourceKind::Calendar, author, id),
        props: vec![Property::label("id", id), Property::label("name", name)],
        hard: vec![],
        soft: authors.iter().map(|a| Link { edge: EdgeKind::CanAuthor, node: NodeKey::user(a) }).collect(),
        resync: Some(EdgeKind::CanAuthor),
    }
}

fn name_of(props: &[Property]) -> String {
    match &props.iter().find(|p| p.name == "name").unwrap().value {
        Value::Text(s) => s.clone(),
        other => panic!("{:?}", other),
    }
}

#[test]
fn cache_keys_are_author_then_id() {
    assert_eq!(cache_key("alice", "cal1"), vec!["alice".to_string(), "cal1".to_string()]);
}

#[test]
fn the_cache_holds_the_last_record_put() {
    let mut c = Cache::new();
    let key = NodeKey::new(ResourceKind::Event, "u", "e");
    assert!(c.get(&key).is_none());
    c.put(&key, &vec![Property::label("name", "one")]);
    c.put(&key, &vec![Property::label("name", "two")]);
    assert_eq!(name_of(&c.get(&key).unwrap()), "two");
    assert_eq!(c.entries.len(), 1);
    c.remove(&key);
    assert!(c.get(&key).is_none());
    c.remove(&key);
    assert!(c.entries.is_empty());
}

#[test]
fn a_failed_graph_delete_leaves_the_cache_entry() {
    let mut c = Cache::new();
    let key = NodeKey::new(ResourceKind::Event, "u", "e");
    c.put(&key, &vec![Property::label("name", "kept")]);
    let r = c.settle_delete(&key, Err(StoreFailure { message: "connection lost".to_string() }));
    assert_eq!(r.unwrap_err().message, "connection lost");
    assert_eq!(name_of(&c.get(&key).unwrap()), "kept");
    assert!(c.settle_delete(&key, Ok(())).is_ok());
    assert!(c.get(&key).is_none());
}

#[test]
fn a_read_fills_the_cache_from_the_graph() {
    let mut x = Indexer::new();
    x.put_to_graph(&user("owner"));
    assert_eq!(x.put_to_graph(&calendar("owner", "cal", "team", &[])), Outcome::Created);
    let key = NodeKey::new(ResourceKind::Calendar, "owner", "cal");
    assert!(x.get_from_index(&key).is_none());
    assert_eq!(name_of(&x.get_from_graph(&key).unwrap()), "team");
    assert_eq!(name_of(&x.get_by_id(&key).unwrap()), "team");
    assert_eq!(name_of(&x.get_from_index(&key).unwrap()), "team");
    assert!(x.get_by_id(&NodeKey::new(ResourceKind::Calendar, "owner", "other")).is_none());
    assert_eq!(x.cache.entries.len(), 1);
}

#[test]
fn a_read_prefers_the_cache() {
    let mut x = Indexer::new();
    x.put_to_graph(&user("owner"));
    x.put_to_graph(&calendar("owner", "cal", "in graph", &[]));
    let key = NodeKey::new(ResourceKind::Calendar, "owner", "cal");
    x.put_to_index(&key, &vec![Property::label("name", "in cache")]);
    assert_eq!(name_of(&x.get_by_id(&key).unwrap()), "in cache");
    x.reindex(&key);
    assert_eq!(name_of(&x.get_by_id(&key).unwrap()), "in graph");
}

#[test]
fn a_reindex_of_a_node_that_is_gone_empties_its_entry() {
    let mut x = Indexer::new();
    let key = NodeKey::new(ResourceKind::Calendar, "owner", "cal");
    x.put_to_index(&key, &vec![Property::label("name", "stale")]);
    x.reindex(&key);
    assert!(x.get_from_index(&key).is_none());
}

#[test]
fn a_write_refreshes_the_cache() {
    let mut x = Indexer::new();
    x.index(&user("owner"));
    let key = NodeKey::new(ResourceKind::Calendar, "owner", "cal");
    assert_eq!(x.index(&calendar("owner", "cal", "first", &[])), Outcome::Created);
    assert_eq!(name_of(&x.get_from_index(&key).unwrap()), "first");
    assert_eq!(x.index(&calendar("owner", "cal", "second", &[])), Outcome::Updated);
    assert_eq!(name_of(&x.get_from_index(&key).unwrap()), "second");
    assert_eq!(name_of(&x.get_from_graph(&key).unwrap()), "second");
}

#[test]
fn a_refused_write_touches_neither_store() {
    let mut x = Indexer::new();
    assert_eq!(x.index(&calendar("nobody", "cal", "x", &[])), Outcome::MissingDependency);
    assert!(x.graph.nodes.is_empty());
    assert!(x.cache.entries.is_empty());
}

#[test]
fn a_delete_empties_both_stores() {
    let mut x = Indexer::new();
    x.index(&user("owner"));
    x.index(&calendar("owner", "cal", "team", &[]));
    let key = NodeKey::new(ResourceKind::Calendar, "owner", "cal");
    x.delete(&key);
    assert!(x.get_from_graph(&key).is_none());
    assert!(x.get_from_index(&key).is_none());
    assert!(x.get_by_id(&key).is_none());
}

#[test]
fn the_refresh_follows_the_outcome() {
    assert_eq!(choose_refresh(Outcome::Created, true), Some(Refresh::WriteThrough));
    assert_eq!(choose_refresh(Outcome::Created, false), Some(Refresh::WriteThrough));
    assert_eq!(choose_refresh(Outcome::Updated, true), Some(Refresh::Reindex));
    assert_eq!(choose_refresh(Outcome::Updated, false), Some(Refresh::WriteThrough));
    assert_eq!(choose_refresh(Outcome::MissingDependency, true), None);
}

#[test]
fn the_cache_is_touched_only_once_the_graph_has_confirmed() {
    assert!(matches!(after_graph_delete(Ok(())), DeleteStep::Invalidate));
    match after_graph_delete(Err(StoreFailure { message: "down".to_string() })) {
        DeleteStep::Abort(failure) => assert_eq!(failure.message, "down"),
        other => panic!("{:?}", other),
    }
}
