use mcp_sync::server_map::ServerMap;
use serde_json::Value;

fn text(v: &str) -> Value {
    Value::String(v.to_string())
}

#[test]
fn new_map_is_empty() {
    let m = ServerMap::new();
    assert_eq!(m.len(), 0);
    assert_eq!(m.get("any"), None);
    assert!(!m.contains_key("any"));
}

#[test]
fn insert_then_get_returns_the_value() {
    let mut m = ServerMap::new();
    m.insert("srv", text("foo"));
    assert_eq!(m.len(), 1);
    assert!(m.contains_key("srv"));
    assert_eq!(m.get("srv"), Some(&text("foo")));
}

#[test]
fn insert_same_id_overwrites_without_duplicating() {
    let mut m = ServerMap::new();
    m.insert("srv", text("old"));
    m.insert("srv", text("new"));
    assert_eq!(m.len(), 1);
    assert_eq!(m.get("srv"), Some(&text("new")));
}

#[test]
fn remove_deletes_only_the_given_id() {
    let mut m = ServerMap::new();
    m.insert("a", text("1"));
    m.insert("b", text("2"));
    m.remove("a");
    assert_eq!(m.len(), 1);
    assert_eq!(m.get("a"), None);
    assert_eq!(m.get("b"), Some(&text("2")));
}

#[test]
fn remove_absent_id_changes_nothing() {
    let mut m = ServerMap::new();
    m.insert("a", text("1"));
    m.remove("z");
    assert_eq!(m.len(), 1);
    assert_eq!(m.get("a"), Some(&text("1")));
}

#[test]
fn duplicate_spells_out_the_same_entries() {
    let mut m = ServerMap::new();
    m.insert("a", text("1"));
    m.insert("b", text("2"));
    let copy = m.duplicate();
    assert_eq!(copy.len(), 2);
    assert_eq!(copy.get("a"), Some(&text("1")));
    assert_eq!(copy.get("b"), Some(&text("2")));
}

#[test]
fn entries_lists_each_pair_once() {
    let mut m = ServerMap::new();
    m.insert("a", text("1"));
    m.insert("b", text("2"));
    let pairs = m.entries();
    assert_eq!(pairs.len(), 2);
    for (id, held) in pairs {
        assert_eq!(m.get(id.as_str()), Some(held));
    }
}
