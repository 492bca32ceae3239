use mcp_sync::claude::{
    import_from_claude, remove_server_from_claude, sync_servers_to_claude,
    sync_single_server_to_claude, ClaudeConfig,
};
use mcp_sync::server_map::ServerMap;
use serde_json::Value;

fn spec_obj(pairs: &[(&str, &str)]) -> Value {
    let mut m = serde_json::Map::new();
    for (k, v) in pairs {
        m.insert(k.to_string(), Value::String(v.to_string()));
    }
    Value::Object(m)
}

fn map_of(pairs: &[(&str, Value)]) -> ServerMap {
    let mut m = ServerMap::new();
    for (k, v) in pairs {
        m.insert(k, v.clone());
    }
    m
}

fn assert_holds_exactly(m: &ServerMap, pairs: &[(&str, Value)]) {
    assert_eq!(m.len(), pairs.len());
    for (k, v) in pairs {
        assert_eq!(m.get(k), Some(v));
    }
}

#[test]
fn upsert_then_import_holds_new_entry() {
    let spec = spec_obj(&[("command", "foo")]);
    let mut config = ClaudeConfig::new(ServerMap::new());
    sync_single_server_to_claude(&mut config, "srv", &spec).unwrap();
    let imported = import_from_claude(&config).unwrap();
    assert_holds_exactly(&imported, &[("srv", spec)]);
}

#[test]
fn upsert_preserves_existing_entries() {
    let spec_a = spec_obj(&[("cmd", "foo")]);
    let spec_b = spec_obj(&[("cmd", "bar")]);
    let mut config = ClaudeConfig::new(map_of(&[("srvA", spec_a.clone())]));
    sync_single_server_to_claude(&mut config, "srvB", &spec_b).unwrap();
    let imported = import_from_claude(&config).unwrap();
    assert_holds_exactly(&imported, &[("srvA", spec_a), ("srvB", spec_b)]);
}

#[test]
fn upsert_overwrites_entry_under_same_id() {
    let spec_old = spec_obj(&[("cmd", "old")]);
    let spec_new = spec_obj(&[("cmd", "new")]);
    let mut config = ClaudeConfig::new(map_of(&[("srv", spec_old)]));
    sync_single_server_to_claude(&mut config, "srv", &spec_new).unwrap();
    let imported = import_from_claude(&config).unwrap();
    assert_holds_exactly(&imported, &[("srv", spec_new)]);
}

#[test]
fn upsert_twice_equals_upsert_once() {
    let spec = spec_obj(&[("cmd", "foo")]);
    let initial = &[("other", spec_obj(&[("cmd", "keep")]))];

    let mut once = ClaudeConfig::new(map_of(initial));
    sync_single_server_to_claude(&mut once, "srv", &spec).unwrap();

    let mut twice = ClaudeConfig::new(map_of(initial));
    sync_single_server_to_claude(&mut twice, "srv", &spec).unwrap();
    sync_single_server_to_claude(&mut twice, "srv", &spec).unwrap();

    let first = import_from_claude(&once).unwrap();
    let second = import_from_claude(&twice).unwrap();
    assert_eq!(first.len(), second.len());
    for (id, spec) in second.entries() {
        assert_eq!(first.get(id.as_str()), Some(spec));
    }
}

#[test]
fn remove_absent_id_leaves_map_unchanged() {
    let spec_a = spec_obj(&[("cmd", "foo")]);
    let spec_b = spec_obj(&[("cmd", "bar")]);
    let initial = [("srvA", spec_a), ("srvB", spec_b)];
    let mut config = ClaudeConfig::new(map_of(&initial));
    remove_server_from_claude(&mut config, "absent").unwrap();
    let imported = import_from_claude(&config).unwrap();
    assert_holds_exactly(&imported, &initial);
}

#[test]
fn remove_present_id_keeps_other_entries_byte_identical() {
    let spec_a = spec_obj(&[("cmd", "foo"), ("env", "X")]);
    let spec_b = spec_obj(&[("cmd", "bar")]);
    let mut config = ClaudeConfig::new(map_of(&[
        ("srvA", spec_a),
        ("srvB", spec_b.clone()),
    ]));
    remove_server_from_claude(&mut config, "srvA").unwrap();
    let imported = import_from_claude(&config).unwrap();
    assert_holds_exactly(&imported, &[("srvB", spec_b)]);
    assert_eq!(imported.get("srvA"), None);
}

#[test]
fn remove_on_empty_map_succeeds() {
    let mut config = ClaudeConfig::new(ServerMap::new());
    remove_server_from_claude(&mut config, "nonexistent").unwrap();
    let imported = import_from_claude(&config).unwrap();
    assert_eq!(imported.len(), 0);
}

#[test]
fn replace_all_discards_prior_state() {
    let prior = map_of(&[
        ("stale", spec_obj(&[("cmd", "gone")])),
        ("old", spec_obj(&[("cmd", "dropped")])),
    ]);
    let spec_new = spec_obj(&[("cmd", "fresh")]);
    let replacement = map_of(&[("srv", spec_new.clone())]);
    let mut config = ClaudeConfig::new(prior);
    sync_servers_to_claude(&mut config, &replacement).unwrap();
    let imported = import_from_claude(&config).unwrap();
    assert_holds_exactly(&imported, &[("srv", spec_new)]);
    assert_eq!(imported.get("stale"), None);
    assert_eq!(imported.get("old"), None);
}

#[test]
fn import_is_pure() {
    let spec = spec_obj(&[("cmd", "foo")]);
    let config = ClaudeConfig::new(map_of(&[("srv", spec.clone())]));
    let first = import_from_claude(&config).unwrap();
    let second = import_from_claude(&config).unwrap();
    assert_eq!(first.len(), second.len());
    for (id, held) in first.entries() {
        assert_eq!(second.get(id.as_str()), Some(held));
    }
    assert_holds_exactly(&second, &[("srv", spec)]);
}

#[test]
fn import_keeps_raw_entry_unvalidated() {
    let raw = Value::Number(serde_json::Number::from(1));
    let mut initial = ServerMap::new();
    initial.insert("x", raw.clone());
    let config = ClaudeConfig::new(initial);
    let imported = import_from_claude(&config).unwrap();
    assert_holds_exactly(&imported, &[("x", raw)]);
}
