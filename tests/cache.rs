use cache_n::cache::{resolve, Lookup, Served};
use cache_n::command::{write_command, WriteCommand};
use std::cell::Cell;
use std::collections::HashMap;

fn apply(store: &mut HashMap<String, String>, c: &WriteCommand) {
    match c {
        WriteCommand::SetEx { key, value, .. } => {
            store.insert(key.clone(), value.clone());
        }
        WriteCommand::Del { key } => {
            store.remove(key);
        }
    }
}

#[test]
fn write_command_with_ttl_sets_with_expiry() {
    assert_eq!(
        write_command("u:1", "alice", 60),
        WriteCommand::SetEx {
            key: "u:1".to_string(),
            value: "alice".to_string(),
            seconds: 60
        }
    );
}

#[test]
fn write_command_with_zero_ttl_deletes() {
    assert_eq!(
        write_command("u:1", "alice", 0),
        WriteCommand::Del { key: "u:1".to_string() }
    );
}

#[test]
fn lookup_from_read_tells_outcomes_apart() {
    let hit: Result<Option<String>, ()> = Ok(Some("v".to_string()));
    let miss: Result<Option<String>, ()> = Ok(None);
    let failed: Result<Option<String>, ()> = Err(());
    assert_eq!(Lookup::from_read(hit), Lookup::Hit("v".to_string()));
    assert_eq!(Lookup::from_read(miss), Lookup::Miss);
    assert_eq!(Lookup::from_read(failed), Lookup::Unavailable);
}

#[test]
fn lookup_cached_collapses_failures() {
    assert_eq!(Lookup::Hit("v".to_string()).cached(), Some("v".to_string()));
    assert_eq!(Lookup::Miss.cached(), None);
    assert_eq!(Lookup::Unavailable.cached(), None);
}

#[test]
fn resolve_hit_skips_computation() {
    let calls = Cell::new(0u32);
    let f = || {
        calls.set(calls.get() + 1);
        "fresh".to_string()
    };
    let s = resolve(Some("cached".to_string()), f);
    assert_eq!(s, Served::Hit("cached".to_string()));
    assert_eq!(calls.get(), 0);
    assert_eq!(s.write_back("k", 10), None);
    assert_eq!(s.into_value(), "cached");
}

#[test]
fn resolve_miss_computes_once_and_writes_back() {
    let calls = Cell::new(0u32);
    let f = || {
        calls.set(calls.get() + 1);
        "fresh".to_string()
    };
    let s = resolve(None, f);
    assert_eq!(calls.get(), 1);
    assert_eq!(s, Served::Computed("fresh".to_string()));
    assert_eq!(
        s.write_back("k", 10),
        Some(WriteCommand::SetEx {
            key: "k".to_string(),
            value: "fresh".to_string(),
            seconds: 10
        })
    );
    assert_eq!(s.into_value(), "fresh");
}

#[test]
fn set_then_get_scenario() {
    let mut store: HashMap<String, String> = HashMap::new();
    apply(&mut store, &write_command("u:1", "alice", 60));
    assert_eq!(store.get("u:1").cloned(), Some("alice".to_string()));
    assert_eq!(store.get("u:999").cloned(), None);
}

#[test]
fn zero_ttl_leaves_key_empty() {
    let mut store: HashMap<String, String> = HashMap::new();
    apply(&mut store, &write_command("k", "old", 60));
    apply(&mut store, &write_command("k", "new", 0));
    assert_eq!(store.get("k"), None);
}

#[test]
fn repeated_request_computes_once() {
    let mut store: HashMap<String, String> = HashMap::new();
    let calls = Cell::new(0u32);
    let f = || {
        calls.set(calls.get() + 1);
        "5050".to_string()
    };
    let mut results: Vec<String> = Vec::new();
    for _ in 0..2 {
        let served = resolve(store.get("calc:sum").cloned(), f);
        if let Some(c) = served.write_back("calc:sum", 10) {
            apply(&mut store, &c);
        }
        results.push(served.into_value());
    }
    assert_eq!(results, vec!["5050".to_string(), "5050".to_string()]);
    assert_eq!(calls.get(), 1);
}

#[test]
fn cold_key_first_value_is_kept() {
    let mut store: HashMap<String, String> = HashMap::new();
    let first = resolve(store.get("k1").cloned(), || "v1".to_string());
    if let Some(c) = first.write_back("k1", 10) {
        apply(&mut store, &c);
    }
    let second = resolve(store.get("k1").cloned(), || "other".to_string());
    assert_eq!(first.into_value(), "v1");
    assert_eq!(second, Served::Hit("v1".to_string()));
}
