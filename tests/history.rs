use rgate::history::{HistoryStore, HISTORY_CAPACITY};
use rgate::LogEntry;

fn entry(n: u128) -> LogEntry {
    LogEntry {
        method: "GET".to_string(),
        uri: format!("https://example.test/item/{}", n),
        headers: vec![],
        body: String::new(),
        response_status: 200,
        response_headers: vec![],
        response_body: String::new(),
        response_time: n,
    }
}

#[test]
fn new_store_is_empty() {
    let store = HistoryStore::new();
    assert_eq!(store.len(), 0);
    assert!(store.snapshot().is_empty());
    assert!(store.log().requests.is_empty());
}

#[test]
fn appends_keep_arrival_order() {
    let mut store = HistoryStore::new();
    for n in 0..3 {
        store.append(entry(n));
    }
    let snap = store.snapshot();
    assert_eq!(snap.len(), 3);
    assert_eq!(snap[0].response_time, 0);
    assert_eq!(snap[2].response_time, 2);
}

#[test]
fn store_fills_to_capacity_without_eviction() {
    let mut store = HistoryStore::new();
    for n in 0..100 {
        store.append(entry(n));
    }
    assert_eq!(HISTORY_CAPACITY, 100);
    assert_eq!(store.len(), 100);
    assert_eq!(store.snapshot()[0].response_time, 0);
}

#[test]
fn appends_beyond_capacity_keep_the_latest() {
    let mut store = HistoryStore::new();
    for n in 0..250 {
        store.append(entry(n));
    }
    let snap = store.snapshot();
    assert_eq!(snap.len(), 100);
    for (i, e) in snap.iter().enumerate() {
        assert_eq!(e.response_time, 150 + i as u128);
    }
}

#[test]
fn clear_then_snapshot_is_empty() {
    let mut store = HistoryStore::new();
    for n in 0..7 {
        store.append(entry(n));
    }
    store.clear();
    assert!(store.snapshot().is_empty());
    store.append(entry(9));
    assert_eq!(store.snapshot().len(), 1);
}

#[test]
fn snapshot_is_an_exact_copy() {
    let mut store = HistoryStore::new();
    let mut e = entry(1);
    e.headers = vec![("a".to_string(), "1".to_string()), ("a".to_string(), "2".to_string())];
    e.body = "héllo".to_string();
    store.append(e.clone());
    assert_eq!(store.snapshot(), vec![e.clone()]);
    assert_eq!(e.duplicate(), e);
}
