use acme_server::status::Status;
use acme_server::store::{reap_interval_secs, PeerAddr, ResultStore, TestResult};

fn result(time: i64, tag: &str) -> TestResult {
    TestResult { time, addr: PeerAddr::Local, status: Status::Done, log: tag.to_string() }
}

#[test]
fn store_keeps_at_most_forty_newest() {
    let mut store = ResultStore::new();
    for i in 0..45 {
        store.push(result(i, &i.to_string()));
        assert!(store.len() <= 40);
    }
    assert_eq!(store.len(), 40);
    assert_eq!(store.get(0).log, "5");
    assert_eq!(store.get(39).log, "44");
}

#[test]
fn reap_drops_stale_records_in_order() {
    let mut store = ResultStore::new();
    store.push(result(0, "old"));
    store.push(result(1000, "new"));
    store.push(result(700, "stale"));
    store.push(result(1001, "newer"));
    let stop = store.reap(1000 + 299, false);
    assert!(!stop);
    assert_eq!(store.len(), 2);
    assert_eq!(store.get(0).log, "new");
    assert_eq!(store.get(1).log, "newer");
    store.reap(1300, false);
    assert_eq!(store.len(), 1);
}

#[test]
fn idle_shutdown_stops_when_emptied() {
    let mut store = ResultStore::new();
    store.push(result(0, "a"));
    assert!(!store.reap(100, true));
    assert!(store.reap(300, true));
    assert_eq!(store.len(), 0);
}

#[test]
fn always_on_never_stops() {
    let mut store = ResultStore::new();
    assert!(!store.reap(0, false));
    store.push(result(0, "a"));
    assert!(!store.reap(10_000, false));
    assert_eq!(store.len(), 0);
}

#[test]
fn record_stamps_current_time() {
    let mut store = ResultStore::new();
    store.record(PeerAddr::Network("10.0.0.1:4000".to_string()), Status::Sleep, "log".to_string());
    assert_eq!(store.len(), 1);
    assert!(store.get(0).time > 1_600_000_000);
    assert_eq!(store.get(0).status, Status::Sleep);
    assert!(!store.reap_now(true));
}

#[test]
fn peer_addresses_describe_themselves() {
    assert_eq!(PeerAddr::Network("1.2.3.4:5".to_string()).describe(), "1.2.3.4:5");
    assert_eq!(PeerAddr::Local.describe(), "unix");
}

#[test]
fn snapshot_is_newest_first() {
    let mut store = ResultStore::new();
    store.push(result(1, "first"));
    store.push(result(2, "second"));
    store.push(result(3, "third"));
    let logs: Vec<&str> = store.snapshot().iter().map(|r| r.log.as_str()).collect();
    assert_eq!(logs, vec!["third", "second", "first"]);
    assert!(ResultStore::new().snapshot().is_empty());
}

#[test]
fn reaper_interval_depends_on_mode() {
    assert_eq!(reap_interval_secs(true), 1200);
    assert_eq!(reap_interval_secs(false), 300);
}
