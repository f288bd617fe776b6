use pc_watcher::cache::ProcessCache;
use pc_watcher::process::{AncestorLevel, ProcessInfo};

fn info(pid: u32, title: &str) -> ProcessInfo {
    let mut i = ProcessInfo::identify(
        pid,
        title.to_string(),
        "Cls".to_string(),
        Some(format!("C:\\p\\proc{}.exe", pid)),
        None,
    );
    i.push_ancestor(AncestorLevel { name: "explorer".to_string(), pid: 1, path: "e".to_string() });
    i
}

#[test]
fn second_query_within_ttl_keeps_identity_and_reads_title() {
    let mut cache = ProcessCache::new();
    let first = info(42, "first title");
    cache.store(&first, 1_000);
    let second = cache.lookup(42, 4_000, "second title".to_string(), "Cls2".to_string()).unwrap();
    assert_eq!(second.process_name, first.process_name);
    assert_eq!(second.process_path, first.process_path);
    assert_eq!(second.process_id, 42);
    assert_eq!(second.ancestry.len(), 1);
    assert_eq!(second.ancestry[0].name, "explorer");
    assert_eq!(second.window_title, "second title");
    assert_eq!(second.window_class, "Cls2");
}

#[test]
fn stale_record_is_not_served() {
    let mut cache = ProcessCache::new();
    cache.store(&info(42, "t"), 1_000);
    assert!(cache.lookup(42, 5_999, String::new(), String::new()).is_some());
    assert!(cache.lookup(42, 6_000, String::new(), String::new()).is_none());
    assert!(cache.lookup(43, 1_000, String::new(), String::new()).is_none());
}

#[test]
fn refresh_restarts_ttl() {
    let mut cache = ProcessCache::new();
    cache.store(&info(42, "t"), 1_000);
    cache.store(&info(42, "t"), 5_500);
    assert!(cache.lookup(42, 9_000, String::new(), String::new()).is_some());
}

#[test]
fn unknown_pid_is_not_cached() {
    let mut cache = ProcessCache::new();
    let unknown = ProcessInfo::unknown();
    cache.store(&unknown, 1_000);
    assert!(cache.lookup(0, 1_000, String::new(), String::new()).is_none());
}

#[test]
fn sweep_past_threshold_drops_stale_records() {
    let mut cache = ProcessCache::new();
    for pid in 1..=100u32 {
        cache.store(&info(pid, "t"), 0);
    }
    assert!(cache.lookup(50, 10, String::new(), String::new()).is_some());
    // the 101st record triggers a sweep at a time when the others are stale
    cache.store(&info(500, "t"), 20_000);
    assert!(cache.lookup(500, 20_001, String::new(), String::new()).is_some());
    // a stale record that was swept stays gone even for a clock before it
    assert!(cache.lookup(50, 10, String::new(), String::new()).is_none());
}

#[test]
fn no_sweep_at_threshold() {
    let mut cache = ProcessCache::new();
    for pid in 1..=100u32 {
        cache.store(&info(pid, "t"), 0);
    }
    assert!(cache.lookup(1, 10, String::new(), String::new()).is_some());
}
