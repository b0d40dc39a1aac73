use captains_log::{env_or, DummyFilter, Filter, KeyFilter, Level, LogFilter, LogFilterKV};

#[test]
fn log_filter_starts_open() {
    let f = LogFilter::new();
    assert_eq!(f.get_level(), 5);
    assert!(f.is_enabled(Level::Trace));
}

#[test]
fn log_filter_level_changes() {
    let f = LogFilter::new();
    f.set_level(Level::Error);
    assert_eq!(f.get_level(), 1);
    assert!(f.is_enabled(Level::Error));
    assert!(!f.is_enabled(Level::Warn));
    let g = f.clone();
    assert_eq!(g.get_level(), 1);
}

#[test]
fn dummy_filter_admits_all() {
    assert!(DummyFilter().is_enabled(Level::Trace));
}

#[test]
fn kv_filter_carries_its_pair() {
    let f = LogFilterKV::new("req_id", format!("{:016x}", 123));
    assert_eq!(f.get("req_id"), Some("000000000000007b"));
    assert_eq!(f.get("other"), None);
    assert_eq!(f.count(), 1);
    f.set_level(Level::Debug);
    assert_eq!(f.get_level(), 4);
    assert!(!f.is_enabled(Level::Trace));
}

#[test]
fn key_filter_carries_its_pair() {
    let f = KeyFilter::new("req_id", "abc".to_string());
    assert_eq!(f.get("req_id"), Some("abc"));
    f.set_level(Level::Info);
    assert_eq!(f.get_level(), 3);
    assert!(f.is_enabled(Level::Warn));
}

#[test]
fn env_or_keeps_name_and_default() {
    let e = env_or("LOG_LEVEL", Level::Info);
    assert_eq!(e.name, "LOG_LEVEL");
    assert_eq!(e.default, Level::Info);
}
