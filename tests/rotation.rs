use captains_log::archive::ArchiveEntry;
use captains_log::rotation::{DateFrom, Naming, HOUR_MILLIS};
use captains_log::timed::{lex_less, TimedArchive, TimedArchiveSet};
use captains_log::{Age, LimiterAge, LimiterSize, Rotation, Upkeep};

#[test]
fn size_limit_triggers_at_the_limit() {
    let l = LimiterSize::new(8192);
    assert!(!l.check(8191));
    assert!(l.check(8192));
    assert!(l.check(9000));
}

#[test]
fn age_limit_triggers_past_one_period() {
    let hour = LimiterAge::new(Age::Hour);
    assert_eq!(hour.limit_millis, 3_600_000);
    assert!(!hour.check(1_000, 1_000 + 3_600_000));
    assert!(hour.check(1_000, 1_000 + 3_600_001));
    let day = LimiterAge::new(Age::Day);
    assert_eq!(day.limit_millis, 86_400_000);
    assert!(!day.check(0, 3_600_001));
}

#[test]
fn age_limit_triggers_when_clock_goes_back() {
    let hour = LimiterAge::new(Age::Hour);
    assert!(hour.check(10_000, 5_000));
}

#[test]
fn by_size_sets_count_upkeep() {
    let r = Rotation::by_size(100, Some(3));
    assert_eq!(r.by_size, Some(100));
    assert!(r.by_age.is_none());
    assert_eq!(r.upkeep, Upkeep::Count(3));
    let r = Rotation::by_size(100, None);
    assert_eq!(r.upkeep, Upkeep::All);
}

#[test]
fn build_uses_file_directory_by_default() {
    let engine = Rotation::by_size(8192, Some(2)).build("/tmp/logs/app.log");
    assert_eq!(engine.archive_dir, "/tmp/logs");
    assert_eq!(engine.file_name, "app.log");
    assert_eq!(engine.size_limit, Some(LimiterSize { limit: 8192 }));
    assert!(engine.age_limit.is_none());
    assert!(matches!(engine.naming, Naming::Numeric));
}

#[test]
fn build_with_archive_dir_and_compression() {
    let engine = Rotation::by_size(10, None)
        .archive_dir("/tmp/old".to_string())
        .compress_exclude(1)
        .build("app.log");
    assert_eq!(engine.archive_dir, "/tmp/old");
    assert_eq!(engine.file_name, "app.log");
    assert_eq!(engine.compress_exclude, Some(1));
}

#[test]
fn build_file_at_root_and_relative() {
    let engine = Rotation::by_size(10, None).build("/app.log");
    assert_eq!(engine.archive_dir, "/");
    let engine = Rotation::by_size(10, None).build("app.log");
    assert_eq!(engine.archive_dir, "");
}

#[test]
fn build_by_age_picks_date_source() {
    let engine = Rotation::by_age(Age::Hour, true, "%Y%m%d%H", None).build("/tmp/a.log");
    assert_eq!(engine.age_limit, Some(LimiterAge { limit_millis: HOUR_MILLIS }));
    match engine.naming {
        Naming::Timestamp { format, date_from } => {
            assert_eq!(format, "%Y%m%d%H");
            assert_eq!(date_from, DateFrom::HourAgo);
        }
        Naming::Numeric => panic!("expected timestamp naming"),
    }
    let engine = Rotation::by_age(Age::Day, true, "%Y%m%d", None).build("/tmp/a.log");
    assert!(matches!(engine.naming, Naming::Timestamp { date_from: DateFrom::Yesterday, .. }));
    let engine = Rotation::by_age(Age::Day, false, "%Y%m%d", Some(60)).build("/tmp/a.log");
    assert!(matches!(engine.naming, Naming::Timestamp { date_from: DateFrom::Now, .. }));
    assert_eq!(engine.upkeep, Upkeep::Age(60));
}

#[test]
fn engine_check_combines_limits() {
    let mut r = Rotation::by_age(Age::Hour, false, "%Y", None);
    r.by_size = Some(100);
    let engine = r.build("/tmp/a.log");
    assert!(!engine.check(50, 0, 1_000));
    assert!(engine.check(100, 0, 1_000));
    assert!(engine.check(0, 0, 3_600_001));
}

#[test]
fn engine_upkeep_count_and_compress() {
    let mut engine = Rotation::by_size(10, Some(2)).compress_exclude(1).build("/tmp/a.log");
    let found = vec![
        ArchiveEntry { suffix: 1, compressed: false },
        ArchiveEntry { suffix: 2, compressed: false },
    ];
    engine.load_archives(&found);
    let renames = engine.archive_live();
    assert_eq!(renames.len(), 3);
    let plan = engine.upkeep_archives();
    assert_eq!(plan.delete, vec![ArchiveEntry { suffix: 3, compressed: false }]);
    assert_eq!(plan.compress, vec![ArchiveEntry { suffix: 2, compressed: false }]);
    assert_eq!(
        engine.archives.entries,
        vec![ArchiveEntry { suffix: 1, compressed: false }, ArchiveEntry { suffix: 2, compressed: true }]
    );
}

#[test]
fn numeric_scheme_ignores_age_upkeep() {
    let mut r = Rotation::by_size(10, None);
    r.upkeep = Upkeep::Age(1);
    let mut engine = r.build("/tmp/a.log");
    engine.archive_live();
    engine.archive_live();
    let plan = engine.upkeep_archives();
    assert!(plan.delete.is_empty());
    assert_eq!(engine.archives.entries.len(), 2);
}

fn timed(ts: &str, number: Option<usize>) -> TimedArchive {
    TimedArchive { timestamp: ts.to_string(), number, compressed: false }
}

#[test]
fn lexicographic_order_of_names() {
    assert!(lex_less("20240101", "20240102"));
    assert!(!lex_less("20240102", "20240101"));
    assert!(lex_less("2024", "20240101"));
    assert!(!lex_less("2024", "2024"));
}

#[test]
fn timed_set_inserts_by_age() {
    let mut set = TimedArchiveSet::new();
    assert_eq!(set.insert(timed("20240102", None)), Some(0));
    assert_eq!(set.insert(timed("20240103", None)), Some(0));
    assert_eq!(set.insert(timed("20240101", None)), Some(2));
    assert_eq!(set.insert(timed("20240103", Some(1))), Some(0));
    assert_eq!(set.insert(timed("20240102", None)), None);
    let names: Vec<(String, Option<usize>)> =
        set.entries.iter().map(|a| (a.timestamp.clone(), a.number)).collect();
    assert_eq!(
        names,
        vec![
            ("20240103".to_string(), Some(1)),
            ("20240103".to_string(), None),
            ("20240102".to_string(), None),
            ("20240101".to_string(), None),
        ]
    );
}

#[test]
fn timed_scan_keeps_ordered_input() {
    let found = vec![timed("3", None), timed("2", Some(4)), timed("2", None), timed("1", None)];
    let set = TimedArchiveSet::from_scan(&found);
    assert_eq!(set.entries.len(), 4);
    let unordered = vec![timed("1", None), timed("2", None)];
    let set = TimedArchiveSet::from_scan(&unordered);
    assert_eq!(set.entries.len(), 1);
}

#[test]
fn timed_age_retention_stops_at_first_recent() {
    let found = vec![timed("20240105", None), timed("20240103", None), timed("20240101", None)];
    let mut set = TimedArchiveSet::from_scan(&found);
    let deleted = set.retain_newer_than("20240104");
    let gone: Vec<String> = deleted.iter().map(|a| a.timestamp.clone()).collect();
    assert_eq!(gone, vec!["20240103".to_string(), "20240101".to_string()]);
    assert_eq!(set.entries.len(), 1);
}

#[test]
fn timed_count_retention_and_compression() {
    let found = vec![timed("4", None), timed("3", None), timed("2", None), timed("1", None)];
    let mut set = TimedArchiveSet::from_scan(&found);
    let deleted = set.retain_count(3);
    assert_eq!(deleted.len(), 1);
    assert_eq!(deleted[0].timestamp, "1");
    let pending = set.compress_beyond(1);
    let names: Vec<String> = pending.iter().map(|a| a.timestamp.clone()).collect();
    assert_eq!(names, vec!["2".to_string(), "3".to_string()]);
    assert!(!set.entries[0].compressed && set.entries[1].compressed && set.entries[2].compressed);
}

#[test]
fn timed_rotation_names_by_time_and_numbers_repeats() {
    let mut engine = Rotation::by_age(Age::Day, false, "%Y%m%d", None).build("/tmp/t.log");
    let first = engine.archive_live_timed().expect("named");
    assert_eq!(first.timestamp.len(), 8);
    assert!(first.timestamp.chars().all(|c| c.is_ascii_digit()));
    assert_eq!(first.number, None);
    let second = engine.archive_live_timed().expect("named");
    if second.timestamp == first.timestamp {
        assert_eq!(second.number, Some(1));
    }
    assert_eq!(engine.timed.entries.len(), 2);
}

#[test]
fn timed_rotation_refused_for_numeric_naming() {
    let mut engine = Rotation::by_size(10, None).build("/tmp/t.log");
    assert!(engine.archive_live_timed().is_none());
}

#[test]
fn timed_upkeep_by_age_threshold() {
    let mut engine = Rotation::by_age(Age::Day, false, "%Y%m%d", Some(86_400)).build("/tmp/t.log");
    let found = vec![timed("20240110", None), timed("20240101", None)];
    engine.load_timed_archives(&found);
    let plan = engine.upkeep_timed_archives("20240105");
    assert_eq!(plan.delete.len(), 1);
    assert_eq!(plan.delete[0].timestamp, "20240101");
    assert_eq!(engine.timed.entries.len(), 1);
}

#[test]
fn timed_rotation_refused_for_unreadable_format() {
    let mut engine = Rotation::by_age(Age::Day, false, "%Q", None).build("/tmp/t.log");
    assert!(engine.archive_live_timed().is_none());
    assert!(engine.timed.entries.is_empty());
}

#[test]
fn timed_rotation_refused_when_number_exhausted() {
    let mut engine = Rotation::by_age(Age::Day, false, "%Y%m%d", None).build("/tmp/t.log");
    let found = vec![TimedArchive { timestamp: "99991231".to_string(), number: Some(usize::MAX), compressed: false }];
    engine.load_timed_archives(&found);
    assert!(engine.archive_live_timed().is_none());
    assert_eq!(engine.timed.entries.len(), 1);
}
