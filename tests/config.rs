use captains_log::config::SinkConfig;
use captains_log::level::Level as Lvl;
use captains_log::paths::{file_name, join, parent_dir};
use captains_log::recipe::{
    buffered_file_logger, buffered_rotated_file_logger, raw_file_logger, split_error_file_logger,
    stderr_logger, stdout_logger,
};
use captains_log::{
    Builder, ConsoleTarget, FormatKind, Level, LevelFilter, LogBufFile, LogConsole, LogFormat,
    LogRawFile, Rotation, SinkConfigTrait,
};
use std::str::FromStr;

fn file_builder(path: &str, level: Level) -> Builder {
    Builder::new().raw_file(LogRawFile::new("/tmp", path, level, LogFormat::debug()))
}

#[test]
fn console_target_names() {
    assert_eq!(ConsoleTarget::from_str("Stdout").unwrap(), ConsoleTarget::Stdout);
    assert_eq!(ConsoleTarget::from_str("StdERR").unwrap(), ConsoleTarget::Stderr);
    assert_eq!(ConsoleTarget::from_str("1").unwrap(), ConsoleTarget::Stdout);
    assert_eq!(ConsoleTarget::from_str("2").unwrap(), ConsoleTarget::Stderr);
    assert_eq!(ConsoleTarget::from_str("OUT").unwrap(), ConsoleTarget::Stdout);
    assert_eq!(ConsoleTarget::from_str("err").unwrap(), ConsoleTarget::Stderr);
    assert_eq!(ConsoleTarget::from_str("0").unwrap_err(), ());
    assert_eq!(ConsoleTarget::from_str("").unwrap_err(), ());
    assert_eq!(ConsoleTarget::Stderr.fd(), 2);
}

#[test]
fn level_names_ignore_case() {
    assert_eq!(Lvl::from_name("warn"), Some(Level::Warn));
    assert_eq!(Lvl::from_name("WARN"), Some(Level::Warn));
    assert_eq!(Lvl::from_name("Trace"), Some(Level::Trace));
    assert_eq!(Lvl::from_name("off"), None);
    assert_eq!(Lvl::from_name("warning"), None);
}

#[test]
fn path_parts() {
    assert_eq!(parent_dir("/tmp/a/b.log"), "/tmp/a");
    assert_eq!(parent_dir("/b.log"), "/");
    assert_eq!(parent_dir("b.log"), "");
    assert_eq!(file_name("/tmp/a/b.log"), "b.log");
    assert_eq!(file_name("b.log"), "b.log");
    assert_eq!(join("/tmp", "x.log"), "/tmp/x.log");
    assert_eq!(join("/tmp/", "x.log"), "/tmp/x.log");
    assert_eq!(join("", "x.log"), "x.log");
}

#[test]
fn max_level_of_sinks() {
    assert_eq!(Builder::new().get_max_level(), LevelFilter::Error);
    let b = Builder::new()
        .console(LogConsole::new(ConsoleTarget::Stdout, Level::Info, LogFormat::debug()))
        .raw_file(LogRawFile::new("/tmp", "a.log", Level::Debug, LogFormat::prod()))
        .raw_file(LogRawFile::new("/tmp", "b.log", Level::Warn, LogFormat::prod()));
    assert_eq!(b.get_max_level(), LevelFilter::Debug);
}

#[test]
fn test_mode_is_dynamic_without_signals() {
    let b = Builder::new().signal(10).signal(12).test();
    assert!(b.dynamic);
    assert!(b.rotation_signals.is_empty());
}

#[test]
fn checksum_stable_for_identical_configs() {
    let a = file_builder("same.log", Level::Info).signal(10);
    let b = file_builder("same.log", Level::Info).signal(10);
    assert_eq!(a.cal_checksum(), b.cal_checksum());
}

#[test]
fn checksum_changes_with_path() {
    let a = file_builder("one.log", Level::Info);
    let b = file_builder("two.log", Level::Info);
    assert_ne!(a.cal_checksum(), b.cal_checksum());
}

#[test]
fn checksum_changes_with_level() {
    let a = file_builder("x.log", Level::Info);
    let b = file_builder("x.log", Level::Debug);
    assert_ne!(a.cal_checksum(), b.cal_checksum());
}

#[test]
fn checksum_changes_with_interval_and_policy() {
    let base = || LogBufFile::new("/tmp", "buf.log", Level::Info, LogFormat::debug(), 0);
    let a = Builder::new().buf_file(base());
    let mut changed = base();
    changed.flush_millis = 100;
    let b = Builder::new().buf_file(changed);
    let c = Builder::new().buf_file(base().rotation(Rotation::by_size(8192, Some(2))));
    let d = Builder::new().buf_file(base().rotation(Rotation::by_size(8192, Some(3))));
    let sums = [a.cal_checksum(), b.cal_checksum(), c.cal_checksum(), d.cal_checksum()];
    for i in 0..sums.len() {
        for k in i + 1..sums.len() {
            assert_ne!(sums[i], sums[k]);
        }
    }
}

#[test]
fn checksum_depends_on_sink_order() {
    let x = || LogRawFile::new("/tmp", "x.log", Level::Info, LogFormat::debug());
    let y = || LogRawFile::new("/tmp", "y.log", Level::Info, LogFormat::debug());
    let a = Builder::new().raw_file(x()).raw_file(y());
    let b = Builder::new().raw_file(y()).raw_file(x());
    assert_ne!(a.cal_checksum(), b.cal_checksum());
}

#[test]
fn checksum_changes_with_dynamic_flag() {
    let a = file_builder("x.log", Level::Info);
    let b = file_builder("x.log", Level::Info).test();
    assert_ne!(a.cal_checksum(), b.cal_checksum());
}

#[test]
fn console_recipes_are_dynamic() {
    let b = stdout_logger(Level::Debug);
    assert!(b.dynamic);
    assert!(b.rotation_signals.is_empty());
    match &b.sinks[0] {
        SinkConfig::Console(c) => {
            assert_eq!(c.target, ConsoleTarget::Stdout);
            assert_eq!(c.level, Level::Debug);
            assert_eq!(c.format.kind, FormatKind::Debug);
        }
        _ => panic!("console sink expected"),
    }
    let b = stderr_logger(Level::Info);
    assert!(matches!(&b.sinks[0], SinkConfig::Console(c) if c.target == ConsoleTarget::Stderr));
}

#[test]
fn raw_file_recipe_listens_for_sigusr1() {
    let b = raw_file_logger("/tmp/logs/app.log", Level::Info);
    assert!(!b.dynamic);
    assert_eq!(b.rotation_signals, vec![10]);
    assert_eq!(b.sinks.len(), 1);
    assert_eq!(b.sinks[0].get_file_path(), Some("/tmp/logs/app.log".to_string()));
    assert_eq!(b.sinks[0].get_level(), Level::Info);
}

#[test]
fn split_error_recipe_has_two_files() {
    let b = split_error_file_logger("/tmp", "log_test", Level::Debug);
    assert_eq!(b.sinks.len(), 2);
    assert_eq!(b.sinks[0].get_file_path(), Some("/tmp/log_test.log".to_string()));
    assert_eq!(b.sinks[1].get_file_path(), Some("/tmp/log_test.log.wf".to_string()));
    assert_eq!(b.sinks[1].get_level(), Level::Error);
    assert_eq!(b.get_max_level(), LevelFilter::Debug);
}

#[test]
fn buffered_recipes() {
    let b = buffered_file_logger("/tmp/buf.log", Level::Info);
    match &b.sinks[0] {
        SinkConfig::BufFile(f) => {
            assert_eq!(f.flush_millis, 0);
            assert_eq!(f.flush_size, 4096);
            assert!(f.rotation.is_none());
            assert_eq!(f.file_path, "/tmp/buf.log");
        }
        _ => panic!("buffered sink expected"),
    }
    let b = buffered_rotated_file_logger("/tmp/buf.log", Level::Info, Rotation::by_size(10, None));
    assert!(matches!(&b.sinks[0], SinkConfig::BufFile(f) if f.rotation.is_some()));
}

#[test]
fn console_sink_has_no_path() {
    let c = LogConsole::new(ConsoleTarget::Stdout, Level::Warn, LogFormat::prod());
    assert_eq!(c.get_file_path(), None);
    assert_eq!(c.get_level(), Level::Warn);
}

#[test]
fn checksum_tells_layouts_apart() {
    let with = |kind: FormatKind| {
        Builder::new().raw_file(LogRawFile::new("/tmp", "k.log", Level::Info, LogFormat::new("%H", kind)))
    };
    let sums = [
        with(FormatKind::Debug).cal_checksum(),
        with(FormatKind::Prod).cal_checksum(),
        with(FormatKind::Custom(0)).cal_checksum(),
        with(FormatKind::Custom(1)).cal_checksum(),
    ];
    for i in 0..sums.len() {
        for k in i + 1..sums.len() {
            assert_ne!(sums[i], sums[k]);
        }
    }
    assert_eq!(with(FormatKind::Custom(1)).cal_checksum(), sums[3]);
}
