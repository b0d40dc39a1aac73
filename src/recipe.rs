//! Ready-made configurations.
use vstd::prelude::*;

use crate::config::{
    Builder, FormatKind, FormatView, LogBufFile, LogConsole, LogFormat, LogRawFile,
    SinkView, DEFAULT_TIME,
};
use crate::console::ConsoleTarget;
use crate::level::Level;
use crate::paths::{file_name, file_name_of, joined, parent_dir, parent_of};
use crate::rotation::Rotation;

verus! {

/// Relies on signal_hook's `consts::SIGUSR1`: the platform's number of the
/// user signal that log-rotate tools send.
#[verifier::external_body]
fn sigusr1() -> (r: i32) {
    signal_hook::consts::SIGUSR1
}

pub open spec fn format_view(time_fmt: &'static str, kind: FormatKind) -> FormatView {
    FormatView { time_fmt: time_fmt@, kind }
}

/// The console at `max_level`, with the debug layout; a panic is logged and
/// then goes on unwinding.
pub fn console_logger(target: ConsoleTarget, max_level: Level) -> (r: Builder)
    ensures
        !r@.dynamic,
        r@.rotation_signals.len() == 0,
        !r@.continue_when_panic,
        r@.sinks == seq![
            SinkView::Console {
                target,
                level: max_level,
                format: format_view(DEFAULT_TIME, FormatKind::Debug),
            },
        ],
{
    let console = LogConsole::new(target, max_level, LogFormat::debug());
    let config = Builder::default().console(console);
    assert(config@.sinks =~= seq![
        SinkView::Console {
            target,
            level: max_level,
            format: format_view(DEFAULT_TIME, FormatKind::Debug),
        },
    ]);
    config
}

/// Standard output, dynamic (for tests).
pub fn stdout_logger(max_level: Level) -> (r: Builder)
    ensures
        r@.dynamic,
        r@.rotation_signals.len() == 0,
        !r@.continue_when_panic,
        r@.sinks == seq![
            SinkView::Console {
                target: ConsoleTarget::Stdout,
                level: max_level,
                format: format_view(DEFAULT_TIME, FormatKind::Debug),
            },
        ],
{
    console_logger(ConsoleTarget::Stdout, max_level).test()
}

/// Standard error, dynamic (for tests).
pub fn stderr_logger(max_level: Level) -> (r: Builder)
    ensures
        r@.dynamic,
        r@.rotation_signals.len() == 0,
        !r@.continue_when_panic,
        r@.sinks == seq![
            SinkView::Console {
                target: ConsoleTarget::Stderr,
                level: max_level,
                format: format_view(DEFAULT_TIME, FormatKind::Debug),
            },
        ],
{
    console_logger(ConsoleTarget::Stderr, max_level).test()
}

/// One file at `file_path`, with a custom time format and layout, reopened
/// on SIGUSR1.
pub fn raw_file_logger_custom(
    file_path: &str,
    max_level: Level,
    time_fmt: &'static str,
    kind: FormatKind,
) -> (r: Builder)
    ensures
        !r@.dynamic,
        r@.rotation_signals.len() == 1,
        !r@.continue_when_panic,
        r@.sinks == seq![
            SinkView::RawFile {
                level: max_level,
                format: format_view(time_fmt, kind),
                path: joined(parent_of(file_path@), file_name_of(file_path@)),
            },
        ],
{
    let dir = parent_dir(file_path);
    let name = file_name(file_path);
    let file = LogRawFile::new(dir.as_str(), name.as_str(), max_level, LogFormat::new(time_fmt, kind));
    let config = Builder::default().signal(sigusr1()).raw_file(file);
    assert(config@.sinks =~= seq![
        SinkView::RawFile {
            level: max_level,
            format: format_view(time_fmt, kind),
            path: joined(parent_of(file_path@), file_name_of(file_path@)),
        },
    ]);
    config
}

/// One file at `file_path`, debug layout, reopened on SIGUSR1.
pub fn raw_file_logger(file_path: &str, max_level: Level) -> (r: Builder)
    ensures
        !r@.dynamic,
        r@.rotation_signals.len() == 1,
        !r@.continue_when_panic,
        r@.sinks == seq![
            SinkView::RawFile {
                level: max_level,
                format: format_view(DEFAULT_TIME, FormatKind::Debug),
                path: joined(parent_of(file_path@), file_name_of(file_path@)),
            },
        ],
{
    raw_file_logger_custom(file_path, max_level, DEFAULT_TIME, FormatKind::Debug)
}

/// Two files in `dir`: `<name>.log` at `max_level` with the debug layout, and
/// `<name>.log.wf` with the errors alone in the short layout.
pub fn split_error_file_logger(dir: &str, name: &str, max_level: Level) -> (r: Builder)
    ensures
        !r@.dynamic,
        r@.rotation_signals.len() == 1,
        !r@.continue_when_panic,
        r@.sinks == seq![
            SinkView::RawFile {
                level: max_level,
                format: format_view(DEFAULT_TIME, FormatKind::Debug),
                path: joined(dir@, name@ + ".log"@),
            },
            SinkView::RawFile {
                level: Level::Error,
                format: format_view(DEFAULT_TIME, FormatKind::Prod),
                path: joined(dir@, name@ + ".log.wf"@),
            },
        ],
{
    let mut debug_name = name.to_string();
    debug_name.push_str(".log");
    let mut err_name = name.to_string();
    err_name.push_str(".log.wf");
    let debug_file = LogRawFile::new(dir, debug_name.as_str(), max_level, LogFormat::debug());
    let error_file = LogRawFile::new(dir, err_name.as_str(), Level::Error, LogFormat::prod());
    let config = Builder::default().signal(sigusr1()).raw_file(debug_file).raw_file(error_file);
    assert(config@.sinks =~= seq![
        SinkView::RawFile {
            level: max_level,
            format: format_view(DEFAULT_TIME, FormatKind::Debug),
            path: joined(dir@, name@ + ".log"@),
        },
        SinkView::RawFile {
            level: Level::Error,
            format: format_view(DEFAULT_TIME, FormatKind::Prod),
            path: joined(dir@, name@ + ".log.wf"@),
        },
    ]);
    config
}

/// One buffered file at `file_path`, with a custom time format, layout,
/// flush interval and rotation, reopened on SIGUSR1.
pub fn buffered_file_logger_custom(
    file_path: &str,
    max_level: Level,
    time_fmt: &'static str,
    kind: FormatKind,
    flush_millis: usize,
    rotate: Option<Rotation>,
) -> (r: Builder)
    ensures
        !r@.dynamic,
        r@.rotation_signals.len() == 1,
        !r@.continue_when_panic,
        r@.sinks == seq![
            SinkView::BufFile {
                level: max_level,
                format: format_view(time_fmt, kind),
                path: joined(parent_of(file_path@), file_name_of(file_path@)),
                flush_millis,
                flush_size: crate::writer::FLUSH_SIZE_DEFAULT,
                rotation: match rotate {
                    Some(ro) => Some(ro@),
                    None => None,
                },
            },
        ],
{
    let dir = parent_dir(file_path);
    let name = file_name(file_path);
    let mut file = LogBufFile::new(
        dir.as_str(),
        name.as_str(),
        max_level,
        LogFormat::new(time_fmt, kind),
        flush_millis,
    );
    if let Some(ro) = rotate {
        file = file.rotation(ro);
    }
    let config = Builder::default().signal(sigusr1()).buf_file(file);
    assert(config@.sinks =~= seq![
        SinkView::BufFile {
            level: max_level,
            format: format_view(time_fmt, kind),
            path: joined(parent_of(file_path@), file_name_of(file_path@)),
            flush_millis,
            flush_size: crate::writer::FLUSH_SIZE_DEFAULT,
            rotation: match rotate {
                Some(ro) => Some(ro@),
                None => None,
            },
        },
    ]);
    config
}

/// One buffered file at `file_path`, debug layout, flushed whenever the
/// queue runs empty, no rotation.
pub fn buffered_file_logger(file_path: &str, max_level: Level) -> (r: Builder)
    ensures
        !r@.dynamic,
        r@.rotation_signals.len() == 1,
        !r@.continue_when_panic,
        r@.sinks == seq![
            SinkView::BufFile {
                level: max_level,
                format: format_view(DEFAULT_TIME, FormatKind::Debug),
                path: joined(parent_of(file_path@), file_name_of(file_path@)),
                flush_millis: 0,
                flush_size: crate::writer::FLUSH_SIZE_DEFAULT,
                rotation: None,
            },
        ],
{
    buffered_file_logger_custom(file_path, max_level, DEFAULT_TIME, FormatKind::Debug, 0, None)
}

/// One buffered file at `file_path` with rotation, debug layout, flushed
/// whenever the queue runs empty.
pub fn buffered_rotated_file_logger(file_path: &str, max_level: Level, rotation: Rotation) -> (r:
    Builder)
    ensures
        !r@.dynamic,
        r@.rotation_signals.len() == 1,
        !r@.continue_when_panic,
        r@.sinks == seq![
            SinkView::BufFile {
                level: max_level,
                format: format_view(DEFAULT_TIME, FormatKind::Debug),
                path: joined(parent_of(file_path@), file_name_of(file_path@)),
                flush_millis: 0,
                flush_size: crate::writer::FLUSH_SIZE_DEFAULT,
                rotation: Some(rotation@),
            },
        ],
{
    buffered_file_logger_custom(
        file_path,
        max_level,
        DEFAULT_TIME,
        FormatKind::Debug,
        0,
        Some(rotation),
    )
}

} // verus!
