use vstd::prelude::*;
use std::collections::hash_map::DefaultHasher;

use crate::checksum::{sink_chunks, write_buf_file_hash, write_console_hash, write_raw_file_hash};
use crate::console::ConsoleTarget;
use crate::level::{Level, LevelFilter};
use crate::paths::{join, joined};
use crate::rotation::{ByAge, Rotation, Upkeep};
use crate::writer::FLUSH_SIZE_DEFAULT;

verus! {

/// strftime format of the timestamps that the ready-made formats print.
pub const DEFAULT_TIME: &'static str = "%Y-%m-%d %H:%M:%S%.6f";

/// The layout of a log line.
#[derive(Clone, Copy, Debug, PartialEq, Eq, Hash, Structural)]
pub enum FormatKind {
    /// `[{time}][{level}][{file}:{line}] {msg}`
    Debug,
    /// `[{time}][{level}] {msg}`
    Prod,
    /// A layout the caller registered under this number.
    Custom(u32),
}

/// How a sink formats a line: the timestamp's strftime format and the layout.
#[derive(Clone, Copy, Debug)]
pub struct LogFormat {
    pub time_fmt: &'static str,
    pub kind: FormatKind,
}

impl LogFormat {
    pub fn new(time_fmt: &'static str, kind: FormatKind) -> (r: Self)
        ensures
            r.time_fmt == time_fmt,
            r.kind == kind,
    {
        LogFormat { time_fmt, kind }
    }

    /// `[{time}][{level}][{file}:{line}] {msg}` with the default time format.
    pub fn debug() -> (r: Self)
        ensures
            r.time_fmt == DEFAULT_TIME,
            r.kind == FormatKind::Debug,
    {
        LogFormat { time_fmt: DEFAULT_TIME, kind: FormatKind::Debug }
    }

    /// `[{time}][{level}] {msg}` with the default time format.
    pub fn prod() -> (r: Self)
        ensures
            r.time_fmt == DEFAULT_TIME,
            r.kind == FormatKind::Prod,
    {
        LogFormat { time_fmt: DEFAULT_TIME, kind: FormatKind::Prod }
    }
}

/// Output to the console.
pub struct LogConsole {
    pub target: ConsoleTarget,
    /// Most verbose level written.
    pub level: Level,
    pub format: LogFormat,
}

impl LogConsole {
    pub fn new(target: ConsoleTarget, level: Level, format: LogFormat) -> (r: Self)
        ensures
            r.target == target,
            r.level == level,
            r.format == format,
    {
        LogConsole { target, level, format }
    }
}

/// Output to a file, one unbuffered append per line, so that several
/// processes can share the file.
pub struct LogRawFile {
    pub level: Level,
    pub format: LogFormat,
    /// `dir/name`
    pub file_path: String,
}

impl LogRawFile {
    /// The directory is created when the sink is opened.
    pub fn new(dir: &str, file_name: &str, level: Level, format: LogFormat) -> (r: Self)
        ensures
            r.file_path@ == joined(dir@, file_name@),
            r.level == level,
            r.format == format,
    {
        LogRawFile { level, format, file_path: join(dir, file_name) }
    }
}

/// Output to a file through a writer thread that batches lines, with
/// optional rotation.
pub struct LogBufFile {
    pub level: Level,
    pub format: LogFormat,
    /// `dir/name`
    pub file_path: String,
    /// 0: flush whenever the queue runs empty; otherwise flush at least this
    /// often, in milliseconds (at most 1000).
    pub flush_millis: usize,
    pub rotation: Option<Rotation>,
    /// Flush as soon as this many bytes are pending (0: the default).
    pub flush_size: usize,
}

impl LogBufFile {
    /// The directory is created when the sink is opened.
    pub fn new(dir: &str, file_name: &str, level: Level, format: LogFormat, flush_millis: usize) -> (r:
        Self)
        ensures
            r.file_path@ == joined(dir@, file_name@),
            r.level == level,
            r.format == format,
            r.flush_millis == flush_millis,
            r.rotation is None,
            r.flush_size == FLUSH_SIZE_DEFAULT,
    {
        LogBufFile {
            level,
            format,
            file_path: join(dir, file_name),
            flush_millis,
            rotation: None,
            flush_size: FLUSH_SIZE_DEFAULT,
        }
    }

    pub fn rotation(self, ro: Rotation) -> (r: Self)
        ensures
            r.rotation == Some(ro),
            r.level == self.level,
            r.format == self.format,
            r.file_path == self.file_path,
            r.flush_millis == self.flush_millis,
            r.flush_size == self.flush_size,
    {
        LogBufFile { rotation: Some(ro), ..self }
    }
}

/// One configured output.
pub enum SinkConfig {
    RawFile(LogRawFile),
    BufFile(LogBufFile),
    Console(LogConsole),
}

/// The configuration value of a format.
pub struct FormatView {
    pub time_fmt: Seq<char>,
    pub kind: FormatKind,
}

impl View for LogFormat {
    type V = FormatView;

    open spec fn view(&self) -> FormatView {
        FormatView { time_fmt: self.time_fmt@, kind: self.kind }
    }
}

/// The configuration value of a rotation policy.
pub struct RotationView {
    pub by_age: Option<ByAge>,
    pub by_size: Option<u64>,
    pub time_fmt: Option<Seq<char>>,
    pub upkeep: Upkeep,
    pub archive_dir: Option<Seq<char>>,
    pub compress_exclude: Option<usize>,
}

impl View for Rotation {
    type V = RotationView;

    open spec fn view(&self) -> RotationView {
        RotationView {
            by_age: self.by_age,
            by_size: self.by_size,
            time_fmt: match self.time_fmt {
                Some(f) => Some(f@),
                None => None,
            },
            upkeep: self.upkeep,
            archive_dir: match self.archive_dir {
                Some(d) => Some(d@),
                None => None,
            },
            compress_exclude: self.compress_exclude,
        }
    }
}

/// The configuration value of one sink.
pub enum SinkView {
    RawFile { level: Level, format: FormatView, path: Seq<char> },
    BufFile {
        level: Level,
        format: FormatView,
        path: Seq<char>,
        flush_millis: usize,
        flush_size: usize,
        rotation: Option<RotationView>,
    },
    Console { target: ConsoleTarget, level: Level, format: FormatView },
}

impl SinkView {
    pub open spec fn level(self) -> Level {
        match self {
            SinkView::RawFile { level, .. } => level,
            SinkView::BufFile { level, .. } => level,
            SinkView::Console { level, .. } => level,
        }
    }

    pub open spec fn path(self) -> Option<Seq<char>> {
        match self {
            SinkView::RawFile { path, .. } => Some(path),
            SinkView::BufFile { path, .. } => Some(path),
            SinkView::Console { .. } => None,
        }
    }
}

/// What every sink descriptor offers.
pub trait SinkConfigTrait {
    spec fn sink_view(&self) -> SinkView;

    /// Most verbose level the sink writes.
    fn get_level(&self) -> (r: Level)
        ensures
            r == self.sink_view().level(),
    ;

    /// Only file sinks have a path.
    fn get_file_path(&self) -> (r: Option<String>)
        ensures
            match r {
                Some(p) => self.sink_view().path() == Some(p@),
                None => self.sink_view().path() is None,
            },
    ;

    /// Feeds this sink's part of the configuration checksum to `hasher`.
    fn write_hash(&self, hasher: &mut DefaultHasher)
        ensures
            final(hasher)@ == old(hasher)@ + sink_chunks(self.sink_view()),
    ;
}

impl SinkConfigTrait for LogConsole {
    open spec fn sink_view(&self) -> SinkView {
        SinkView::Console { target: self.target, level: self.level, format: self.format@ }
    }

    fn get_level(&self) -> (r: Level) {
        self.level
    }

    fn get_file_path(&self) -> (r: Option<String>) {
        None
    }

    fn write_hash(&self, hasher: &mut DefaultHasher) {
        write_console_hash(hasher, self)
    }
}

impl SinkConfigTrait for LogRawFile {
    fn write_hash(&self, hasher: &mut DefaultHasher) {
        write_raw_file_hash(hasher, self)
    }

    open spec fn sink_view(&self) -> SinkView {
        SinkView::RawFile { level: self.level, format: self.format@, path: self.file_path@ }
    }

    fn get_level(&self) -> (r: Level) {
        self.level
    }

    fn get_file_path(&self) -> (r: Option<String>) {
        Some(self.file_path.clone())
    }
}

impl SinkConfigTrait for LogBufFile {
    fn write_hash(&self, hasher: &mut DefaultHasher) {
        write_buf_file_hash(hasher, self)
    }

    open spec fn sink_view(&self) -> SinkView {
        SinkView::BufFile {
            level: self.level,
            format: self.format@,
            path: self.file_path@,
            flush_millis: self.flush_millis,
            flush_size: self.flush_size,
            rotation: match self.rotation {
                Some(r) => Some(r@),
                None => None,
            },
        }
    }

    fn get_level(&self) -> (r: Level) {
        self.level
    }

    fn get_file_path(&self) -> (r: Option<String>) {
        Some(self.file_path.clone())
    }
}

impl SinkConfigTrait for SinkConfig {
    open spec fn sink_view(&self) -> SinkView {
        match self {
            SinkConfig::RawFile(c) => c.sink_view(),
            SinkConfig::BufFile(c) => c.sink_view(),
            SinkConfig::Console(c) => c.sink_view(),
        }
    }

    fn get_level(&self) -> (r: Level) {
        match self {
            SinkConfig::RawFile(c) => c.get_level(),
            SinkConfig::BufFile(c) => c.get_level(),
            SinkConfig::Console(c) => c.get_level(),
        }
    }

    fn get_file_path(&self) -> (r: Option<String>) {
        match self {
            SinkConfig::RawFile(c) => c.get_file_path(),
            SinkConfig::BufFile(c) => c.get_file_path(),
            SinkConfig::Console(c) => c.get_file_path(),
        }
    }

    fn write_hash(&self, hasher: &mut DefaultHasher) {
        match self {
            SinkConfig::RawFile(c) => c.write_hash(hasher),
            SinkConfig::BufFile(c) => c.write_hash(hasher),
            SinkConfig::Console(c) => c.write_hash(hasher),
        }
    }
}

/// The configuration value of a whole setup.
pub struct BuilderView {
    pub dynamic: bool,
    pub rotation_signals: Seq<i32>,
    pub panic: bool,
    pub continue_when_panic: bool,
    pub sinks: Seq<SinkView>,
}

/// The configuration of the logger, handed to setup.
pub struct Builder {
    /// true: setup may be called again with another configuration, and the
    /// sinks are swapped (for test suites). false: the first configuration
    /// stays for the life of the process.
    pub dynamic: bool,
    /// Signals on which every sink is reopened (for log-rotate tools).
    pub rotation_signals: Vec<i32>,
    /// Log panics.
    pub panic: bool,
    /// Keep running after a panic was logged.
    pub continue_when_panic: bool,
    pub sinks: Vec<SinkConfig>,
}

impl View for Builder {
    type V = BuilderView;

    open spec fn view(&self) -> BuilderView {
        BuilderView {
            dynamic: self.dynamic,
            rotation_signals: self.rotation_signals@,
            panic: self.panic,
            continue_when_panic: self.continue_when_panic,
            sinks: self.sinks@.map_values(|c: SinkConfig| c.sink_view()),
        }
    }
}

/// The most verbose level among the sinks, and at least `Error`.
pub open spec fn max_rank(sinks: Seq<SinkView>) -> nat
    decreases sinks.len(),
{
    if sinks.len() == 0 {
        1
    } else {
        let m = max_rank(sinks.drop_last());
        let r = sinks.last().level().rank();
        if r > m {
            r
        } else {
            m
        }
    }
}

impl Default for Builder {
    fn default() -> (r: Self)
        ensures
            !r.dynamic,
            r.rotation_signals@.len() == 0,
            !r.panic,
            !r.continue_when_panic,
            r.sinks@.len() == 0,
    {
        Builder {
            dynamic: false,
            rotation_signals: Vec::new(),
            panic: false,
            continue_when_panic: false,
            sinks: Vec::new(),
        }
    }
}

impl Builder {
    pub fn new() -> (r: Self)
        ensures
            !r.dynamic,
            r.rotation_signals@.len() == 0,
            !r.panic,
            !r.continue_when_panic,
            r.sinks@.len() == 0,
    {
        Builder::default()
    }

    /// For test cases: dynamic, and no signal.
    pub fn test(self) -> (r: Self)
        ensures
            r.dynamic,
            r.rotation_signals@.len() == 0,
            r.panic == self.panic,
            r.continue_when_panic == self.continue_when_panic,
            r.sinks == self.sinks,
    {
        Builder { dynamic: true, rotation_signals: Vec::new(), ..self }
    }

    /// Adds a signal on which the sinks are reopened.
    pub fn signal(self, signal: i32) -> (r: Self)
        ensures
            r.rotation_signals@ == self.rotation_signals@.push(signal),
            r.dynamic == self.dynamic,
            r.panic == self.panic,
            r.continue_when_panic == self.continue_when_panic,
            r.sinks == self.sinks,
    {
        let mut b = self;
        b.rotation_signals.push(signal);
        b
    }

    /// Adds a sink; may be called several times.
    pub fn add_sink(self, config: SinkConfig) -> (r: Self)
        ensures
            r.sinks@ == self.sinks@.push(config),
            r.dynamic == self.dynamic,
            r.rotation_signals == self.rotation_signals,
            r.panic == self.panic,
            r.continue_when_panic == self.continue_when_panic,
    {
        let mut b = self;
        b.sinks.push(config);
        b
    }

    pub fn raw_file(self, config: LogRawFile) -> (r: Self)
        ensures
            r.sinks@ == self.sinks@.push(SinkConfig::RawFile(config)),
            r.dynamic == self.dynamic,
            r.rotation_signals == self.rotation_signals,
            r.panic == self.panic,
            r.continue_when_panic == self.continue_when_panic,
    {
        self.add_sink(SinkConfig::RawFile(config))
    }

    pub fn buf_file(self, config: LogBufFile) -> (r: Self)
        ensures
            r.sinks@ == self.sinks@.push(SinkConfig::BufFile(config)),
            r.dynamic == self.dynamic,
            r.rotation_signals == self.rotation_signals,
            r.panic == self.panic,
            r.continue_when_panic == self.continue_when_panic,
    {
        self.add_sink(SinkConfig::BufFile(config))
    }

    pub fn console(self, config: LogConsole) -> (r: Self)
        ensures
            r.sinks@ == self.sinks@.push(SinkConfig::Console(config)),
            r.dynamic == self.dynamic,
            r.rotation_signals == self.rotation_signals,
            r.panic == self.panic,
            r.continue_when_panic == self.continue_when_panic,
    {
        self.add_sink(SinkConfig::Console(config))
    }

    /// The most verbose level among the sinks (at least `Error`).
    pub fn get_max_level(&self) -> (r: LevelFilter)
        ensures
            r.rank() == max_rank(self@.sinks),
    {
        let mut max_level = Level::Error;
        let mut i: usize = 0;
        while i < self.sinks.len()
            invariant
                i <= self.sinks@.len(),
                max_level.rank() == max_rank(self@.sinks.take(i as int)),
            decreases self.sinks@.len() - i,
        {
            let level = self.sinks[i].get_level();
            proof {
                assert(self@.sinks.take(i + 1).drop_last() =~= self@.sinks.take(i as int));
            }
            max_level = max_level.most_verbose(level);
            i += 1;
        }
        proof {
            assert(self@.sinks.take(i as int) =~= self@.sinks);
        }
        max_level.to_level_filter()
    }
}

} // verus!
