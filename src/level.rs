use vstd::prelude::*;

verus! {

/// Severity of a log event; `Error` is the most severe, `Trace` the least.
#[derive(Clone, Copy, Debug, PartialEq, Eq, Hash, Structural)]
pub enum Level {
    Error,
    Warn,
    Info,
    Debug,
    Trace,
}

/// A level threshold: `Off` admits nothing, `Trace` admits every event.
#[derive(Clone, Copy, Debug, PartialEq, Eq, Hash, Structural)]
pub enum LevelFilter {
    Off,
    Error,
    Warn,
    Info,
    Debug,
    Trace,
}

impl Level {
    /// 1 for `Error` up to 5 for `Trace`: a less severe level has a larger rank.
    pub open spec fn rank(self) -> nat {
        match self {
            Level::Error => 1,
            Level::Warn => 2,
            Level::Info => 3,
            Level::Debug => 4,
            Level::Trace => 5,
        }
    }

    pub open spec fn from_rank(r: nat) -> Level
        recommends
            1 <= r <= 5,
    {
        if r <= 1 {
            Level::Error
        } else if r == 2 {
            Level::Warn
        } else if r == 3 {
            Level::Info
        } else if r == 4 {
            Level::Debug
        } else {
            Level::Trace
        }
    }

    pub fn as_usize(self) -> (r: usize)
        ensures
            r == self.rank(),
    {
        match self {
            Level::Error => 1,
            Level::Warn => 2,
            Level::Info => 3,
            Level::Debug => 4,
            Level::Trace => 5,
        }
    }

    /// Whether an event at this level passes a threshold given as a rank.
    pub fn admitted_by(self, max_rank: usize) -> (r: bool)
        ensures
            r == (self.rank() <= max_rank),
    {
        self.as_usize() <= max_rank
    }

    /// The less severe of two levels (the one that admits more).
    pub fn most_verbose(self, other: Level) -> (r: Level)
        ensures
            r.rank() == if self.rank() >= other.rank() { self.rank() } else { other.rank() },
            r == self || r == other,
    {
        if self.as_usize() >= other.as_usize() {
            self
        } else {
            other
        }
    }

    pub fn to_level_filter(self) -> (r: LevelFilter)
        ensures
            r.rank() == self.rank(),
    {
        match self {
            Level::Error => LevelFilter::Error,
            Level::Warn => LevelFilter::Warn,
            Level::Info => LevelFilter::Info,
            Level::Debug => LevelFilter::Debug,
            Level::Trace => LevelFilter::Trace,
        }
    }
}

impl LevelFilter {
    /// 0 for `Off`, otherwise the rank of the level it names.
    pub open spec fn rank(self) -> nat {
        match self {
            LevelFilter::Off => 0,
            LevelFilter::Error => 1,
            LevelFilter::Warn => 2,
            LevelFilter::Info => 3,
            LevelFilter::Debug => 4,
            LevelFilter::Trace => 5,
        }
    }
}

/// A character with ASCII upper case folded to lower case.
pub open spec fn ascii_fold(c: char) -> int {
    if 'A' <= c && c <= 'Z' {
        c as int + 32
    } else {
        c as int
    }
}

/// Equality ignoring ASCII case.
pub open spec fn eq_ignore_ascii_case(a: Seq<char>, b: Seq<char>) -> bool {
    a.len() == b.len() && forall|i: int| 0 <= i < a.len() ==> ascii_fold(a[i]) == ascii_fold(b[i])
}

/// The level named `s`, ignoring ASCII case: error, warn, info, debug, trace.
pub open spec fn level_named(s: Seq<char>) -> Option<Level> {
    if eq_ignore_ascii_case(s, "error"@) {
        Some(Level::Error)
    } else if eq_ignore_ascii_case(s, "warn"@) {
        Some(Level::Warn)
    } else if eq_ignore_ascii_case(s, "info"@) {
        Some(Level::Info)
    } else if eq_ignore_ascii_case(s, "debug"@) {
        Some(Level::Debug)
    } else if eq_ignore_ascii_case(s, "trace"@) {
        Some(Level::Trace)
    } else {
        None
    }
}

/// Relies on log's `Level::from_str`: it compares `s` with the names ERROR,
/// WARN, INFO, DEBUG and TRACE by `eq_ignore_ascii_case`.
#[verifier::external_body]
fn log_level_from_str(s: &str) -> (r: Option<Level>)
    ensures
        r == level_named(s@),
{
    match <log::Level as std::str::FromStr>::from_str(s) {
        Ok(log::Level::Error) => Some(Level::Error),
        Ok(log::Level::Warn) => Some(Level::Warn),
        Ok(log::Level::Info) => Some(Level::Info),
        Ok(log::Level::Debug) => Some(Level::Debug),
        Ok(log::Level::Trace) => Some(Level::Trace),
        Err(_) => None,
    }
}

impl Level {
    /// Reads a level name, ignoring ASCII case.
    pub fn from_name(s: &str) -> (r: Option<Level>)
        ensures
            r == level_named(s@),
    {
        log_level_from_str(s)
    }
}

} // verus!
