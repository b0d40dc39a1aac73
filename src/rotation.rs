use vstd::prelude::*;

use crate::archive::{
    after_rotation, cascade, compressed_beyond, pending_compression, retained, scan_kept,
    ArchiveEntry, ArchiveSet, Rename,
};
use crate::paths::{file_name, file_name_of, parent_dir, parent_of};
use crate::timed::{lex_lt, strftime_valid, timed_compressed_beyond, timed_pending, views, TimedArchive, TimedArchiveSet, TimedView};

verus! {

/// Length of one age period.
#[derive(Clone, Copy, Debug, PartialEq, Eq, Hash, Structural)]
pub enum Age {
    Day,
    Hour,
}

#[derive(Clone, Copy, Debug, PartialEq, Eq, Hash, Structural)]
pub struct ByAge {
    /// Rotate the file by day or by hour.
    pub age_type: Age,
    /// As the system's log-rotate does: name the newest archive after the
    /// previous completed period (yesterday, or the last hour).
    pub use_last_time: bool,
}

/// How old archives are cleaned up.
#[derive(Clone, Copy, Debug, PartialEq, Eq, Hash, Structural)]
pub enum Upkeep {
    /// Archives older than this many seconds are deleted (timestamp naming only).
    Age(i64),
    /// Only this many archives are kept.
    Count(usize),
    /// No archive is deleted.
    All,
}

/// Log rotation policy. `by_age` and `by_size` may both be set: the file is
/// rotated when either limit is reached.
pub struct Rotation {
    pub by_age: Option<ByAge>,
    pub by_size: Option<u64>,
    /// None: archives are named `file.<number>`, and `Upkeep::Age` is ignored.
    /// Some: archives are named `file.<formatted time>`, in this strftime format.
    pub time_fmt: Option<&'static str>,
    pub upkeep: Upkeep,
    /// Where archives go; the live file's directory when None.
    pub archive_dir: Option<String>,
    /// When Some(n), all but the n most recent archives are compressed.
    pub compress_exclude: Option<usize>,
}

impl Rotation {
    /// Rotation by size; `max_files` None keeps every archive.
    pub fn by_size(size_limit: u64, max_files: Option<usize>) -> (r: Self)
        ensures
            r.by_age is None,
            r.by_size == Some(size_limit),
            r.time_fmt is None,
            r.upkeep == match max_files {
                Some(n) => Upkeep::Count(n),
                None => Upkeep::All,
            },
            r.archive_dir is None,
            r.compress_exclude is None,
    {
        let upkeep = match max_files {
            Some(n) => Upkeep::Count(n),
            None => Upkeep::All,
        };
        Rotation {
            by_age: None,
            by_size: Some(size_limit),
            time_fmt: None,
            upkeep,
            archive_dir: None,
            compress_exclude: None,
        }
    }

    /// Rotation by age, archives named by time; `max_time` (seconds) None
    /// keeps every archive.
    pub fn by_age(age: Age, use_last_time: bool, time_fmt: &'static str, max_time: Option<i64>) -> (r:
        Self)
        ensures
            r.by_age == Some(ByAge { age_type: age, use_last_time }),
            r.by_size is None,
            r.time_fmt == Some(time_fmt),
            r.upkeep == match max_time {
                Some(d) => Upkeep::Age(d),
                None => Upkeep::All,
            },
            r.archive_dir is None,
            r.compress_exclude is None,
    {
        let upkeep = match max_time {
            Some(d) => Upkeep::Age(d),
            None => Upkeep::All,
        };
        Rotation {
            by_age: Some(ByAge { age_type: age, use_last_time }),
            by_size: None,
            time_fmt: Some(time_fmt),
            upkeep,
            archive_dir: None,
            compress_exclude: None,
        }
    }

    /// Compress archived logs, leaving the `un_compress_files` most recent as they are.
    pub fn compress_exclude(self, un_compress_files: usize) -> (r: Self)
        ensures
            r.compress_exclude == Some(un_compress_files),
            r.by_age == self.by_age,
            r.by_size == self.by_size,
            r.time_fmt == self.time_fmt,
            r.upkeep == self.upkeep,
            r.archive_dir == self.archive_dir,
    {
        Rotation { compress_exclude: Some(un_compress_files), ..self }
    }

    /// Move archives into `archive_dir`.
    pub fn archive_dir(self, archive_dir: String) -> (r: Self)
        ensures
            r.archive_dir == Some(archive_dir),
            r.by_age == self.by_age,
            r.by_size == self.by_size,
            r.time_fmt == self.time_fmt,
            r.upkeep == self.upkeep,
            r.compress_exclude == self.compress_exclude,
    {
        Rotation { archive_dir: Some(archive_dir), ..self }
    }
}

/// Rotates once the bytes written since the file was opened reach the limit.
#[derive(Clone, Copy, Debug, PartialEq, Eq, Structural)]
pub struct LimiterSize {
    pub limit: u64,
}

impl LimiterSize {
    pub fn new(size: u64) -> (r: Self)
        ensures
            r.limit == size,
    {
        LimiterSize { limit: size }
    }

    pub open spec fn due(self, size: u64) -> bool {
        size >= self.limit
    }

    pub fn check(&self, size: u64) -> (r: bool)
        ensures
            r == self.due(size),
    {
        size >= self.limit
    }
}

pub const HOUR_MILLIS: u64 = 3_600_000;

pub const DAY_MILLIS: u64 = 86_400_000;

/// Rotates once the file is older than one period. Times are milliseconds
/// since the Unix epoch.
#[derive(Clone, Copy, Debug, PartialEq, Eq, Structural)]
pub struct LimiterAge {
    pub limit_millis: u64,
}

impl LimiterAge {
    pub fn new(limit: Age) -> (r: Self)
        ensures
            r.limit_millis == match limit {
                Age::Hour => HOUR_MILLIS,
                Age::Day => DAY_MILLIS,
            },
    {
        match limit {
            Age::Hour => LimiterAge { limit_millis: HOUR_MILLIS },
            Age::Day => LimiterAge { limit_millis: DAY_MILLIS },
        }
    }

    /// A clock that went back past the creation time also counts as due.
    pub open spec fn due(self, created: i64, now: i64) -> bool {
        now < created || now - created > self.limit_millis
    }

    pub fn check(&self, created: i64, now: i64) -> (r: bool)
        ensures
            r == self.due(created, now),
    {
        if now < created {
            true
        } else {
            (now as i128) - (created as i128) > self.limit_millis as i128
        }
    }
}

/// Whether the suffix of the time-named newest archive comes from now, or
/// from the previous completed day or hour.
#[derive(Clone, Copy, Debug, PartialEq, Eq, Structural)]
pub enum DateFrom {
    Now,
    Yesterday,
    HourAgo,
}

/// How archives are named.
#[derive(Clone, Copy, Debug)]
pub enum Naming {
    /// `file.1` (newest), `file.2`, ...
    Numeric,
    /// `file.<time formatted with format>`, taken from `date_from`.
    Timestamp { format: &'static str, date_from: DateFrom },
}

/// The rotation engine of one file: when to rotate, and the bookkeeping of
/// the archives next to it.
pub struct LogRotate {
    pub size_limit: Option<LimiterSize>,
    pub age_limit: Option<LimiterAge>,
    pub naming: Naming,
    pub upkeep: Upkeep,
    pub compress_exclude: Option<usize>,
    /// Directory of the archives.
    pub archive_dir: String,
    /// Name of the live file; archives are named after it.
    pub file_name: String,
    /// Archives of the numeric naming scheme, most recent first.
    pub archives: ArchiveSet,
    /// Archives of the timestamp naming scheme, most recent first.
    pub timed: TimedArchiveSet,
}

/// The rotation test after a flush: either limit that is set and reached.
pub open spec fn rotation_due(
    size_limit: Option<LimiterSize>,
    age_limit: Option<LimiterAge>,
    size: u64,
    created: i64,
    now: i64,
) -> bool {
    (match age_limit {
        Some(a) => a.due(created, now),
        None => false,
    }) || (match size_limit {
        Some(l) => l.due(size),
        None => false,
    })
}

/// The archives that keep-N retention keeps, for the numeric naming scheme
/// (an age limit needs a time in the name, so it keeps everything here).
pub open spec fn numeric_keep(upkeep: Upkeep) -> Option<nat> {
    match upkeep {
        Upkeep::Count(n) => Some(n as nat),
        _ => None,
    }
}

/// The archive files that an upkeep pass deletes and compresses.
pub struct UpkeepPlan {
    pub delete: Vec<ArchiveEntry>,
    pub compress: Vec<ArchiveEntry>,
}

/// The same, for archives named by time.
pub struct TimedUpkeepPlan {
    pub delete: Vec<TimedArchive>,
    pub compress: Vec<TimedArchive>,
}

impl Rotation {
    pub open spec fn date_from_spec(&self) -> DateFrom {
        match self.by_age {
            Some(b) => if b.use_last_time {
                match b.age_type {
                    Age::Hour => DateFrom::HourAgo,
                    Age::Day => DateFrom::Yesterday,
                }
            } else {
                DateFrom::Now
            },
            None => DateFrom::Now,
        }
    }

    /// Sets up the rotation engine of the file at `file_path`. The archives
    /// already on disk are handed in afterwards with `LogRotate::load_archives`.
    pub fn build(&self, file_path: &str) -> (r: LogRotate)
        ensures
            r.size_limit == match self.by_size {
                Some(n) => Some(LimiterSize { limit: n }),
                None => None::<LimiterSize>,
            },
            r.age_limit == match self.by_age {
                Some(b) => Some(
                    LimiterAge {
                        limit_millis: match b.age_type {
                            Age::Hour => HOUR_MILLIS,
                            Age::Day => DAY_MILLIS,
                        },
                    },
                ),
                None => None::<LimiterAge>,
            },
            match self.time_fmt {
                Some(f) => r.naming == (Naming::Timestamp {
                    format: f,
                    date_from: self.date_from_spec(),
                }),
                None => r.naming == Naming::Numeric,
            },
            r.upkeep == self.upkeep,
            r.compress_exclude == self.compress_exclude,
            r.archive_dir@ == match self.archive_dir {
                Some(d) => d@,
                None => parent_of(file_path@),
            },
            r.file_name@ == file_name_of(file_path@),
            r.archives.wf(),
            r.archives.entries@.len() == 0,
            r.timed.wf(),
            r.timed.entries@.len() == 0,
    {
        let archive_dir = match &self.archive_dir {
            Some(d) => d.clone(),
            None => parent_dir(file_path),
        };
        let mut date_from = DateFrom::Now;
        let mut age_limit: Option<LimiterAge> = None;
        if let Some(by_age) = &self.by_age {
            if by_age.use_last_time {
                match by_age.age_type {
                    Age::Hour => {
                        date_from = DateFrom::HourAgo;
                    },
                    Age::Day => {
                        date_from = DateFrom::Yesterday;
                    },
                }
            }
            age_limit = Some(LimiterAge::new(by_age.age_type));
        }
        let size_limit = match self.by_size {
            Some(n) => Some(LimiterSize::new(n)),
            None => None,
        };
        let naming = match self.time_fmt {
            Some(f) => Naming::Timestamp { format: f, date_from },
            None => Naming::Numeric,
        };
        LogRotate {
            size_limit,
            age_limit,
            naming,
            upkeep: self.upkeep,
            compress_exclude: self.compress_exclude,
            archive_dir,
            file_name: file_name(file_path),
            archives: ArchiveSet::new(),
            timed: TimedArchiveSet::new(),
        }
    }
}

impl LogRotate {
    /// The rotation test after each flush: `size` bytes written since the file
    /// was opened, `created` its creation time, `now` the time of the flush.
    pub fn check(&self, size: u64, created: i64, now: i64) -> (r: bool)
        ensures
            r == rotation_due(self.size_limit, self.age_limit, size, created, now),
    {
        let mut need = false;
        if let Some(age) = &self.age_limit {
            if age.check(created, now) {
                need = true;
            }
        }
        if let Some(size_limit) = &self.size_limit {
            if size_limit.check(size) {
                need = true;
            }
        }
        need
    }

    /// Takes the numeric archives found on disk, in ascending order of suffix.
    pub fn load_archives(&mut self, found: &Vec<ArchiveEntry>)
        ensures
            final(self).archives.wf(),
            final(self).archives.entries@ == scan_kept(found@),
            final(self).naming == old(self).naming,
            final(self).upkeep == old(self).upkeep,
            final(self).compress_exclude == old(self).compress_exclude,
            final(self).size_limit == old(self).size_limit,
            final(self).age_limit == old(self).age_limit,
            final(self).timed == old(self).timed,
            final(self).archive_dir == old(self).archive_dir,
            final(self).file_name == old(self).file_name,
    {
        self.archives = ArchiveSet::from_scan(found);
    }

    /// Archives the live file under the numeric scheme; returns the renames
    /// to perform, in order.
    pub fn archive_live(&mut self) -> (renames: Vec<Rename>)
        requires
            old(self).archives.wf(),
            old(self).archives.entries@.len() + 1 < u64::MAX,
        ensures
            final(self).archives.wf(),
            final(self).archives.entries@ == after_rotation(old(self).archives.entries@),
            renames@ == cascade(old(self).archives.entries@),
            final(self).upkeep == old(self).upkeep,
            final(self).compress_exclude == old(self).compress_exclude,
            final(self).naming == old(self).naming,
            final(self).size_limit == old(self).size_limit,
            final(self).age_limit == old(self).age_limit,
            final(self).timed == old(self).timed,
            final(self).archive_dir == old(self).archive_dir,
            final(self).file_name == old(self).file_name,
    {
        self.archives.rotate()
    }

    /// Retention, then compression, of the numeric archives.
    pub fn upkeep_archives(&mut self) -> (plan: UpkeepPlan)
        requires
            old(self).archives.wf(),
        ensures
            ({
                let s = old(self).archives.entries@;
                let k = match numeric_keep(old(self).upkeep) {
                    Some(n) => retained(s, n),
                    None => s,
                };
                &&& final(self).archives.wf()
                &&& plan.delete@ == s.skip(k.len() as int)
                &&& match old(self).compress_exclude {
                    Some(x) => {
                        &&& final(self).archives.entries@ == compressed_beyond(k, x as nat)
                        &&& plan.compress@ == pending_compression(k, x as nat)
                    },
                    None => {
                        &&& final(self).archives.entries@ == k
                        &&& plan.compress@.len() == 0
                    },
                }
            }),
            final(self).upkeep == old(self).upkeep,
            final(self).compress_exclude == old(self).compress_exclude,
            final(self).naming == old(self).naming,
            final(self).size_limit == old(self).size_limit,
            final(self).age_limit == old(self).age_limit,
            final(self).timed == old(self).timed,
            final(self).archive_dir == old(self).archive_dir,
            final(self).file_name == old(self).file_name,
    {
        let ghost s = self.archives.entries@;
        let delete = match self.upkeep {
            Upkeep::Count(n) => self.archives.retain(n),
            _ => {
                assert(s.skip(s.len() as int) =~= Seq::<ArchiveEntry>::empty());
                Vec::new()
            },
        };
        let compress = match self.compress_exclude {
            Some(x) => self.archives.compress_beyond(x),
            None => Vec::new(),
        };
        UpkeepPlan { delete, compress }
    }
}

impl LogRotate {
    /// Takes the time-named archives found on disk, most recent first.
    pub fn load_timed_archives(&mut self, found: &Vec<TimedArchive>)
        ensures
            final(self).timed.wf(),
            crate::timed::timed_wf(views(found@)) ==> views(final(self).timed.entries@) == views(
                found@,
            ),
            final(self).naming == old(self).naming,
            final(self).upkeep == old(self).upkeep,
            final(self).compress_exclude == old(self).compress_exclude,
            final(self).size_limit == old(self).size_limit,
            final(self).age_limit == old(self).age_limit,
            final(self).archives == old(self).archives,
            final(self).archive_dir == old(self).archive_dir,
            final(self).file_name == old(self).file_name,
    {
        self.timed = TimedArchiveSet::from_scan(found);
    }

    /// Archives the live file under the timestamp scheme; returns the name it
    /// takes, or None when it cannot be named (nothing changes then).
    pub fn archive_live_timed(&mut self) -> (r: Option<TimedArchive>)
        requires
            old(self).timed.wf(),
        ensures
            final(self).timed.wf(),
            match r {
                Some(a) => {
                    &&& !a.compressed
                    &&& exists|p: int|
                        0 <= p <= old(self).timed.entries@.len() && views(final(self).timed.entries@)
                            == views(old(self).timed.entries@).insert(p, a@)
                },
                None => views(final(self).timed.entries@) == views(old(self).timed.entries@),
            },
            old(self).naming is Numeric ==> r is None,
            old(self).naming matches Naming::Timestamp { format, .. } && strftime_valid(format@)
                && old(self).timed.entries@.len() == 0 ==> r is Some,
            old(self).naming matches Naming::Timestamp { format, .. } && !strftime_valid(format@)
                ==> r is None,
            r is None ==> old(self).naming is Numeric || old(self).timed.entries@.len() > 0 || (
            old(self).naming matches Naming::Timestamp { format, .. } && !strftime_valid(format@)),
            final(self).archives == old(self).archives,
            final(self).archive_dir == old(self).archive_dir,
            final(self).file_name == old(self).file_name,
            final(self).upkeep == old(self).upkeep,
            final(self).compress_exclude == old(self).compress_exclude,
            final(self).naming == old(self).naming,
            final(self).size_limit == old(self).size_limit,
            final(self).age_limit == old(self).age_limit,
    {
        match self.naming {
            Naming::Timestamp { format, date_from } => self.timed.archive_live(format, date_from),
            Naming::Numeric => None,
        }
    }

    /// Retention, then compression, of the time-named archives. Under an age
    /// limit, `threshold` is the time limit formatted as the archives' names
    /// are: those that sort before it go, from the oldest up to the first that
    /// does not.
    pub fn upkeep_timed_archives(&mut self, threshold: &str) -> (plan: TimedUpkeepPlan)
        requires
            old(self).timed.wf(),
        ensures
            ({
                let s = views(old(self).timed.entries@);
                let k = views(final(self).timed.entries@);
                let j = plan.delete@.len();
                &&& final(self).timed.wf()
                &&& j <= s.len()
                &&& views(plan.delete@) == s.skip(s.len() - j)
                &&& match old(self).upkeep {
                    Upkeep::Count(n) => j == if n < s.len() {
                        s.len() - n
                    } else {
                        0
                    },
                    Upkeep::Age(_) => {
                        &&& forall|i: int| s.len() - j <= i < s.len() ==> lex_lt(s[i].timestamp, threshold@)
                        &&& (j == s.len() || !lex_lt(s[s.len() - j - 1].timestamp, threshold@))
                    },
                    Upkeep::All => j == 0,
                }
                &&& match old(self).compress_exclude {
                    Some(x) => {
                        &&& k == timed_compressed_beyond(s.take(s.len() - j), x as nat)
                        &&& views(plan.compress@) == timed_pending(s.take(s.len() - j), x as nat)
                    },
                    None => {
                        &&& k == s.take(s.len() - j)
                        &&& plan.compress@.len() == 0
                    },
                }
            }),
            final(self).upkeep == old(self).upkeep,
            final(self).compress_exclude == old(self).compress_exclude,
            final(self).naming == old(self).naming,
            final(self).size_limit == old(self).size_limit,
            final(self).age_limit == old(self).age_limit,
            final(self).archives == old(self).archives,
            final(self).archive_dir == old(self).archive_dir,
            final(self).file_name == old(self).file_name,
    {
        let ghost s = views(self.timed.entries@);
        let delete = match self.upkeep {
            Upkeep::Count(n) => self.timed.retain_count(n),
            Upkeep::Age(_) => self.timed.retain_newer_than(threshold),
            Upkeep::All => {
                assert(s.skip(s.len() as int) =~= Seq::<TimedView>::empty());
                assert(s.take(s.len() as int) =~= s);
                let v: Vec<TimedArchive> = Vec::new();
                assert(views(v@) =~= Seq::<TimedView>::empty());
                v
            },
        };
        assert(views(delete@).len() == delete@.len());
        assert(views(self.timed.entries@).len() == self.timed.entries@.len());
        assert(views(self.timed.entries@) =~= s.take(s.len() - delete@.len()));
        let compress = match self.compress_exclude {
            Some(x) => self.timed.compress_beyond(x),
            None => Vec::new(),
        };
        TimedUpkeepPlan { delete, compress }
    }
}

} // verus!
