//! Level filters that callers share between threads and change at run time,
//! for turning groups of log calls on and off by function rather than by
//! module.
use vstd::prelude::*;
use std::sync::atomic::{AtomicUsize, Ordering};

use crate::console::str_eq;
use crate::level::Level;

verus! {

pub trait Filter {
    /// Whether an event at `level` passes.
    fn is_enabled(&self, level: Level) -> bool;
}

/// A level threshold held in an atomic, so that it can be changed while
/// other threads log through it. A value read from it may come from any
/// thread's latest store, so nothing is promised of it.
pub struct LogFilter {
    max_level: AtomicUsize,
}

impl LogFilter {
    /// Starts out admitting every level.
    pub fn new() -> (r: Self) {
        LogFilter { max_level: AtomicUsize::new(Level::Trace.as_usize()) }
    }

    /// Events less severe than `level` are dropped from now on.
    pub fn set_level(&self, level: Level) {
        self.max_level.store(level.as_usize(), Ordering::Relaxed);
    }

    /// The rank of the current threshold (1 for `Error` up to 5 for `Trace`).
    pub fn get_level(&self) -> usize {
        self.max_level.load(Ordering::Relaxed)
    }
}

impl Clone for LogFilter {
    fn clone(&self) -> Self {
        LogFilter { max_level: AtomicUsize::new(self.get_level()) }
    }
}

impl Filter for LogFilter {
    fn is_enabled(&self, level: Level) -> bool {
        level.admitted_by(self.get_level())
    }
}

/// A filter that admits every level.
pub struct DummyFilter();

impl Filter for DummyFilter {
    fn is_enabled(&self, level: Level) -> bool {
        true
    }
}

/// A `LogFilter` that also carries one key and value, which lines logged
/// through it show (a request id, for instance).
pub struct LogFilterKV {
    inner: LogFilter,
    key: &'static str,
    value: String,
}

impl LogFilterKV {
    pub fn new(key: &'static str, value: String) -> (r: Self)
        ensures
            r.key_spec() == key@,
            r.value_spec() == value@,
    {
        LogFilterKV { inner: LogFilter::new(), key, value }
    }

    pub closed spec fn key_spec(&self) -> Seq<char> {
        self.key@
    }

    pub closed spec fn value_spec(&self) -> Seq<char> {
        self.value@
    }

    pub fn set_level(&self, level: Level) {
        self.inner.set_level(level)
    }

    pub fn get_level(&self) -> usize {
        self.inner.get_level()
    }

    pub fn key(&self) -> (r: &str)
        ensures
            r@ == self.key_spec(),
    {
        self.key
    }

    pub fn value(&self) -> (r: &str)
        ensures
            r@ == self.value_spec(),
    {
        self.value.as_str()
    }

    /// The value carried under `key`, if that is this filter's key.
    pub fn get(&self, key: &str) -> (r: Option<&str>)
        ensures
            match r {
                Some(v) => key@ == self.key_spec() && v@ == self.value_spec(),
                None => key@ != self.key_spec(),
            },
    {
        if str_eq(key, self.key) {
            Some(self.value.as_str())
        } else {
            None
        }
    }

    /// Number of key-value pairs carried.
    pub fn count(&self) -> (r: usize)
        ensures
            r == 1,
    {
        1
    }
}

impl Filter for LogFilterKV {
    fn is_enabled(&self, level: Level) -> bool {
        self.inner.is_enabled(level)
    }
}

/// The same as `LogFilterKV`, under its other name.
pub struct KeyFilter {
    inner: LogFilterKV,
}

impl KeyFilter {
    pub fn new(key: &'static str, value: String) -> (r: Self)
        ensures
            r.inner_spec().key_spec() == key@,
            r.inner_spec().value_spec() == value@,
    {
        KeyFilter { inner: LogFilterKV::new(key, value) }
    }

    pub closed spec fn inner_spec(&self) -> LogFilterKV {
        self.inner
    }

    pub fn set_level(&self, level: Level) {
        self.inner.set_level(level)
    }

    pub fn get_level(&self) -> usize {
        self.inner.get_level()
    }

    pub fn key(&self) -> (r: &str)
        ensures
            r@ == self.inner_spec().key_spec(),
    {
        self.inner.key()
    }

    pub fn value(&self) -> (r: &str)
        ensures
            r@ == self.inner_spec().value_spec(),
    {
        self.inner.value()
    }

    pub fn get(&self, key: &str) -> (r: Option<&str>)
        ensures
            match r {
                Some(v) => key@ == self.inner_spec().key_spec() && v@
                    == self.inner_spec().value_spec(),
                None => key@ != self.inner_spec().key_spec(),
            },
    {
        self.inner.get(key)
    }
}

impl Filter for KeyFilter {
    fn is_enabled(&self, level: Level) -> bool {
        self.inner.is_enabled(level)
    }
}

} // verus!
