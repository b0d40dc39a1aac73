//! A logging backend: sink descriptors and their configuration checksum, the
//! process-wide dispatcher's setup decisions, the buffered writer's batching,
//! and the rotation engine's triggers and archive bookkeeping.
//!
//! Everything in this crate is plain computation over plain values; threads,
//! files, queues and signals are driven by the caller, which hands the results
//! of that outside work back in.

pub mod archive;
pub mod checksum;
pub mod config;
pub mod console;
pub mod dispatcher;
pub mod env;
pub mod filter;
pub mod level;
pub mod paths;
pub mod recipe;
pub mod rotation;
mod text;
pub mod timed;
pub mod writer;

pub use config::{
    Builder, FormatKind, LogBufFile, LogConsole, LogFormat, LogRawFile, SinkConfig,
    SinkConfigTrait, DEFAULT_TIME,
};
pub use console::ConsoleTarget;
pub use dispatcher::{DispatcherState, SetupEffects, SetupError, SetupRequest, SetupStep};
pub use env::{env_or, EnvVarDefault};
pub use filter::{DummyFilter, Filter, KeyFilter, LogFilter, LogFilterKV};
pub use level::{Level, LevelFilter};
pub use rotation::{Age, ByAge, LimiterAge, LimiterSize, LogRotate, Rotation, Upkeep};
pub use writer::{WriterAction, WriterCore, WriterEvent, FLUSH_SIZE_DEFAULT};
