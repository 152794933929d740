//! Logger configuration: the log file's name and the verbosity filter.
//!
//! Writing the log (opening the file, timestamps, the global logger hook) is
//! the embedding application's business; this module owns the decisions —
//! which file, and which messages pass the filter.

use vstd::prelude::*;

verus! {

/// The severity levels a logger filters by, most severe first.
#[derive(Clone, Copy, Debug, PartialEq, Eq, Structural)]
pub enum Level {
    Error,
    Warn,
    Info,
    Debug,
    Trace,
}

/// The rank of a level: higher means more verbose.
pub open spec fn level_rank(l: Level) -> int {
    match l {
        Level::Error => 1,
        Level::Warn => 2,
        Level::Info => 3,
        Level::Debug => 4,
        Level::Trace => 5,
    }
}

impl Level {
    /// The numeric rank of the level.
    pub fn rank(&self) -> (r: u8)
        ensures
            r as int == level_rank(*self),
    {
        match *self {
            Level::Error => 1,
            Level::Warn => 2,
            Level::Info => 3,
            Level::Debug => 4,
            Level::Trace => 5,
        }
    }
}

/// A file logger's configuration: where it writes and how verbose it is.
pub struct FileLogger {
    pub log_file: String,
    pub max_level: Level,
}

impl FileLogger {
    /// A logger for the given file that logs every message.
    pub fn new(log_file: &str) -> (r: FileLogger)
        ensures
            r.log_file@ == log_file@,
            r.max_level == Level::Trace,
    {
        FileLogger { log_file: log_file.to_owned(), max_level: Level::Trace }
    }

    /// Whether a message at `level` passes this logger's filter: it does if
    /// and only if its rank does not exceed the configured level's.
    pub fn enabled(&self, level: Level) -> (r: bool)
        ensures
            r == (level_rank(level) <= level_rank(self.max_level)),
    {
        level.rank() <= self.max_level.rank()
    }
}

/// Configure a file logger with the given verbosity level.
pub fn init_with_level(log_file: &str, level: Level) -> (r: FileLogger)
    ensures
        r.log_file@ == log_file@,
        r.max_level == level,
{
    FileLogger { log_file: log_file.to_owned(), max_level: level }
}

/// Configure a file logger that logs every message.
pub fn init(log_file: &str) -> (r: FileLogger)
    ensures
        r.log_file@ == log_file@,
        r.max_level == Level::Trace,
{
    init_with_level(log_file, Level::Trace)
}

} // verus!
