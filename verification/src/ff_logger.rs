//! The logger of the framework: a level and the name of its file.

use vstd::prelude::*;

verus! {

/// The levels of the logger.
#[derive(Debug)]
pub enum LogLevel {
    Debug,
    Info,
    Notice,
    Warning,
    Error,
}

/// A logger: the level it logs at and the file it logs to.
#[derive(Debug)]
pub struct Logger {
    log_level: LogLevel,
    file_name: String,
}

impl Logger {
    /// The level that the logger was made with.
    pub closed spec fn level(&self) -> LogLevel {
        self.log_level
    }

    /// The file name that the logger was made with.
    pub closed spec fn file(&self) -> Seq<char> {
        self.file_name@
    }

    /// Makes a logger of a level and a file name.
    pub fn init(log_level: LogLevel, file_name: String) -> (r: Self)
        ensures
            r.level() == log_level,
            r.file() == file_name@,
    {
        Self { log_level, file_name }
    }
}

} // verus!
