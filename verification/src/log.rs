//! Log levels: their names, their order and the decision whether a message
//! of a given level is shown.

use vstd::prelude::*;

use crate::text::str_eq;

verus! {

/// The severity of a log message, from most to least severe.
#[derive(Debug, Clone, Copy, PartialEq, Eq, PartialOrd, Ord, Structural)]
pub enum Level {
    Fatal,
    Error,
    Warn,
    Info,
    Debug,
    Trace,
}

/// The position of a level in the order `Fatal < Error < ... < Trace`.
pub open spec fn level_rank(l: Level) -> int {
    match l {
        Level::Fatal => 0,
        Level::Error => 1,
        Level::Warn => 2,
        Level::Info => 3,
        Level::Debug => 4,
        Level::Trace => 5,
    }
}

/// The name of a level on the command line and in the configuration file.
pub open spec fn level_repr(l: Level) -> Seq<char> {
    match l {
        Level::Fatal => "fatal"@,
        Level::Error => "error"@,
        Level::Warn => "warn"@,
        Level::Info => "info"@,
        Level::Debug => "debug"@,
        Level::Trace => "trace"@,
    }
}

/// The level named `s`, if any.
pub open spec fn level_parse(s: Seq<char>) -> Result<Level, ()> {
    if s == "fatal"@ {
        Ok(Level::Fatal)
    } else if s == "error"@ {
        Ok(Level::Error)
    } else if s == "warn"@ {
        Ok(Level::Warn)
    } else if s == "info"@ {
        Ok(Level::Info)
    } else if s == "debug"@ {
        Ok(Level::Debug)
    } else if s == "trace"@ {
        Ok(Level::Trace)
    } else {
        Err(())
    }
}

/// The marker printed in front of a message of the level.
pub open spec fn level_marker(l: Level) -> Seq<char> {
    match l {
        Level::Trace => "=="@,
        Level::Debug => "--"@,
        Level::Info => "=>"@,
        Level::Warn => "!!"@,
        Level::Error => "**"@,
        Level::Fatal => "**"@,
    }
}

impl Level {
    /// The names of all levels, from most to least severe.
    pub fn possible_values() -> (r: &'static [&'static str])
        ensures
            r@.len() == 6,
            forall|i: int| 0 <= i < 6 ==> level_rank(#[trigger] level_of_rank(i)) == i,
            forall|i: int| 0 <= i < 6 ==> (#[trigger] r@[i])@ == level_repr(level_of_rank(i)),
    {
        &["fatal", "error", "warn", "info", "debug", "trace"]
    }

    /// The level named `s`; `Err(())` for any other string.
    pub fn from_str(s: &str) -> (r: Result<Level, ()>)
        ensures
            r == level_parse(s@),
    {
        if str_eq(s, "fatal") {
            Ok(Level::Fatal)
        } else if str_eq(s, "error") {
            Ok(Level::Error)
        } else if str_eq(s, "warn") {
            Ok(Level::Warn)
        } else if str_eq(s, "info") {
            Ok(Level::Info)
        } else if str_eq(s, "debug") {
            Ok(Level::Debug)
        } else if str_eq(s, "trace") {
            Ok(Level::Trace)
        } else {
            Err(())
        }
    }

    /// The name of this level.
    pub fn as_str(&self) -> (r: &'static str)
        ensures
            r@ == level_repr(*self),
    {
        match self {
            Level::Fatal => "fatal",
            Level::Error => "error",
            Level::Warn => "warn",
            Level::Info => "info",
            Level::Debug => "debug",
            Level::Trace => "trace",
        }
    }

    /// The position of this level, `Fatal` first.
    pub fn rank(&self) -> (r: u8)
        ensures
            r == level_rank(*self),
    {
        match self {
            Level::Fatal => 0,
            Level::Error => 1,
            Level::Warn => 2,
            Level::Info => 3,
            Level::Debug => 4,
            Level::Trace => 5,
        }
    }

    /// The marker that a message of this level is printed with.
    pub fn marker(&self) -> (r: &'static str)
        ensures
            r@ == level_marker(*self),
    {
        match self {
            Level::Trace => "==",
            Level::Debug => "--",
            Level::Info => "=>",
            Level::Warn => "!!",
            Level::Error => "**",
            Level::Fatal => "**",
        }
    }

    /// Whether a message of this level is shown when `max` is the most
    /// verbose level that is shown.
    pub fn enabled(&self, max: Level) -> (r: bool)
        ensures
            r == (level_rank(*self) <= level_rank(max)),
    {
        self.rank() <= max.rank()
    }
}

/// The level at position `i`.
pub open spec fn level_of_rank(i: int) -> Level {
    if i <= 0 {
        Level::Fatal
    } else if i == 1 {
        Level::Error
    } else if i == 2 {
        Level::Warn
    } else if i == 3 {
        Level::Info
    } else if i == 4 {
        Level::Debug
    } else {
        Level::Trace
    }
}

/// Every level is read back from its own name.
pub proof fn lemma_level_round_trip(l: Level)
    ensures
        level_parse(level_repr(l)) == Ok::<Level, ()>(l),
        level_parse(level_repr(l)) matches Ok(m) ==> level_repr(m) == level_repr(l),
{
    reveal_strlit("fatal");
    reveal_strlit("error");
    reveal_strlit("warn");
    reveal_strlit("info");
    reveal_strlit("debug");
    reveal_strlit("trace");
    assert("error"@[0] != "fatal"@[0]);
    assert("warn"@[0] != "fatal"@[0]);
    assert("warn"@[0] != "error"@[0]);
    assert("info"@[0] != "fatal"@[0]);
    assert("info"@[0] != "error"@[0]);
    assert("info"@[0] != "warn"@[0]);
    assert("debug"@[0] != "fatal"@[0]);
    assert("debug"@[0] != "error"@[0]);
    assert("debug"@[0] != "warn"@[0]);
    assert("debug"@[0] != "info"@[0]);
    assert("trace"@[0] != "fatal"@[0]);
    assert("trace"@[0] != "error"@[0]);
    assert("trace"@[0] != "warn"@[0]);
    assert("trace"@[0] != "info"@[0]);
    assert("trace"@[0] != "debug"@[0]);
}

/// Showing messages is monotone: raising the most verbose shown level never
/// hides a message, and a message is shown at its own level.
pub proof fn lemma_enabled_monotone(l: Level, max1: Level, max2: Level)
    requires
        level_rank(max1) <= level_rank(max2),
    ensures
        level_rank(l) <= level_rank(max1) ==> level_rank(l) <= level_rank(max2),
        level_rank(l) <= level_rank(l),
{
}

/// The level of a `Logger`, from most to least severe.
#[derive(Debug, Clone, Copy, PartialEq, Eq, PartialOrd, Ord, Structural)]
pub enum LogLevel {
    Error,
    Warn,
    Info,
    Debug,
}

/// The position of a `LogLevel`, `Error` first.
pub open spec fn log_level_rank(l: LogLevel) -> int {
    match l {
        LogLevel::Error => 0,
        LogLevel::Warn => 1,
        LogLevel::Info => 2,
        LogLevel::Debug => 3,
    }
}

/// The label that a message of the level is printed with.
pub open spec fn log_level_label(l: LogLevel) -> Seq<char> {
    match l {
        LogLevel::Error => "ERROR"@,
        LogLevel::Warn => "WARNING"@,
        LogLevel::Info => "INFO"@,
        LogLevel::Debug => "DEBUG"@,
    }
}

impl LogLevel {
    /// The default level, `Info`.
    pub fn default_level() -> (r: LogLevel)
        ensures
            r == LogLevel::Info,
    {
        LogLevel::Info
    }

    /// The position of this level, `Error` first.
    pub fn rank(&self) -> (r: u8)
        ensures
            r == log_level_rank(*self),
    {
        match self {
            LogLevel::Error => 0,
            LogLevel::Warn => 1,
            LogLevel::Info => 2,
            LogLevel::Debug => 3,
        }
    }

    /// The label that a message of this level is printed with.
    pub fn label(&self) -> (r: &'static str)
        ensures
            r@ == log_level_label(*self),
    {
        match self {
            LogLevel::Error => "ERROR",
            LogLevel::Warn => "WARNING",
            LogLevel::Info => "INFO",
            LogLevel::Debug => "DEBUG",
        }
    }
}

impl Default for LogLevel {
    fn default() -> (r: LogLevel)
        ensures
            r == LogLevel::Info,
    {
        LogLevel::Info
    }
}

/// A logger that shows the messages up to a level.
#[derive(Debug, Clone, Copy)]
pub struct Logger {
    pub level: LogLevel,
}

impl Logger {
    /// A logger at the default level.
    pub fn new() -> (r: Logger)
        ensures
            r.level == LogLevel::Info,
    {
        Logger { level: LogLevel::Info }
    }

    /// Whether a message of `level` is shown: it is skipped exactly when it
    /// is less severe than the logger's level.
    pub fn log_impl(&self, level: LogLevel) -> (r: bool)
        ensures
            r == (log_level_rank(level) <= log_level_rank(self.level)),
    {
        level.rank() <= self.level.rank()
    }
}

} // verus!
