//! Log entries: their levels, their line in the terminal, and the bounded
//! list that the window shows.

use crate::text::{chars_of, push_text, string_of};
use vstd::prelude::*;
use vstd::string::*;

verus! {

/// How grave a log entry is.
#[derive(Debug, Clone, Copy, PartialEq, Eq, Structural)]
pub enum LogLevel {
    Debug,
    Info,
    Warn,
    Error,
}

/// The word of a level.
pub open spec fn level_text(level: LogLevel) -> Seq<char> {
    match level {
        LogLevel::Debug => "DEBUG"@,
        LogLevel::Info => "INFO"@,
        LogLevel::Warn => "WARN"@,
        LogLevel::Error => "ERROR"@,
    }
}

/// The word of a level, filled with blanks to five characters.
pub open spec fn level_column(level: LogLevel) -> Seq<char> {
    match level {
        LogLevel::Debug => "DEBUG"@,
        LogLevel::Info => "INFO "@,
        LogLevel::Warn => "WARN "@,
        LogLevel::Error => "ERROR"@,
    }
}

/// The place of a level in the order from the least grave to the gravest.
pub open spec fn level_rank(level: LogLevel) -> int {
    match level {
        LogLevel::Debug => 0,
        LogLevel::Info => 1,
        LogLevel::Warn => 2,
        LogLevel::Error => 3,
    }
}

impl LogLevel {
    /// The word of this level.
    pub fn to_text(&self) -> (text: String)
        ensures
            text@ == level_text(*self),
    {
        match self {
            LogLevel::Debug => String::from_str("DEBUG"),
            LogLevel::Info => String::from_str("INFO"),
            LogLevel::Warn => String::from_str("WARN"),
            LogLevel::Error => String::from_str("ERROR"),
        }
    }

    /// The place of this level in the order from the least grave to the
    /// gravest.
    pub fn rank(&self) -> (rank: u8)
        ensures
            rank == level_rank(*self),
    {
        match self {
            LogLevel::Debug => 0,
            LogLevel::Info => 1,
            LogLevel::Warn => 2,
            LogLevel::Error => 3,
        }
    }

    /// Whether this level is at least as grave as `other`.
    pub fn at_least(&self, other: LogLevel) -> (is: bool)
        ensures
            is == (level_rank(*self) >= level_rank(other)),
    {
        self.rank() >= other.rank()
    }
}

/// One entry of the log.
#[derive(Debug, Clone, PartialEq)]
pub struct LogEntry {
    pub timestamp: String,
    pub level: LogLevel,
    pub module: String,
    pub message: String,
}

/// A `LogEntry` as mathematics.
pub struct LogEntryView {
    pub timestamp: Seq<char>,
    pub level: LogLevel,
    pub module: Seq<char>,
    pub message: Seq<char>,
}

impl View for LogEntry {
    type V = LogEntryView;

    open spec fn view(&self) -> LogEntryView {
        LogEntryView {
            timestamp: self.timestamp@,
            level: self.level,
            module: self.module@,
            message: self.message@,
        }
    }
}

/// The views of a list of entries.
pub open spec fn entry_views(entries: Seq<LogEntry>) -> Seq<LogEntryView> {
    Seq::new(entries.len(), |i: int| entries[i]@)
}

/// The line of an entry in the terminal: time, version of the program,
/// level, module in brackets, message.
pub open spec fn line_of(entry: LogEntryView, version: Seq<char>) -> Seq<char> {
    entry.timestamp + " v"@ + version + "  "@ + level_column(entry.level) + "  ["@ + entry.module
        + "] "@ + entry.message
}

/// A list of entries after one more came in: the new entry stands last, and
/// the oldest is gone where the list would hold more than `max`.
pub open spec fn with_entry(entries: Seq<LogEntryView>, entry: LogEntryView, max: int) -> Seq<
    LogEntryView,
> {
    if entries.len() + 1 > max {
        entries.push(entry).drop_first()
    } else {
        entries.push(entry)
    }
}

/// The most entries that the window keeps.
pub const MAX_LOG_ENTRIES: usize = 500;

impl LogEntry {
    /// An entry made at the time that `timestamp` writes.
    pub fn new(level: LogLevel, module: &str, message: String, timestamp: String) -> (entry:
        LogEntry)
        ensures
            entry@ == (LogEntryView {
                timestamp: timestamp@,
                level,
                module: module@,
                message: message@,
            }),
    {
        LogEntry { timestamp, level, module: String::from_str(module), message }
    }

    /// The line of this entry in the terminal.
    pub fn line(&self, version: &str) -> (line: String)
        ensures
            line@ == line_of(self@, version@),
    {
        let mut out: Vec<char> = Vec::new();
        push_text(&mut out, self.timestamp.as_str());
        push_text(&mut out, " v");
        push_text(&mut out, version);
        push_text(&mut out, "  ");
        match self.level {
            LogLevel::Debug => push_text(&mut out, "DEBUG"),
            LogLevel::Info => push_text(&mut out, "INFO "),
            LogLevel::Warn => push_text(&mut out, "WARN "),
            LogLevel::Error => push_text(&mut out, "ERROR"),
        }
        push_text(&mut out, "  [");
        push_text(&mut out, self.module.as_str());
        push_text(&mut out, "] ");
        push_text(&mut out, self.message.as_str());
        assert(out@ =~= line_of(self@, version@));
        string_of(&out)
    }
}

/// The entry for a message of the given level.
pub fn log(level: LogLevel, module: &str, message: String, timestamp: String) -> (entry: LogEntry)
    ensures
        entry@ == (LogEntryView {
            timestamp: timestamp@,
            level,
            module: module@,
            message: message@,
        }),
{
    LogEntry::new(level, module, message, timestamp)
}

/// The entry for a message that serves debugging. A build that is not made
/// for debugging keeps no such entries.
pub fn log_debug(module: &str, message: String, timestamp: String, debug_build: bool) -> (entry:
    Option<LogEntry>)
    ensures
        debug_build ==> entry is Some && entry->0@ == (LogEntryView {
            timestamp: timestamp@,
            level: LogLevel::Debug,
            module: module@,
            message: message@,
        }),
        !debug_build ==> entry is None,
{
    if debug_build {
        Some(log(LogLevel::Debug, module, message, timestamp))
    } else {
        None
    }
}

/// The entry for a message that informs.
pub fn log_info(module: &str, message: String, timestamp: String) -> (entry: LogEntry)
    ensures
        entry@ == (LogEntryView {
            timestamp: timestamp@,
            level: LogLevel::Info,
            module: module@,
            message: message@,
        }),
{
    log(LogLevel::Info, module, message, timestamp)
}

/// The entry for a message that warns.
pub fn log_warn(module: &str, message: String, timestamp: String) -> (entry: LogEntry)
    ensures
        entry@ == (LogEntryView {
            timestamp: timestamp@,
            level: LogLevel::Warn,
            module: module@,
            message: message@,
        }),
{
    log(LogLevel::Warn, module, message, timestamp)
}

/// The entry for a message that reports an error.
pub fn log_error(module: &str, message: String, timestamp: String) -> (entry: LogEntry)
    ensures
        entry@ == (LogEntryView {
            timestamp: timestamp@,
            level: LogLevel::Error,
            module: module@,
            message: message@,
        }),
{
    log(LogLevel::Error, module, message, timestamp)
}

/// Takes one more entry into the list that the window shows, which keeps
/// the latest `MAX_LOG_ENTRIES`.
pub fn keep_entry(entries: &mut Vec<LogEntry>, entry: LogEntry)
    ensures
        entry_views(final(entries)@) == with_entry(
            entry_views(old(entries)@),
            entry@,
            MAX_LOG_ENTRIES as int,
        ),
{
    let ghost before = entry_views(entries@);
    entries.push(entry);
    assert(entry_views(entries@) =~= before.push(entry@));
    if entries.len() > MAX_LOG_ENTRIES {
        let ghost full = entry_views(entries@);
        let _ = entries.remove(0);
        assert(entry_views(entries@) =~= full.drop_first());
    }
}

} // verus!
