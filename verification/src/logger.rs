//! The log of the application: entries with a level, kept in memory in the
//! order in which they were written, and filtered by the level of the logger.

use vstd::prelude::*;
use crate::clock::now_micros;
use crate::text::{clone_opt, opt_view};

verus! {

/// How grave an entry is, from the gravest to the least.
#[derive(Debug, Clone, Copy, PartialEq, Eq, Structural)]
pub enum LogLevel {
    Error,
    Warn,
    Info,
    Debug,
    Trace,
}

/// One entry of the log.
#[derive(Debug)]
pub struct LogEntry {
    pub timestamp: i64,
    pub level: LogLevel,
    pub message: String,
    pub context: Option<String>,
    pub error_details: Option<String>,
}

/// The logger: its level and the entries written so far.
pub struct Logger {
    log_level: LogLevel,
    entries: Vec<LogEntry>,
}

impl LogLevel {
    /// The rank of a level: 0 for the gravest.
    pub open spec fn rank(self) -> int {
        match self {
            LogLevel::Error => 0,
            LogLevel::Warn => 1,
            LogLevel::Info => 2,
            LogLevel::Debug => 3,
            LogLevel::Trace => 4,
        }
    }

    /// The name of a level, in capitals.
    pub open spec fn name(self) -> Seq<char> {
        match self {
            LogLevel::Error => "ERROR"@,
            LogLevel::Warn => "WARN"@,
            LogLevel::Info => "INFO"@,
            LogLevel::Debug => "DEBUG"@,
            LogLevel::Trace => "TRACE"@,
        }
    }

    /// The name of the level, in capitals.
    pub fn as_str(&self) -> (s: &'static str)
        ensures
            s@ == self.name(),
    {
        match self {
            LogLevel::Error => "ERROR",
            LogLevel::Warn => "WARN",
            LogLevel::Info => "INFO",
            LogLevel::Debug => "DEBUG",
            LogLevel::Trace => "TRACE",
        }
    }

    fn number(&self) -> (n: u8)
        ensures
            n == self.rank(),
    {
        match self {
            LogLevel::Error => 0,
            LogLevel::Warn => 1,
            LogLevel::Info => 2,
            LogLevel::Debug => 3,
            LogLevel::Trace => 4,
        }
    }

    /// Whether an entry of this level passes a filter of level
    /// `filter_level`: it does where it is at least as grave.
    pub fn should_log(&self, filter_level: &LogLevel) -> (r: bool)
        ensures
            r == (self.rank() <= filter_level.rank()),
    {
        self.number() <= filter_level.number()
    }
}

impl Clone for LogEntry {
    fn clone(&self) -> (r: Self)
        ensures
            r == *self,
    {
        LogEntry {
            timestamp: self.timestamp,
            level: self.level,
            message: self.message.clone(),
            context: clone_opt(&self.context),
            error_details: clone_opt(&self.error_details),
        }
    }
}

/// The last `count` of `entries`, or all of them where there are fewer.
pub open spec fn last_entries(entries: Seq<LogEntry>, count: nat) -> Seq<LogEntry> {
    if entries.len() > count {
        entries.subrange(entries.len() - count, entries.len() as int)
    } else {
        entries
    }
}

/// The entries among `entries` that pass a filter of level `filter`, in
/// order.
pub open spec fn passing(entries: Seq<LogEntry>, filter: LogLevel) -> Seq<LogEntry>
    decreases entries.len(),
{
    if entries.len() == 0 {
        Seq::empty()
    } else if entries.last().level.rank() <= filter.rank() {
        passing(entries.drop_last(), filter).push(entries.last())
    } else {
        passing(entries.drop_last(), filter)
    }
}

impl Logger {
    /// The level of the logger: entries less grave are dropped.
    pub closed spec fn level(&self) -> LogLevel {
        self.log_level
    }

    /// The entries written so far, oldest first.
    pub closed spec fn written(&self) -> Seq<LogEntry> {
        self.entries@
    }

    /// Whether `after` is this logger once an entry of level `level` with
    /// the given message, context and details has been handed to it: the
    /// entry stands last where it passes the logger's level, and nothing has
    /// changed where it does not.
    pub open spec fn wrote(
        &self,
        after: &Logger,
        level: LogLevel,
        message: Seq<char>,
        context: Option<Seq<char>>,
        error: Option<Seq<char>>,
    ) -> bool {
        &&& after.level() == self.level()
        &&& if level.rank() <= self.level().rank() {
            &&& after.written().len() == self.written().len() + 1
            &&& after.written().drop_last() == self.written()
            &&& after.written().last().level == level
            &&& after.written().last().message@ == message
            &&& opt_view(after.written().last().context) == context
            &&& opt_view(after.written().last().error_details) == error
        } else {
            after.written() == self.written()
        }
    }

    /// A logger of level `Info` without entries.
    pub fn new() -> (logger: Self)
        ensures
            logger.level() == LogLevel::Info,
            logger.written() == Seq::<LogEntry>::empty(),
    {
        Logger { log_level: LogLevel::Info, entries: Vec::new() }
    }

    /// Sets the level below which entries are dropped.
    pub fn set_level(&mut self, level: LogLevel)
        ensures
            final(self).level() == level,
            final(self).written() == old(self).written(),
    {
        self.log_level = level;
    }

    /// The level of the logger.
    pub fn get_level(&self) -> (level: LogLevel)
        ensures
            level == self.level(),
    {
        self.log_level
    }

    /// Writes an entry with the time `now`, unless its level is less grave
    /// than that of the logger.
    pub fn log_at(
        &mut self,
        level: LogLevel,
        message: &str,
        context: Option<String>,
        error: Option<String>,
        now: i64,
    )
        ensures
            old(self).wrote(final(self), level, message@, opt_view(context), opt_view(error)),
            level.rank() <= old(self).level().rank() ==> final(self).written().last().timestamp == now,
    {
        if !level.should_log(&self.log_level) {
            return ;
        }
        let entry = LogEntry {
            timestamp: now,
            level,
            message: message.to_owned(),
            context,
            error_details: error,
        };
        self.entries.push(entry);
        assert(self.entries@.drop_last() =~= old(self).entries@);
    }

    /// Writes an entry with the time of the call, unless its level is less
    /// grave than that of the logger.
    pub fn log(&mut self, level: LogLevel, message: &str, context: Option<String>, error: Option<String>)
        ensures
            old(self).wrote(final(self), level, message@, opt_view(context), opt_view(error)),
    {
        let now = now_micros();
        self.log_at(level, message, context, error, now)
    }

    /// Logs an error.
    pub fn error(&mut self, message: &str)
        ensures
            old(self).wrote(final(self), LogLevel::Error, message@, None, None),
    {
        self.log(LogLevel::Error, message, None, None);
    }

    /// Logs an error with the place it came from and its details.
    pub fn error_with_context(&mut self, message: &str, context: &str, error: Option<String>)
        ensures
            old(self).wrote(final(self), LogLevel::Error, message@, Some(context@), opt_view(error)),
    {
        self.log(LogLevel::Error, message, Some(context.to_owned()), error);
    }

    /// Logs a warning.
    pub fn warn(&mut self, message: &str)
        ensures
            old(self).wrote(final(self), LogLevel::Warn, message@, None, None),
    {
        self.log(LogLevel::Warn, message, None, None);
    }

    /// Logs a piece of information.
    pub fn info(&mut self, message: &str)
        ensures
            old(self).wrote(final(self), LogLevel::Info, message@, None, None),
    {
        self.log(LogLevel::Info, message, None, None);
    }

    /// Logs a piece of information with the place it came from.
    pub fn info_with_context(&mut self, message: &str, context: &str)
        ensures
            old(self).wrote(final(self), LogLevel::Info, message@, Some(context@), None),
    {
        self.log(LogLevel::Info, message, Some(context.to_owned()), None);
    }

    /// Logs a message for debugging.
    pub fn debug(&mut self, message: &str)
        ensures
            old(self).wrote(final(self), LogLevel::Debug, message@, None, None),
    {
        self.log(LogLevel::Debug, message, None, None);
    }

    /// Logs a trace message.
    pub fn trace(&mut self, message: &str)
        ensures
            old(self).wrote(final(self), LogLevel::Trace, message@, None, None),
    {
        self.log(LogLevel::Trace, message, None, None);
    }

    /// The entries written so far, oldest first.
    pub fn entries(&self) -> (entries: &Vec<LogEntry>)
        ensures
            entries@ == self.written(),
    {
        &self.entries
    }

    /// Copies of the last `count` entries, oldest first, or of all entries
    /// where there are fewer.
    pub fn get_recent_logs(&self, count: usize) -> (recent: Vec<LogEntry>)
        ensures
            recent@ == last_entries(self.written(), count as nat),
    {
        let n = self.entries.len();
        let start: usize = if n > count { n - count } else { 0 };
        let mut recent: Vec<LogEntry> = Vec::new();
        let mut i: usize = start;
        while i < n
            invariant
                start <= i <= n,
                n == self.entries@.len(),
                recent@ == self.entries@.subrange(start as int, i as int),
            decreases n - i,
        {
            recent.push(self.entries[i].clone());
            assert(recent@ =~= self.entries@.subrange(start as int, i + 1));
            i += 1;
        }
        assert(self.entries@.subrange(0, n as int) =~= self.entries@);
        recent
    }
}

/// The entries among `entries` that pass a filter of level `filter`.
pub fn filter_entries(entries: Vec<LogEntry>, filter: LogLevel) -> (kept: Vec<LogEntry>)
    ensures
        kept@ == passing(entries@, filter),
{
    let mut kept: Vec<LogEntry> = Vec::new();
    let mut i: usize = 0;
    assert(entries@.take(0) =~= Seq::<LogEntry>::empty());
    while i < entries.len()
        invariant
            i <= entries.len(),
            kept@ == passing(entries@.take(i as int), filter),
        decreases entries.len() - i,
    {
        assert(entries@.take(i + 1).drop_last() =~= entries@.take(i as int));
        if entries[i].level.should_log(&filter) {
            kept.push(entries[i].clone());
        }
        i += 1;
    }
    assert(entries@.take(entries.len() as int) =~= entries@);
    kept
}

} // verus!
