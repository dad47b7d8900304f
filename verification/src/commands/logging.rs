//! What the user interface asks about the log.

use vstd::prelude::*;
use crate::error::AppResult;
use crate::logger::{filter_entries, last_entries, passing, LogEntry, LogLevel, Logger};

verus! {

/// The request for the latest entries of the log.
#[derive(Debug)]
pub struct GetLogsRequest {
    pub count: Option<usize>,
    pub level_filter: Option<LogLevel>,
}

/// How many entries a request asks for that names no number.
pub const DEFAULT_LOG_COUNT: usize = 100;

/// How many entries `request` asks for.
pub open spec fn requested_count(request: GetLogsRequest) -> nat {
    match request.count {
        Some(n) => n as nat,
        None => DEFAULT_LOG_COUNT as nat,
    }
}

/// The entries that `request` asks for: the last entries of the log, as many
/// as the request names or 100, and of these the ones that pass the filter,
/// where the request names one.
pub open spec fn requested_logs(written: Seq<LogEntry>, request: GetLogsRequest) -> Seq<LogEntry> {
    let recent = last_entries(written, requested_count(request));
    match request.level_filter {
        Some(filter) => passing(recent, filter),
        None => recent,
    }
}

/// The latest entries of the log that `request` asks for, oldest first.
pub fn get_recent_logs(logger: &Logger, request: GetLogsRequest) -> (r: AppResult<Vec<LogEntry>>)
    ensures
        r matches Ok(entries) && entries@ == requested_logs(logger.written(), request),
{
    let count = match request.count {
        Some(n) => n,
        None => DEFAULT_LOG_COUNT,
    };
    let logs = logger.get_recent_logs(count);
    match request.level_filter {
        Some(filter) => Ok(filter_entries(logs, filter)),
        None => Ok(logs),
    }
}

/// The name of a level as the note of a change of level shows it.
pub open spec fn level_note(level: LogLevel) -> Seq<char> {
    match level {
        LogLevel::Error => "New level: Error"@,
        LogLevel::Warn => "New level: Warn"@,
        LogLevel::Info => "New level: Info"@,
        LogLevel::Debug => "New level: Debug"@,
        LogLevel::Trace => "New level: Trace"@,
    }
}

/// Sets the level of the logger and notes the change in the log: the note is
/// a piece of information, so it is written where the new level lets such
/// pieces pass.
pub fn set_log_level(logger: &mut Logger, level: LogLevel) -> (r: AppResult<()>)
    ensures
        r is Ok,
        final(logger).level() == level,
        LogLevel::Info.rank() > level.rank() ==> final(logger).written() == old(logger).written(),
        LogLevel::Info.rank() <= level.rank() ==> {
            &&& final(logger).written().len() == old(logger).written().len() + 1
            &&& final(logger).written().drop_last() == old(logger).written()
            &&& final(logger).written().last().level == LogLevel::Info
            &&& final(logger).written().last().message@ == "Log level changed"@
            &&& crate::text::opt_view(final(logger).written().last().context) == Some(level_note(level))
            &&& final(logger).written().last().error_details is None
        },
{
    logger.set_level(level);
    let context = match level {
        LogLevel::Error => "New level: Error",
        LogLevel::Warn => "New level: Warn",
        LogLevel::Info => "New level: Info",
        LogLevel::Debug => "New level: Debug",
        LogLevel::Trace => "New level: Trace",
    };
    logger.info_with_context("Log level changed", context);
    Ok(())
}

} // verus!
