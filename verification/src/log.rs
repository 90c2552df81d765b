//! The diagnostic log: which line an event is written as, and to which
//! file.

use vstd::prelude::*;
use vstd::string::*;
use crate::schedule::format_time;
use crate::schedule::formatted_time;
use crate::schedule::local_now;
use crate::schedule::LocalInstant;
use crate::text::chain;
use crate::text::join;
use crate::text::joined;
use crate::text::split;
use crate::text::split_text;

verus! {

/// One line to append to one file of the log.
#[derive(Debug, PartialEq, Eq)]
pub struct LogEntry {
    pub path: String,
    pub line: String,
}

/// Mathematical model of a [`LogEntry`].
#[verifier::ext_equal]
pub struct LogEntryView {
    pub path: Seq<char>,
    pub line: Seq<char>,
}

impl View for LogEntry {
    type V = LogEntryView;

    open spec fn view(&self) -> LogEntryView {
        LogEntryView { path: self.path@, line: self.line@ }
    }
}

/// `text` with every occurrence of `pat` replaced by `with`; occurrences are
/// looked for from left to right and do not overlap.
pub open spec fn replaced(text: Seq<char>, pat: Seq<char>, with: Seq<char>) -> Seq<char> {
    joined(split_text(text, pat), with)
}

/// A line made easier to read: each doubled backslash becomes a slash, and
/// every double quote goes, with the backslash before it if there is one.
pub open spec fn cleaned(line: Seq<char>) -> Seq<char> {
    replaced(replaced(replaced(line, "\\\\"@, "/"@), "\\\""@, ""@), "\""@, ""@)
}

/// The line that an event is written as: its level in brackets, the time of
/// day, and the message. Lines of level `info` are cleaned.
pub open spec fn line_of(level: Seq<char>, stamp: Seq<char>, message: Seq<char>) -> Seq<char> {
    let raw = "["@ + level + "] "@ + stamp + " "@ + message;
    if level == "info"@ {
        cleaned(raw)
    } else {
        raw
    }
}

/// The pattern of the time of day in a line.
pub open spec fn stamp_pattern() -> Seq<char> {
    "%m-%d %H:%M:%S"@
}

/// The pattern of the month that names a file of the log.
pub open spec fn month_pattern() -> Seq<char> {
    "%Y-%m"@
}

/// The entry of an event, given the time of day and the month as they are
/// written out: the line of the event, in the file of the month.
pub open spec fn entry_with(
    level: Seq<char>,
    stamp: Seq<char>,
    month: Seq<char>,
    message: Seq<char>,
) -> LogEntryView {
    LogEntryView { path: "./log/"@ + month + ".txt"@, line: line_of(level, stamp, message) }
}

/// The entry of an event at the instant `secs` on a clock `offset` seconds
/// east of UTC: a line in the file of that month. There is none where the
/// instant cannot be written out.
pub open spec fn entry_at(level: Seq<char>, secs: int, offset: int, message: Seq<char>) -> Option<
    LogEntryView,
> {
    match (
        formatted_time(stamp_pattern(), secs, offset),
        formatted_time(month_pattern(), secs, offset),
    ) {
        (Some(stamp), Some(month)) => Some(entry_with(level, stamp, month, message)),
        _ => None,
    }
}

/// Replaces every occurrence of `pat` in `text` by `with`.
pub fn replace(text: &str, pat: &str, with: &str) -> (r: String)
    ensures
        r@ == replaced(text@, pat@, with@),
{
    let pieces = split(text, pat);
    join(&pieces, with)
}

/// The entry of an event, given the time of day and the month as they are
/// written out.
pub fn stamped_entry(level: &str, stamp: &str, month: &str, message: &str) -> (r: LogEntry)
    ensures
        r@ == entry_with(level@, stamp@, month@, message@),
{
    let mut line = chain("[", level);
    line.append("] ");
    line.append(stamp);
    line.append(" ");
    line.append(message);
    if level.to_owned() == "info".to_owned() {
        let first = replace(line.as_str(), "\\\\", "/");
        let second = replace(first.as_str(), "\\\"", "");
        line = replace(second.as_str(), "\"", "");
    }
    let mut path = chain("./log/", month);
    path.append(".txt");
    LogEntry { path, line }
}

/// The entry of an event of the given level at the given instant.
pub fn log_entry(level: &str, at: &LocalInstant, message: &str) -> (r: Option<LogEntry>)
    ensures
        match entry_at(level@, at.secs as int, at.offset as int, message@) {
            Some(e) => r matches Some(got) && got@ == e,
            None => r is None,
        },
{
    let stamp = match format_time("%m-%d %H:%M:%S", at.secs, at.offset) {
        Some(s) => s,
        None => {
            return None;
        },
    };
    let month = match format_time("%Y-%m", at.secs, at.offset) {
        Some(s) => s,
        None => {
            return None;
        },
    };
    Some(stamped_entry(level, stamp.as_str(), month.as_str(), message))
}

/// The entry of an event of level `info` at the present instant: that of
/// [`entry_at`] for the instant and the offset that the clock gave.
pub fn log_info(message: &str) -> (r: Option<LogEntry>)
    ensures
        exists|secs: int, offset: int|
            match #[trigger] entry_at("info"@, secs, offset, message@) {
                Some(e) => r matches Some(got) && got@ == e,
                None => r is None,
            },
{
    let at = local_now();
    log_entry("info", &at, message)
}

/// The entry of an event of level `debug` at the present instant.
pub fn log_debug(message: &str) -> (r: Option<LogEntry>)
    ensures
        exists|secs: int, offset: int|
            match #[trigger] entry_at("debug"@, secs, offset, message@) {
                Some(e) => r matches Some(got) && got@ == e,
                None => r is None,
            },
{
    let at = local_now();
    log_entry("debug", &at, message)
}

/// The entry of an event of level `error` at the present instant.
pub fn log_err(message: &str) -> (r: Option<LogEntry>)
    ensures
        exists|secs: int, offset: int|
            match #[trigger] entry_at("error"@, secs, offset, message@) {
                Some(e) => r matches Some(got) && got@ == e,
                None => r is None,
            },
{
    let at = local_now();
    log_entry("error", &at, message)
}

} // verus!
