//! The schedule evaluator: whether a cron expression is accepted, when it
//! next fires, and how an instant is written out.
//!
//! The grammar of cron expressions, the search for the next occurrence and
//! the rendering of dates are left to the `cron` and `chrono` crates. Each is
//! reached through one unverified function below, and the contracts of this
//! module speak of their results by name.

use vstd::prelude::*;
use std::str::FromStr;
use std::fmt::Write;
use crate::text::views;

verus! {

/// Whether `cron::Schedule::from_str` accepts the expression.
pub uninterp spec fn cron_accepts(expr: Seq<char>) -> bool;

/// The first occurrence of the expression strictly after the instant `after`
/// (seconds since the epoch), on a clock `offset` seconds east of UTC, as
/// `cron::Schedule::after` finds it; `None` where it finds none, or where the
/// expression or the offset is not accepted.
pub uninterp spec fn next_fire(expr: Seq<char>, after: int, offset: int) -> Option<int>;

/// The instant `secs` (seconds since the epoch) on a clock `offset` seconds
/// east of UTC, written by `chrono::DateTime::format` with `pattern`; `None`
/// where chrono cannot hold the instant or the offset, or rejects the pattern.
pub uninterp spec fn formatted_time(pattern: Seq<char>, secs: int, offset: int) -> Option<Seq<char>>;

/// The largest distance from the epoch, in seconds, at which this library
/// asks for occurrences. Every instant within it, and the second after it,
/// is one the calendar can hold.
pub const CALENDAR_LIMIT: i64 = 8_000_000_000_000;

/// Whether an instant lies within [`CALENDAR_LIMIT`] of the epoch.
pub open spec fn within_calendar(secs: int) -> bool {
    -CALENDAR_LIMIT <= secs <= CALENDAR_LIMIT
}

/// The text of the error that a rejected expression is reported with.
pub open spec fn invalid_text() -> Seq<char> {
    "Invalid expression: Invalid cron expression."@
}

/// A cron expression that could not be parsed.
#[derive(Debug, PartialEq, Eq)]
pub struct InvalidExpression {
    pub message: String,
}

/// An instant read from the local clock.
#[derive(Debug, Clone, Copy)]
pub struct LocalInstant {
    /// Seconds since the epoch.
    pub secs: i64,
    /// Milliseconds since the epoch.
    pub millis: i64,
    /// Seconds that local time is ahead of UTC.
    pub offset: i32,
}

/// Calls `cron::Schedule::from_str` and hands back the text of its error.
///
/// Trusted: the call succeeds exactly on the expressions that
/// [`cron_accepts`] stands for, and every error of the parser is displayed as
/// the one fixed text [`invalid_text`].
#[verifier::external_body]
fn cron_check(expr: &str) -> (r: Option<String>)
    ensures
        r is None <==> cron_accepts(expr@),
        r matches Some(e) ==> e@ == invalid_text(),
{
    match cron::Schedule::from_str(expr) {
        Ok(_) => None,
        Err(e) => Some(e.to_string()),
    }
}

/// Calls `cron::Schedule::after` on the parsed expression and takes the first
/// item of the iterator.
///
/// Trusted: the result is what [`next_fire`] stands for, and an occurrence
/// that is found lies strictly after `after`. The instant given must lie
/// within the calendar, since the search starts one second later.
#[verifier::external_body]
fn cron_next(expr: &str, after: i64, offset: i32) -> (r: Option<i64>)
    requires
        within_calendar(after as int),
    ensures
        r matches Some(t) ==> next_fire(expr@, after as int, offset as int) == Some(t as int)
            && t > after,
        r is None ==> next_fire(expr@, after as int, offset as int) is None,
{
    let schedule = cron::Schedule::from_str(expr).ok()?;
    let zone = chrono::FixedOffset::east_opt(offset)?;
    let start = chrono::DateTime::from_timestamp(after, 0)?.with_timezone(&zone);
    Some(schedule.after(&start).next()?.timestamp())
}

/// Calls `chrono::DateTime::format` on the instant, moved to the given offset.
///
/// Trusted: the result is what [`formatted_time`] stands for.
#[verifier::external_body]
pub(crate) fn format_time(pattern: &str, secs: i64, offset: i32) -> (r: Option<String>)
    ensures
        r matches Some(s) ==> formatted_time(pattern@, secs as int, offset as int) == Some(s@),
        r is None ==> formatted_time(pattern@, secs as int, offset as int) is None,
{
    let zone = chrono::FixedOffset::east_opt(offset)?;
    let instant = chrono::DateTime::from_timestamp(secs, 0)?.with_timezone(&zone);
    let mut text = String::new();
    write!(text, "{}", instant.format(pattern)).ok()?;
    Some(text)
}

/// Calls `chrono::Local::now`. Nothing is promised of a clock.
#[verifier::external_body]
pub(crate) fn local_now() -> (r: LocalInstant) {
    let now = chrono::Local::now();
    LocalInstant {
        secs: now.timestamp(),
        millis: now.timestamp_millis(),
        offset: now.offset().local_minus_utc(),
    }
}

/// Checks a cron expression.
pub fn check_expression(expr: &str) -> (r: Result<(), InvalidExpression>)
    ensures
        r is Ok <==> cron_accepts(expr@),
        r matches Err(e) ==> e.message@ == invalid_text(),
{
    match cron_check(expr) {
        None => Ok(()),
        Some(message) => Err(InvalidExpression { message }),
    }
}

/// The next occurrence after an instant: what the `cron` crate finds for an
/// instant within the calendar, and nothing for one outside it.
pub open spec fn occurrence_after(expr: Seq<char>, after: int, offset: int) -> Option<int> {
    if within_calendar(after) {
        next_fire(expr, after, offset)
    } else {
        None
    }
}

/// The first occurrence of `expr` strictly after `after`.
pub fn next_after(expr: &str, after: i64, offset: i32) -> (r: Option<i64>)
    ensures
        r matches Some(t) ==> occurrence_after(expr@, after as int, offset as int) == Some(t as int)
            && t > after,
        r is None ==> occurrence_after(expr@, after as int, offset as int) is None,
{
    if after < -CALENDAR_LIMIT || after > CALENDAR_LIMIT {
        None
    } else {
        cron_next(expr, after, offset)
    }
}

/// The first `count` occurrences after `from`, each found from the one
/// before it; the sequence ends early where no further occurrence is found.
pub open spec fn occurrences(expr: Seq<char>, from: int, offset: int, count: nat) -> Seq<int>
    decreases count,
{
    if count == 0 {
        Seq::empty()
    } else {
        match occurrence_after(expr, from, offset) {
            None => Seq::empty(),
            Some(t) => seq![t] + occurrences(expr, t, offset, (count - 1) as nat),
        }
    }
}

/// A sequence of machine instants as mathematical integers.
pub open spec fn instants(s: Seq<i64>) -> Seq<int> {
    s.map_values(|t: i64| t as int)
}

/// The occurrences of an expression that the `cron` crate accepts.
fn upcoming(expr: &str, from: i64, offset: i32, count: usize) -> (r: Vec<i64>)
    ensures
        instants(r@) == occurrences(expr@, from as int, offset as int, count as nat),
        forall|i: int| 0 <= i < r@.len() ==> from < #[trigger] r@[i],
        forall|i: int, j: int| 0 <= i < j < r@.len() ==> r@[i] < r@[j],
{
    let mut out: Vec<i64> = Vec::new();
    let mut cursor: i64 = from;
    let mut left: usize = count;
    while left > 0
        invariant
            left <= count,
            from <= cursor,
            occurrences(expr@, from as int, offset as int, count as nat) == instants(out@)
                + occurrences(expr@, cursor as int, offset as int, left as nat),
            forall|i: int| 0 <= i < out@.len() ==> from < #[trigger] out@[i] <= cursor,
            forall|i: int, j: int| 0 <= i < j < out@.len() ==> out@[i] < out@[j],
        decreases left,
    {
        match next_after(expr, cursor, offset) {
            None => {
                assert(instants(out@) + Seq::<int>::empty() =~= instants(out@));
                return out;
            },
            Some(t) => {
                let ghost before = out@;
                out.push(t);
                assert(instants(out@) =~= instants(before) + seq![t as int]);
                assert(instants(before) + (seq![t as int] + occurrences(
                    expr@,
                    t as int,
                    offset as int,
                    (left - 1) as nat,
                )) =~= instants(out@) + occurrences(
                    expr@,
                    t as int,
                    offset as int,
                    (left - 1) as nat,
                ));
                cursor = t;
                left -= 1;
            },
        }
    }
    assert(instants(out@) + Seq::<int>::empty() =~= instants(out@));
    out
}

/// The next `count` occurrences of a cron expression after `from`, or the
/// error of an expression that does not parse.
pub fn next_occurrences(expr: &str, from: i64, offset: i32, count: usize) -> (r: Result<
    Vec<i64>,
    InvalidExpression,
>)
    ensures
        r is Ok <==> cron_accepts(expr@),
        r matches Err(e) ==> e.message@ == invalid_text(),
        r matches Ok(v) ==> {
            &&& instants(v@) == occurrences(expr@, from as int, offset as int, count as nat)
            &&& forall|i: int| 0 <= i < v@.len() ==> from < #[trigger] v@[i]
            &&& forall|i: int, j: int| 0 <= i < j < v@.len() ==> v@[i] < v@[j]
        },
{
    match check_expression(expr) {
        Err(e) => Err(e),
        Ok(_) => Ok(upcoming(expr, from, offset, count)),
    }
}

/// The pattern that upcoming occurrences are shown with.
pub open spec fn list_pattern() -> Seq<char> {
    "%Y-%m-%d %H:%M:%S"@
}

/// The next five occurrences of an expression after `from`, each written
/// out on a clock `offset` seconds east of UTC; nothing for an expression
/// that does not parse.
pub open spec fn upcoming_texts(expr: Seq<char>, from: int, offset: int) -> Seq<Seq<char>> {
    if cron_accepts(expr) {
        occurrences(expr, from, offset, 5).filter_map(
            |t: int| formatted_time(list_pattern(), t, offset),
        )
    } else {
        Seq::empty()
    }
}

/// The next five occurrences of a cron expression after `from`, written out
/// for display. An expression that does not parse has none.
pub fn parse_time_at(cron: &str, from: i64, offset: i32) -> (r: Vec<String>)
    ensures
        views(r@) == upcoming_texts(cron@, from as int, offset as int),
{
    let mut out: Vec<String> = Vec::new();
    assert(views(out@) =~= Seq::<Seq<char>>::empty());
    match next_occurrences(cron, from, offset, 5) {
        Err(_) => out,
        Ok(times) => {
            let ghost all = instants(times@);
            let ghost write = |t: int| formatted_time(list_pattern(), t, offset as int);
            let mut i: usize = 0;
            assert(all.take(0).filter_map(write) =~= Seq::<Seq<char>>::empty());
            while i < times.len()
                invariant
                    i <= times.len(),
                    all == instants(times@),
                    write == |t: int| formatted_time(list_pattern(), t, offset as int),
                    views(out@) == all.take(i as int).filter_map(write),
                decreases times.len() - i,
            {
                proof {
                    all.lemma_filter_map_take_succ(write, i as int);
                }
                let ghost before = out@;
                match format_time("%Y-%m-%d %H:%M:%S", times[i], offset) {
                    Some(text) => {
                        out.push(text);
                        assert(views(out@) =~= views(before) + seq![text@]);
                    },
                    None => {
                        assert(views(out@) =~= views(before) + Seq::<Seq<char>>::empty());
                    },
                }
                i += 1;
            }
            assert(all.take(times.len() as int) =~= all);
            out
        },
    }
}

/// The next five occurrences of a cron expression after the present
/// instant, written out in local time: those of [`upcoming_texts`] for the
/// instant and the offset that the clock gave.
pub fn parse_time(cron: &str) -> (r: Vec<String>)
    ensures
        exists|from: int, offset: int| views(r@) == #[trigger] upcoming_texts(cron@, from, offset),
{
    let at = local_now();
    parse_time_at(cron, at.secs, at.offset)
}

} // verus!
