//! The commands on the service as a whole: what each sends and what it
//! prints for the answer.

use crate::backend::request::{
    built, make_session_call, session_call, unreadable_message, Body, Encoding, Expect, LogEntry,
    Method, Request, RequestView,
};
use crate::backend::torrents::{bad_time_message, time_text};
use crate::backend::util::{epoch_to_datetime, naive_datetime_text};
use crate::config::{RequestInfo, SessionView};
use crate::error::{failure, ErrorKind, Failure};
use crate::text::{decimal, decimal_text, pairs_view, same_text};
use vstd::prelude::*;
use vstd::string::*;

verus! {

/// The request of a command that sends nothing but its path.
pub open spec fn plain_call(info: SessionView, path: Seq<char>, expects: Expect) -> Result<
    RequestView,
    (ErrorKind, Seq<char>),
> {
    session_call(info, Method::Post, path, Encoding::Plain, Seq::empty(), expects)
}

fn make_plain_call(info: &RequestInfo, path: &str, expects: Expect) -> (r: Result<Request, Failure>)
    ensures
        built(r) == plain_call(info@, path@, expects),
{
    let fields: Vec<(String, String)> = Vec::new();
    assert(pairs_view(fields@) =~= Seq::empty());
    make_session_call(info, Method::Post, path, Encoding::Plain, fields, expects)
}

/// Makes the request that shuts the service down.
pub fn shutdown(info: &RequestInfo) -> (r: Result<Request, Failure>)
    ensures
        built(r) == plain_call(info@, "api/v2/app/shutdown"@, Expect::Nothing),
{
    make_plain_call(info, "api/v2/app/shutdown", Expect::Nothing)
}

/// Makes the request for the version of the service.
pub fn version(info: &RequestInfo) -> (r: Result<Request, Failure>)
    ensures
        built(r) == plain_call(info@, "api/v2/app/version"@, Expect::Text),
{
    make_plain_call(info, "api/v2/app/version", Expect::Text)
}

/// What the answer to the request for the version comes to.
pub open spec fn version_outcome(body: Body) -> Result<Seq<char>, (ErrorKind, Seq<char>)> {
    match body {
        Body::Text(text) => Ok("The qBittorrent app is running: "@ + text@ + "\n"@),
        _ => Err((ErrorKind::Decode, unreadable_message())),
    }
}

/// What is printed for the answer to the request for the version.
pub fn version_report(body: Body) -> (r: Result<String, Failure>)
    ensures
        match version_outcome(body) {
            Ok(line) => r matches Ok(s) && s@ == line,
            Err(e) => r matches Err(f) && f@ == e,
        },
{
    match body {
        Body::Text(text) => {
            let mut r = String::from_str("The qBittorrent app is running: ");
            r.append(text.as_str());
            r.append("\n");
            Ok(r)
        },
        _ => Err(failure(ErrorKind::Decode, "The answer of the service could not be read.")),
    }
}

/// Makes the request for the log of the service.
pub fn logs(info: &RequestInfo) -> (r: Result<Request, Failure>)
    ensures
        built(r) == plain_call(info@, "api/v2/log/main"@, Expect::Logs),
{
    make_plain_call(info, "api/v2/log/main", Expect::Logs)
}

/// The name of a level of the log.
pub open spec fn level_name(level: u32) -> Seq<char> {
    if level == 1 {
        "NORM"@
    } else if level == 2 {
        "INFO"@
    } else if level == 4 {
        "WARN"@
    } else if level == 8 {
        "CRIT"@
    } else {
        "UNKNOWN"@
    }
}

/// The name of a level of the log.
pub fn level_label(level: u32) -> (r: &'static str)
    ensures
        r@ == level_name(level),
{
    if level == 1 {
        "NORM"
    } else if level == 2 {
        "INFO"
    } else if level == 4 {
        "WARN"
    } else if level == 8 {
        "CRIT"
    } else {
        "UNKNOWN"
    }
}

/// The row of one entry of the log, given its time as it is to be shown.
pub open spec fn log_row(entry: LogEntry, time: Seq<char>) -> Seq<char> {
    decimal(entry.id as nat) + "\t"@ + level_name(entry.level) + "\t"@ + time + "\t"@
        + entry.message@ + "\n"@
}

/// Writes the row of one entry of the log.
pub fn render_log(entry: &LogEntry, time: &str) -> (r: String)
    ensures
        r@ == log_row(*entry, time@),
{
    let mut r = decimal_text(entry.id as u64);
    r.append("\t");
    r.append(level_label(entry.level));
    r.append("\t");
    r.append(time);
    r.append("\t");
    r.append(entry.message.as_str());
    r.append("\n");
    r
}

/// Whether each entry was written at a time that can be shown.
pub open spec fn all_timed(entries: Seq<LogEntry>) -> bool {
    forall|i: int|
        0 <= i < entries.len() ==> naive_datetime_text(#[trigger] entries[i].timestamp) is Some
}

/// The rows of the log, one after the other.
pub open spec fn log_rows(entries: Seq<LogEntry>) -> Seq<char>
    decreases entries.len(),
{
    if entries.len() == 0 {
        Seq::empty()
    } else {
        log_rows(entries.drop_last()) + log_row(entries.last(), time_text(entries.last().timestamp))
    }
}

/// The log as it is printed: the titles of the columns, then the rows.
pub open spec fn log_page(entries: Seq<LogEntry>) -> Seq<char> {
    "ID\tTYPE\tTIME\t\t\tMESSAGE\n\n"@ + log_rows(entries)
}

/// What the answer to the request for the log comes to.
pub open spec fn logs_outcome(body: Body) -> Result<Seq<char>, (ErrorKind, Seq<char>)> {
    match body {
        Body::Logs(entries) => if all_timed(entries@) {
            Ok(log_page(entries@))
        } else {
            Err((ErrorKind::Decode, bad_time_message()))
        },
        _ => Err((ErrorKind::Decode, unreadable_message())),
    }
}

/// What is printed for the answer to the request for the log.
pub fn logs_report(body: Body) -> (r: Result<String, Failure>)
    ensures
        match logs_outcome(body) {
            Ok(page) => r matches Ok(s) && s@ == page,
            Err(e) => r matches Err(f) && f@ == e,
        },
{
    let entries = match body {
        Body::Logs(entries) => entries,
        _ => {
            return Err(
                failure(ErrorKind::Decode, "The answer of the service could not be read."),
            );
        },
    };
    let mut rows = String::new();
    let mut i: usize = 0;
    while i < entries.len()
        invariant
            i <= entries@.len(),
            body == Body::Logs(entries),
            all_timed(entries@.take(i as int)),
            rows@ == log_rows(entries@.take(i as int)),
        decreases entries@.len() - i,
    {
        let time = match epoch_to_datetime(entries[i].timestamp) {
            Some(text) => text,
            None => {
                assert(naive_datetime_text(entries@[i as int].timestamp) is None);
                return Err(
                    failure(
                        ErrorKind::Decode,
                        "The answer of the service holds a time that is out of range.",
                    ),
                );
            },
        };
        let row = render_log(&entries[i], time.as_str());
        rows.append(row.as_str());
        proof {
            let grown = entries@.take(i + 1);
            assert(grown.drop_last() =~= entries@.take(i as int));
            assert(grown.last() == entries@[i as int]);
            assert forall|k: int| 0 <= k < grown.len() implies naive_datetime_text(
                #[trigger] grown[k].timestamp,
            ) is Some by {
                if k < i {
                    assert(entries@.take(i as int)[k] == grown[k]);
                }
            }
        }
        i += 1;
    }
    proof {
        assert(entries@.take(entries@.len() as int) =~= entries@);
    }
    let mut r = String::from_str("ID\tTYPE\tTIME\t\t\tMESSAGE\n\n");
    r.append(rows.as_str());
    Ok(r)
}

/// Makes the request that asks whether the alternative speed limits are
/// in force.
pub fn get_alt_speed(info: &RequestInfo) -> (r: Result<Request, Failure>)
    ensures
        built(r) == plain_call(info@, "api/v2/transfer/speedLimitsMode"@, Expect::Text),
{
    make_plain_call(info, "api/v2/transfer/speedLimitsMode", Expect::Text)
}

/// Makes the request that switches the alternative speed limits on or
/// off.
pub fn toggle_alt_speed(info: &RequestInfo) -> (r: Result<Request, Failure>)
    ensures
        built(r) == plain_call(info@, "api/v2/transfer/toggleSpeedLimitsMode"@, Expect::Nothing),
{
    make_plain_call(info, "api/v2/transfer/toggleSpeedLimitsMode", Expect::Nothing)
}

/// What the answer of the service says of the alternative speed limits:
/// `1` stands for enabled, `0` for disabled.
pub open spec fn alt_speed_word(answer: Seq<char>) -> Seq<char> {
    if answer == "1"@ {
        "Enabled"@
    } else if answer == "0"@ {
        "Disabled"@
    } else {
        "Unknown"@
    }
}

/// Reads from the answer of the service whether the alternative speed
/// limits are in force.
pub fn alt_speed_label(answer: &str) -> (r: &'static str)
    ensures
        r@ == alt_speed_word(answer@),
{
    if same_text(answer, "1") {
        "Enabled"
    } else if same_text(answer, "0") {
        "Disabled"
    } else {
        "Unknown"
    }
}

/// What the answer to the question for the alternative speed limits comes
/// to, after they were switched or without that.
pub open spec fn alt_speed_outcome(toggled: bool, body: Body) -> Result<
    Seq<char>,
    (ErrorKind, Seq<char>),
> {
    match body {
        Body::Text(text) => Ok(
            (if toggled {
                "Alternative speed limits toggled. They are now: "@
            } else {
                "Alternative speed limits are currently: "@
            }) + alt_speed_word(text@) + "\n"@,
        ),
        _ => Err((ErrorKind::Decode, unreadable_message())),
    }
}

/// What is printed for the answer to the question for the alternative
/// speed limits.
pub fn alt_speed_report(toggled: bool, body: Body) -> (r: Result<String, Failure>)
    ensures
        match alt_speed_outcome(toggled, body) {
            Ok(line) => r matches Ok(s) && s@ == line,
            Err(e) => r matches Err(f) && f@ == e,
        },
{
    match body {
        Body::Text(text) => {
            let mut r = String::from_str(
                if toggled {
                    "Alternative speed limits toggled. They are now: "
                } else {
                    "Alternative speed limits are currently: "
                },
            );
            r.append(alt_speed_label(text.as_str()));
            r.append("\n");
            Ok(r)
        },
        _ => Err(failure(ErrorKind::Decode, "The answer of the service could not be read.")),
    }
}

} // verus!
