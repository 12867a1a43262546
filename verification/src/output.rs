//! The lines that a probe run writes: one per result for the console and
//! for the log, and the frame of the final report.

use vstd::prelude::*;
use vstd::string::StringExecFns;
use crate::clock::{format_utc, utc_text};
use crate::pinger::{PingResult, ResultModel, Timestamp};
use crate::text::{decimal, push_decimal};

verus! {

/// The pattern that the time of a result is written under: year, month and
/// day, then hour, minute and second.
pub open spec fn time_pattern() -> Seq<char> {
    "%Y-%m-%d %H:%M:%S"@
}

/// The status of a result: `Success`, or the description of the failure
/// (`Failed` where a failure bears none).
pub open spec fn status_text(result: ResultModel) -> Seq<char> {
    if result.success {
        "Success"@
    } else {
        match result.error_msg {
            Some(m) => m,
            None => "Failed"@,
        }
    }
}

/// The whole milliseconds of a result's duration.
pub open spec fn rtt_millis(result: ResultModel) -> nat {
    (result.rtt / 1_000_000) as nat
}

/// The console line of a result, without a line end.
pub open spec fn console_text(
    target: Seq<char>,
    time: Seq<char>,
    status: Seq<char>,
    millis: nat,
) -> Seq<char> {
    "Target: "@ + target + " Time: "@ + time + " Status: "@ + status + " RTT: "@ + decimal(millis)
        + "ms"@
}

/// The log line of a result: four fields with commas between them, and a
/// line end.
pub open spec fn log_text(
    target: Seq<char>,
    time: Seq<char>,
    status: Seq<char>,
    millis: nat,
) -> Seq<char> {
    target + ","@ + time + ","@ + status + ","@ + decimal(millis) + "\n"@
}

/// The final report as the log holds it, between its two marker lines.
pub open spec fn final_log_text(report: Seq<char>) -> Seq<char> {
    "\n--- Final Statistics ---\n"@ + report + "\n--- End of Statistics ---\n"@
}

/// The final report as the console shows it, under its heading.
pub open spec fn final_console_text(report: Seq<char>) -> Seq<char> {
    "Final Statistics:\n"@ + report
}

/// The time `at` written in UTC under [`time_pattern`]; `None` where the
/// calendar cannot represent the time.
pub fn time_text(at: Timestamp) -> (text: Option<String>)
    ensures
        match text {
            Some(t) => utc_text(at.secs, at.nanos, time_pattern()) == Some(t@),
            None => utc_text(at.secs, at.nanos, time_pattern()) is None,
        },
{
    format_utc(at, "%Y-%m-%d %H:%M:%S")
}

/// The status of a result.
pub fn status(result: &PingResult) -> (text: String)
    ensures
        text@ == status_text(result@),
{
    if result.success {
        String::from_str("Success")
    } else {
        match &result.error_msg {
            Some(m) => m.clone(),
            None => String::from_str("Failed"),
        }
    }
}

/// The console line for a target, the text of a time, a status and a
/// duration in milliseconds.
pub fn render_console_line(target: &str, time: &str, status: &str, millis: u64) -> (line: String)
    ensures
        line@ == console_text(target@, time@, status@, millis as nat),
{
    let mut line = String::from_str("Target: ");
    line.append(target);
    line.append(" Time: ");
    line.append(time);
    line.append(" Status: ");
    line.append(status);
    line.append(" RTT: ");
    push_decimal(&mut line, millis as u128);
    line.append("ms");
    line
}

/// The log line for a target, the text of a time, a status and a duration
/// in milliseconds.
pub fn render_log_line(target: &str, time: &str, status: &str, millis: u64) -> (line: String)
    ensures
        line@ == log_text(target@, time@, status@, millis as nat),
{
    let mut line = String::from_str(target);
    line.append(",");
    line.append(time);
    line.append(",");
    line.append(status);
    line.append(",");
    push_decimal(&mut line, millis as u128);
    line.append("\n");
    line
}

/// The console line of a result, its time written in UTC; `None` where the
/// calendar cannot represent the time.
pub fn console_line(result: &PingResult) -> (line: Option<String>)
    ensures
        match utc_text(result.timestamp.secs, result.timestamp.nanos, time_pattern()) {
            Some(time) => line matches Some(l) && l@ == console_text(
                result@.target,
                time,
                status_text(result@),
                rtt_millis(result@),
            ),
            None => line is None,
        },
{
    match time_text(result.timestamp) {
        Some(time) => {
            let status = status(result);
            Some(
                render_console_line(
                    result.target.as_str(),
                    time.as_str(),
                    status.as_str(),
                    result.rtt / 1_000_000,
                ),
            )
        },
        None => None,
    }
}

/// The log line of a result, its time written in UTC; `None` where the
/// calendar cannot represent the time.
pub fn log_line(result: &PingResult) -> (line: Option<String>)
    ensures
        match utc_text(result.timestamp.secs, result.timestamp.nanos, time_pattern()) {
            Some(time) => line matches Some(l) && l@ == log_text(
                result@.target,
                time,
                status_text(result@),
                rtt_millis(result@),
            ),
            None => line is None,
        },
{
    match time_text(result.timestamp) {
        Some(time) => {
            let status = status(result);
            Some(
                render_log_line(
                    result.target.as_str(),
                    time.as_str(),
                    status.as_str(),
                    result.rtt / 1_000_000,
                ),
            )
        },
        None => None,
    }
}

/// The final report framed for the log.
pub fn final_log_block(report: &str) -> (block: String)
    ensures
        block@ == final_log_text(report@),
{
    let mut block = String::from_str("\n--- Final Statistics ---\n");
    block.append(report);
    block.append("\n--- End of Statistics ---\n");
    block
}

/// The final report under its heading for the console.
pub fn final_console_block(report: &str) -> (block: String)
    ensures
        block@ == final_console_text(report@),
{
    let mut block = String::from_str("Final Statistics:\n");
    block.append(report);
    block
}

} // verus!
