//! The text of what a run shows: its progress, its failures and its closing
//! report.

use crate::sample::Sample;
use crate::stats::{calc_stats, describes, Stats};
use crate::text::{decimal, digit, push_decimal, push_digit};
use vstd::prelude::*;

verus! {

/// The digits behind the decimal point of `thousandths / 1000`, as many as it
/// takes and no zero at the end.
pub open spec fn fraction(thousandths: nat) -> Seq<char>
    recommends
        0 < thousandths < 1_000,
{
    let tenths = digit(thousandths / 100);
    let hundredths = digit(thousandths / 10 % 10);
    if thousandths % 10 != 0 {
        seq![tenths, hundredths, digit(thousandths % 10)]
    } else if thousandths % 100 != 0 {
        seq![tenths, hundredths]
    } else {
        seq![tenths]
    }
}

/// `millis / 1000` as a decimal number: exact, with a decimal point only
/// where the value is not whole.
pub open spec fn seconds(millis: nat) -> Seq<char> {
    if millis % 1_000 == 0 {
        decimal(millis / 1_000)
    } else {
        decimal(millis / 1_000) + seq!['.'] + fraction(millis % 1_000)
    }
}

/// A duration of `millis` milliseconds as it is shown: in milliseconds below
/// one second, in seconds from there on.
pub open spec fn duration(millis: nat) -> Seq<char> {
    if millis < 1_000 {
        decimal(millis) + " ms"@
    } else {
        seconds(millis) + " s"@
    }
}

/// The line of the statistics.
pub open spec fn result_line(stats: Stats) -> Seq<char> {
    "Min: "@ + duration(stats.min as nat) + ", Max: "@ + duration(stats.max as nat) + ", Avg: "@
        + duration(stats.avg as nat)
}

/// Appends a duration of `millis` milliseconds to `text`.
pub fn push_duration(text: &mut String, millis: u128)
    ensures
        final(text)@ == old(text)@ + duration(millis as nat),
{
    if millis < 1_000 {
        push_decimal(text, millis);
        text.append(" ms");
    } else {
        let rest: u128 = millis % 1_000;
        push_decimal(text, millis / 1_000);
        if rest != 0 {
            text.append(".");
            proof {
                reveal_strlit(".");
            }
            push_digit(text, rest / 100);
            if rest % 100 != 0 {
                push_digit(text, rest / 10 % 10);
            }
            if rest % 10 != 0 {
                push_digit(text, rest % 10);
            }
        }
        text.append(" s");
    }
}

/// A duration of `millis` milliseconds as it is shown.
pub fn format_duration(millis: u128) -> (text: String)
    ensures
        text@ == duration(millis as nat),
{
    let mut text = String::new();
    push_duration(&mut text, millis);
    text
}

/// The line of the statistics: minimum, maximum and average, each in its own
/// unit.
pub fn print_result(stats: &Stats) -> (text: String)
    ensures
        text@ == result_line(*stats),
{
    let mut text = String::new();
    text.append("Min: ");
    push_duration(&mut text, stats.min);
    text.append(", Max: ");
    push_duration(&mut text, stats.max);
    text.append(", Avg: ");
    push_duration(&mut text, stats.avg);
    text
}

/// What is shown when request `step` of `total` is due.
pub open spec fn announce_line(step: nat, total: nat) -> Seq<char> {
    "Request "@ + decimal(step) + "/"@ + decimal(total)
}

/// What is shown when request `step` of `total` is due in `seconds` seconds.
pub open spec fn countdown_line(step: nat, total: nat, seconds: nat) -> Seq<char> {
    announce_line(step, total) + " in "@ + decimal(seconds) + " s"@
}

/// What is shown of a response that is no success: the number of the request,
/// the status, and the body of the response.
pub open spec fn status_line(step: nat, status: nat, body: Seq<char>) -> Seq<char> {
    "(Request "@ + decimal(step) + ") "@ + decimal(status) + ": "@ + body
}

/// What is shown of a request without a response.
pub open spec fn no_response_line(url: Seq<char>) -> Seq<char> {
    "Error fetching response from "@ + url
}

/// What is shown of the number of failed requests.
pub open spec fn failed_line(failed: nat) -> Seq<char> {
    "Failed requests: "@ + decimal(failed)
}

/// What stands in for the body of a response that cannot be read.
pub open spec fn missing_body() -> Seq<char> {
    "Request did not send a response"@
}

/// What is shown in place of the statistics when no request succeeded.
pub open spec fn no_success_line() -> Seq<char> {
    "There was no successful request..."@
}

/// The progress line of a request that is due.
pub fn announce_text(step: u128, total: u128) -> (text: String)
    ensures
        text@ == announce_line(step as nat, total as nat),
{
    let mut text = String::new();
    text.append("Request ");
    push_decimal(&mut text, step);
    text.append("/");
    push_decimal(&mut text, total);
    text
}

/// The progress line of a request that is due in `seconds` seconds.
pub fn countdown_text(step: u128, total: u128, seconds: u128) -> (text: String)
    ensures
        text@ == countdown_line(step as nat, total as nat, seconds as nat),
{
    let mut text = announce_text(step, total);
    text.append(" in ");
    push_decimal(&mut text, seconds);
    text.append(" s");
    text
}

/// The message for a response that is no success. Where the body of the
/// response could not be read, `body` is `None`, and a fixed text stands in
/// for it.
pub fn status_text(step: u128, status: u16, body: Option<&str>) -> (text: String)
    ensures
        text@ == status_line(
            step as nat,
            status as nat,
            match body {
                Some(b) => b@,
                None => missing_body(),
            },
        ),
{
    let mut text = String::new();
    text.append("(Request ");
    push_decimal(&mut text, step);
    text.append(") ");
    push_decimal(&mut text, status as u128);
    text.append(": ");
    match body {
        Some(b) => {
            text.append(b);
        },
        None => {
            text.append("Request did not send a response");
        },
    }
    text
}

/// The message for a request to `url` that got no response.
pub fn no_response_text(url: &str) -> (text: String)
    ensures
        text@ == no_response_line(url@),
{
    let mut text = String::new();
    text.append("Error fetching response from ");
    text.append(url);
    text
}

/// The closing report of a run, line by line. Without a sample it is the one
/// line that says so, and no number is shown. With samples it is the number
/// of failed requests, and then the statistics of the samples.
pub fn report(failed_requests: u128, response_times: &Vec<Sample>) -> (lines: Vec<String>)
    ensures
        response_times@.len() == 0 ==> lines@.len() == 1 && lines@[0]@ == no_success_line(),
        response_times@.len() > 0 ==> {
            &&& lines@.len() == 2
            &&& lines@[0]@ == failed_line(failed_requests as nat)
            &&& exists|stats: Stats| #[trigger]
                describes(stats, response_times@) && lines@[1]@ == result_line(stats)
        },
{
    let mut lines: Vec<String> = Vec::new();
    match calc_stats(response_times) {
        None => {
            let mut text = String::new();
            text.append("There was no successful request...");
            lines.push(text);
        },
        Some(stats) => {
            let mut text = String::new();
            text.append("Failed requests: ");
            push_decimal(&mut text, failed_requests);
            lines.push(text);
            lines.push(print_result(&stats));
        },
    }
    lines
}

} // verus!
