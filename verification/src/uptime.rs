//! The uptime probe: how long the machine has been running.

use crate::number::{decimal, decimal_digits, pad_left, padded_left};
use crate::probe::{
    cause_text, failure_text, replies, Answer, EvidenceSource, Move, Reply, Source, Step,
};
use crate::text::{append, append_str, string_of};
use vstd::prelude::*;

verus! {

/// The longest duration, in seconds, that `chrono` can hold.
pub open spec fn longest_duration() -> nat {
    9_223_372_036_854_775
}

/// `chrono::Duration::seconds(seconds).num_days()`: the whole days in a
/// duration of that many seconds.
#[verifier::external_body]
fn whole_days(seconds: i64) -> (days: i64)
    requires
        0 <= seconds <= longest_duration(),
    ensures
        days == seconds / 86_400,
{
    chrono::Duration::seconds(seconds).num_days()
}

/// `chrono::Duration::seconds(seconds).num_hours()`: the whole hours in a
/// duration of that many seconds.
#[verifier::external_body]
fn whole_hours(seconds: i64) -> (hours: i64)
    requires
        0 <= seconds <= longest_duration(),
    ensures
        hours == seconds / 3_600,
{
    chrono::Duration::seconds(seconds).num_hours()
}

/// `chrono::Duration::seconds(seconds).num_minutes()`: the whole minutes
/// in a duration of that many seconds.
#[verifier::external_body]
fn whole_minutes(seconds: i64) -> (minutes: i64)
    requires
        0 <= seconds <= longest_duration(),
    ensures
        minutes == seconds / 60,
{
    chrono::Duration::seconds(seconds).num_minutes()
}

/// `chrono::Duration::seconds(seconds).num_seconds()`: the whole seconds
/// in a duration of that many seconds.
#[verifier::external_body]
fn whole_seconds(seconds: i64) -> (whole: i64)
    requires
        0 <= seconds <= longest_duration(),
    ensures
        whole == seconds,
{
    chrono::Duration::seconds(seconds).num_seconds()
}

/// A number in at least two digits.
pub open spec fn two_digits(n: nat) -> Seq<char> {
    padded_left(decimal(n), 2, '0')
}

/// The line that shows an uptime: the days, then hours, minutes and
/// seconds of the day in two digits each.
pub open spec fn uptime_line(seconds: nat) -> Seq<char> {
    decimal(seconds / 86_400) + " days, "@ + two_digits((seconds / 3_600) % 24) + seq![':']
        + two_digits((seconds / 60) % 60) + seq![':'] + two_digits(seconds % 60)
}

/// The uptime, as displayed. An uptime beyond the longest duration counts
/// as a failed reading.
pub open spec fn uptime_text(reading: Result<u64, Seq<char>>) -> Seq<char> {
    match reading {
        Ok(seconds) => if seconds <= longest_duration() {
            uptime_line(seconds as nat)
        } else {
            failure_text("uptime out of range"@)
        },
        Err(cause) => failure_text(cause),
    }
}

fn two_digit_chars(n: i64) -> (r: Vec<char>)
    requires
        0 <= n,
    ensures
        r@ == two_digits(n as nat),
{
    pad_left(&decimal_digits(n as u128), 2, '0')
}

/// The uptime, as displayed. `reading` holds the seconds since the machine
/// started, or the cause for which they could not be read.
pub fn get_uptime(reading: &Result<u64, String>) -> (uptime: String)
    ensures
        uptime@ == uptime_text(cause_text(*reading)),
        uptime@.len() > 0,
{
    proof {
        reveal_strlit("Unknown: ");
        reveal_strlit(" days, ");
    }
    let mut out: Vec<char> = Vec::new();
    match reading {
        Ok(seconds) => {
            if *seconds <= 9_223_372_036_854_775 {
                let n: i64 = *seconds as i64;
                let days = whole_days(n);
                let hours = whole_hours(n) % 24;
                let minutes = whole_minutes(n) % 60;
                let secs = whole_seconds(n) % 60;
                append(&mut out, &decimal_digits(days as u128));
                append_str(&mut out, " days, ");
                append(&mut out, &two_digit_chars(hours));
                out.push(':');
                append(&mut out, &two_digit_chars(minutes));
                out.push(':');
                append(&mut out, &two_digit_chars(secs));
            } else {
                append_str(&mut out, "Unknown: ");
                append_str(&mut out, "uptime out of range");
            }
        },
        Err(cause) => {
            append_str(&mut out, "Unknown: ");
            append_str(&mut out, cause.as_str());
        },
    }
    string_of(&out)
}

/// The reading that the first reply holds: the seconds, or the cause of
/// the failure; any other reply is a failure without a cause.
pub open spec fn uptime_reading(replies: Seq<Reply>) -> Result<u64, Seq<char>> {
    if replies.len() > 0 {
        match replies[0] {
            Reply::Count(seconds) => Ok(seconds),
            Reply::Failed(cause) => Err(cause),
            _ => Err(Seq::empty()),
        }
    } else {
        Err(Seq::empty())
    }
}

/// What the uptime probe does after the replies so far: it asks for the
/// uptime counter, and shows the uptime once that is answered.
pub open spec fn uptime_move(replies: Seq<Reply>) -> Move {
    if replies.len() == 0 {
        Move::Ask(Source::UptimeCounter)
    } else {
        Move::Done(uptime_text(uptime_reading(replies)))
    }
}

/// The next step of the uptime probe, given the answers so far.
pub fn uptime_step(answers: &Vec<Answer>) -> (step: Step)
    ensures
        step@ == uptime_move(replies(answers@)),
{
    if answers.len() == 0 {
        Step::Ask(EvidenceSource::UptimeCounter)
    } else {
        let reading: Result<u64, String> = match &answers[0] {
            Answer::Count(seconds) => Ok(*seconds),
            Answer::Failed(cause) => Err(cause.clone()),
            _ => Err(String::new()),
        };
        Step::Done(get_uptime(&reading))
    }
}

/// The uptime is never shown as nothing.
pub proof fn lemma_uptime_nonempty(reading: Result<u64, Seq<char>>)
    ensures
        uptime_text(reading).len() > 0,
{
    reveal_strlit("Unknown: ");
    reveal_strlit(" days, ");
}

} // verus!
