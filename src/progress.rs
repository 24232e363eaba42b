//! Timestamps of queries and progress markers of a run.

use std::io::Write;
use std::time::{Instant, SystemTime};
use vstd::prelude::*;

verus! {

broadcast use vstd::string::group_string_axioms;

#[verifier::external_type_specification]
#[verifier::external_body]
pub struct ExInstant(Instant);

/// Relies on `std::time::Instant::now`: a reading of the monotonic clock.
pub assume_specification[ Instant::now ]() -> Instant;

#[verifier::external_type_specification]
#[verifier::external_body]
pub struct ExSystemTime(SystemTime);

/// Relies on `std::time::SystemTime::now`: a reading of the system clock.
pub assume_specification[ SystemTime::now ]() -> SystemTime;

/// Relies on `SystemTime::duration_since`: the whole seconds from the UNIX
/// epoch to `t`, or nothing when `t` is earlier than it.
#[verifier::external_body]
fn epoch_seconds(t: &SystemTime) -> Option<u64> {
    t.duration_since(SystemTime::UNIX_EPOCH).ok().map(|d| d.as_secs())
}

/// Relies on `Instant::elapsed`: whole seconds since `start`.
#[verifier::external_body]
fn elapsed_seconds(start: &Instant) -> u64 {
    start.elapsed().as_secs()
}

/// Relies on chrono's `DateTime::<Utc>::from_timestamp`, which gives nothing
/// for a time outside chrono's range, and `DateTime::to_rfc3339`: the time
/// `seconds` after the UNIX epoch in RFC 3339 form, when chrono can hold it.
#[verifier::external_body]
fn rfc3339_at(seconds: i64) -> Option<String> {
    chrono::DateTime::<chrono::Utc>::from_timestamp(seconds, 0).map(|t| t.to_rfc3339())
}

/// Relies on `std::io::stdout`: writes `line` and a line break to standard
/// output, ignoring a failed write.
#[verifier::external_body]
fn emit(line: &str) {
    let _ = writeln!(std::io::stdout(), "{}", line);
}

/// The decimal digit character of `d`.
pub open spec fn digit_char(d: nat) -> char {
    ((d + 48) as u32) as char
}

/// `n` written in decimal, without leading zeros.
pub open spec fn decimal(n: nat) -> Seq<char>
    decreases n,
{
    if n < 10 {
        seq![digit_char(n)]
    } else {
        decimal(n / 10).push(digit_char(n % 10))
    }
}

/// A marker line: the time stamp, a colon and a space, then the message.
pub open spec fn marker_line(stamp: Seq<char>, message: Seq<char>) -> Seq<char> {
    stamp + ": "@ + message
}

/// The message that ends a run: how many whole seconds it took.
pub open spec fn duration_message(message: Seq<char>, seconds: nat) -> Seq<char> {
    message + " - taking "@ + decimal(seconds) + " seconds"@
}

/// The one-character string of the digit `d`.
fn digit_text(d: u64) -> (r: &'static str)
    requires
        d < 10,
    ensures
        r@ == seq![digit_char(d as nat)],
{
    proof {
        reveal_strlit("0");
        reveal_strlit("1");
        reveal_strlit("2");
        reveal_strlit("3");
        reveal_strlit("4");
        reveal_strlit("5");
        reveal_strlit("6");
        reveal_strlit("7");
        reveal_strlit("8");
        reveal_strlit("9");
    }
    let r = if d == 0 {
        "0"
    } else if d == 1 {
        "1"
    } else if d == 2 {
        "2"
    } else if d == 3 {
        "3"
    } else if d == 4 {
        "4"
    } else if d == 5 {
        "5"
    } else if d == 6 {
        "6"
    } else if d == 7 {
        "7"
    } else if d == 8 {
        "8"
    } else {
        "9"
    };
    assert(r@ =~= seq![digit_char(d as nat)]);
    r
}

/// `n` written in decimal.
pub fn decimal_text(n: u64) -> (r: String)
    ensures
        r@ == decimal(n as nat),
    decreases n,
{
    if n < 10 {
        digit_text(n).to_string()
    } else {
        let mut r = decimal_text(n / 10);
        r.append(digit_text(n % 10));
        assert(r@ =~= decimal(n as nat));
        r
    }
}

/// Builds a marker line.
pub fn stamped(stamp: &str, message: &str) -> (r: String)
    ensures
        r@ == marker_line(stamp@, message@),
{
    let mut r = stamp.to_string();
    r.append(": ");
    r.append(message);
    assert(r@ =~= marker_line(stamp@, message@));
    r
}

/// Builds the message that ends a run.
pub fn duration_text(message: &str, seconds: u64) -> (r: String)
    ensures
        r@ == duration_message(message@, seconds as nat),
{
    let mut r = message.to_string();
    r.append(" - taking ");
    let digits = decimal_text(seconds);
    r.append(digits.as_str());
    r.append(" seconds");
    assert(r@ =~= duration_message(message@, seconds as nat));
    r
}

/// A marker line for `message`: stamped with the time when there is one, the
/// message alone otherwise.
pub fn marker_text(stamp: Option<String>, message: &str) -> (r: String)
    ensures
        r@ == match stamp {
            Some(s) => marker_line(s@, message@),
            None => message@,
        },
{
    match stamp {
        Some(s) => stamped(s.as_str(), message),
        None => message.to_string(),
    }
}

/// Prints `message` with the current time and returns the instant at which
/// the run started.
pub fn start_processing_marker(message: String) -> Instant {
    let stamp = rfc3339_at(unix_time());
    emit(marker_text(stamp, message.as_str()).as_str());
    Instant::now()
}

/// Prints `message` with the current time and the whole seconds elapsed since
/// `start`.
pub fn end_processing_marker(message: &str, start: Instant) {
    let seconds = elapsed_seconds(&start);
    let stamp = rfc3339_at(unix_time());
    let text = duration_text(message, seconds);
    emit(marker_text(stamp, text.as_str()).as_str());
}

/// A time stamp from a clock reading in whole seconds since the UNIX epoch:
/// the reading itself, capped at `i64::MAX`; zero for a clock that reads
/// earlier than the epoch.
pub fn epoch_time(seconds: Option<u64>) -> (r: i64)
    ensures
        r == match seconds {
            Some(s) => if s <= i64::MAX {
                s as i64
            } else {
                i64::MAX
            },
            None => 0,
        },
{
    match seconds {
        Some(s) => if s <= i64::MAX as u64 {
            s as i64
        } else {
            i64::MAX
        },
        None => 0,
    }
}

/// The current time in whole seconds since the UNIX epoch; zero when the clock
/// reads earlier than the epoch.
pub fn unix_time() -> (r: i64)
    ensures
        r >= 0,
{
    epoch_time(epoch_seconds(&SystemTime::now()))
}

} // verus!
