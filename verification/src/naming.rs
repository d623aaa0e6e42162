//! Artifact naming: a backup artifact is uploaded under a name derived from a
//! UTC timestamp (second precision) and the compression algorithm's file
//! suffix, in the shape `scb-YYYY-MM-DD-HH-MM-SS.json` with `.<suffix>`
//! appended when the suffix is non-empty.

use vstd::prelude::*;
use vstd::string::StringExecFns;

verus! {

/// A UTC instant at second precision, held as plain calendar fields.
#[derive(Clone, Copy, Debug, PartialEq, Eq)]
pub struct Timestamp {
    pub year: u16,
    pub month: u16,
    pub day: u16,
    pub hour: u16,
    pub minute: u16,
    pub second: u16,
}

impl Timestamp {
    /// The fields form a calendar date and clock time that the four/two digit
    /// fixed-width rendering can represent.
    pub open spec fn wf(&self) -> bool {
        &&& self.year <= 9999
        &&& 1 <= self.month <= 12
        &&& 1 <= self.day <= 31
        &&& self.hour <= 23
        &&& self.minute <= 59
        &&& self.second <= 59
    }
}

/// The single decimal digit `d` as a one-character string.
pub open spec fn spec_digit(d: int) -> Seq<char> {
    if d == 0 {
        "0"@
    } else if d == 1 {
        "1"@
    } else if d == 2 {
        "2"@
    } else if d == 3 {
        "3"@
    } else if d == 4 {
        "4"@
    } else if d == 5 {
        "5"@
    } else if d == 6 {
        "6"@
    } else if d == 7 {
        "7"@
    } else if d == 8 {
        "8"@
    } else {
        "9"@
    }
}

/// `n` rendered as exactly two decimal digits, zero-padded.
pub open spec fn spec_pad2(n: int) -> Seq<char> {
    spec_digit(n / 10) + spec_digit(n % 10)
}

/// `n` rendered as exactly four decimal digits, zero-padded.
pub open spec fn spec_pad4(n: int) -> Seq<char> {
    spec_digit(n / 1000) + spec_digit((n / 100) % 10) + spec_digit((n / 10) % 10) + spec_digit(
        n % 10,
    )
}

/// The timestamp part of an artifact name: `YYYY-MM-DD-HH-MM-SS`.
pub open spec fn spec_timestamp_string(ts: Timestamp) -> Seq<char> {
    spec_pad4(ts.year as int) + "-"@ + spec_pad2(ts.month as int) + "-"@ + spec_pad2(ts.day as int)
        + "-"@ + spec_pad2(ts.hour as int) + "-"@ + spec_pad2(ts.minute as int) + "-"@ + spec_pad2(
        ts.second as int,
    )
}

/// The full artifact name: `scb-<timestamp>.json`, with `.<suffix>` appended
/// for a non-empty compression suffix and nothing appended for an empty one.
pub open spec fn spec_artifact_name(ts: Timestamp, suffix: Seq<char>) -> Seq<char> {
    "scb-"@ + spec_timestamp_string(ts) + ".json"@ + if suffix.len() == 0 {
        Seq::<char>::empty()
    } else {
        "."@ + suffix
    }
}

fn digit_str(d: u16) -> (r: &'static str)
    requires
        d <= 9,
    ensures
        r@ == spec_digit(d as int),
{
    match d {
        0 => "0",
        1 => "1",
        2 => "2",
        3 => "3",
        4 => "4",
        5 => "5",
        6 => "6",
        7 => "7",
        8 => "8",
        _ => "9",
    }
}

fn push_pad2(out: &mut String, n: u16)
    requires
        n <= 99,
    ensures
        final(out)@ == old(out)@ + spec_pad2(n as int),
{
    out.append(digit_str(n / 10));
    out.append(digit_str(n % 10));
}

fn push_pad4(out: &mut String, n: u16)
    requires
        n <= 9999,
    ensures
        final(out)@ == old(out)@ + spec_pad4(n as int),
{
    out.append(digit_str(n / 1000));
    out.append(digit_str((n / 100) % 10));
    out.append(digit_str((n / 10) % 10));
    out.append(digit_str(n % 10));
}

/// Computes the upload name for an artifact produced at instant `ts` with the
/// given compression suffix. A pure function of its arguments: a fixed instant
/// and suffix always yield the same name.
pub fn artifact_name(ts: &Timestamp, suffix: &str) -> (r: String)
    requires
        ts.wf(),
    ensures
        r@ == spec_artifact_name(*ts, suffix@),
{
    let mut name = String::from_str("scb-");
    push_pad4(&mut name, ts.year);
    name.append("-");
    push_pad2(&mut name, ts.month);
    name.append("-");
    push_pad2(&mut name, ts.day);
    name.append("-");
    push_pad2(&mut name, ts.hour);
    name.append("-");
    push_pad2(&mut name, ts.minute);
    name.append("-");
    push_pad2(&mut name, ts.second);
    name.append(".json");
    if !suffix.is_empty() {
        name.append(".");
        name.append(suffix);
    }
    proof {
        assert(name@ =~= spec_artifact_name(*ts, suffix@));
    }
    name
}

/// Relies on std's `SystemTime` for the clock reading, checked against the
/// Unix epoch, and on chrono's `DateTime::from_timestamp` and the naive
/// date-time field accessors for the calendar split: the month is 1 to 12,
/// the day 1 to 31, the hour below 24, the minute and the second below 60.
/// A clock before the epoch or beyond chrono's date range yields `None`
/// rather than a panic; the instant itself depends on the clock, so nothing
/// is promised about the values beyond those ranges.
#[verifier::external_body]
fn utc_now_fields() -> (r: Option<(i32, u32, u32, u32, u32, u32)>)
    ensures
        r matches Some(f) ==> 1 <= f.1 <= 12 && 1 <= f.2 <= 31 && f.3 <= 23 && f.4 <= 59 && f.5
            <= 59,
{
    let since_epoch = std::time::SystemTime::now()
        .duration_since(std::time::UNIX_EPOCH)
        .ok()?;
    let secs = i64::try_from(since_epoch.as_secs()).ok()?;
    let now = chrono::DateTime::<chrono::Utc>::from_timestamp(secs, 0)?.naive_utc();
    Some((
        chrono::Datelike::year(&now),
        chrono::Datelike::month(&now),
        chrono::Datelike::day(&now),
        chrono::Timelike::hour(&now),
        chrono::Timelike::minute(&now),
        chrono::Timelike::second(&now),
    ))
}

/// Builds the timestamp that raw calendar fields denote: `Some` exactly when
/// the year fits the four-digit range the naming scheme renders, carrying
/// every field over unchanged.
pub fn timestamp_from_fields(
    year: i32,
    month: u32,
    day: u32,
    hour: u32,
    minute: u32,
    second: u32,
) -> (r: Option<Timestamp>)
    requires
        1 <= month <= 12,
        1 <= day <= 31,
        hour <= 23,
        minute <= 59,
        second <= 59,
    ensures
        r is Some <==> 0 <= year <= 9999,
        r matches Some(ts) ==> ts.wf() && ts.year == year && ts.month == month && ts.day == day
            && ts.hour == hour && ts.minute == minute && ts.second == second,
{
    if 0 <= year && year <= 9999 {
        Some(
            Timestamp {
                year: year as u16,
                month: month as u16,
                day: day as u16,
                hour: hour as u16,
                minute: minute as u16,
                second: second as u16,
            },
        )
    } else {
        None
    }
}

/// Reads the clock: the current UTC instant at second precision, or `None`
/// when the clock is unreadable or its year is outside the four-digit range
/// the naming scheme can render.
pub fn current_timestamp() -> (r: Option<Timestamp>)
    ensures
        r matches Some(ts) ==> ts.wf(),
{
    match utc_now_fields() {
        Some((y, mo, d, h, mi, s)) => timestamp_from_fields(y, mo, d, h, mi, s),
        None => None,
    }
}

} // verus!
