//! Release dates: the text a game carries, the instant it stands for, and
//! the calendar date shown for it.

use vstd::prelude::*;
use vstd::string::StringExecFns;
use crate::text::decimal;
use crate::text::decimal_string;
use crate::text::is_digit;

verus! {

/// The date patterns that this crate shows dates in.
pub open spec fn known_pattern(pattern: Seq<char>) -> bool {
    pattern == "%Y-%m-%d"@ || pattern == "%B %Y"@ || pattern == "%Y-%m-%d %H:%M:%S UTC"@
}

/// The text of the instant `secs` seconds after the Unix epoch, in UTC and
/// in the given pattern; `None` for an instant beyond the calendar.
pub uninterp spec fn utc_formatted(secs: int, pattern: Seq<char>) -> Option<Seq<char>>;

/// `chrono::DateTime::<Utc>::from_timestamp(secs, 0)`, then
/// `DateTime::format` with `pattern`, written out. `from_timestamp` gives
/// `None` for seconds beyond the dates it can hold. The patterns admitted are
/// valid ones, so writing the text does not fail; the text is English and
/// depends on `secs` and `pattern` alone.
#[verifier::external_body]
fn utc_text(secs: i64, pattern: &str) -> (r: Option<String>)
    requires
        known_pattern(pattern@),
    ensures
        match r {
            Some(text) => utc_formatted(secs as int, pattern@) == Some(text@),
            None => utc_formatted(secs as int, pattern@).is_none(),
        },
{
    match chrono::DateTime::<chrono::Utc>::from_timestamp(secs, 0) {
        Some(at) => Some(at.format(pattern).to_string()),
        None => None,
    }
}

/// The value of a digit.
pub open spec fn digit_value(c: char) -> nat {
    if c == '1' {
        1
    } else if c == '2' {
        2
    } else if c == '3' {
        3
    } else if c == '4' {
        4
    } else if c == '5' {
        5
    } else if c == '6' {
        6
    } else if c == '7' {
        7
    } else if c == '8' {
        8
    } else if c == '9' {
        9
    } else {
        0
    }
}

/// The number that a string of digits writes; leading zeros count for
/// nothing.
pub open spec fn digits_value(digits: Seq<char>) -> nat
    decreases digits.len(),
{
    if digits.len() == 0 {
        0
    } else {
        digits_value(digits.drop_last()) * 10 + digit_value(digits.last())
    }
}

/// The integer that `s` writes: an optional `+` or `-`, then digits, at
/// least one, and nothing else. `None` for any other text.
pub open spec fn integer_text(s: Seq<char>) -> Option<int> {
    let signed = s.len() > 0 && (s[0] == '-' || s[0] == '+');
    let digits = if signed {
        s.skip(1)
    } else {
        s
    };
    if digits.len() == 0 || !(forall|i: int| 0 <= i < digits.len() ==> is_digit(digits[i])) {
        None
    } else if s[0] == '-' {
        Some(-(digits_value(digits) as int))
    } else {
        Some(digits_value(digits) as int)
    }
}

/// The seconds that `s` writes, where it writes an integer that fits in 64
/// bits with a sign.
pub open spec fn seconds_text(s: Seq<char>) -> Option<int> {
    match integer_text(s) {
        Some(v) => if i64::MIN <= v <= i64::MAX {
            Some(v)
        } else {
            None
        },
        None => None,
    }
}

/// What the standard library says of a text that is no 64-bit integer.
pub uninterp spec fn parse_failure(s: Seq<char>) -> Seq<char>;

/// `str::parse::<i64>`, with the error written out by its `Display`. The
/// standard library takes an optional sign followed by decimal digits and
/// nothing else, and fails for a number that does not fit; its message for
/// a failure depends on the text alone.
#[verifier::external_body]
fn parse_seconds(s: &str) -> (r: Result<i64, String>)
    ensures
        match r {
            Ok(v) => seconds_text(s@) == Some(v as int),
            Err(why) => seconds_text(s@).is_none() && why@ == parse_failure(s@),
        },
{
    match s.parse::<i64>() {
        Ok(v) => Ok(v),
        Err(e) => Err(e.to_string()),
    }
}

/// The numeral of an integer: a `-` before that of a negative one.
pub open spec fn signed_decimal(v: int) -> Seq<char> {
    if v < 0 {
        "-"@ + decimal((-v) as nat)
    } else {
        decimal(v as nat)
    }
}

/// Writes `v` as a numeral.
pub fn signed_decimal_string(v: i64) -> (r: String)
    ensures
        r@ == signed_decimal(v as int),
{
    if v < 0 {
        let magnitude: u64 = ((-(v + 1)) as u64) + 1;
        let mut out = String::from_str("-");
        let digits = decimal_string(magnitude);
        out.append(digits.as_str());
        out
    } else {
        decimal_string(v as u64)
    }
}

/// Whether a release date is there to be shown: the text is neither empty
/// nor `0`.
pub open spec fn is_dated(date: Seq<char>) -> bool {
    date.len() != 0 && date != "0"@
}

/// Whether a release date is there to be shown.
pub fn has_date(date: &String) -> (r: bool)
    ensures
        r == is_dated(date@),
{
    let zero = String::from_str("0");
    !date.as_str().is_empty() && !(*date == zero)
}

/// What becomes of a release date on its way to the screen.
pub enum Release {
    /// Nothing is shown: no date is there.
    Undated,
    /// The text is no number of seconds; the second text says why.
    Unreadable(String, String),
    /// The seconds lie beyond the calendar.
    OutOfRange(i64),
    /// The seconds, and the date they fall on.
    On(i64, String),
}

/// What a [`Release`] holds, as mathematical values.
pub enum ReleaseView {
    Undated,
    Unreadable(Seq<char>, Seq<char>),
    OutOfRange(int),
    On(int, Seq<char>),
}

impl View for Release {
    type V = ReleaseView;

    open spec fn view(&self) -> ReleaseView {
        match *self {
            Release::Undated => ReleaseView::Undated,
            Release::Unreadable(text, why) => ReleaseView::Unreadable(text@, why@),
            Release::OutOfRange(secs) => ReleaseView::OutOfRange(secs as int),
            Release::On(secs, day) => ReleaseView::On(secs as int, day@),
        }
    }
}

/// What becomes of the release date `date`, given the seconds it was read
/// as, or why it could not be read, and the date those seconds fall on, if
/// they fall within the calendar.
pub open spec fn release_with(
    date: Seq<char>,
    seconds: Result<int, Seq<char>>,
    day: Option<Seq<char>>,
) -> ReleaseView {
    if !is_dated(date) {
        ReleaseView::Undated
    } else {
        match seconds {
            Err(why) => ReleaseView::Unreadable(date, why),
            Ok(secs) => match day {
                None => ReleaseView::OutOfRange(secs),
                Some(day) => ReleaseView::On(secs, day),
            },
        }
    }
}

/// What reading `date` as seconds comes to.
pub open spec fn seconds_read(date: Seq<char>) -> Result<int, Seq<char>> {
    match seconds_text(date) {
        Some(secs) => Ok(secs),
        None => Err(parse_failure(date)),
    }
}

/// The date that the seconds read fall on, written in `pattern`.
pub open spec fn day_of(seconds: Result<int, Seq<char>>, pattern: Seq<char>) -> Option<Seq<char>> {
    match seconds {
        Ok(secs) => utc_formatted(secs, pattern),
        Err(_) => None,
    }
}

/// What becomes of the release date `date`, shown in `pattern`.
pub open spec fn release_of(date: Seq<char>, pattern: Seq<char>) -> ReleaseView {
    release_with(date, seconds_read(date), day_of(seconds_read(date), pattern))
}

/// The seconds read, or why none were, as mathematical values.
pub open spec fn seconds_view(seconds: Result<i64, String>) -> Result<int, Seq<char>> {
    match seconds {
        Ok(secs) => Ok(secs as int),
        Err(why) => Err(why@),
    }
}

/// The text of an optional string.
pub open spec fn day_view(day: Option<String>) -> Option<Seq<char>> {
    match day {
        Some(day) => Some(day@),
        None => None,
    }
}

/// Says what becomes of the release date `date`, from the seconds it was
/// read as, or why it could not be read, and from the date those seconds
/// fall on. A date that is not there is not shown, whatever else is given.
pub fn release_from(date: &String, seconds: Result<i64, String>, day: Option<String>) -> (r:
    Release)
    ensures
        r@ == release_with(date@, seconds_view(seconds), day_view(day)),
{
    if !has_date(date) {
        return Release::Undated;
    }
    match seconds {
        Err(why) => Release::Unreadable(date.clone(), why),
        Ok(secs) => match day {
            None => Release::OutOfRange(secs),
            Some(day) => Release::On(secs, day),
        },
    }
}

fn read_release(date: &String, pattern: &str) -> (r: Release)
    requires
        known_pattern(pattern@),
    ensures
        r@ == release_of(date@, pattern@),
{
    if !has_date(date) {
        return Release::Undated;
    }
    let seconds = parse_seconds(date.as_str());
    let day = match &seconds {
        Ok(secs) => utc_text(*secs, pattern),
        Err(_) => None,
    };
    release_from(date, seconds, day)
}

/// Reads a release date and finds the day it falls on, written as year,
/// month and day.
pub fn release_day(date: &String) -> (r: Release)
    ensures
        r@ == release_of(date@, "%Y-%m-%d"@),
{
    read_release(date, "%Y-%m-%d")
}

/// Reads a release date and finds the month it falls in, written as the
/// month's name and the year.
pub fn release_month(date: &String) -> (r: Release)
    ensures
        r@ == release_of(date@, "%B %Y"@),
{
    read_release(date, "%B %Y")
}

/// The second `secs` seconds after the Unix epoch, written as date and time
/// of day in UTC; `None` beyond the calendar.
pub fn utc_second(secs: i64) -> (r: Option<String>)
    ensures
        match r {
            Some(text) => utc_formatted(secs as int, "%Y-%m-%d %H:%M:%S UTC"@) == Some(text@),
            None => utc_formatted(secs as int, "%Y-%m-%d %H:%M:%S UTC"@).is_none(),
        },
{
    utc_text(secs, "%Y-%m-%d %H:%M:%S UTC")
}

} // verus!
