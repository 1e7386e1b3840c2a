//! Dates at the boundary: the `YYYY-MM-DD HH:MM` input format, its meaning
//! as an absolute timestamp in seconds, and the platform's inline timestamp
//! markup rendered from it.
//!
//! The proleptic Gregorian calendar over years 0000 through 9999 is spelled
//! out as specification functions, and the parser is proved against them.

use vstd::prelude::*;

use crate::model::OpError;
use crate::text::{int_repr, push_char, i64_to_string};

verus! {

/// A decimal digit character.
pub open spec fn is_digit(c: char) -> bool {
    48 <= c as u32 <= 57
}

/// The value of a decimal digit character.
pub open spec fn digit_val(c: char) -> int {
    c as u32 - 48
}

/// The shape of a date string: `YYYY-MM-DD HH:MM`, sixteen characters.
pub open spec fn datetime_format_ok(s: Seq<char>) -> bool {
    &&& s.len() == 16
    &&& is_digit(s[0]) && is_digit(s[1]) && is_digit(s[2]) && is_digit(s[3])
    &&& s[4] == '-'
    &&& is_digit(s[5]) && is_digit(s[6])
    &&& s[7] == '-'
    &&& is_digit(s[8]) && is_digit(s[9])
    &&& s[10] == ' '
    &&& is_digit(s[11]) && is_digit(s[12])
    &&& s[13] == ':'
    &&& is_digit(s[14]) && is_digit(s[15])
}

pub open spec fn year_of(s: Seq<char>) -> int {
    digit_val(s[0]) * 1000 + digit_val(s[1]) * 100 + digit_val(s[2]) * 10 + digit_val(s[3])
}

pub open spec fn month_of(s: Seq<char>) -> int {
    digit_val(s[5]) * 10 + digit_val(s[6])
}

pub open spec fn day_of(s: Seq<char>) -> int {
    digit_val(s[8]) * 10 + digit_val(s[9])
}

pub open spec fn hour_of(s: Seq<char>) -> int {
    digit_val(s[11]) * 10 + digit_val(s[12])
}

pub open spec fn minute_of(s: Seq<char>) -> int {
    digit_val(s[14]) * 10 + digit_val(s[15])
}

pub open spec fn is_leap_year(y: int) -> bool {
    (y % 4 == 0 && y % 100 != 0) || y % 400 == 0
}

pub open spec fn days_in_year(y: int) -> int {
    if is_leap_year(y) {
        366
    } else {
        365
    }
}

pub open spec fn days_in_month(y: int, m: int) -> int {
    if m == 2 {
        if is_leap_year(y) {
            29
        } else {
            28
        }
    } else if m == 4 || m == 6 || m == 9 || m == 11 {
        30
    } else {
        31
    }
}

/// A well-formed date string that denotes a real calendar date and time.
pub open spec fn datetime_valid(s: Seq<char>) -> bool {
    &&& datetime_format_ok(s)
    &&& 1 <= month_of(s) <= 12
    &&& 1 <= day_of(s) <= days_in_month(year_of(s), month_of(s))
    &&& hour_of(s) <= 23
    &&& minute_of(s) <= 59
}

/// Days from 1970-01-01 to the first day of year `y`; negative before 1970.
pub open spec fn days_from_epoch_to_year(y: int) -> int
    decreases vstd::math::abs(y - 1970),
{
    if y == 1970 {
        0
    } else if y > 1970 {
        days_from_epoch_to_year(y - 1) + days_in_year(y - 1)
    } else {
        days_from_epoch_to_year(y + 1) - days_in_year(y)
    }
}

/// Days from the first day of year `y` to the first day of its month `m`.
pub open spec fn days_before_month(y: int, m: int) -> int
    decreases m,
{
    if m <= 1 {
        0
    } else {
        days_before_month(y, m - 1) + days_in_month(y, m - 1)
    }
}

/// Seconds since the Unix epoch of a calendar date and time.
pub open spec fn timestamp_of(y: int, mo: int, d: int, h: int, mi: int) -> int {
    (days_from_epoch_to_year(y) + days_before_month(y, mo) + (d - 1)) * 86400 + h * 3600 + mi * 60
}

/// Seconds since the Unix epoch denoted by a valid date string.
pub open spec fn datetime_ts(s: Seq<char>) -> int {
    timestamp_of(year_of(s), month_of(s), day_of(s), hour_of(s), minute_of(s))
}

/// The platform's inline timestamp markup: `<t:SECONDS:STYLE>`.
pub open spec fn discord_timestamp(ts: int, style: char) -> Seq<char> {
    seq!['<', 't', ':'] + int_repr(ts) + seq![':', style, '>']
}

/// Relies on chrono's conversion from the system clock: seconds since the
/// Unix epoch at the moment of the call, negative when the clock reads
/// before the epoch.  Nothing is assumed of the value.
#[verifier::external_body]
fn current_unix_timestamp() -> i64 {
    chrono::DateTime::<chrono::Utc>::from(std::time::SystemTime::now()).timestamp()
}

fn is_leap_year_exec(y: i64) -> (r: bool)
    requires
        0 <= y,
    ensures
        r == is_leap_year(y as int),
{
    (y % 4 == 0 && y % 100 != 0) || y % 400 == 0
}

fn days_in_year_exec(y: i64) -> (r: i64)
    requires
        0 <= y,
    ensures
        r == days_in_year(y as int),
{
    if is_leap_year_exec(y) {
        366
    } else {
        365
    }
}

fn days_in_month_exec(y: i64, m: i64) -> (r: i64)
    requires
        0 <= y,
        1 <= m <= 12,
    ensures
        r == days_in_month(y as int, m as int),
{
    if m == 2 {
        if is_leap_year_exec(y) {
            29
        } else {
            28
        }
    } else if m == 4 || m == 6 || m == 9 || m == 11 {
        30
    } else {
        31
    }
}

fn days_from_epoch_exec(y: i64) -> (r: i64)
    requires
        0 <= y <= 9999,
    ensures
        r == days_from_epoch_to_year(y as int),
        -730000 <= r <= 2940000,
{
    let mut days: i64 = 0;
    if y >= 1970 {
        let mut i: i64 = 1970;
        while i < y
            invariant
                1970 <= i <= y,
                y <= 9999,
                days == days_from_epoch_to_year(i as int),
                0 <= days <= 366 * (i - 1970),
            decreases y - i,
        {
            days = days + days_in_year_exec(i);
            i = i + 1;
        }
    } else {
        let mut i: i64 = 1970;
        while i > y
            invariant
                y <= i <= 1970,
                0 <= y,
                days == days_from_epoch_to_year(i as int),
                -366 * (1970 - i) <= days <= 0,
            decreases i - y,
        {
            i = i - 1;
            days = days - days_in_year_exec(i);
        }
    }
    days
}

fn days_before_month_exec(y: i64, m: i64) -> (r: i64)
    requires
        0 <= y,
        1 <= m <= 12,
    ensures
        r == days_before_month(y as int, m as int),
        0 <= r <= 366,
{
    let mut days: i64 = 0;
    let mut i: i64 = 1;
    while i < m
        invariant
            1 <= i <= m,
            m <= 12,
            0 <= y,
            days == days_before_month(y as int, i as int),
            0 <= days <= 31 * (i - 1),
        decreases m - i,
    {
        days = days + days_in_month_exec(y, i);
        i = i + 1;
    }
    days
}

/// The value of a digit character, or `None` for any other character.
fn digit_of(c: char) -> (r: Option<i64>)
    ensures
        r is Some <==> is_digit(c),
        r matches Some(d) ==> d == digit_val(c) && 0 <= d <= 9,
{
    let v = c as u32;
    if 48 <= v && v <= 57 {
        Some((v - 48) as i64)
    } else {
        None
    }
}

/// Parses a `YYYY-MM-DD HH:MM` string into seconds since the Unix epoch.
/// Succeeds exactly on strings that denote a real calendar date and time.
pub fn get_unix_timestamp(date: &str) -> (r: Result<i64, OpError>)
    ensures
        r is Ok <==> datetime_valid(date@),
        r matches Ok(ts) ==> ts == datetime_ts(date@),
        r matches Ok(ts) ==> -64000000000 <= ts <= 256000000000,
        r matches Err(e) ==> e == OpError::InvalidDate,
{
    if date.unicode_len() != 16 {
        return Err(OpError::InvalidDate);
    }
    if date.get_char(4) != '-' || date.get_char(7) != '-' || date.get_char(10) != ' '
        || date.get_char(13) != ':' {
        return Err(OpError::InvalidDate);
    }
    let y0 = match digit_of(date.get_char(0)) {
        Some(d) => d,
        None => {
            return Err(OpError::InvalidDate);
        },
    };
    let y1 = match digit_of(date.get_char(1)) {
        Some(d) => d,
        None => {
            return Err(OpError::InvalidDate);
        },
    };
    let y2 = match digit_of(date.get_char(2)) {
        Some(d) => d,
        None => {
            return Err(OpError::InvalidDate);
        },
    };
    let y3 = match digit_of(date.get_char(3)) {
        Some(d) => d,
        None => {
            return Err(OpError::InvalidDate);
        },
    };
    let mo0 = match digit_of(date.get_char(5)) {
        Some(d) => d,
        None => {
            return Err(OpError::InvalidDate);
        },
    };
    let mo1 = match digit_of(date.get_char(6)) {
        Some(d) => d,
        None => {
            return Err(OpError::InvalidDate);
        },
    };
    let d0 = match digit_of(date.get_char(8)) {
        Some(d) => d,
        None => {
            return Err(OpError::InvalidDate);
        },
    };
    let d1 = match digit_of(date.get_char(9)) {
        Some(d) => d,
        None => {
            return Err(OpError::InvalidDate);
        },
    };
    let h0 = match digit_of(date.get_char(11)) {
        Some(d) => d,
        None => {
            return Err(OpError::InvalidDate);
        },
    };
    let h1 = match digit_of(date.get_char(12)) {
        Some(d) => d,
        None => {
            return Err(OpError::InvalidDate);
        },
    };
    let mi0 = match digit_of(date.get_char(14)) {
        Some(d) => d,
        None => {
            return Err(OpError::InvalidDate);
        },
    };
    let mi1 = match digit_of(date.get_char(15)) {
        Some(d) => d,
        None => {
            return Err(OpError::InvalidDate);
        },
    };
    let year = y0 * 1000 + y1 * 100 + y2 * 10 + y3;
    let month = mo0 * 10 + mo1;
    let day = d0 * 10 + d1;
    let hour = h0 * 10 + h1;
    let minute = mi0 * 10 + mi1;
    if month < 1 || month > 12 {
        return Err(OpError::InvalidDate);
    }
    if day < 1 || day > days_in_month_exec(year, month) {
        return Err(OpError::InvalidDate);
    }
    if hour > 23 || minute > 59 {
        return Err(OpError::InvalidDate);
    }
    let days = days_from_epoch_exec(year) + days_before_month_exec(year, month) + (day - 1);
    let ts = days * 86400 + hour * 3600 + minute * 60;
    Ok(ts)
}

/// Whether the string parses as a real calendar date and time.
pub fn is_date_format_valid(date: &str) -> (r: bool)
    ensures
        r == datetime_valid(date@),
{
    get_unix_timestamp(date).is_ok()
}

/// Whether the string parses and denotes a moment strictly after the wall
/// clock's now.  The clock's reading cannot be pinned down, so only the
/// date's well-formedness is promised here; `is_date_in_future_at` carries
/// the exact statement for a given reference time.
pub fn is_date_in_future(date: &str) -> (r: bool)
    ensures
        r ==> datetime_valid(date@),
{
    let now_ts = current_unix_timestamp();
    is_date_in_future_at(date, now_ts)
}

/// Whether the string parses and denotes a moment strictly after `now_ts`.
pub fn is_date_in_future_at(date: &str, now_ts: i64) -> (r: bool)
    ensures
        r == (datetime_valid(date@) && datetime_ts(date@) > now_ts),
{
    match get_unix_timestamp(date) {
        Ok(ts) => ts > now_ts,
        Err(_) => false,
    }
}

/// Renders `<t:SECONDS:STYLE>` markup for one timestamp.
fn discord_ts_string(ts: i64, style: char) -> (r: String)
    requires
        ts > i64::MIN,
    ensures
        r@ == discord_timestamp(ts as int, style),
{
    let mut s = String::from_str("<t:");
    proof {
        reveal_strlit("<t:");
        assert(s@ =~= seq!['<', 't', ':']);
    }
    let digits = i64_to_string(ts);
    s.append(digits.as_str());
    push_char(&mut s, ':');
    push_char(&mut s, style);
    push_char(&mut s, '>');
    proof {
        assert(s@ =~= discord_timestamp(ts as int, style));
    }
    s
}

/// The date rendered as relative-time markup.
pub fn get_relative_timestamp(date: &str) -> (r: Result<String, OpError>)
    ensures
        r is Ok <==> datetime_valid(date@),
        r matches Ok(s) ==> s@ == discord_timestamp(datetime_ts(date@), 'R'),
        r matches Err(e) ==> e == OpError::InvalidDate,
{
    match get_unix_timestamp(date) {
        Ok(ts) => Ok(discord_ts_string(ts, 'R')),
        Err(e) => Err(e),
    }
}

/// The date rendered as short-time markup.
pub fn get_short_time_timestamp(date: &str) -> (r: Result<String, OpError>)
    ensures
        r is Ok <==> datetime_valid(date@),
        r matches Ok(s) ==> s@ == discord_timestamp(datetime_ts(date@), 't'),
        r matches Err(e) ==> e == OpError::InvalidDate,
{
    match get_unix_timestamp(date) {
        Ok(ts) => Ok(discord_ts_string(ts, 't')),
        Err(e) => Err(e),
    }
}

/// The date rendered as long-time markup.
pub fn get_long_time_timestamp(date: &str) -> (r: Result<String, OpError>)
    ensures
        r is Ok <==> datetime_valid(date@),
        r matches Ok(s) ==> s@ == discord_timestamp(datetime_ts(date@), 'T'),
        r matches Err(e) ==> e == OpError::InvalidDate,
{
    match get_unix_timestamp(date) {
        Ok(ts) => Ok(discord_ts_string(ts, 'T')),
        Err(e) => Err(e),
    }
}

/// The date rendered as short-date markup.
pub fn get_short_date_timestamp(date: &str) -> (r: Result<String, OpError>)
    ensures
        r is Ok <==> datetime_valid(date@),
        r matches Ok(s) ==> s@ == discord_timestamp(datetime_ts(date@), 'd'),
        r matches Err(e) ==> e == OpError::InvalidDate,
{
    match get_unix_timestamp(date) {
        Ok(ts) => Ok(discord_ts_string(ts, 'd')),
        Err(e) => Err(e),
    }
}

/// The date rendered as long-date markup.
pub fn get_long_date_timestamp(date: &str) -> (r: Result<String, OpError>)
    ensures
        r is Ok <==> datetime_valid(date@),
        r matches Ok(s) ==> s@ == discord_timestamp(datetime_ts(date@), 'D'),
        r matches Err(e) ==> e == OpError::InvalidDate,
{
    match get_unix_timestamp(date) {
        Ok(ts) => Ok(discord_ts_string(ts, 'D')),
        Err(e) => Err(e),
    }
}

/// The date rendered as long-date-with-short-time markup.
pub fn get_long_date_short_time_timestamp(date: &str) -> (r: Result<String, OpError>)
    ensures
        r is Ok <==> datetime_valid(date@),
        r matches Ok(s) ==> s@ == discord_timestamp(datetime_ts(date@), 'f'),
        r matches Err(e) ==> e == OpError::InvalidDate,
{
    match get_unix_timestamp(date) {
        Ok(ts) => Ok(discord_ts_string(ts, 'f')),
        Err(e) => Err(e),
    }
}

/// The date rendered as long-date-with-week-day markup.
pub fn get_long_date_week_day_timestamp(date: &str) -> (r: Result<String, OpError>)
    ensures
        r is Ok <==> datetime_valid(date@),
        r matches Ok(s) ==> s@ == discord_timestamp(datetime_ts(date@), 'F'),
        r matches Err(e) ==> e == OpError::InvalidDate,
{
    match get_unix_timestamp(date) {
        Ok(ts) => Ok(discord_ts_string(ts, 'F')),
        Err(e) => Err(e),
    }
}

} // verus!
