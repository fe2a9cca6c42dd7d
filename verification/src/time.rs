//! Civil date-times for the provider's wire formats.
//!
//! The provider sends date-times as `"YYYY-MM-DD HH:MM:SS"` text and as Unix
//! second stamps; station samples carry a fixed UTC offset in seconds. This
//! module parses the textual format, converts civil fields to Unix seconds,
//! and renders RFC 3339 text for request parameters, all with exact contracts.

use vstd::prelude::*;
use vstd::string::StrSliceExecFns;
use vstd::string::StringExecFns;
use crate::numtext::all_digits;
use crate::numtext::dec_2;
use crate::numtext::dec_4;
use crate::numtext::dec_val;
use crate::numtext::fmt_2;
use crate::numtext::fmt_4;
use crate::numtext::lemma_dec_val_bound;
use crate::numtext::parse_u64;

verus! {

/// A civil (calendar) date and time of day, without a zone.
#[derive(Clone, Copy, Debug, PartialEq, Eq, Structural)]
pub struct CivilDateTime {
    pub year: u32,
    pub month: u32,
    pub day: u32,
    pub hour: u32,
    pub minute: u32,
    pub second: u32,
}

/// `y` is a leap year of the Gregorian calendar.
pub open spec fn is_leap(y: nat) -> bool {
    y % 4 == 0 && (y % 100 != 0 || y % 400 == 0)
}

/// Number of days in the given month of the given year.
pub open spec fn days_in_month(y: nat, m: nat) -> nat {
    if m == 2 {
        if is_leap(y) { 29 } else { 28 }
    } else if m == 4 || m == 6 || m == 9 || m == 11 {
        30
    } else {
        31
    }
}

/// The fields form a real calendar date and time of day, in the range the
/// pipeline handles.
pub open spec fn civil_valid(c: CivilDateTime) -> bool {
    &&& 1970 <= c.year <= 9999
    &&& 1 <= c.month <= 12
    &&& 1 <= c.day <= days_in_month(c.year as nat, c.month as nat)
    &&& c.hour <= 23
    &&& c.minute <= 59
    &&& c.second <= 59
}

/// Days since 1970-01-01 of a civil date (the standard era-based formula).
pub open spec fn spec_days_from_civil(y: int, m: int, d: int) -> int {
    let yy = if m <= 2 { y - 1 } else { y };
    let era = yy / 400;
    let yoe = yy - era * 400;
    let mp = if m > 2 { m - 3 } else { m + 9 };
    let doy = (153 * mp + 2) / 5 + d - 1;
    let doe = yoe * 365 + yoe / 4 - yoe / 100 + doy;
    era * 146097 + doe - 719468
}

/// Unix seconds of a civil date-time read as UTC.
pub open spec fn spec_civil_unix(c: CivilDateTime) -> int {
    spec_days_from_civil(c.year as int, c.month as int, c.day as int) * 86400
        + c.hour * 3600 + c.minute * 60 + c.second
}

/// Convert a valid civil date-time, read as UTC, to Unix seconds.
pub fn civil_to_unix(c: &CivilDateTime) -> (r: i64)
    requires
        civil_valid(*c),
    ensures
        r as int == spec_civil_unix(*c),
        0 <= r < 0x4000000000,
{
    let y: u64 = c.year as u64;
    let m: u64 = c.month as u64;
    let d: u64 = c.day as u64;
    let yy: u64 = if m <= 2 { y - 1 } else { y };
    let era: u64 = yy / 400;
    let yoe: u64 = yy - era * 400;
    let mp: u64 = if m > 2 { m - 3 } else { m + 9 };
    let doy: u64 = (153 * mp + 2) / 5 + d - 1;
    let doe: u64 = yoe * 365 + yoe / 4 - yoe / 100 + doy;
    let off: u64 = (era * 146097 + doe) * 86400
        + (c.hour as u64) * 3600 + (c.minute as u64) * 60 + (c.second as u64);
    let r: i64 = (off as i64) - 62162035200i64;
    proof {
        assert(r as int == spec_civil_unix(*c));
    }
    r
}

/// Number of days in a month, as executable code.
pub fn month_len(y: u32, m: u32) -> (r: u32)
    requires
        1 <= m <= 12,
    ensures
        r as nat == days_in_month(y as nat, m as nat),
{
    if m == 2 {
        if y % 4 == 0 && (y % 100 != 0 || y % 400 == 0) { 29 } else { 28 }
    } else if m == 4 || m == 6 || m == 9 || m == 11 {
        30
    } else {
        31
    }
}

/// Value of the digit run `s[i..j]`.
pub open spec fn field_val(s: Seq<char>, i: int, j: int) -> nat {
    dec_val(s.subrange(i, j))
}

/// `s[i..j]` is all digits.
pub open spec fn digits_at(s: Seq<char>, i: int, j: int) -> bool {
    all_digits(s.subrange(i, j))
}

/// `s` has the shape `"YYYY-MM-DD HH:MM:SS"`.
pub open spec fn datetime_shape(s: Seq<char>) -> bool {
    &&& s.len() == 19
    &&& s[4] == '-' && s[7] == '-' && s[10] == ' ' && s[13] == ':' && s[16] == ':'
    &&& digits_at(s, 0, 4) && digits_at(s, 5, 7) && digits_at(s, 8, 10)
    &&& digits_at(s, 11, 13) && digits_at(s, 14, 16) && digits_at(s, 17, 19)
}

/// The six numeric fields of a well-shaped date-time string.
pub open spec fn datetime_fields(s: Seq<char>) -> CivilDateTime {
    CivilDateTime {
        year: field_val(s, 0, 4) as u32,
        month: field_val(s, 5, 7) as u32,
        day: field_val(s, 8, 10) as u32,
        hour: field_val(s, 11, 13) as u32,
        minute: field_val(s, 14, 16) as u32,
        second: field_val(s, 17, 19) as u32,
    }
}

/// What parsing `"YYYY-MM-DD HH:MM:SS"` text accepts and yields.
pub open spec fn spec_parse_datetime(s: Seq<char>) -> Option<CivilDateTime> {
    if datetime_shape(s) && civil_valid(datetime_fields(s)) {
        Some(datetime_fields(s))
    } else {
        None
    }
}

/// Parse the provider's `"YYYY-MM-DD HH:MM:SS"` date-time text.
pub fn parse_datetime(s: &str) -> (r: Option<CivilDateTime>)
    ensures
        r == spec_parse_datetime(s@),
{
    let len = s.unicode_len();
    if len != 19 {
        return None;
    }
    if s.get_char(4) != '-' || s.get_char(7) != '-' || s.get_char(10) != ' '
        || s.get_char(13) != ':' || s.get_char(16) != ':' {
        return None;
    }
    let year = match parse_field(s, 0, 4) { Some(v) => v, None => { return None; } };
    let month = match parse_field(s, 5, 7) { Some(v) => v, None => { return None; } };
    let day = match parse_field(s, 8, 10) { Some(v) => v, None => { return None; } };
    let hour = match parse_field(s, 11, 13) { Some(v) => v, None => { return None; } };
    let minute = match parse_field(s, 14, 16) { Some(v) => v, None => { return None; } };
    let second = match parse_field(s, 17, 19) { Some(v) => v, None => { return None; } };
    let c = CivilDateTime { year, month, day, hour, minute, second };
    if year < 1970 || month < 1 || month > 12 || day < 1 || day > month_len(year, month)
        || hour > 23 || minute > 59 || second > 59 {
        return None;
    }
    proof {
        assert(datetime_shape(s@));
        assert(datetime_fields(s@) == c);
        assert(civil_valid(c));
    }
    Some(c)
}

/// Parse the digit run `s[i..j]` of a date-time string (at most four digits).
fn parse_field(s: &str, i: usize, j: usize) -> (r: Option<u32>)
    requires
        i < j <= s@.len(),
        j - i <= 4,
    ensures
        r is Some <==> digits_at(s@, i as int, j as int),
        r is Some ==> r.unwrap() as nat == field_val(s@, i as int, j as int) && r.unwrap() < 10000,
{
    let sub = s.substring_char(i, j);
    match parse_u64(sub) {
        Some(v) => {
            proof {
                lemma_field_bound(s@, i as int, j as int);
            }
            Some(v as u32)
        },
        None => {
            proof {
                if digits_at(s@, i as int, j as int) {
                    lemma_field_bound(s@, i as int, j as int);
                }
            }
            None
        },
    }
}

/// A run of at most four digits is worth less than ten thousand.
proof fn lemma_field_bound(s: Seq<char>, i: int, j: int)
    requires
        0 <= i <= j <= s.len(),
        j - i <= 4,
        all_digits(s.subrange(i, j)),
    ensures
        field_val(s, i, j) < 10000,
{
    lemma_dec_val_bound(s.subrange(i, j));
    let k = (j - i) as nat;
    assert(crate::numtext::pow10(k) <= 10000) by {
        assert(crate::numtext::pow10(0) == 1);
        assert(crate::numtext::pow10(1) == 10);
        assert(crate::numtext::pow10(2) == 100);
        assert(crate::numtext::pow10(3) == 1000);
        assert(crate::numtext::pow10(4) == 10000);
    };
}

/// `s` has the shape `"HH:MM"` with fields in range.
pub open spec fn spec_parse_hour_minute(s: Seq<char>) -> Option<u32> {
    if s.len() == 5 && s[2] == ':' && digits_at(s, 0, 2) && digits_at(s, 3, 5)
        && field_val(s, 0, 2) <= 23 && field_val(s, 3, 5) <= 59 {
        Some((field_val(s, 0, 2) * 60 + field_val(s, 3, 5)) as u32)
    } else {
        None
    }
}

/// Parse the provider's `"HH:MM"` time-of-day text into minutes after
/// midnight.
pub fn parse_hour_minute(s: &str) -> (r: Option<u32>)
    ensures
        r == spec_parse_hour_minute(s@),
{
    let len = s.unicode_len();
    if len != 5 {
        return None;
    }
    if s.get_char(2) != ':' {
        return None;
    }
    let h = match parse_field(s, 0, 2) { Some(v) => v, None => { return None; } };
    let m = match parse_field(s, 3, 5) { Some(v) => v, None => { return None; } };
    if h > 23 || m > 59 {
        return None;
    }
    Some(h * 60 + m)
}

/// RFC 3339 rendering (second precision, `Z` zone) of a civil date-time.
pub open spec fn rfc3339_text(c: CivilDateTime) -> Seq<char> {
    dec_4(c.year as nat) + seq!['-'] + dec_2(c.month as nat) + seq!['-'] + dec_2(c.day as nat)
        + seq!['T'] + dec_2(c.hour as nat) + seq![':'] + dec_2(c.minute as nat) + seq![':']
        + dec_2(c.second as nat) + seq!['Z']
}

/// Render a valid civil date-time, read as UTC, as RFC 3339 text.
pub fn fmt_rfc3339(c: &CivilDateTime) -> (r: String)
    requires
        civil_valid(*c),
    ensures
        r@ == rfc3339_text(*c),
{
    proof {
        reveal_strlit("-");
        reveal_strlit("T");
        reveal_strlit(":");
        reveal_strlit("Z");
    }
    let mut r = fmt_4(c.year as u64);
    r.append("-");
    r.append(fmt_2(c.month as u64).as_str());
    r.append("-");
    r.append(fmt_2(c.day as u64).as_str());
    r.append("T");
    r.append(fmt_2(c.hour as u64).as_str());
    r.append(":");
    r.append(fmt_2(c.minute as u64).as_str());
    r.append(":");
    r.append(fmt_2(c.second as u64).as_str());
    r.append("Z");
    proof {
        assert(r@ =~= rfc3339_text(*c));
    }
    r
}

} // verus!

