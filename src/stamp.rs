//! The time stamp that goes into an update's commit message.

use vstd::prelude::*;
use vstd::string::*;

verus! {

/// Fields of a broken-down time, with the meanings of `time::Tm`: `mon`
/// counts months from January as 0, `year` counts years from 1900.
#[derive(Clone, Copy, Debug, PartialEq, Eq)]
pub struct ClockTime {
    pub sec: i32,
    pub min: i32,
    pub hour: i32,
    pub mday: i32,
    pub mon: i32,
    pub year: i32,
}

impl ClockTime {
    /// The month names a month of the year, and the full year fits in `i32`.
    pub open spec fn wf(&self) -> bool {
        0 <= self.mon < 12 && self.year <= i32::MAX - 1900
    }
}

/// How the stamp is written: month name, day, year, then the time of day.
pub const STAMP_FORMAT: &'static str = "%b %d, %Y (%H:%M:%S)";

/// Conversions that read only the month, day, year, hour, minute and second.
pub open spec fn is_plain_conversion(c: char) -> bool {
    c == 'b' || c == 'd' || c == 'Y' || c == 'H' || c == 'M' || c == 'S'
}

/// Every `%` of `format` is followed by a plain conversion.
pub open spec fn plain_format(format: Seq<char>) -> bool {
    forall|i: int|
        0 <= i < format.len() && #[trigger] format[i] == '%' ==> i + 1 < format.len()
            && is_plain_conversion(format[i + 1])
}

/// What `time::strftime` writes for `format` and the given fields.
pub uninterp spec fn strftime_text(
    format: Seq<char>,
    sec: int,
    min: int,
    hour: int,
    mday: int,
    mon: int,
    year: int,
) -> Seq<char>;

#[verifier::external_type_specification]
#[verifier::external_body]
pub struct ExParseError(time::ParseError);

/// Relies on `time::strftime` from time 0.1: the text depends on the format and
/// the fields alone. The format check refuses only a weekday or month out of
/// range or an unknown conversion; the weekday is 0 here, `wf` keeps the month
/// in range, and plain conversions are all known, so the call succeeds. The
/// plain conversions read `tm_mon` as an index into the month names and add
/// 1900 to `tm_year`, which `wf` keeps in range.
#[verifier::external_body]
fn strftime(format: &str, t: &ClockTime) -> (r: Result<String, time::ParseError>)
    requires
        t.wf(),
        plain_format(format@),
    ensures
        r is Ok,
        r matches Ok(s) ==> s@ == strftime_text(
            format@,
            t.sec as int,
            t.min as int,
            t.hour as int,
            t.mday as int,
            t.mon as int,
            t.year as int,
        ),
{
    let tm = time::Tm {
        tm_sec: t.sec,
        tm_min: t.min,
        tm_hour: t.hour,
        tm_mday: t.mday,
        tm_mon: t.mon,
        tm_year: t.year,
        ..time::empty_tm()
    };
    time::strftime(format, &tm)
}

/// Tells whether every `%` of `format` is followed by a plain conversion.
pub fn check_plain_format(format: &str) -> (r: bool)
    ensures
        r == plain_format(format@),
{
    let n = format.unicode_len();
    let mut i: usize = 0;
    while i < n
        invariant
            n == format@.len(),
            i <= n,
            forall|j: int|
                0 <= j < i && #[trigger] format@[j] == '%' ==> j + 1 < n && is_plain_conversion(
                    format@[j + 1],
                ),
        decreases n - i,
    {
        if format.get_char(i) == '%' {
            if i + 1 >= n || !is_plain_conversion_exec(format.get_char(i + 1)) {
                return false;
            }
        }
        i = i + 1;
    }
    true
}

fn is_plain_conversion_exec(c: char) -> (r: bool)
    ensures
        r == is_plain_conversion(c),
{
    c == 'b' || c == 'd' || c == 'Y' || c == 'H' || c == 'M' || c == 'S'
}

/// Writes `t` in `format`. `None` exactly when the month is out of range, the
/// year is too large, or the format holds another conversion.
pub fn format_time(format: &str, t: &ClockTime) -> (r: Option<String>)
    ensures
        !t.wf() || !plain_format(format@) ==> r is None,
        t.wf() && plain_format(format@) ==> r is Some,
        r matches Some(s) ==> s@ == strftime_text(
            format@,
            t.sec as int,
            t.min as int,
            t.hour as int,
            t.mday as int,
            t.mon as int,
            t.year as int,
        ),
{
    if t.mon < 0 || t.mon >= 12 || t.year > i32::MAX - 1900 {
        return None;
    }
    if !check_plain_format(format) {
        return None;
    }
    match strftime(format, t) {
        Ok(s) => Some(s),
        Err(_) => None,
    }
}

/// The stamp for `t`, as written into an update's commit message.
pub fn stamp_of(t: &ClockTime) -> (r: Option<String>)
    ensures
        !t.wf() ==> r is None,
        t.wf() ==> r is Some,
        r matches Some(s) ==> s@ == strftime_text(
            STAMP_FORMAT@,
            t.sec as int,
            t.min as int,
            t.hour as int,
            t.mday as int,
            t.mon as int,
            t.year as int,
        ),
{
    proof {
        reveal_strlit("%b %d, %Y (%H:%M:%S)");
    }
    format_time(STAMP_FORMAT, t)
}

} // verus!
