//! Timestamps with an explicit UTC offset and one-second resolution.

use vstd::prelude::*;
use crate::text::{chars_of, push_char, string_of};

verus! {

pub open spec fn is_leap_year(y: int) -> bool {
    y % 4 == 0 && (y % 100 != 0 || y % 400 == 0)
}

pub open spec fn days_in_month(y: int, m: int) -> int {
    if m == 2 {
        if is_leap_year(y) {
            29
        } else {
            28
        }
    } else if m == 4 || m == 6 || m == 9 || m == 11 {
        30
    } else {
        31
    }
}

/// Whether `y-m-d` is a day of the proleptic Gregorian calendar.
pub open spec fn is_calendar_date(y: int, m: int, d: int) -> bool {
    1 <= m <= 12 && 1 <= d <= days_in_month(y, m)
}

/// Relies on `chrono::NaiveDate::from_ymd_opt`: it gives a date exactly when `m` is a month
/// and `d` a day of that month in year `y`, for years within chrono's range.
#[verifier::external_body]
fn calendar_date_exists(y: i32, m: u32, d: u32) -> (r: bool)
    requires
        0 <= y <= 9999,
    ensures
        r == is_calendar_date(y as int, m as int, d as int),
{
    chrono::NaiveDate::from_ymd_opt(y, m, d).is_some()
}

pub open spec fn is_digit(c: char) -> bool {
    '0' <= c && c <= '9'
}

pub open spec fn digit_value(c: char) -> int {
    c as int - '0' as int
}

/// The number written by the two digits at `i` of `s`.
pub open spec fn num2(s: Seq<char>, i: int) -> int {
    10 * digit_value(s[i]) + digit_value(s[i + 1])
}

/// The number written by the four digits at `i` of `s`.
pub open spec fn num4(s: Seq<char>, i: int) -> int {
    100 * num2(s, i) + num2(s, i + 2)
}

/// Whether `s` starts with `YYYY-MM-DDTHH:MM:SS`.
pub open spec fn has_date_time_prefix(s: Seq<char>) -> bool {
    &&& s.len() >= 19
    &&& forall|i: int|
        0 <= i < 19 && i != 4 && i != 7 && i != 10 && i != 13 && i != 16 ==> is_digit(
            #[trigger] s[i],
        )
    &&& s[4] == '-' && s[7] == '-' && s[10] == 'T' && s[13] == ':' && s[16] == ':'
}

/// The first position at or after `i` that does not hold a digit.
pub open spec fn digits_end(s: Seq<char>, i: int) -> int
    decreases s.len() - i,
{
    if 0 <= i < s.len() && is_digit(s[i]) {
        digits_end(s, i + 1)
    } else {
        i
    }
}

/// Where the UTC offset begins: after the seconds and any fraction of a second, which is a
/// `.` and one or more digits.
pub open spec fn zone_start(s: Seq<char>) -> Option<int> {
    if s.len() > 19 && s[19] == '.' {
        if digits_end(s, 20) > 20 {
            Some(digits_end(s, 20))
        } else {
            None
        }
    } else {
        Some(19)
    }
}

/// The offset in minutes that `z` writes: `Z`, or a sign and `HH:MM`.
pub open spec fn zone_minutes(z: Seq<char>) -> Option<int> {
    if z.len() == 1 && z[0] == 'Z' {
        Some(0)
    } else if z.len() == 6 && (z[0] == '+' || z[0] == '-') && is_digit(z[1]) && is_digit(z[2])
        && z[3] == ':' && is_digit(z[4]) && is_digit(z[5]) && num2(z, 1) <= 23 && num2(z, 4)
        <= 59 {
        let m = 60 * num2(z, 1) + num2(z, 4);
        Some(if z[0] == '-' { -m } else { m })
    } else {
        None
    }
}

/// A CAP timestamp: a wall-clock time with an explicit offset from UTC, to the second.
#[derive(Debug, Copy, Clone, PartialEq, Eq, Structural)]
pub struct DateTime {
    pub year: u16,
    pub month: u8,
    pub day: u8,
    pub hour: u8,
    pub minute: u8,
    pub second: u8,
    /// Minutes east of UTC.
    pub offset_minutes: i16,
}

/// The error returned when text is not a CAP timestamp.
#[derive(Debug, Copy, Clone, PartialEq, Eq, Structural)]
pub struct DateTimeParseError;

/// The timestamp that `s` writes, if any: `YYYY-MM-DDTHH:MM:SS`, an optional fraction of a
/// second that is dropped, and an offset (`Z` counts as UTC).
pub open spec fn datetime_of(s: Seq<char>) -> Option<DateTime> {
    if !has_date_time_prefix(s) {
        None
    } else {
        match zone_start(s) {
            None => None,
            Some(z) => match zone_minutes(s.subrange(z, s.len() as int)) {
                None => None,
                Some(off) => {
                    let d = DateTime {
                        year: num4(s, 0) as u16,
                        month: num2(s, 5) as u8,
                        day: num2(s, 8) as u8,
                        hour: num2(s, 11) as u8,
                        minute: num2(s, 14) as u8,
                        second: num2(s, 17) as u8,
                        offset_minutes: off as i16,
                    };
                    if d.wf() {
                        Some(d)
                    } else {
                        None
                    }
                },
            },
        }
    }
}

/// The two digits of `n < 100`.
pub open spec fn two_digits(n: int) -> Seq<char> {
    seq![((n / 10) + '0' as int) as char, ((n % 10) + '0' as int) as char]
}

/// How a timestamp is written: `YYYY-MM-DDTHH:MM:SS` and `±HH:MM`, with UTC as `-00:00`.
pub open spec fn datetime_text(d: DateTime) -> Seq<char> {
    let off = d.offset_minutes as int;
    let a = if off < 0 { -off } else { off };
    two_digits(d.year as int / 100) + two_digits(d.year as int % 100) + seq!['-'] + two_digits(
        d.month as int,
    ) + seq!['-'] + two_digits(d.day as int) + seq!['T'] + two_digits(d.hour as int) + seq![':']
        + two_digits(d.minute as int) + seq![':'] + two_digits(d.second as int) + seq![
        if off > 0 {
            '+'
        } else {
            '-'
        },
    ] + two_digits(a / 60) + seq![':'] + two_digits(a % 60)
}

impl DateTime {
    /// Whether the fields name a real second with a valid offset.
    pub open spec fn wf(&self) -> bool {
        &&& self.year <= 9999
        &&& is_calendar_date(self.year as int, self.month as int, self.day as int)
        &&& self.hour <= 23 && self.minute <= 59 && self.second <= 59
        &&& -(24 * 60) < self.offset_minutes < 24 * 60
    }

    /// Make a timestamp from its fields, where they name a real second and a valid offset.
    pub fn new(
        year: u16,
        month: u8,
        day: u8,
        hour: u8,
        minute: u8,
        second: u8,
        offset_minutes: i16,
    ) -> (r: Option<DateTime>)
        ensures
            match r {
                Some(d) => d.wf() && d == (DateTime {
                    year,
                    month,
                    day,
                    hour,
                    minute,
                    second,
                    offset_minutes,
                }),
                None => !(DateTime { year, month, day, hour, minute, second, offset_minutes }).wf(),
            },
    {
        let d = DateTime { year, month, day, hour, minute, second, offset_minutes };
        if year <= 9999 && calendar_date_exists(year as i32, month as u32, day as u32) && hour
            <= 23 && minute <= 59 && second <= 59 && -(24 * 60) < offset_minutes && offset_minutes
            < 24 * 60 {
            Some(d)
        } else {
            None
        }
    }

    /// Parse a timestamp. A fraction of a second is accepted and dropped; `Z`, `+00:00` and
    /// `-00:00` all mean UTC; a missing offset is an error.
    pub fn parse(s: &str) -> (r: Result<DateTime, DateTimeParseError>)
        ensures
            match datetime_of(s@) {
                Some(d) => r == Ok::<DateTime, DateTimeParseError>(d),
                None => r is Err,
            },
    {
        let cs = chars_of(s);
        let n = cs.len();
        if n < 19 || cs[4] != '-' || cs[7] != '-' || cs[10] != 'T' || cs[13] != ':' || cs[16]
            != ':' {
            return Err(DateTimeParseError);
        }
        let mut i: usize = 0;
        while i < 19
            invariant
                cs@ == s@,
                n == cs@.len(),
                n >= 19,
                i <= 19,
                forall|j: int|
                    0 <= j < i && j != 4 && j != 7 && j != 10 && j != 13 && j != 16 ==> is_digit(
                        #[trigger] cs@[j],
                    ),
            decreases 19 - i,
        {
            if i != 4 && i != 7 && i != 10 && i != 13 && i != 16 && !('0' <= cs[i] && cs[i]
                <= '9') {
                return Err(DateTimeParseError);
            }
            i = i + 1;
        }
        let mut z: usize = 19;
        if n > 19 && cs[19] == '.' {
            z = 20;
            while z < n && '0' <= cs[z] && cs[z] <= '9'
                invariant
                    cs@ == s@,
                    n == cs@.len(),
                    20 <= z <= n,
                    digits_end(cs@, z as int) == digits_end(cs@, 20),
                decreases n - z,
            {
                z = z + 1;
            }
            if z == 20 {
                return Err(DateTimeParseError);
            }
        }
        let off: i16 = if n - z == 1 && cs[z] == 'Z' {
            0
        } else if n - z == 6 && (cs[z] == '+' || cs[z] == '-') && is_digit_char(cs[z + 1])
            && is_digit_char(cs[z + 2]) && cs[z + 3] == ':' && is_digit_char(cs[z + 4])
            && is_digit_char(cs[z + 5]) {
            let h = two(cs[z + 1], cs[z + 2]);
            let m = two(cs[z + 4], cs[z + 5]);
            if h > 23 || m > 59 {
                return Err(DateTimeParseError);
            }
            let v = (60 * h + m) as i16;
            if cs[z] == '-' {
                -v
            } else {
                v
            }
        } else {
            return Err(DateTimeParseError);
        };
        let year = (100 * two(cs[0], cs[1]) + two(cs[2], cs[3])) as u16;
        match DateTime::new(
            year,
            two(cs[5], cs[6]) as u8,
            two(cs[8], cs[9]) as u8,
            two(cs[11], cs[12]) as u8,
            two(cs[14], cs[15]) as u8,
            two(cs[17], cs[18]) as u8,
            off,
        ) {
            Some(d) => Ok(d),
            None => Err(DateTimeParseError),
        }
    }

    /// The timestamp as CAP text, with UTC written as `-00:00`.
    pub fn to_string(&self) -> (r: String)
        requires
            self.wf(),
        ensures
            r@ == datetime_text(*self),
    {
        let mut out = String::new();
        push_two(&mut out, (self.year / 100) as u8);
        push_two(&mut out, (self.year % 100) as u8);
        push_char(&mut out, '-');
        push_two(&mut out, self.month);
        push_char(&mut out, '-');
        push_two(&mut out, self.day);
        push_char(&mut out, 'T');
        push_two(&mut out, self.hour);
        push_char(&mut out, ':');
        push_two(&mut out, self.minute);
        push_char(&mut out, ':');
        push_two(&mut out, self.second);
        let off = self.offset_minutes;
        push_char(&mut out, if off > 0 { '+' } else { '-' });
        let a: i16 = if off < 0 { -off } else { off };
        push_two(&mut out, (a / 60) as u8);
        push_char(&mut out, ':');
        push_two(&mut out, (a % 60) as u8);
        assert(out@ =~= datetime_text(*self));
        out
    }
}

fn is_digit_char(c: char) -> (r: bool)
    ensures
        r == is_digit(c),
{
    '0' <= c && c <= '9'
}

/// The number that two digits write.
fn two(a: char, b: char) -> (r: u16)
    requires
        is_digit(a),
        is_digit(b),
    ensures
        r == 10 * digit_value(a) + digit_value(b),
{
    10 * (a as u16 - '0' as u16) + (b as u16 - '0' as u16)
}

fn push_two(out: &mut String, n: u8)
    requires
        n < 100,
    ensures
        final(out)@ == old(out)@ + two_digits(n as int),
{
    push_char(out, ((n / 10) + '0' as u8) as char);
    push_char(out, ((n % 10) + '0' as u8) as char);
    assert(final(out)@ =~= old(out)@ + two_digits(n as int));
}

impl std::str::FromStr for DateTime {
    type Err = DateTimeParseError;

    fn from_str(s: &str) -> Result<DateTime, DateTimeParseError> {
        DateTime::parse(s)
    }
}

proof fn lemma_two_digits(s: Seq<char>, i: int, n: int)
    requires
        0 <= n < 100,
        0 <= i,
        i + 2 <= s.len(),
        s.subrange(i, i + 2) == two_digits(n),
    ensures
        is_digit(s[i]),
        is_digit(s[i + 1]),
        num2(s, i) == n,
{
    assert(s[i] == s.subrange(i, i + 2)[0]);
    assert(s[i + 1] == s.subrange(i, i + 2)[1]);
}

/// A character of a written timestamp.
pub open spec fn is_stamp_char(c: char) -> bool {
    is_digit(c) || c == '-' || c == '+' || c == 'T' || c == ':'
}

/// Writing a valid timestamp and parsing the text gives the same timestamp back.
pub proof fn lemma_datetime_round_trip(d: DateTime)
    requires
        d.wf(),
    ensures
        datetime_of(datetime_text(d)) == Some(d),
        datetime_text(d).len() == 25,
        forall|j: int| 0 <= j < 25 ==> is_stamp_char(#[trigger] datetime_text(d)[j]),
{
    let s = datetime_text(d);
    let off = d.offset_minutes as int;
    let a = if off < 0 { -off } else { off };
    assert(s.len() == 25);
    assert(s.subrange(0, 2) =~= two_digits(d.year as int / 100));
    assert(s.subrange(2, 4) =~= two_digits(d.year as int % 100));
    assert(s.subrange(5, 7) =~= two_digits(d.month as int));
    assert(s.subrange(8, 10) =~= two_digits(d.day as int));
    assert(s.subrange(11, 13) =~= two_digits(d.hour as int));
    assert(s.subrange(14, 16) =~= two_digits(d.minute as int));
    assert(s.subrange(17, 19) =~= two_digits(d.second as int));
    lemma_two_digits(s, 0, d.year as int / 100);
    lemma_two_digits(s, 2, d.year as int % 100);
    lemma_two_digits(s, 5, d.month as int);
    lemma_two_digits(s, 8, d.day as int);
    lemma_two_digits(s, 11, d.hour as int);
    lemma_two_digits(s, 14, d.minute as int);
    lemma_two_digits(s, 17, d.second as int);
    assert(has_date_time_prefix(s));
    assert(zone_start(s) == Some(19int));
    let z = s.subrange(19, 25);
    assert(z.subrange(1, 3) =~= two_digits(a / 60));
    assert(z.subrange(4, 6) =~= two_digits(a % 60));
    lemma_two_digits(z, 1, a / 60);
    lemma_two_digits(z, 4, a % 60);
    assert(zone_minutes(z) == Some(off));
    assert(num4(s, 0) == d.year as int);
    assert forall|j: int| 0 <= j < 25 implies is_stamp_char(#[trigger] s[j]) by {
        if j >= 19 {
            assert(s[j] == z[j - 19]);
        }
    }
}

} // verus!
