//! Local wall-clock times, their `YYYY-MM-DD HH:MM` text, and reading that text back.
use vstd::prelude::*;
use chrono::{Datelike, TimeZone, Timelike};

verus! {

/// A calendar date and time of day in the machine's local time zone.
#[derive(Clone, Copy, Debug, PartialEq, Eq, Structural)]
pub struct LocalDateTime {
    pub year: i32,
    pub month: u32,
    pub day: u32,
    pub hour: u32,
    pub minute: u32,
    pub second: u32,
}

pub open spec fn is_leap_year(year: int) -> bool {
    (year % 4 == 0 && year % 100 != 0) || year % 400 == 0
}

pub open spec fn days_in_month(year: int, month: int) -> int {
    if month == 2 {
        if is_leap_year(year) { 29 } else { 28 }
    } else if month == 4 || month == 6 || month == 9 || month == 11 {
        30
    } else {
        31
    }
}

/// Days from 1970-01-01 to `year`-`month`-`day` of the proleptic Gregorian calendar.
pub open spec fn days_from_civil(year: int, month: int, day: int) -> int {
    let y = if month <= 2 { year - 1 } else { year };
    let era = y / 400;
    let year_of_era = y - era * 400;
    let day_of_year = (153 * ((month + 9) % 12) + 2) / 5 + day - 1;
    let day_of_era = year_of_era * 365 + year_of_era / 4 - year_of_era / 100 + day_of_year;
    era * 146097 + day_of_era - 719468
}

/// The number of seconds in a day; a time-zone offset is less than that.
pub const SECONDS_PER_DAY: i64 = 86400;

/// The earliest instant (seconds since the epoch) whose local time has a
/// year of at least 0 under any time-zone offset of less than a day.
pub const EARLIEST_FOUR_DIGIT_SECS: i64 = -62167132801;

/// The latest instant (seconds since the epoch) whose local time has a year
/// of at most 9999 under any time-zone offset of less than a day.
pub const LATEST_FOUR_DIGIT_SECS: i64 = 253402214400;

/// The character of a decimal digit `d < 10`.
pub open spec fn digit_char(d: int) -> char {
    (d + '0' as int) as char
}

pub open spec fn two_digits(n: int) -> Seq<char> {
    seq![digit_char(n / 10), digit_char(n % 10)]
}

pub open spec fn four_digits(n: int) -> Seq<char> {
    seq![digit_char(n / 1000), digit_char((n / 100) % 10), digit_char((n / 10) % 10), digit_char(n % 10)]
}

/// The value of a decimal digit character.
pub open spec fn digit_value(c: char) -> int {
    c as int - '0' as int
}

pub open spec fn is_digit(c: char) -> bool {
    '0' <= c <= '9'
}

/// The value of the `n` digits of `s` that start at `i`.
pub open spec fn digits_value(s: Seq<char>, i: int, n: nat) -> int
    decreases n,
{
    if n == 0 {
        0
    } else {
        10 * digits_value(s, i, (n - 1) as nat) + digit_value(s[i + n - 1])
    }
}

/// Where the digits of `YYYY-MM-DD HH:MM` stand.
pub open spec fn is_digit_position(i: int) -> bool {
    0 <= i < 16 && i != 4 && i != 7 && i != 10 && i != 13
}

/// `s` has the shape `DDDD-DD-DD DD:DD`, `D` a decimal digit.
pub open spec fn has_datetime_shape(s: Seq<char>) -> bool {
    &&& s.len() == 16
    &&& forall|i: int| is_digit_position(i) ==> is_digit(#[trigger] s[i])
    &&& s[4] == '-' && s[7] == '-' && s[10] == ' ' && s[13] == ':'
}

/// The time that a `YYYY-MM-DD HH:MM` text names, with zero seconds; `None` where
/// the text has another shape or names no real date and time of day.
pub open spec fn parse_text(s: Seq<char>) -> Option<LocalDateTime> {
    if has_datetime_shape(s) {
        let d = LocalDateTime {
            year: digits_value(s, 0, 4) as i32,
            month: digits_value(s, 5, 2) as u32,
            day: digits_value(s, 8, 2) as u32,
            hour: digits_value(s, 11, 2) as u32,
            minute: digits_value(s, 14, 2) as u32,
            second: 0,
        };
        if d.wf() {
            Some(d)
        } else {
            None
        }
    } else {
        None
    }
}

impl LocalDateTime {
    /// A real calendar date and time of day.
    pub open spec fn wf(self) -> bool {
        &&& 1 <= self.month <= 12
        &&& 1 <= self.day <= days_in_month(self.year as int, self.month as int)
        &&& self.hour < 24
        &&& self.minute < 60
        &&& self.second < 60
    }

    /// Its year has the four digits that the text form holds.
    pub open spec fn has_four_digit_year(self) -> bool {
        0 <= self.year <= 9999
    }

    /// The text `YYYY-MM-DD HH:MM` of this time; seconds are left out.
    pub open spec fn text(self) -> Seq<char> {
        four_digits(self.year as int) + seq!['-'] + two_digits(self.month as int) + seq!['-']
            + two_digits(self.day as int) + seq![' '] + two_digits(self.hour as int) + seq![':']
            + two_digits(self.minute as int)
    }

    /// Seconds from 1970-01-01 00:00:00 to this wall-clock time, as if it were UTC.
    pub open spec fn wall_seconds(self) -> int {
        days_from_civil(self.year as int, self.month as int, self.day as int) * SECONDS_PER_DAY + self.hour
            * 3600 + self.minute * 60 + self.second
    }

    /// This wall-clock time is the instant `secs` (seconds since the epoch)
    /// moved by a time-zone offset of less than a day.
    pub open spec fn shows_instant(self, secs: int) -> bool {
        -SECONDS_PER_DAY < self.wall_seconds() - secs < SECONDS_PER_DAY
    }

    /// The same time with its seconds set to zero.
    pub open spec fn to_minute(self) -> LocalDateTime {
        LocalDateTime { second: 0, ..self }
    }
}

fn push_digit(s: &mut String, d: u32)
    requires
        d < 10,
    ensures
        final(s)@ == old(s)@.push(digit_char(d as int)),
{
    let t: &str = match d {
        0 => "0",
        1 => "1",
        2 => "2",
        3 => "3",
        4 => "4",
        5 => "5",
        6 => "6",
        7 => "7",
        8 => "8",
        _ => "9",
    };
    proof {
        reveal_strlit("0");
        reveal_strlit("1");
        reveal_strlit("2");
        reveal_strlit("3");
        reveal_strlit("4");
        reveal_strlit("5");
        reveal_strlit("6");
        reveal_strlit("7");
        reveal_strlit("8");
        reveal_strlit("9");
    }
    s.append(t);
    assert(final(s)@ =~= old(s)@.push(digit_char(d as int)));
}

fn push_two_digits(s: &mut String, n: u32)
    requires
        n < 100,
    ensures
        final(s)@ == old(s)@ + two_digits(n as int),
{
    push_digit(s, n / 10);
    push_digit(s, n % 10);
    assert(final(s)@ =~= old(s)@ + two_digits(n as int));
}

fn push_str_lit(s: &mut String, t: &str)
    ensures
        final(s)@ == old(s)@ + t@,
{
    s.append(t);
}

proof fn lemma_four_digits(n: int)
    requires
        0 <= n < 10000,
    ensures
        two_digits(n / 100) + two_digits(n % 100) == four_digits(n),
{
    assert((n / 100) / 10 == n / 1000) by (nonlinear_arith)
        requires
            0 <= n,
    ;
    assert((n % 100) / 10 == (n / 10) % 10) by (nonlinear_arith)
        requires
            0 <= n,
    ;
    assert((n % 100) % 10 == n % 10) by (nonlinear_arith)
        requires
            0 <= n,
    ;
    assert(two_digits(n / 100) + two_digits(n % 100) =~= four_digits(n));
}

/// Lays out `d` as `YYYY-MM-DD HH:MM` in local time; seconds are dropped.
pub fn format_datetime(d: &LocalDateTime) -> (r: String)
    requires
        d.wf(),
        d.has_four_digit_year(),
    ensures
        r@ == d.text(),
{
    let y: u32 = d.year as u32;
    let mut s = String::new();
    push_two_digits(&mut s, y / 100);
    push_two_digits(&mut s, y % 100);
    proof {
        reveal_strlit("-");
        reveal_strlit(" ");
        reveal_strlit(":");
    }
    push_str_lit(&mut s, "-");
    push_two_digits(&mut s, d.month);
    push_str_lit(&mut s, "-");
    push_two_digits(&mut s, d.day);
    push_str_lit(&mut s, " ");
    push_two_digits(&mut s, d.hour);
    push_str_lit(&mut s, ":");
    push_two_digits(&mut s, d.minute);
    proof {
        lemma_four_digits(d.year as int);
    }
    assert(s@ =~= d.text());
    s
}

/// The number of days in `month` of `year`, `month` in `1..=12`.
pub fn month_length(year: i32, month: u32) -> (r: u32)
    ensures
        r == days_in_month(year as int, month as int),
{
    if month == 2 {
        // Shifted by a multiple of 400 years to be non-negative, the year
        // leaves the same remainders.
        let y: u64 = (year as i64 + 2_400_000_000) as u64;
        proof {
            let k = 2_400_000_000int;
            assert((year + k) % 4 == year % 4);
            assert((year + k) % 100 == year % 100);
            assert((year + k) % 400 == year % 400);
        }
        if (y % 4 == 0 && y % 100 != 0) || y % 400 == 0 {
            29
        } else {
            28
        }
    } else if month == 4 || month == 6 || month == 9 || month == 11 {
        30
    } else {
        31
    }
}

fn digit_at(s: &str, i: usize) -> (r: Option<u32>)
    requires
        i < s@.len(),
    ensures
        r == (if is_digit(s@[i as int]) { Some(digit_value(s@[i as int]) as u32) } else { None::<u32> }),
{
    let c = s.get_char(i);
    if '0' <= c && c <= '9' {
        Some(c as u32 - '0' as u32)
    } else {
        None
    }
}

impl LocalDateTime {
    /// Whether this is a real date and time of day with a four-digit year.
    pub fn is_valid(&self) -> (r: bool)
        ensures
            r == (self.wf() && self.has_four_digit_year()),
    {
        1 <= self.month && self.month <= 12 && 1 <= self.day && self.day <= month_length(self.year, self.month)
            && self.hour < 24 && self.minute < 60 && self.second < 60 && 0 <= self.year && self.year <= 9999
    }
}

/// Relies on chrono's `Local.timestamp_opt(secs, 0)`: the local date and time
/// of an instant given in seconds since the epoch, in the machine's time zone,
/// with that zone's offset from UTC in seconds (`FixedOffset::local_minus_utc`);
/// `None` where chrono's dates do not reach it. chrono's dates are those of
/// the proleptic Gregorian calendar, with no nanoseconds no leap second shows,
/// and the local time is the UTC time moved by the `FixedOffset`, which chrono
/// keeps strictly within a day either way. It gives a time for every instant
/// of years 0 to 9999, well within chrono's range.
#[verifier::external_body]
pub fn local_datetime(secs: i64) -> (r: Option<(LocalDateTime, i32)>)
    ensures
        r matches Some((d, offset)) ==> d.wf() && -SECONDS_PER_DAY < offset < SECONDS_PER_DAY
            && d.wall_seconds() == secs + offset,
        EARLIEST_FOUR_DIGIT_SECS <= secs <= LATEST_FOUR_DIGIT_SECS ==> r is Some,
{
    chrono::Local.timestamp_opt(secs, 0).single().map(
        |t| (
            LocalDateTime {
                year: t.year(),
                month: t.month(),
                day: t.day(),
                hour: t.hour(),
                minute: t.minute(),
                second: t.second(),
            },
            t.offset().local_minus_utc(),
        ),
    )
}

/// The local time of an instant of years 0 to 9999, off by less than a day,
/// has a four-digit year.
pub proof fn lemma_four_digit_year(d: LocalDateTime, secs: int)
    requires
        d.wf(),
        d.shows_instant(secs),
        EARLIEST_FOUR_DIGIT_SECS <= secs <= LATEST_FOUR_DIGIT_SECS,
    ensures
        d.has_four_digit_year(),
{
    let days = days_from_civil(d.year as int, d.month as int, d.day as int);
    if d.year > 9999 {
        assert(days >= 2932897);
    }
    if d.year < 0 {
        assert(days <= -719529);
    }
}

/// Reads `YYYY-MM-DD HH:MM` back into a time with zero seconds.
pub fn parse_datetime(s: &str) -> (r: Option<LocalDateTime>)
    ensures
        r == parse_text(s@),
{
    if s.unicode_len() != 16 {
        return None;
    }
    let mut i: usize = 0;
    let mut v: [u32; 16] = [0u32; 16];
    while i < 16
        invariant
            s@.len() == 16,
            0 <= i <= 16,
            forall|j: int|
                #![trigger s@[j]]
                #![trigger v@[j]]
                0 <= j < i && is_digit_position(j) ==> is_digit(s@[j]) && v@[j] == digit_value(s@[j]) && v@[j]
                    < 10,
        decreases 16 - i,
    {
        if i != 4 && i != 7 && i != 10 && i != 13 {
            match digit_at(s, i) {
                Some(x) => {
                    v[i] = x;
                },
                None => {
                    return None;
                },
            }
        }
        i = i + 1;
    }
    if s.get_char(4) != '-' || s.get_char(7) != '-' || s.get_char(10) != ' ' || s.get_char(13) != ':' {
        return None;
    }
    assert(forall|j: int| is_digit_position(j) ==> 0 <= #[trigger] v@[j] < 10);
    assert(is_digit_position(0) && is_digit_position(1) && is_digit_position(2) && is_digit_position(3));
    assert(is_digit_position(5) && is_digit_position(6) && is_digit_position(8) && is_digit_position(9));
    assert(is_digit_position(11) && is_digit_position(12) && is_digit_position(14) && is_digit_position(15));
    assert(has_datetime_shape(s@));
    let year: u32 = ((v[0] * 10 + v[1]) * 10 + v[2]) * 10 + v[3];
    let d = LocalDateTime {
        year: year as i32,
        month: v[5] * 10 + v[6],
        day: v[8] * 10 + v[9],
        hour: v[11] * 10 + v[12],
        minute: v[14] * 10 + v[15],
        second: 0,
    };
    proof {
        reveal_with_fuel(digits_value, 5);
    }
    if d.month < 1 || d.month > 12 || d.day < 1 || d.day > month_length(d.year, d.month) || d.hour >= 24
        || d.minute >= 60 {
        None
    } else {
        Some(d)
    }
}

/// Reading back the text of a time gives that time to the minute.
pub proof fn lemma_text_round_trip(d: LocalDateTime)
    requires
        d.wf(),
        d.has_four_digit_year(),
    ensures
        parse_text(d.text()) == Some(d.to_minute()),
{
    let s = d.text();
    reveal_with_fuel(digits_value, 5);
    assert(has_datetime_shape(s));
    let y = d.year as int;
    assert(digits_value(s, 0, 4) == y);
}

} // verus!
