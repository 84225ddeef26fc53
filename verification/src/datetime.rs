//! Dates and times, and what a date picker lets the user choose.
//!
//! There is no calendar arithmetic here: a [`DateTime`] is a container of year,
//! month, day, hour and minute, with the few conversions a backend needs to
//! move values in and out of its native control.
use vstd::prelude::*;

use crate::ascii::is_digit;
use crate::lexical::{
    all_digits, chars_of, dec_value, find_char, first_index, is_float_at, is_float_text,
    lemma_digits_of, lemma_first_index_at, lemma_padded, lemma_split_three,
    lemma_split_two, padded, parse_i32_at, parse_i32_spec, parse_u8_at, parse_u8_spec, push_char,
    push_padded, split_on, split_ranges,
};

verus! {

/// Year, month, day, hour and minute. There are **no seconds**.
///
/// The derived order is the calendar order (year, then month, day, hour and
/// minute); [`DateTime::is_before`] states it.
#[derive(Debug, Clone, Copy, PartialEq, Eq, Structural, PartialOrd, Ord, Hash)]
pub struct DateTime {
    /// The year; [`normalized`](Self::normalized) keeps it in 1..=9999.
    pub year: i32,
    /// The month (1..=12).
    pub month: u8,
    /// The day (1..=the days of the month).
    pub day: u8,
    /// The hour (0..=23).
    pub hour: u8,
    /// The minute (0..=59).
    pub minute: u8,
}

/// Gregorian leap years.
pub open spec fn leap(year: int) -> bool {
    year % 4 == 0 && (year % 100 != 0 || year % 400 == 0)
}

/// The number of days of a month; a month outside 1..=12 counts as 28 days.
pub open spec fn month_days(year: int, month: int) -> int {
    if month == 1 || month == 3 || month == 5 || month == 7 || month == 8 || month == 10
        || month == 12 {
        31
    } else if month == 4 || month == 6 || month == 9 || month == 11 {
        30
    } else if month == 2 && leap(year) {
        29
    } else {
        28
    }
}

pub open spec fn clamp_int(v: int, lo: int, hi: int) -> int {
    if v < lo {
        lo
    } else if v > hi {
        hi
    } else {
        v
    }
}

impl DateTime {
    /// The date that [`DateTime::time`] gives a time of day: the year,
    /// month and day of every value that stands for a time alone.
    pub const TIME_ORIGIN: (i32, u8, u8) = (1970, 1, 1);

    /// A value that the calendar accepts (29 February only in leap years).
    pub open spec fn valid(self) -> bool {
        &&& 1 <= self.year <= 9999
        &&& 1 <= self.month <= 12
        &&& 1 <= self.day <= month_days(self.year as int, self.month as int)
        &&& self.hour <= 23
        &&& self.minute <= 59
    }

    /// Each field brought into its range on its own, without carrying.
    pub open spec fn normal(self) -> DateTime {
        let year = clamp_int(self.year as int, 1, 9999);
        let month = clamp_int(self.month as int, 1, 12);
        DateTime {
            year: year as i32,
            month: month as u8,
            day: clamp_int(self.day as int, 1, month_days(year, month)) as u8,
            hour: if self.hour > 23 {
                23
            } else {
                self.hour
            },
            minute: if self.minute > 59 {
                59
            } else {
                self.minute
            },
        }
    }

    pub open spec fn with_date_spec(self, year: i32, month: u8, day: u8) -> DateTime {
        DateTime { year, month, day, ..self }.normal()
    }

    pub open spec fn with_time_spec(self, hour: u8, minute: u8) -> DateTime {
        DateTime { hour, minute, ..self }.normal()
    }

    /// Strictly earlier in the calendar order (year, month, day, hour, minute).
    pub open spec fn before(self, other: DateTime) -> bool {
        ||| self.year < other.year
        ||| self.year == other.year && self.month < other.month
        ||| self.year == other.year && self.month == other.month && self.day < other.day
        ||| self.year == other.year && self.month == other.month && self.day == other.day
            && self.hour < other.hour
        ||| self.year == other.year && self.month == other.month && self.day == other.day
            && self.hour == other.hour && self.minute < other.minute
    }

    pub fn new(year: i32, month: u8, day: u8, hour: u8, minute: u8) -> (r: Self)
        ensures
            r == (DateTime { year, month, day, hour, minute }),
    {
        DateTime { year, month, day, hour, minute }
    }

    /// A date at 00:00.
    pub fn date(year: i32, month: u8, day: u8) -> (r: Self)
        ensures
            r == (DateTime { year, month, day, hour: 0, minute: 0 }),
    {
        Self::new(year, month, day, 0, 0)
    }

    /// A time of day; the date part is the origin 1970-01-01.
    pub fn time(hour: u8, minute: u8) -> (r: Self)
        ensures
            r == (DateTime { year: 1970, month: 1, day: 1, hour, minute }),
    {
        let (year, month, day) = Self::TIME_ORIGIN;
        Self::new(year, month, day, hour, minute)
    }

    /// Whether the calendar accepts the value (leap days included).
    pub fn is_valid(self) -> (r: bool)
        ensures
            r == self.valid(),
    {
        1 <= self.year && self.year <= 9999 && 1 <= self.month && self.month <= 12 && 1
            <= self.day && self.day <= days_in_month(self.year, self.month) && self.hour <= 23
            && self.minute <= 59
    }

    /// Each field is brought into its range without carrying: 31 November
    /// becomes 30 November, not 1 December.
    pub fn normalized(self) -> (r: Self)
        ensures
            r == self.normal(),
            r.valid(),
            self.valid() ==> r == self,
    {
        let year = if self.year < 1 {
            1
        } else if self.year > 9999 {
            9999
        } else {
            self.year
        };
        let month = if self.month < 1 {
            1
        } else if self.month > 12 {
            12
        } else {
            self.month
        };
        let last = days_in_month(year, month);
        let day = if self.day < 1 {
            1
        } else if self.day > last {
            last
        } else {
            self.day
        };
        let hour = if self.hour > 23 {
            23
        } else {
            self.hour
        };
        let minute = if self.minute > 59 {
            59
        } else {
            self.minute
        };
        DateTime { year, month, day, hour, minute }
    }

    /// The date replaced, the time kept; the result is normalized.
    pub fn with_date(self, year: i32, month: u8, day: u8) -> (r: Self)
        ensures
            r == self.with_date_spec(year, month, day),
    {
        DateTime { year, month, day, ..self }.normalized()
    }

    /// The time replaced, the date kept; the result is normalized.
    pub fn with_time(self, hour: u8, minute: u8) -> (r: Self)
        ensures
            r == self.with_time_spec(hour, minute),
    {
        DateTime { hour, minute, ..self }.normalized()
    }

    /// Strictly earlier in the calendar order; the order that the derived
    /// `Ord` gives.
    pub fn is_before(self, other: Self) -> (r: bool)
        ensures
            r == self.before(other),
    {
        if self.year != other.year {
            self.year < other.year
        } else if self.month != other.month {
            self.month < other.month
        } else if self.day != other.day {
            self.day < other.day
        } else if self.hour != other.hour {
            self.hour < other.hour
        } else {
            self.minute < other.minute
        }
    }

    /// The text `{:04}-{:02}-{:02} {:02}:{:02}` of the fields as they are
    /// (what `Display` writes, `2026-08-22 09:30`).
    pub open spec fn text(self) -> Seq<char> {
        signed_padded(self.year as int, 4) + seq!['-'] + padded(self.month as nat, 2) + seq!['-']
            + padded(self.day as nat, 2) + seq![' '] + padded(self.hour as nat, 2) + seq![':']
            + padded(self.minute as nat, 2)
    }

    /// The `Display` text, such as `2026-08-22 09:30`.
    pub fn to_string(&self) -> (r: String)
        ensures
            r@ == self.text(),
    {
        let mut out = String::new();
        push_signed_padded(&mut out, self.year, 4);
        push_char(&mut out, '-');
        push_padded(&mut out, self.month as u32, 2);
        push_char(&mut out, '-');
        push_padded(&mut out, self.day as u32, 2);
        push_char(&mut out, ' ');
        push_padded(&mut out, self.hour as u32, 2);
        push_char(&mut out, ':');
        push_padded(&mut out, self.minute as u32, 2);
        out
    }
}

impl Default for DateTime {
    /// 00:00 on the origin date 1970-01-01.
    fn default() -> (r: Self)
        ensures
            r == (DateTime { year: 1970, month: 1, day: 1, hour: 0, minute: 0 }),
    {
        let (year, month, day) = Self::TIME_ORIGIN;
        DateTime::date(year, month, day)
    }
}

/// `{:0width$}` for a signed value: the sign counts toward the width.
pub open spec fn signed_padded(v: int, width: nat) -> Seq<char> {
    if v < 0 {
        seq!['-'] + padded((0 - v) as nat, if width > 0 {
            (width - 1) as nat
        } else {
            0
        })
    } else {
        padded(v as nat, width)
    }
}

fn push_signed_padded(s: &mut String, v: i32, width: usize)
    requires
        width >= 1,
    ensures
        final(s)@ == old(s)@ + signed_padded(v as int, width as nat),
{
    if v < 0 {
        push_char(s, '-');
        let m: i64 = 0 - (v as i64);
        push_padded(s, m as u32, width - 1);
        assert(final(s)@ =~= old(s)@ + signed_padded(v as int, width as nat));
    } else {
        push_padded(s, v as u32, width);
        assert(final(s)@ =~= old(s)@ + signed_padded(v as int, width as nat));
    }
}

/// The days of a month, leap years included. A month outside 1..=12 counts as
/// 28 days.
pub fn days_in_month(year: i32, month: u8) -> (r: u8)
    ensures
        r == month_days(year as int, month as int),
        28 <= r <= 31,
{
    if month == 1 || month == 3 || month == 5 || month == 7 || month == 8 || month == 10 || month
        == 12 {
        31
    } else if month == 4 || month == 6 || month == 9 || month == 11 {
        30
    } else if month == 2 && is_leap_year(year) {
        29
    } else {
        28
    }
}

/// Gregorian leap years.
pub fn is_leap_year(year: i32) -> (r: bool)
    ensures
        r == leap(year as int),
{
    year % 4 == 0 && (year % 100 != 0 || year % 400 == 0)
}

/// What a date picker lets the user choose. It is fixed when the picker is
/// made.
#[derive(Debug, Clone, Copy, PartialEq, Eq, Structural, Hash)]
pub enum DatePickerMode {
    /// Year, month and day only; the time part is kept as it is.
    Date,
    /// Hour and minute only; the date part is kept as it is.
    Time,
    /// Both.
    DateTime,
}

impl Default for DatePickerMode {
    fn default() -> (r: Self)
        ensures
            r == DatePickerMode::Date,
    {
        DatePickerMode::Date
    }
}

/// The date part as `2026-08-22` (on a normalized value).
pub open spec fn date_text(v: DateTime) -> Seq<char> {
    padded(v.year as nat, 4) + seq!['-'] + padded(v.month as nat, 2) + seq!['-'] + padded(
        v.day as nat,
        2,
    )
}

/// The time part as `09:30`.
pub open spec fn time_text(v: DateTime) -> Seq<char> {
    padded(v.hour as nat, 2) + seq![':'] + padded(v.minute as nat, 2)
}

/// `str::split_once(c)`: the text before and after the first `c`.
pub open spec fn split_once(t: Seq<char>, c: char) -> Option<(Seq<char>, Seq<char>)> {
    let i = first_index(t, c);
    if i < 0 {
        None
    } else {
        Some((t.take(i), t.skip(i + 1)))
    }
}

/// The fields of `2026-08-22`: exactly three `-`-separated pieces, read as
/// `i32`, `u8` and `u8` by `str::parse`.
pub open spec fn date_fields(t: Seq<char>) -> Option<(i32, u8, u8)> {
    let parts = split_on(t, '-');
    if parts.len() == 3 && parse_i32_spec(parts[0]) is Some && parse_u8_spec(parts[1]) is Some
        && parse_u8_spec(parts[2]) is Some {
        Some(
            (
                parse_i32_spec(parts[0]).unwrap(),
                parse_u8_spec(parts[1]).unwrap(),
                parse_u8_spec(parts[2]).unwrap(),
            ),
        )
    } else {
        None
    }
}

/// The fields of `09:30`, or of `09:30:00` whose seconds part is any text
/// that `str::parse::<f64>` accepts (and is then dropped).
pub open spec fn time_fields(t: Seq<char>) -> Option<(u8, u8)> {
    let parts = split_on(t, ':');
    if (parts.len() == 2 || (parts.len() == 3 && is_float_text(parts[2]))) && parse_u8_spec(
        parts[0],
    ) is Some && parse_u8_spec(parts[1]) is Some {
        Some((parse_u8_spec(parts[0]).unwrap(), parse_u8_spec(parts[1]).unwrap()))
    } else {
        None
    }
}

/// The date and time pieces of `2026-08-22T09:30`, split at the first `T`,
/// or at the first space when there is no `T`.
pub open spec fn date_time_pieces(t: Seq<char>) -> Option<(Seq<char>, Seq<char>)> {
    if split_once(t, 'T') is Some {
        split_once(t, 'T')
    } else {
        split_once(t, ' ')
    }
}

impl DatePickerMode {
    pub open spec fn picks_date(self) -> bool {
        self is Date || self is DateTime
    }

    pub open spec fn picks_time(self) -> bool {
        self is Time || self is DateTime
    }

    /// The part that the mode compares; the part not shown is zeroed.
    pub open spec fn key_spec(self, v: DateTime) -> DateTime {
        match self {
            DatePickerMode::Date => DateTime { year: v.year, month: v.month, day: v.day, hour: 0, minute: 0 },
            DatePickerMode::Time => DateTime { year: 0, month: 0, day: 0, hour: v.hour, minute: v.minute },
            DatePickerMode::DateTime => v,
        }
    }

    /// The shown part taken from `edited`, the rest from `base`; normalized.
    pub open spec fn apply_spec(self, base: DateTime, edited: DateTime) -> DateTime {
        match self {
            DatePickerMode::Date => base.with_date_spec(edited.year, edited.month, edited.day),
            DatePickerMode::Time => base.with_time_spec(edited.hour, edited.minute),
            DatePickerMode::DateTime => edited.normal(),
        }
    }

    /// `value` normalized, raised to `min` and then lowered to `max` in the
    /// shown part only.
    pub open spec fn clamp_spec(
        self,
        value: DateTime,
        min: Option<DateTime>,
        max: Option<DateTime>,
    ) -> DateTime {
        let v = value.normal();
        let low = match min {
            Some(m) => if self.key_spec(v).before(self.key_spec(m.normal())) {
                self.apply_spec(v, m.normal())
            } else {
                v
            },
            None => v,
        };
        match max {
            Some(m) => if self.key_spec(m.normal()).before(self.key_spec(low)) {
                self.apply_spec(low, m.normal())
            } else {
                low
            },
            None => low,
        }
    }

    /// The text of an HTML `<input>` value: `2026-08-22`, `09:30` or
    /// `2026-08-22T09:30`, of the normalized value.
    pub open spec fn format_spec(self, value: DateTime) -> Seq<char> {
        let v = value.normal();
        match self {
            DatePickerMode::Date => date_text(v),
            DatePickerMode::Time => time_text(v),
            DatePickerMode::DateTime => date_text(v) + seq!['T'] + time_text(v),
        }
    }

    /// What [`parse`](Self::parse) returns.
    pub open spec fn parse_spec(self, text: Seq<char>, base: DateTime) -> Option<DateTime> {
        match self {
            DatePickerMode::Date => match date_fields(text) {
                Some((y, m, d)) => Some(base.with_date_spec(y, m, d)),
                None => None,
            },
            DatePickerMode::Time => match time_fields(text) {
                Some((h, mi)) => Some(base.with_time_spec(h, mi)),
                None => None,
            },
            DatePickerMode::DateTime => match date_time_pieces(text) {
                Some((a, b)) => match (date_fields(a), time_fields(b)) {
                    (Some((y, m, d)), Some((h, mi))) => Some(
                        DateTime { year: y, month: m, day: d, hour: h, minute: mi }.normal(),
                    ),
                    _ => None,
                },
                None => None,
            },
        }
    }

    /// Whether the mode lets the user choose year, month and day.
    pub fn has_date(self) -> (r: bool)
        ensures
            r == self.picks_date(),
    {
        match self {
            DatePickerMode::Date | DatePickerMode::DateTime => true,
            DatePickerMode::Time => false,
        }
    }

    /// Whether the mode lets the user choose hour and minute.
    pub fn has_time(self) -> (r: bool)
        ensures
            r == self.picks_time(),
    {
        match self {
            DatePickerMode::Time | DatePickerMode::DateTime => true,
            DatePickerMode::Date => false,
        }
    }

    /// Brings `value` between `min` and `max`, comparing only the part that
    /// the mode shows; the part not shown is never rewritten. When `min` is
    /// after `max`, `max`, applied last, wins.
    pub fn clamp(self, value: DateTime, min: Option<DateTime>, max: Option<DateTime>) -> (r:
        DateTime)
        ensures
            r == self.clamp_spec(value, min, max),
            r.valid(),
    {
        let mut out = value.normalized();
        if let Some(min) = min {
            let min = min.normalized();
            if self.key(out).is_before(self.key(min)) {
                out = self.apply(out, min);
            }
        }
        if let Some(max) = max {
            let max = max.normalized();
            if self.key(max).is_before(self.key(out)) {
                out = self.apply(out, max);
            }
        }
        out
    }

    /// The value as an HTML `<input>` writes it (also the form of its `min`
    /// and `max` attributes).
    pub fn format(self, value: DateTime) -> (r: String)
        ensures
            r@ == self.format_spec(value),
    {
        let v = value.normalized();
        let mut out = String::new();
        match self {
            DatePickerMode::Date => {
                push_date(&mut out, v);
            },
            DatePickerMode::Time => {
                push_time(&mut out, v);
            },
            DatePickerMode::DateTime => {
                push_date(&mut out, v);
                push_char(&mut out, 'T');
                push_time(&mut out, v);
                assert(out@ =~= date_text(v) + seq!['T'] + time_text(v));
            },
        }
        out
    }

    /// The reverse of [`format`](Self::format): what could be read is laid
    /// over `base`; the part the mode does not show keeps `base`'s value.
    /// Text of any other shape (the empty text too) gives `None`.
    pub fn parse(self, text: &str, base: DateTime) -> (r: Option<DateTime>)
        ensures
            r == self.parse_spec(text@, base),
    {
        let cs = chars_of(text);
        let n = cs.len();
        assert(cs@.subrange(0, n as int) =~= text@);
        match self {
            DatePickerMode::Date => match parse_date(&cs, 0, n) {
                Some((year, month, day)) => Some(base.with_date(year, month, day)),
                None => None,
            },
            DatePickerMode::Time => match parse_time(&cs, 0, n) {
                Some((hour, minute)) => Some(base.with_time(hour, minute)),
                None => None,
            },
            DatePickerMode::DateTime => {
                let at = match find_char(&cs, 0, n, 'T') {
                    Some(k) => Some(k),
                    None => find_char(&cs, 0, n, ' '),
                };
                match at {
                    Some(k) => {
                        assert(text@.take(k as int) =~= cs@.subrange(0, k as int));
                        assert(text@.skip(k + 1) =~= cs@.subrange(k + 1, n as int));
                        match (parse_date(&cs, 0, k), parse_time(&cs, k + 1, n)) {
                            (Some((year, month, day)), Some((hour, minute))) => Some(
                                DateTime { year, month, day, hour, minute }.normalized(),
                            ),
                            _ => None,
                        }
                    },
                    None => None,
                }
            },
        }
    }

    /// The shown part taken from `edited`, the rest kept from `base`; the
    /// result is normalized.
    pub fn apply(self, base: DateTime, edited: DateTime) -> (r: DateTime)
        ensures
            r == self.apply_spec(base, edited),
    {
        match self {
            DatePickerMode::Date => base.with_date(edited.year, edited.month, edited.day),
            DatePickerMode::Time => base.with_time(edited.hour, edited.minute),
            DatePickerMode::DateTime => edited.normalized(),
        }
    }

    /// The part compared; the part not shown is zeroed.
    fn key(self, value: DateTime) -> (r: DateTime)
        ensures
            r == self.key_spec(value),
    {
        match self {
            DatePickerMode::Date => DateTime::date(value.year, value.month, value.day),
            DatePickerMode::Time => DateTime::new(0, 0, 0, value.hour, value.minute),
            DatePickerMode::DateTime => value,
        }
    }
}

fn push_date(s: &mut String, v: DateTime)
    requires
        v.valid(),
    ensures
        final(s)@ == old(s)@ + date_text(v),
{
    push_padded(s, v.year as u32, 4);
    push_char(s, '-');
    push_padded(s, v.month as u32, 2);
    push_char(s, '-');
    push_padded(s, v.day as u32, 2);
    assert(final(s)@ =~= old(s)@ + date_text(v));
}

fn push_time(s: &mut String, v: DateTime)
    ensures
        final(s)@ == old(s)@ + time_text(v),
{
    push_padded(s, v.hour as u32, 2);
    push_char(s, ':');
    push_padded(s, v.minute as u32, 2);
    assert(final(s)@ =~= old(s)@ + time_text(v));
}

/// Reads `2026-08-22` from `cs[lo..hi]`.
fn parse_date(cs: &Vec<char>, lo: usize, hi: usize) -> (r: Option<(i32, u8, u8)>)
    requires
        lo <= hi <= cs@.len(),
    ensures
        r == date_fields(cs@.subrange(lo as int, hi as int)),
{
    let parts = split_ranges(cs, lo, hi, '-');
    if parts.len() != 3 {
        return None;
    }
    let (a0, b0) = parts[0];
    let (a1, b1) = parts[1];
    let (a2, b2) = parts[2];
    let year = parse_i32_at(cs, a0, b0);
    let month = parse_u8_at(cs, a1, b1);
    let day = parse_u8_at(cs, a2, b2);
    match (year, month, day) {
        (Some(y), Some(m), Some(d)) => Some((y, m, d)),
        _ => None,
    }
}

/// Reads `09:30` (or `09:30:00`, whose seconds are dropped) from `cs[lo..hi]`.
fn parse_time(cs: &Vec<char>, lo: usize, hi: usize) -> (r: Option<(u8, u8)>)
    requires
        lo <= hi <= cs@.len(),
    ensures
        r == time_fields(cs@.subrange(lo as int, hi as int)),
{
    let parts = split_ranges(cs, lo, hi, ':');
    let count = parts.len();
    if count != 2 && count != 3 {
        return None;
    }
    let (a0, b0) = parts[0];
    let (a1, b1) = parts[1];
    let hour = parse_u8_at(cs, a0, b0);
    let minute = parse_u8_at(cs, a1, b1);
    if count == 3 {
        let (a2, b2) = parts[2];
        if !is_float_at(cs, a2, b2) {
            return None;
        }
    }
    match (hour, minute) {
        (Some(h), Some(m)) => Some((h, m)),
        _ => None,
    }
}

// ---------------------------------------------------------------------------
// Laws
// ---------------------------------------------------------------------------

proof fn lemma_digits_lack(s: Seq<char>, c: char)
    requires
        all_digits(s),
        !is_digit(c),
    ensures
        !s.contains(c),
{
    if s.contains(c) {
        let j = choose|j: int| 0 <= j < s.len() && s[j] == c;
        assert(is_digit(s[j]));
    }
}

proof fn lemma_parse_padded_u8(m: u8, width: nat)
    ensures
        parse_u8_spec(padded(m as nat, width)) == Some(m),
{
    lemma_padded(m as nat, width);
    lemma_digits_of(m as nat);
    let p = padded(m as nat, width);
    assert(p.len() > 0);
    assert(is_digit(p[0]));
}

proof fn lemma_parse_padded_year(y: i32)
    requires
        1 <= y <= 9999,
    ensures
        parse_i32_spec(padded(y as nat, 4)) == Some(y),
{
    lemma_padded(y as nat, 4);
    let p = padded(y as nat, 4);
    assert(is_digit(p[0]));
}

proof fn lemma_date_fields_of_text(v: DateTime)
    requires
        v.valid(),
    ensures
        date_fields(date_text(v)) == Some((v.year, v.month, v.day)),
        !date_text(v).contains('T'),
        !date_text(v).contains(' '),
{
    let a = padded(v.year as nat, 4);
    let b = padded(v.month as nat, 2);
    let c = padded(v.day as nat, 2);
    lemma_padded(v.year as nat, 4);
    lemma_padded(v.month as nat, 2);
    lemma_padded(v.day as nat, 2);
    lemma_digits_lack(a, '-');
    lemma_digits_lack(b, '-');
    lemma_digits_lack(c, '-');
    lemma_split_three(a, b, c, '-');
    lemma_parse_padded_year(v.year);
    lemma_parse_padded_u8(v.month, 2);
    lemma_parse_padded_u8(v.day, 2);
    let t = date_text(v);
    assert forall|j: int| 0 <= j < t.len() implies t[j] != 'T' && t[j] != ' ' by {
        if j < a.len() {
            assert(t[j] == a[j]);
        } else if j == a.len() {
        } else if j < a.len() + 1 + b.len() {
            assert(t[j] == b[j - a.len() - 1]);
        } else if j == a.len() + 1 + b.len() {
        } else {
            assert(t[j] == c[j - a.len() - 2 - b.len()]);
        }
    }
}

proof fn lemma_time_fields_of_text(v: DateTime)
    ensures
        time_fields(time_text(v)) == Some((v.hour, v.minute)),
{
    let a = padded(v.hour as nat, 2);
    let b = padded(v.minute as nat, 2);
    lemma_padded(v.hour as nat, 2);
    lemma_padded(v.minute as nat, 2);
    lemma_digits_lack(a, ':');
    lemma_digits_lack(b, ':');
    lemma_split_two(a, b, ':');
    lemma_parse_padded_u8(v.hour, 2);
    lemma_parse_padded_u8(v.minute, 2);
}

/// Reading back what [`DatePickerMode::format`] wrote, over the same value,
/// gives that value normalized, in every mode (and so a valid value itself).
pub proof fn lemma_parse_format_round_trip(mode: DatePickerMode, value: DateTime)
    ensures
        mode.parse_spec(mode.format_spec(value), value) == Some(value.normal()),
        value.valid() ==> mode.parse_spec(mode.format_spec(value), value) == Some(value),
{
    let n = value.normal();
    match mode {
        DatePickerMode::Date => {
            lemma_date_fields_of_text(n);
        },
        DatePickerMode::Time => {
            lemma_time_fields_of_text(n);
        },
        DatePickerMode::DateTime => {
            let d = date_text(n);
            let t = time_text(n);
            let text = d + seq!['T'] + t;
            lemma_date_fields_of_text(n);
            lemma_time_fields_of_text(n);
            lemma_first_index_at(d, 'T', t);
            assert(text.take(d.len() as int) =~= d);
            assert(text.skip(d.len() as int + 1) =~= t);
        },
    }
}

/// Normalizing twice is normalizing once; a valid value is left as it is.
pub proof fn lemma_normal_idempotent(v: DateTime)
    ensures
        v.normal().valid(),
        v.normal().normal() == v.normal(),
        v.valid() ==> v.normal() == v,
{
}

/// [`DatePickerMode::apply`] never rewrites the part that the mode does not
/// show: it stays as in `base` normalized.
pub proof fn lemma_apply_keeps_hidden_part(mode: DatePickerMode, base: DateTime, edited: DateTime)
    ensures
        mode.apply_spec(base, edited).valid(),
        mode is Date ==> mode.apply_spec(base, edited).hour == base.normal().hour
            && mode.apply_spec(base, edited).minute == base.normal().minute,
        mode is Time ==> mode.apply_spec(base, edited).year == base.normal().year
            && mode.apply_spec(base, edited).month == base.normal().month
            && mode.apply_spec(base, edited).day == base.normal().day,
        mode.apply_spec(base, edited) == mode.apply_spec(base.normal(), edited),
        mode.key_spec(mode.apply_spec(base, edited)) == mode.key_spec(
            mode.apply_spec(edited, edited),
        ),
{
}

/// [`DatePickerMode::clamp`] never rewrites the part that the mode does not
/// show, and its result is valid.
pub proof fn lemma_clamp_keeps_hidden_part(
    mode: DatePickerMode,
    value: DateTime,
    min: Option<DateTime>,
    max: Option<DateTime>,
)
    ensures
        mode.clamp_spec(value, min, max).valid(),
        mode is Date ==> mode.clamp_spec(value, min, max).hour == value.normal().hour
            && mode.clamp_spec(value, min, max).minute == value.normal().minute,
        mode is Time ==> mode.clamp_spec(value, min, max).year == value.normal().year
            && mode.clamp_spec(value, min, max).month == value.normal().month
            && mode.clamp_spec(value, min, max).day == value.normal().day,
{
}

/// When `min` is not after `max` (in the shown part), the clamped value lies
/// between them in the shown part; a value already between them is only
/// normalized.
pub proof fn lemma_clamp_within_range(
    mode: DatePickerMode,
    value: DateTime,
    min: DateTime,
    max: DateTime,
)
    requires
        !mode.key_spec(max.normal()).before(mode.key_spec(min.normal())),
    ensures
        !mode.key_spec(mode.clamp_spec(value, Some(min), Some(max))).before(
            mode.key_spec(min.normal()),
        ),
        !mode.key_spec(max.normal()).before(
            mode.key_spec(mode.clamp_spec(value, Some(min), Some(max))),
        ),
        !mode.key_spec(value.normal()).before(mode.key_spec(min.normal())) && !mode.key_spec(
            max.normal(),
        ).before(mode.key_spec(value.normal())) ==> mode.clamp_spec(value, Some(min), Some(max))
            == value.normal(),
{
}

/// The calendar position of a value as one number: year, month, day, hour
/// and minute as digits of base 256 (each field but the year fits in a byte).
pub open spec fn calendar_rank(v: DateTime) -> int {
    v.year as int * 0x1_0000_0000 + v.month as int * 0x100_0000 + v.day as int * 0x1_0000
        + v.hour as int * 0x100 + v.minute as int
}

/// [`DateTime::is_before`] is the calendar order: one value is before
/// another exactly when its position (year, then month, day, hour, minute)
/// is the smaller number. In particular, on the same day and hour the
/// smaller minute comes first.
pub proof fn lemma_before_is_calendar_order(a: DateTime, b: DateTime)
    ensures
        a.before(b) <==> calendar_rank(a) < calendar_rank(b),
        a.year == b.year && a.month == b.month && a.day == b.day && a.hour == b.hour ==> (a.before(b)
            <==> a.minute < b.minute),
{
}

/// The position of the shown part of a normalized value, as one number
/// (the date as days of 32 in months of 13, the time as minutes).
pub open spec fn shown_rank(mode: DatePickerMode, v: DateTime) -> int {
    let date = v.year as int * 416 + v.month as int * 32 + v.day as int;
    let time = v.hour as int * 60 + v.minute as int;
    match mode {
        DatePickerMode::Date => date,
        DatePickerMode::Time => time,
        DatePickerMode::DateTime => date * 1440 + time,
    }
}

/// [`DatePickerMode::clamp`] with a lower bound only: when the shown part of
/// the value comes before the bound's, the shown part is raised to the
/// bound's and the rest kept; otherwise the value is only normalized.
pub proof fn lemma_clamp_raises_to_min(mode: DatePickerMode, value: DateTime, min: DateTime)
    ensures
        ({
            let v = value.normal();
            let m = min.normal();
            let r = mode.clamp_spec(value, Some(min), None);
            &&& shown_rank(mode, v) < shown_rank(mode, m) ==> shown_rank(mode, r) == shown_rank(mode, m)
                && (mode.picks_date() ==> r.year == m.year && r.month == m.month && r.day == m.day)
                && (mode.picks_time() ==> r.hour == m.hour && r.minute == m.minute)
            &&& shown_rank(mode, v) >= shown_rank(mode, m) ==> r == v
            &&& !mode.picks_date() ==> r.year == v.year && r.month == v.month && r.day == v.day
            &&& !mode.picks_time() ==> r.hour == v.hour && r.minute == v.minute
        }),
{
    let v = value.normal();
    let m = min.normal();
    lemma_normal_bounds(value);
    lemma_normal_bounds(min);
    lemma_key_order(mode, v, m);
    lemma_clamp_keeps_hidden_part(mode, value, Some(min), None);
}

/// [`DatePickerMode::clamp`] with an upper bound only: when the shown part of
/// the value comes after the bound's, the shown part is lowered to the
/// bound's and the rest kept; otherwise the value is only normalized.
pub proof fn lemma_clamp_lowers_to_max(mode: DatePickerMode, value: DateTime, max: DateTime)
    ensures
        ({
            let v = value.normal();
            let m = max.normal();
            let r = mode.clamp_spec(value, None, Some(max));
            &&& shown_rank(mode, m) < shown_rank(mode, v) ==> shown_rank(mode, r) == shown_rank(mode, m)
                && (mode.picks_date() ==> r.year == m.year && r.month == m.month && r.day == m.day)
                && (mode.picks_time() ==> r.hour == m.hour && r.minute == m.minute)
            &&& shown_rank(mode, m) >= shown_rank(mode, v) ==> r == v
            &&& !mode.picks_date() ==> r.year == v.year && r.month == v.month && r.day == v.day
            &&& !mode.picks_time() ==> r.hour == v.hour && r.minute == v.minute
        }),
{
    let v = value.normal();
    let m = max.normal();
    lemma_normal_bounds(value);
    lemma_normal_bounds(max);
    lemma_key_order(mode, m, v);
    lemma_clamp_keeps_hidden_part(mode, value, None, Some(max));
}

proof fn lemma_normal_bounds(value: DateTime)
    ensures
        1 <= value.normal().year <= 9999,
        1 <= value.normal().month <= 12,
        1 <= value.normal().day <= 31,
        value.normal().hour <= 23,
        value.normal().minute <= 59,
{
}

/// On normalized values, comparing the shown parts with `before` is
/// comparing their shown positions.
proof fn lemma_key_order(mode: DatePickerMode, a: DateTime, b: DateTime)
    requires
        1 <= a.month <= 12,
        1 <= a.day <= 31,
        a.hour <= 23,
        a.minute <= 59,
        1 <= b.month <= 12,
        1 <= b.day <= 31,
        b.hour <= 23,
        b.minute <= 59,
    ensures
        mode.key_spec(a).before(mode.key_spec(b)) <==> shown_rank(mode, a) < shown_rank(mode, b),
        shown_rank(mode, a) == shown_rank(mode, b) ==> mode.key_spec(a) == mode.key_spec(b),
{
}

} // verus!
