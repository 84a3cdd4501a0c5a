//! Calendar timestamps and the literal that writes one.
//!
//! A literal reads `YYYY-MM-DD`, then `T` or a space, then `HH:MM:SS`,
//! optionally a point and one to six digits of a second's fraction, and
//! optionally a closing `Z`.

use vstd::prelude::*;
use crate::text::{all_digits, chars_of, digit_of, digit_run_end, digits_value, lemma_digit_run, lemma_pow10_monotone, pow10, scan_digits};

verus! {

/// A moment on the proleptic Gregorian calendar, to the microsecond.
#[derive(Clone, Copy, Debug, PartialEq, Eq)]
pub struct Timestamp {
    pub year: u16,
    pub month: u8,
    pub day: u8,
    pub hour: u8,
    pub minute: u8,
    pub second: u8,
    pub microsecond: u32,
}

/// Whether year `y` has a 29th of February.
pub open spec fn is_leap_year(y: int) -> bool {
    y % 4 == 0 && (y % 100 != 0 || y % 400 == 0)
}

/// The number of days of month `m` (1 to 12) in year `y`.
pub open spec fn days_in_month(y: int, m: int) -> int {
    if m == 2 {
        if is_leap_year(y) {
            29
        } else {
            28
        }
    } else if m == 4 || m == 6 || m == 9 || m == 11 {
        30
    } else {
        31
    }
}

/// The number written by the characters of `s` from `from` up to `to`.
pub open spec fn field_value(s: Seq<char>, from: int, to: int) -> nat {
    digits_value(s.subrange(from, to))
}

/// Where the fraction of a second ends in `s`: past its last digit when
/// position 19 holds a point, else 19.
pub open spec fn fraction_end(s: Seq<char>) -> int {
    if s.len() > 19 && s[19] == '.' {
        digit_run_end(s, 20)
    } else {
        19
    }
}

/// Whether `s` has the layout of a timestamp literal: digits and separators
/// in their places, a fraction of one to six digits if there is a point,
/// and nothing after it but an optional `Z`.
pub open spec fn has_timestamp_layout(s: Seq<char>) -> bool {
    &&& s.len() >= 19
    &&& all_digits(s, 0, 4)
    &&& s[4] == '-'
    &&& all_digits(s, 5, 7)
    &&& s[7] == '-'
    &&& all_digits(s, 8, 10)
    &&& (s[10] == 'T' || s[10] == ' ')
    &&& all_digits(s, 11, 13)
    &&& s[13] == ':'
    &&& all_digits(s, 14, 16)
    &&& s[16] == ':'
    &&& all_digits(s, 17, 19)
    &&& (s.len() > 19 && s[19] == '.' ==> 21 <= fraction_end(s) <= 26)
    &&& (fraction_end(s) == s.len() || (fraction_end(s) + 1 == s.len() && s[fraction_end(s)] == 'Z'))
}

/// The microseconds that the fraction of `s` writes: its digits, padded
/// with zeros on the right to six places.
pub open spec fn fraction_micros(s: Seq<char>) -> nat {
    if fraction_end(s) > 20 {
        field_value(s, 20, fraction_end(s)) * pow10((26 - fraction_end(s)) as nat)
    } else {
        0
    }
}

/// Whether the fields name a day that the calendar has and a time that a
/// day has.
pub open spec fn is_calendar_moment(year: nat, month: nat, day: nat, hour: nat, minute: nat, second: nat) -> bool {
    &&& 1 <= month <= 12
    &&& 1 <= day <= days_in_month(year as int, month as int)
    &&& hour <= 23
    &&& minute <= 59
    &&& second <= 59
}

/// The timestamp that a text writes, or `None` where the text is no
/// timestamp literal or names a moment that does not exist.
pub open spec fn timestamp_of(s: Seq<char>) -> Option<Timestamp> {
    if has_timestamp_layout(s) && is_calendar_moment(
        field_value(s, 0, 4),
        field_value(s, 5, 7),
        field_value(s, 8, 10),
        field_value(s, 11, 13),
        field_value(s, 14, 16),
        field_value(s, 17, 19),
    ) {
        Some(
            Timestamp {
                year: field_value(s, 0, 4) as u16,
                month: field_value(s, 5, 7) as u8,
                day: field_value(s, 8, 10) as u8,
                hour: field_value(s, 11, 13) as u8,
                minute: field_value(s, 14, 16) as u8,
                second: field_value(s, 17, 19) as u8,
                microsecond: fraction_micros(s) as u32,
            },
        )
    } else {
        None
    }
}

impl Timestamp {
    /// The invariant of the type: the fields name a moment that exists.
    pub open spec fn well_formed(&self) -> bool {
        &&& is_calendar_moment(
            self.year as nat,
            self.month as nat,
            self.day as nat,
            self.hour as nat,
            self.minute as nat,
            self.second as nat,
        )
        &&& self.year <= 9999
        &&& self.microsecond <= 999_999
    }
}

/// Reads the digits of `s` from `from` up to `to` as a number; `None` where
/// one of them is no digit.
fn read_field(s: &Vec<char>, from: usize, to: usize) -> (r: Option<u32>)
    requires
        from <= to <= s@.len(),
        to - from <= 6,
    ensures
        r is Some <==> all_digits(s@, from as int, to as int),
        r matches Some(v) ==> v as nat == field_value(s@, from as int, to as int) && (v as nat) < pow10(
            (to - from) as nat,
        ),
{
    let mut acc: u32 = 0;
    let mut i: usize = from;
    proof {
        reveal_with_fuel(pow10, 8);
        assert(s@.subrange(from as int, from as int).len() == 0);
    }
    while i < to
        invariant
            from <= i <= to <= s@.len(),
            to - from <= 6,
            all_digits(s@, from as int, i as int),
            acc as nat == field_value(s@, from as int, i as int),
            (acc as nat) < pow10((i - from) as nat),
            pow10(6) == 1_000_000,
        decreases to - i,
    {
        match digit_of(s[i]) {
            None => {
                return None;
            },
            Some(d) => {
                proof {
                    let before = s@.subrange(from as int, i as int);
                    let after = s@.subrange(from as int, i + 1);
                    assert(after.drop_last() =~= before);
                    assert(after.last() == s@[i as int]);
                    lemma_pow10_monotone((i + 1 - from) as nat, 6);
                }
                acc = acc * 10 + (d as u32);
                i += 1;
            },
        }
    }
    Some(acc)
}

/// The number of days of month `month` in year `year`.
pub fn month_length(year: u32, month: u32) -> (r: u32)
    ensures
        r as int == days_in_month(year as int, month as int),
{
    if month == 2 {
        if year % 4 == 0 && (year % 100 != 0 || year % 400 == 0) {
            29
        } else {
            28
        }
    } else if month == 4 || month == 6 || month == 9 || month == 11 {
        30
    } else {
        31
    }
}

/// Pads a fraction of `digits` digits to microseconds.
fn scale_fraction(value: u32, digits: usize) -> (r: u32)
    requires
        1 <= digits <= 6,
        (value as nat) < pow10(digits as nat),
    ensures
        r as nat == value as nat * pow10((6 - digits) as nat),
        r <= 999_999,
{
    proof {
        reveal_with_fuel(pow10, 8);
    }
    let factor: u32 = if digits == 1 {
        100_000
    } else if digits == 2 {
        10_000
    } else if digits == 3 {
        1_000
    } else if digits == 4 {
        100
    } else if digits == 5 {
        10
    } else {
        1
    };
    assert(factor as nat == pow10((6 - digits) as nat));
    assert(factor as nat * pow10(digits as nat) == 1_000_000) by {
        reveal_with_fuel(pow10, 8);
    }
    assert(value as nat * factor as nat <= 999_999) by (nonlinear_arith)
        requires
            (value as nat) < pow10(digits as nat),
            factor as nat * pow10(digits as nat) == 1_000_000,
            factor >= 1,
    ;
    value * factor
}

/// Reads a timestamp from its literal.
pub fn parse_timestamp(text: &str) -> (r: Option<Timestamp>)
    ensures
        r == timestamp_of(text@),
        r matches Some(t) ==> t.well_formed(),
{
    let s = chars_of(text);
    let n: usize = s.len();
    if n < 19 {
        return None;
    }
    if s[4] != '-' || s[7] != '-' || (s[10] != 'T' && s[10] != ' ') || s[13] != ':' || s[16] != ':' {
        return None;
    }
    let year = read_field(&s, 0, 4);
    let month = read_field(&s, 5, 7);
    let day = read_field(&s, 8, 10);
    let hour = read_field(&s, 11, 13);
    let minute = read_field(&s, 14, 16);
    let second = read_field(&s, 17, 19);
    if year.is_none() || month.is_none() || day.is_none() || hour.is_none() || minute.is_none() || second.is_none() {
        return None;
    }
    proof {
        reveal_with_fuel(pow10, 8);
    }
    let mut end: usize = 19;
    let mut micros: u32 = 0;
    if n > 19 && s[19] == '.' {
        end = scan_digits(&s, 20);
        if end < 21 || end > 26 {
            return None;
        }
        proof {
            lemma_digit_run(s@, 20);
        }
        let fraction = read_field(&s, 20, end);
        micros = scale_fraction(fraction.unwrap(), end - 20);
    }
    if !(end == n || (end + 1 == n && s[end] == 'Z')) {
        return None;
    }
    let y: u32 = year.unwrap();
    let mo: u32 = month.unwrap();
    let d: u32 = day.unwrap();
    let h: u32 = hour.unwrap();
    let mi: u32 = minute.unwrap();
    let se: u32 = second.unwrap();
    if mo < 1 || mo > 12 || d < 1 || d > month_length(y, mo) || h > 23 || mi > 59 || se > 59 {
        return None;
    }
    Some(
        Timestamp {
            year: y as u16,
            month: mo as u8,
            day: d as u8,
            hour: h as u8,
            minute: mi as u8,
            second: se as u8,
            microsecond: micros,
        },
    )
}

} // verus!
