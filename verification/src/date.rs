//! Calendar dates.

use chrono::{Datelike, NaiveDate};
use vstd::prelude::*;

use crate::{amount, text};

verus! {

/// A day of the proleptic Gregorian calendar.
pub struct DateView {
    pub year: int,
    pub month: nat,
    pub day: nat,
}

/// Whether `year` has a 29th of February.
pub open spec fn is_leap(year: int) -> bool {
    year % 4 == 0 && (year % 100 != 0 || year % 400 == 0)
}

/// How many days the month has.
pub open spec fn days_in_month(year: int, month: nat) -> nat {
    if month == 2 {
        if is_leap(year) {
            29
        } else {
            28
        }
    } else if month == 4 || month == 6 || month == 9 || month == 11 {
        30
    } else {
        31
    }
}

impl DateView {
    /// Whether the day exists, in the years that a date can have.
    pub open spec fn exists_in_calendar(self) -> bool {
        &&& -262143 <= self.year <= 262142
        &&& 1 <= self.month <= 12
        &&& 1 <= self.day <= days_in_month(self.year, self.month)
    }

    /// Whether the day comes before `other`.
    pub open spec fn before(self, other: DateView) -> bool {
        self.year < other.year || (self.year == other.year && (self.month < other.month || (
        self.month == other.month && self.day < other.day)))
    }

    /// The date as `YYYY-MM-DD`; a year that four digits cannot write carries a sign.
    pub open spec fn text(self) -> Seq<char> {
        let distance = if self.year < 0 {
            (-self.year) as nat
        } else {
            self.year as nat
        };
        let digits = if distance < 10000 {
            amount::fixed_digits(distance, 4)
        } else {
            text::nat_text(distance)
        };
        let year = if 0 <= self.year <= 9999 {
            digits
        } else if self.year < 0 {
            seq!['-'] + digits
        } else {
            seq!['+'] + digits
        };
        year + seq!['-'] + amount::fixed_digits(self.month, 2) + seq!['-']
            + amount::fixed_digits(self.day, 2)
    }
}

/// A calendar date.
#[derive(Clone, Copy)]
pub struct Date {
    year: i32,
    month: u32,
    day: u32,
}

impl View for Date {
    type V = DateView;

    closed spec fn view(&self) -> DateView {
        DateView { year: self.year as int, month: self.month as nat, day: self.day as nat }
    }
}

impl Date {
    /// A date is a day that exists.
    #[verifier::type_invariant]
    spec fn on_calendar(self) -> bool {
        self@.exists_in_calendar()
    }

    /// The date of that year, month and day, if there is such a day.
    pub fn from_ymd_opt(year: i32, month: u32, day: u32) -> (d: Option<Date>)
        ensures
            d is Some <==> (DateView {
                year: year as int,
                month: month as nat,
                day: day as nat,
            }).exists_in_calendar(),
            d matches Some(n) ==> n@ == (DateView {
                year: year as int,
                month: month as nat,
                day: day as nat,
            }),
    {
        if year < -262143 || year > 262142 || month < 1 || month > 12 || day < 1 {
            return None;
        }
        let y: i64 = year as i64;
        let era: i64 = y + 262400;
        let leap = era % 4 == 0 && (era % 100 != 0 || era % 400 == 0);
        let days: u32 = if month == 2 {
            if leap {
                29
            } else {
                28
            }
        } else if month == 4 || month == 6 || month == 9 || month == 11 {
            30
        } else {
            31
        };
        proof {
            assert(leap == is_leap(year as int));
        }
        if day <= days {
            Some(Date { year, month, day })
        } else {
            None
        }
    }

    /// The year, the month and the day.
    pub fn ymd(&self) -> (p: (i32, u32, u32))
        ensures
            self@ == (DateView { year: p.0 as int, month: p.1 as nat, day: p.2 as nat }),
            self@.exists_in_calendar(),
    {
        proof {
            use_type_invariant(self);
        }
        (self.year, self.month, self.day)
    }

    /// Whether the date comes before `other`.
    pub fn before(&self, other: &Date) -> (earlier: bool)
        ensures
            earlier == self@.before(other@),
    {
        self.year < other.year || (self.year == other.year && (self.month < other.month || (
        self.month == other.month && self.day < other.day)))
    }

    /// The date as text, which reads back as the same date.
    pub fn text(&self) -> (s: String)
        ensures
            s@ == self@.text(),
            date_reading(s@) == Some(self@),
    {
        proof {
            use_type_invariant(self);
        }
        date_text(self)
    }
}

/// What the `FromStr` of `NaiveDate` in the `chrono` crate reads in a text, or
/// nothing where it refuses the text.
pub uninterp spec fn date_reading(text: Seq<char>) -> Option<DateView>;

/// `str::parse` to a `NaiveDate` of the `chrono` crate. Which texts it reads is left
/// to the crate: the result is named, not described.
#[verifier::external_body]
pub(crate) fn date_from_str(text: &str) -> (date: Option<Date>)
    ensures
        match date {
            Some(d) => date_reading(text@) == Some(d@),
            None => date_reading(text@) is None,
        },
{
    match text.parse::<NaiveDate>() {
        Ok(d) => Some(Date { year: d.year(), month: d.month(), day: d.day() }),
        Err(_) => None,
    }
}

/// `to_string` of a `chrono` `NaiveDate`: the ISO 8601 form, with a sign on a year
/// outside the four-digit ones. The `FromStr` of the type reads that form back. The
/// day has to exist.
#[verifier::external_body]
fn date_text(date: &Date) -> (text: String)
    requires
        date@.exists_in_calendar(),
    ensures
        text@ == date@.text(),
        date_reading(text@) == Some(date@),
{
    NaiveDate::from_ymd_opt(date.year, date.month, date.day).unwrap().to_string()
}

/// A date as text has no white space at its ends.
pub proof fn lemma_text_is_trimmed(date: DateView)
    ensures
        text::trimmed(date.text()) == date.text(),
        date.text().len() > 0,
{
    let distance = if date.year < 0 {
        (-date.year) as nat
    } else {
        date.year as nat
    };
    lemma_fixed_digits(distance, 4);
    lemma_fixed_digits(date.day, 2);
    text::lemma_nat_text(distance);
    let all = date.text();
    let day = amount::fixed_digits(date.day, 2);
    assert(all.last() == day[1]);
    assert(text::is_digit(all.last()));
    assert(text::is_digit(all[0]) || all[0] == '-' || all[0] == '+');
    text::lemma_trimmed_kept(all);
}

proof fn lemma_fixed_digits(n: nat, width: nat)
    ensures
        amount::fixed_digits(n, width).len() == width,
        forall|i: int|
            0 <= i < width ==> text::is_digit(#[trigger] amount::fixed_digits(n, width)[i]),
    decreases width,
{
    if width > 0 {
        lemma_fixed_digits(n / 10, (width - 1) as nat);
        let before = amount::fixed_digits(n / 10, (width - 1) as nat);
        assert forall|i: int| 0 <= i < width implies text::is_digit(
            #[trigger] amount::fixed_digits(n, width)[i],
        ) by {
            if i < width - 1 {
                assert(amount::fixed_digits(n, width)[i] == before[i]);
            }
        }
    }
}

/// One day comes before another exactly where its year, month and day, read as one
/// number, are the smaller one.
pub proof fn days_come_in_order(a: DateView, b: DateView)
    requires
        a.exists_in_calendar(),
        b.exists_in_calendar(),
    ensures
        a.before(b) <==> 10000 * a.year + 100 * a.month + a.day < 10000 * b.year + 100 * b.month
            + b.day,
        a == b <==> !a.before(b) && !b.before(a),
{
}

/// The days that exist: those of the twelve months, and a 29th of February in the years
/// that four divides, but for the hundreds that four hundred does not divide.
pub proof fn the_calendar_has_these_days(d: DateView)
    requires
        -262143 <= d.year <= 262142,
    ensures
        d.exists_in_calendar() <==> 1 <= d.month <= 12 && 1 <= d.day && (d.day <= seq![
            31nat,
            28,
            31,
            30,
            31,
            30,
            31,
            31,
            30,
            31,
            30,
            31,
        ][d.month - 1] || (d.month == 2 && d.day == 29 && d.year % 4 == 0 && (d.year % 100 == 0
            ==> d.year % 400 == 0))),
{
}

/// A date of a year with four digits is written as these, two for the month and two for
/// the day, with a hyphen between them.
pub proof fn dates_are_written_year_month_day(d: DateView)
    requires
        d.exists_in_calendar(),
        0 <= d.year <= 9999,
    ensures
        ({
            let t = d.text();
            &&& t.len() == 10
            &&& t[0] as u32 == 0x30 + d.year / 1000
            &&& t[1] as u32 == 0x30 + d.year / 100 % 10
            &&& t[2] as u32 == 0x30 + d.year / 10 % 10
            &&& t[3] as u32 == 0x30 + d.year % 10
            &&& t[4] == '-'
            &&& t[5] as u32 == 0x30 + d.month / 10
            &&& t[6] as u32 == 0x30 + d.month % 10
            &&& t[7] == '-'
            &&& t[8] as u32 == 0x30 + d.day / 10
            &&& t[9] as u32 == 0x30 + d.day % 10
        }),
{
    let y = d.year as nat;
    reveal_with_fuel(amount::fixed_digits, 5);
    assert(y / 10 / 10 / 10 == y / 1000);
    assert(y / 10 / 10 == y / 100);
    assert(amount::fixed_digits(y, 4).len() == 4);
    assert(amount::fixed_digits(d.month, 2).len() == 2);
    assert(amount::fixed_digits(d.day, 2).len() == 2);
    let t = d.text();
    assert(t[0] == text::digit_char(y / 10 / 10 / 10 % 10));
    assert(t[1] == text::digit_char(y / 10 / 10 % 10));
    assert(t[2] == text::digit_char(y / 10 % 10));
    assert(t[3] == text::digit_char(y % 10));
    assert(t[5] == text::digit_char(d.month / 10 % 10));
    assert(t[6] == text::digit_char(d.month % 10));
    assert(t[8] == text::digit_char(d.day / 10 % 10));
    assert(t[9] == text::digit_char(d.day % 10));
}

} // verus!
