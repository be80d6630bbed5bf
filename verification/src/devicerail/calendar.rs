//! Dates of the proleptic Gregorian calendar, and timestamps in RFC 3339 form
//! with a resolution of one second.

use vstd::arithmetic::div_mod::*;
use vstd::prelude::*;

use crate::kit::spi::now_seconds;
use crate::text;
use crate::text::{concat, decimal_text};

verus! {

/// A date: year, month from one, and day from one.
pub struct Date {
    /// Year.
    pub year: int,
    /// Month, from 1 to 12.
    pub month: int,
    /// Day of the month, from 1.
    pub day: int,
}

/// Whether a year has a leap day.
pub open spec fn is_leap(year: int) -> bool {
    year % 4 == 0 && (year % 100 != 0 || year % 400 == 0)
}

/// The number of days of a month.
pub open spec fn month_days(year: int, month: int) -> int {
    if month == 2 {
        if is_leap(year) {
            29
        } else {
            28
        }
    } else if month == 4 || month == 6 || month == 9 || month == 11 {
        30
    } else {
        31
    }
}

/// The number of days from the start of year zero to the start of a year.
pub open spec fn days_before_year(year: int) -> int {
    365 * year + (year + 3) / 4 - (year + 99) / 100 + (year + 399) / 400
}

/// The number of days from the start of a year to the start of a month.
pub open spec fn days_before_month(year: int, month: int) -> int
    decreases month,
{
    if month <= 1 {
        0
    } else {
        days_before_month(year, month - 1) + month_days(year, month - 1)
    }
}

impl Date {
    /// Whether the calendar has this date.
    pub open spec fn is_valid(self) -> bool {
        1 <= self.month <= 12 && 1 <= self.day <= month_days(self.year, self.month)
    }

    /// The number of days from 1970-01-01 to this date.
    pub open spec fn day_number(self) -> int {
        days_before_year(self.year) + days_before_month(self.year, self.month) + self.day - 1
            - days_before_year(1970)
    }

    /// The date after this one.
    pub open spec fn next(self) -> Date {
        if self.day < month_days(self.year, self.month) {
            Date { day: self.day + 1, ..self }
        } else if self.month < 12 {
            Date { month: self.month + 1, day: 1, ..self }
        } else {
            Date { year: self.year + 1, month: 1, day: 1 }
        }
    }
}

/// The date that lies `days` days after 1970-01-01.
pub open spec fn date_of(days: int) -> Date {
    choose|d: Date| d.is_valid() && #[trigger] d.day_number() == days
}

/// A year has 365 days, and one more if it has a leap day.
#[verifier::spinoff_prover]
pub proof fn law_year_length(year: int)
    ensures
        days_before_year(year + 1) == days_before_year(year) + (if is_leap(year) {
            366int
        } else {
            365int
        }),
        days_before_month(year, 13) == (if is_leap(year) {
            366int
        } else {
            365int
        }),
{
    assert((year + 4) / 4 == (year + 3) / 4 + (if year % 4 == 0 {
        1int
    } else {
        0int
    }));
    assert((year + 100) / 100 == (year + 99) / 100 + (if year % 100 == 0 {
        1int
    } else {
        0int
    }));
    assert((year + 400) / 400 == (year + 399) / 400 + (if year % 400 == 0 {
        1int
    } else {
        0int
    }));
    assert(year % 400 == 0 ==> year % 100 == 0);
    assert(year % 100 == 0 ==> year % 4 == 0);
    assert(days_before_month(year, 13) == days_before_month(year, 12) + month_days(year, 12));
    lemma_months(year);
}

/// The days before each month of a year.
#[verifier::spinoff_prover]
proof fn lemma_months(year: int)
    ensures
        days_before_month(year, 1) == 0,
        days_before_month(year, 2) == 31,
        ({
            let leap: int = if is_leap(year) {
                1
            } else {
                0
            };
            &&& days_before_month(year, 3) == 59 + leap
            &&& days_before_month(year, 4) == 90 + leap
            &&& days_before_month(year, 5) == 120 + leap
            &&& days_before_month(year, 6) == 151 + leap
            &&& days_before_month(year, 7) == 181 + leap
            &&& days_before_month(year, 8) == 212 + leap
            &&& days_before_month(year, 9) == 243 + leap
            &&& days_before_month(year, 10) == 273 + leap
            &&& days_before_month(year, 11) == 304 + leap
            &&& days_before_month(year, 12) == 334 + leap
        }),
{
    reveal_with_fuel(days_before_month, 13);
}

/// 1970-01-01 is day zero.
pub proof fn law_epoch()
    ensures
        (Date { year: 1970, month: 1, day: 1 }).is_valid(),
        (Date { year: 1970, month: 1, day: 1 }).day_number() == 0,
{
}

/// The date after a date is a date, and its day number is one greater.
pub proof fn law_next_day(d: Date)
    requires
        d.is_valid(),
    ensures
        d.next().is_valid(),
        d.next().day_number() == d.day_number() + 1,
{
    lemma_months(d.year);
    law_year_length(d.year);
    lemma_months(d.year + 1);
}

/// A day of a year lies within it.
proof fn lemma_within_year(d: Date)
    requires
        d.is_valid(),
    ensures
        0 <= days_before_month(d.year, d.month) + d.day - 1 < days_before_year(d.year + 1)
            - days_before_year(d.year),
{
    lemma_months(d.year);
    law_year_length(d.year);
}

/// Years that start later have more days before them.
proof fn lemma_years_ascend(a: int, b: int)
    requires
        a <= b,
    ensures
        days_before_year(a) <= days_before_year(b),
    decreases b - a,
{
    if a < b {
        lemma_years_ascend(a, b - 1);
        law_year_length(b - 1);
    }
}

/// Two dates with one day number are one date.
pub proof fn law_day_number_names_the_date(a: Date, b: Date)
    requires
        a.is_valid(),
        b.is_valid(),
        a.day_number() == b.day_number(),
    ensures
        a == b,
{
    lemma_within_year(a);
    lemma_within_year(b);
    if a.year < b.year {
        lemma_years_ascend(a.year + 1, b.year);
    } else if b.year < a.year {
        lemma_years_ascend(b.year + 1, a.year);
    }
    lemma_months(a.year);
}

/// Every number of days since the epoch has its date.
#[verifier::spinoff_prover]
pub proof fn law_every_day_has_a_date(days: int)
    ensures
        date_of(days).is_valid(),
        date_of(days).day_number() == days,
{
    let era = (days + 719_468) / 146_097;
    let day_of_era = (days + 719_468) % 146_097;
    let d = lemma_date_in_era(era, day_of_era);
    assert(d.is_valid() && d.day_number() == days);
}

/// The parts of a day of a 400-year era that starts on the first of March:
/// century, four-year group, year of the group and day of the year.
pub open spec fn era_parts(day_of_era: int) -> (int, int, int, int) {
    let century = if day_of_era / 36_524 < 3 {
        day_of_era / 36_524
    } else {
        3
    };
    let rest = day_of_era - 36_524 * century;
    let group = rest / 1461;
    let left = rest - 1461 * group;
    let year = if left / 365 < 3 {
        left / 365
    } else {
        3
    };
    (century, group, year, left - 365 * year)
}

/// The date on a day of a year that starts on the first of March.
pub open spec fn march_date(year: int, day_of_year: int) -> Date {
    let shifted = (5 * day_of_year + 2) / 153;
    let day = day_of_year - (153 * shifted + 2) / 5 + 1;
    if shifted < 10 {
        Date { year, month: shifted + 3, day }
    } else {
        Date { year: year + 1, month: shifted - 9, day }
    }
}

/// The bounds of the parts of a day of an era, and when the last day of a
/// leap year is reached.
#[verifier::spinoff_prover]
proof fn lemma_era_parts(day_of_era: int)
    requires
        0 <= day_of_era < 146_097,
    ensures
        ({
            let (century, group, year, day) = era_parts(day_of_era);
            &&& 0 <= century <= 3
            &&& 0 <= group <= 24
            &&& 0 <= year <= 3
            &&& 0 <= day <= 365
            &&& day == 365 ==> year == 3 && (group < 24 || century == 3)
            &&& day_of_era == 36_524 * century + 1461 * group + 365 * year + day
        }),
{
}

/// A day of a year that starts on the first of March has a valid date.
#[verifier::spinoff_prover]
proof fn lemma_march_date(year: int, day_of_year: int)
    requires
        0 <= day_of_year <= 365,
        day_of_year == 365 ==> is_leap(year + 1),
    ensures
        march_date(year, day_of_year).is_valid(),
        march_date(year, day_of_year).day_number() == days_before_year(year) + (if is_leap(year) {
            60int
        } else {
            59int
        }) + day_of_year - days_before_year(1970),
{
    lemma_months(year);
    lemma_months(year + 1);
    law_year_length(year);
    let shifted = (5 * day_of_year + 2) / 153;
    assert(0 <= shifted <= 11);
    if shifted <= 5 {
        assert(shifted == 0 || shifted == 1 || shifted == 2 || shifted == 3 || shifted == 4
            || shifted == 5);
    } else {
        assert(shifted == 6 || shifted == 7 || shifted == 8 || shifted == 9 || shifted == 10
            || shifted == 11);
    }
}

/// Whole eras do not change the place of a year in the leap rule.
proof fn lemma_leap_of_era(era: int, of_era: int)
    ensures
        is_leap(era * 400 + of_era) == is_leap(of_era),
{
    lemma_mod_multiples_vanish(era * 100, of_era, 4);
    lemma_mod_multiples_vanish(era * 4, of_era, 100);
    lemma_mod_multiples_vanish(era, of_era, 400);
    assert(4 * (era * 100) == era * 400);
    assert(100 * (era * 4) == era * 400);
    assert(400 * era == era * 400);
}

/// The days before a year, by its place in the era.
proof fn lemma_year_of_era(era: int, of_era: int)
    ensures
        days_before_year(era * 400 + of_era) == era * 146_097 + days_before_year(of_era),
{
    lemma_hoist_over_denominator(of_era + 3, era * 100, 4);
    lemma_hoist_over_denominator(of_era + 99, era * 4, 100);
    lemma_hoist_over_denominator(of_era + 399, era, 400);
    assert((era * 100) * 4 == era * 400);
    assert((era * 4) * 100 == era * 400);
}

/// The days before a year of an era, by the parts of the year.
#[verifier::spinoff_prover]
proof fn lemma_days_before_parts(century: int, group: int, year: int)
    requires
        0 <= century <= 3,
        0 <= group <= 24,
        0 <= year <= 3,
    ensures
        ({
            let of_era = 100 * century + 4 * group + year;
            days_before_year(of_era) + (if is_leap(of_era) {
                60int
            } else {
                59int
            }) == 36_524 * century + 1461 * group + 365 * year + 60
        }),
        year == 3 && (group < 24 || century == 3) ==> is_leap(
            100 * century + 4 * group + year + 1,
        ),
{
    let of_era = 100 * century + 4 * group + year;
    assert((of_era + 3) / 4 == 25 * century + group + (year + 3) / 4);
    assert((of_era + 99) / 100 == century + (4 * group + year + 99) / 100);
    assert(of_era % 4 == year % 4);
    assert(of_era % 100 == 4 * group + year);
    if year == 3 && group < 24 {
        assert((of_era + 1) % 100 == 4 * group + 4);
        assert((of_era + 1) % 4 == 0);
    }
}

/// The date on a day of an era.
proof fn lemma_date_in_era(era: int, day_of_era: int) -> (d: Date)
    requires
        0 <= day_of_era < 146_097,
    ensures
        d.is_valid(),
        d.day_number() == era * 146_097 + day_of_era - 719_468,
        ({
            let (century, group, year, day) = era_parts(day_of_era);
            d == march_date(era * 400 + 100 * century + 4 * group + year, day)
        }),
{
    let (century, group, year, day) = era_parts(day_of_era);
    lemma_era_parts(day_of_era);
    let of_era = 100 * century + 4 * group + year;
    lemma_days_before_parts(century, group, year);
    lemma_year_of_era(era, of_era);
    lemma_leap_of_era(era, of_era);
    lemma_leap_of_era(era, of_era + 1);
    lemma_march_date(era * 400 + of_era, day);
    march_date(era * 400 + of_era, day)
}

/// The date that lies `days` days after 1970-01-01, as year, month and day.
#[verifier::spinoff_prover]
pub fn civil_from_days(days: i64) -> (r: (i64, u64, u64))
    requires
        days <= i64::MAX - 719_468,
    ensures
        (Date { year: r.0 as int, month: r.1 as int, day: r.2 as int }) == date_of(days as int),
{
    let shifted_days: i64 = days + 719_468;
    let era: i64 = if shifted_days >= 0 {
        shifted_days / 146_097
    } else {
        -((146_096 - shifted_days) / 146_097)
    };
    let day_of_era: u64 = (shifted_days - era * 146_097) as u64;
    let century: u64 = if day_of_era / 36_524 < 3 {
        day_of_era / 36_524
    } else {
        3
    };
    let rest: u64 = day_of_era - 36_524 * century;
    let group: u64 = rest / 1461;
    let left: u64 = rest - 1461 * group;
    let year_of_group: u64 = if left / 365 < 3 {
        left / 365
    } else {
        3
    };
    let day_of_year: u64 = left - 365 * year_of_group;
    let year: i64 = era * 400 + (100 * century + 4 * group + year_of_group) as i64;
    let shifted: u64 = (5 * day_of_year + 2) / 153;
    let day: u64 = day_of_year - (153 * shifted + 2) / 5 + 1;
    proof {
        let d = lemma_date_in_era(era as int, day_of_era as int);
        law_every_day_has_a_date(days as int);
        law_day_number_names_the_date(d, date_of(days as int));
    }
    if shifted < 10 {
        (year, shifted + 3, day)
    } else {
        (year + 1, shifted - 9, day)
    }
}

/// A number in decimal notation with zeros in front up to a width.
pub open spec fn padded(n: nat, width: nat) -> Seq<char> {
    if text::decimal(n).len() >= width {
        text::decimal(n)
    } else {
        Seq::new((width - text::decimal(n).len()) as nat, |i: int| '0') + text::decimal(n)
    }
}

/// Writes a number with zeros in front up to a width.
fn padded_text(n: u64, width: usize) -> (r: String)
    ensures
        r@ == padded(n as nat, width as nat),
{
    let digits = decimal_text(n);
    let len = digits.as_str().unicode_len();
    if len >= width {
        return digits;
    }
    let mut zeros = String::new();
    let mut i: usize = len;
    while i < width
        invariant
            len <= i <= width,
            zeros@ =~= Seq::new((i - len) as nat, |j: int| '0'),
        decreases width - i,
    {
        zeros.push('0');
        i = i + 1;
    }
    concat(zeros.as_str(), digits.as_str())
}

/// The timestamp of a moment: date, time of day and `Z`.
pub open spec fn iso_text(secs: nat) -> Seq<char> {
    let date = date_of((secs / 86_400) as int);
    let of_day = secs % 86_400;
    padded(date.year as nat, 4) + "-"@ + padded(date.month as nat, 2) + "-"@ + padded(
        date.day as nat,
        2,
    ) + "T"@ + padded(of_day / 3600, 2) + ":"@ + padded(of_day % 3600 / 60, 2) + ":"@ + padded(
        of_day % 60,
        2,
    ) + "Z"@
}

/// The timestamp of a number of seconds since 1970-01-01T00:00:00Z.
pub fn epoch_seconds_to_iso(secs: u64) -> (r: String)
    ensures
        r@ == iso_text(secs as nat),
{
    let days: u64 = secs / 86_400;
    let of_day: u64 = secs % 86_400;
    let (year, month, day) = civil_from_days(days as i64);
    proof {
        law_every_day_has_a_date(days as int);
        if year < 1970 {
            lemma_within_year(date_of(days as int));
            lemma_years_ascend(year + 1, 1970);
        }
    }
    let mut out = padded_text(year as u64, 4);
    out.append("-");
    out.append(padded_text(month, 2).as_str());
    out.append("-");
    out.append(padded_text(day, 2).as_str());
    out.append("T");
    out.append(padded_text(of_day / 3600, 2).as_str());
    out.append(":");
    out.append(padded_text(of_day % 3600 / 60, 2).as_str());
    out.append(":");
    out.append(padded_text(of_day % 60, 2).as_str());
    out.append("Z");
    out
}

/// The timestamp of the present moment. Which moment that is depends on the
/// clock, so nothing more is said of it.
pub fn now_utc_iso() -> (r: String)
    ensures
        exists|secs: u64| r@ == #[trigger] iso_text(secs as nat),
{
    epoch_seconds_to_iso(now_seconds())
}

} // verus!
