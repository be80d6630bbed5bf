//! What a timestamp spells.

use vstd::prelude::*;
use vstd::string::*;

use crate::devicerail::calendar;
use crate::devicerail::calendar::Date;
use crate::text;

verus! {

/// The number that two digits spell.
pub open spec fn two(s: Seq<char>, at: int) -> int {
    (s[at] as int - 48) * 10 + (s[at + 1] as int - 48)
}

/// The number that four digits spell.
pub open spec fn four(s: Seq<char>, at: int) -> int {
    two(s, at) * 100 + two(s, at + 2)
}

proof fn lemma_digit(d: int)
    requires
        0 <= d < 10,
    ensures
        text::digit_char(d) as int == 48 + d,
{
    assert((48 + d) as char as int == 48 + d);
}

/// A number that fits a width is written with that many digits.
pub proof fn law_padding_fills_the_width(n: nat)
    ensures
        n < 100 ==> calendar::padded(n, 2).len() == 2 && two(calendar::padded(n, 2), 0) == n,
        n < 10000 ==> calendar::padded(n, 4).len() == 4 && four(calendar::padded(n, 4), 0) == n,
{
    reveal_with_fuel(text::decimal, 5);
    if n < 10000 {
        lemma_digit((n % 10) as int);
        lemma_digit((n / 10 % 10) as int);
        lemma_digit((n / 100 % 10) as int);
        lemma_digit((n / 1000 % 10) as int);
        assert((n / 10) / 10 == n / 100);
        assert((n / 100) / 10 == n / 1000);
        assert(n == (n / 1000) * 1000 + (n / 100 % 10) * 100 + (n / 10 % 10) * 10 + n % 10);
        let p = calendar::padded(n, 4);
        if n < 10 {
            assert(text::decimal(n) =~= seq![text::digit_char(n as int)]);
            let q = calendar::padded(n, 2);
            assert(q[0] == '0' && q[1] == text::digit_char(n as int));
            assert(p[0] == '0' && p[1] == '0' && p[2] == '0' && p[3] == text::digit_char(n as int));
        } else if n < 100 {
            assert(text::decimal(n) =~= seq![
                text::digit_char((n / 10) as int),
                text::digit_char((n % 10) as int),
            ]);
            assert(p[0] == '0' && p[1] == '0');
        } else if n < 1000 {
            assert(text::decimal(n) =~= seq![
                text::digit_char((n / 100) as int),
                text::digit_char((n / 10 % 10) as int),
                text::digit_char((n % 10) as int),
            ]);
            assert(p[0] == '0');
        } else {
            assert(text::decimal(n) =~= seq![
                text::digit_char((n / 1000) as int),
                text::digit_char((n / 100 % 10) as int),
                text::digit_char((n / 10 % 10) as int),
                text::digit_char((n % 10) as int),
            ]);
        }
    }
}

/// The timestamp of a moment whose year has at most four digits is twenty characters long. Its
/// date is a date of the calendar, as many days after the first of January 1970 as the moment has
/// whole days, and its time of day is what is left, in hours, minutes and seconds.
#[verifier::spinoff_prover]
pub proof fn law_timestamps_spell_the_moment(secs: nat)
    requires
        0 <= calendar::date_of((secs / 86_400) as int).year <= 9999,
    ensures
        ({
            let s = calendar::iso_text(secs);
            let date = Date { year: four(s, 0), month: two(s, 5), day: two(s, 8) };
            &&& s.len() == 20
            &&& s[4] == '-' && s[7] == '-' && s[10] == 'T' && s[13] == ':' && s[16] == ':' && s[19]
                == 'Z'
            &&& date.is_valid()
            &&& date.day_number() == secs / 86_400
            &&& 0 <= two(s, 11) < 24
            &&& 0 <= two(s, 14) < 60
            &&& 0 <= two(s, 17) < 60
            &&& date.day_number() * 86_400 + two(s, 11) * 3600 + two(s, 14) * 60 + two(s, 17) == secs
        }),
{
    let date = calendar::date_of((secs / 86_400) as int);
    calendar::law_every_day_has_a_date((secs / 86_400) as int);
    let of_day = secs % 86_400;
    let h = of_day / 3600;
    let m = of_day % 3600 / 60;
    let z = of_day % 60;
    assert(of_day == h * 3600 + m * 60 + z);
    assert(h < 24 && m < 60 && z < 60);
    law_padding_fills_the_width(date.year as nat);
    law_padding_fills_the_width(date.month as nat);
    law_padding_fills_the_width(date.day as nat);
    law_padding_fills_the_width(h);
    law_padding_fills_the_width(m);
    law_padding_fills_the_width(z);
    reveal_strlit("-");
    reveal_strlit("T");
    reveal_strlit(":");
    reveal_strlit("Z");
    let y4 = calendar::padded(date.year as nat, 4);
    let m2 = calendar::padded(date.month as nat, 2);
    let d2 = calendar::padded(date.day as nat, 2);
    let h2 = calendar::padded(h, 2);
    let n2 = calendar::padded(m, 2);
    let s2 = calendar::padded(z, 2);
    let s = calendar::iso_text(secs);
    assert(s[0] == y4[0] && s[1] == y4[1] && s[2] == y4[2] && s[3] == y4[3]);
    assert(s[5] == m2[0] && s[6] == m2[1]);
    assert(s[8] == d2[0] && s[9] == d2[1]);
    assert(s[11] == h2[0] && s[12] == h2[1]);
    assert(s[14] == n2[0] && s[15] == n2[1]);
    assert(s[17] == s2[0] && s[18] == s2[1]);
}

/// Years divisible by four have a leap day, but for those that are divisible by a hundred and not
/// by four hundred. February has 28 days, or 29 with a leap day; April, June, September and
/// November have 30, and the others 31. Twelve months make a year.
pub proof fn law_months_and_leap_years(year: int)
    ensures
        calendar::is_leap(year) <==> year % 400 == 0 || (year % 4 == 0 && year % 100 != 0),
        calendar::month_days(year, 2) == 28 || calendar::month_days(year, 2) == 29,
        calendar::month_days(year, 2) == 29 <==> calendar::is_leap(year),
        forall|m: int| #[trigger]
            calendar::month_days(year, m) == 30 <==> m == 4 || m == 6 || m == 9 || m == 11,
        forall|m: int|
            m != 2 && m != 4 && m != 6 && m != 9 && m != 11 ==> #[trigger] calendar::month_days(
                year,
                m,
            ) == 31,
        calendar::days_before_month(year, 13) == 337 + calendar::month_days(year, 2),
{
    reveal_with_fuel(calendar::days_before_month, 13);
}

} // verus!
