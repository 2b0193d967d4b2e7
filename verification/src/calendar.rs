//! The proleptic Gregorian calendar: the Gregorian rules, extended over all years.
use vstd::prelude::*;

verus! {

/// A date. The year 0 is the one before the year 1.
pub struct Date {
    pub year: int,
    pub month: int,
    pub day: int,
}

/// Whether February has 29 days in `year`.
pub open spec fn is_leap_year(year: int) -> bool {
    year % 4 == 0 && (year % 100 != 0 || year % 400 == 0)
}

/// How many days the month has.
pub open spec fn days_in_month(year: int, month: int) -> int {
    if month == 2 {
        if is_leap_year(year) {
            29
        } else {
            28
        }
    } else if month == 4 || month == 6 || month == 9 || month == 11 {
        30
    } else {
        31
    }
}

/// Whether the calendar has the date.
pub open spec fn is_date(date: Date) -> bool {
    &&& 1 <= date.month <= 12
    &&& 1 <= date.day <= days_in_month(date.year, date.month)
}

/// How many days lie between 1 January of the year 1 and 1 January of `year`: 365 for each year,
/// and one more for each leap year. Negative for earlier years.
pub open spec fn days_before_year(year: int) -> int {
    let years = year - 1;
    365 * years + years / 4 - years / 100 + years / 400
}

/// How many days of the year lie before the month.
pub open spec fn days_before_month(year: int, month: int) -> int
    decreases month,
{
    if month <= 1 {
        0
    } else {
        days_before_month(year, month - 1) + days_in_month(year, month - 1)
    }
}

/// The number of the day: 0 for 1 January 1970, and one more for each day after it.
pub open spec fn day_number(date: Date) -> int {
    days_before_year(date.year) + days_before_month(date.year, date.month) + date.day - 1
        - days_before_year(1970)
}

/// The date of the day with this number.
pub open spec fn date_of(day: int) -> Date {
    choose|date: Date| is_date(date) && #[trigger] day_number(date) == day
}

/// Whether `one` comes before `other`: by the year, then by the month, then by the day.
pub open spec fn date_before(one: Date, other: Date) -> bool {
    ||| one.year < other.year
    ||| one.year == other.year && one.month < other.month
    ||| one.year == other.year && one.month == other.month && one.day < other.day
}

/// How many days the year has.
spec fn days_in_year(year: int) -> int {
    if is_leap_year(year) {
        366
    } else {
        365
    }
}

/// A year begins when the one before it is over.
proof fn lemma_year_follows(year: int)
    ensures
        days_before_year(year + 1) == days_before_year(year) + days_in_year(year),
{
}

/// Later years begin later.
proof fn lemma_years_in_order(one: int, other: int)
    requires
        one <= other,
    ensures
        days_before_year(one) <= days_before_year(other),
    decreases other - one,
{
    if one < other {
        lemma_years_in_order(one, other - 1);
        lemma_year_follows(other - 1);
    }
}

/// Where the months of a year begin.
proof fn lemma_months(year: int)
    ensures
        days_before_month(year, 1) == 0,
        days_before_month(year, 12) + 31 == days_in_year(year),
        forall|month: int, later: int|
            1 <= month < later <= 12 ==> #[trigger] days_before_month(year, month) + days_in_month(
                year,
                month,
            ) <= #[trigger] days_before_month(year, later),
        forall|month: int|
            1 <= month < 12 ==> days_before_month(year, month + 1) == #[trigger] days_before_month(
                year,
                month,
            ) + days_in_month(year, month),
{
    reveal_with_fuel(days_before_month, 13);
}

/// The numbers of the days follow the order of the dates.
pub proof fn law_days_in_order(one: Date, other: Date)
    requires
        is_date(one),
        is_date(other),
    ensures
        day_number(one) < day_number(other) <==> date_before(one, other),
        day_number(one) == day_number(other) <==> one == other,
{
    lemma_ordered(one, other);
    lemma_ordered(other, one);
}

/// An earlier date has a smaller number.
proof fn lemma_ordered(one: Date, other: Date)
    requires
        is_date(one),
        is_date(other),
    ensures
        date_before(one, other) ==> day_number(one) < day_number(other),
{
    lemma_months(one.year);
    lemma_months(other.year);
    if one.year < other.year {
        lemma_year_follows(one.year);
        lemma_years_in_order(one.year + 1, other.year);
        assert(days_before_month(one.year, one.month) + one.day <= days_in_year(one.year));
        assert(days_before_month(other.year, other.month) >= 0);
    }
}

/// The day after `date`.
spec fn next_date(date: Date) -> Date {
    if date.day < days_in_month(date.year, date.month) {
        Date { day: date.day + 1, ..date }
    } else if date.month < 12 {
        Date { year: date.year, month: date.month + 1, day: 1 }
    } else {
        Date { year: date.year + 1, month: 1, day: 1 }
    }
}

/// The day before `date`.
spec fn previous_date(date: Date) -> Date {
    if date.day > 1 {
        Date { day: date.day - 1, ..date }
    } else if date.month > 1 {
        let month = date.month - 1;
        Date { year: date.year, month, day: days_in_month(date.year, month) }
    } else {
        Date { year: date.year - 1, month: 12, day: 31 }
    }
}

/// A date whose day has this number.
proof fn lemma_some_date(day: int) -> (date: Date)
    ensures
        is_date(date),
        day_number(date) == day,
    decreases
            if day >= 0 {
                day
            } else {
                -day
            },
{
    if day == 0 {
        let date = Date { year: 1970, month: 1, day: 1 };
        lemma_months(1970);
        date
    } else if day > 0 {
        let before = lemma_some_date(day - 1);
        lemma_months(before.year);
        lemma_months(before.year + 1);
        lemma_year_follows(before.year);
        next_date(before)
    } else {
        let after = lemma_some_date(day + 1);
        lemma_months(after.year);
        lemma_months(after.year - 1);
        lemma_year_follows(after.year - 1);
        previous_date(after)
    }
}

/// Every day has a date, and no other.
pub proof fn law_day_has_date(day: int)
    ensures
        is_date(date_of(day)),
        day_number(date_of(day)) == day,
        forall|date: Date|
            is_date(date) && #[trigger] day_number(date) == day ==> date == date_of(day),
{
    let some = lemma_some_date(day);
    assert forall|date: Date| is_date(date) && #[trigger] day_number(date) == day implies date
        == date_of(day) by {
        law_days_in_order(date, date_of(day));
    }
}

} // verus!
