//! Instants in time, and the text that stands for them in a hook payload.
use crate::calendar::{self, Date};
use crate::text;
use vstd::prelude::*;

verus! {

/// The first second that a [`Timestamp`] can hold, counted from the Unix epoch.
pub const FIRST_SECOND: i64 = -8_334_601_228_800;

/// The last second that a [`Timestamp`] can hold, counted from the Unix epoch.
pub const LAST_SECOND: i64 = 8_210_266_876_799;

/// An instant in UTC: the seconds since the Unix epoch, and the nanoseconds into that second.
/// In the last second of a minute the nanoseconds may reach beyond one second: such an instant
/// lies in a leap second.
#[derive(Debug, Clone, Copy, PartialEq, Eq)]
pub struct Timestamp {
    seconds: i64,
    nanos: u32,
}

/// Whether there is an instant `nanos` nanoseconds into the second `seconds`.
pub open spec fn is_instant(seconds: int, nanos: int) -> bool {
    &&& FIRST_SECOND <= seconds <= LAST_SECOND
    &&& 0 <= nanos < 2_000_000_000
    &&& nanos >= 1_000_000_000 ==> seconds % 60 == 59
}

/// The number of seconds in a day.
pub const DAY: i64 = 86_400;

/// The two digits of `number`, for `number` below one hundred.
pub open spec fn two_digits(number: int) -> Seq<char> {
    seq![text::digit((number / 10) as nat), text::digit((number % 10) as nat)]
}

/// `number` in decimal, with at least four digits.
pub open spec fn four_digits(number: int) -> Seq<char> {
    if number <= 9999 {
        two_digits(number / 100) + two_digits(number % 100)
    } else {
        text::decimal(number as nat)
    }
}

/// The year in text: four digits. Years that need more, and years before the year 0, have a sign.
pub open spec fn year_text(year: int) -> Seq<char> {
    if year < 0 {
        seq!['-'] + four_digits(-year)
    } else if year <= 9999 {
        four_digits(year)
    } else {
        seq!['+'] + four_digits(year)
    }
}

/// The date in text.
pub open spec fn date_text(date: Date) -> Seq<char> {
    year_text(date.year) + seq!['-'] + two_digits(date.month) + seq!['-'] + two_digits(date.day)
}

/// The time of day in text, `second` seconds after midnight. A leap second is the second 60 of its
/// minute.
pub open spec fn clock_text(second: int, leap: bool) -> Seq<char> {
    two_digits(second / 3600) + seq![':'] + two_digits(second / 60 % 60) + seq![':'] + two_digits(
        second % 60 + if leap {
            1int
        } else {
            0
        },
    )
}

/// The instant as RFC 3339 has it, in UTC, to the second.
pub open spec fn rfc3339(seconds: int, nanos: int) -> Seq<char> {
    date_text(calendar::date_of(seconds / DAY as int)) + seq!['T'] + clock_text(
        seconds % DAY as int,
        nanos >= 1_000_000_000,
    ) + seq!['Z']
}

/// Calls `to_rfc3339_opts` of [`chrono::DateTime`], with whole seconds and with `Z` for UTC, on
/// the instant that `from_timestamp` gives. Trusted: `from_timestamp` knows every instant, so
/// nothing panics here, and reads its date off the proleptic Gregorian calendar; the text is the
/// date and the time of day of that instant, with a sign for years that are not of four digits,
/// without the fraction of the second, and with 60 for a leap second.
#[verifier::external_body]
pub(crate) fn rfc3339_text(seconds: i64, nanos: u32) -> (text: String)
    requires
        is_instant(seconds as int, nanos as int),
    ensures
        text@ == rfc3339(seconds as int, nanos as int),
{
    let instant = chrono::DateTime::from_timestamp(seconds, nanos).expect("an instant");
    instant.to_rfc3339_opts(chrono::SecondsFormat::Secs, true)
}

impl Timestamp {
    /// The seconds since the Unix epoch.
    pub closed spec fn spec_seconds(self) -> int {
        self.seconds as int
    }

    /// The nanoseconds into the second.
    pub closed spec fn spec_nanos(self) -> int {
        self.nanos as int
    }

    #[verifier::type_invariant]
    spec fn holds_instant(self) -> bool {
        is_instant(self.seconds as int, self.nanos as int)
    }

    /// The instant `nanos` nanoseconds into the second `seconds`, if there is one.
    pub fn new(seconds: i64, nanos: u32) -> (timestamp: Option<Timestamp>)
        ensures
            timestamp is Some <==> is_instant(seconds as int, nanos as int),
            timestamp matches Some(instant) ==> {
                &&& instant.spec_seconds() == seconds
                &&& instant.spec_nanos() == nanos
            },
    {
        if seconds < FIRST_SECOND || seconds > LAST_SECOND || nanos >= 2_000_000_000 {
            return None;
        }
        // Counted from the first second, which begins a minute.
        if nanos >= 1_000_000_000 && (seconds - FIRST_SECOND) % 60 != 59 {
            return None;
        }
        Some(Timestamp { seconds, nanos })
    }

    /// The instant as RFC 3339 has it, in UTC, to the second.
    pub fn to_rfc3339(&self) -> (text: String)
        ensures
            text@ == rfc3339(self.spec_seconds(), self.spec_nanos()),
    {
        proof {
            use_type_invariant(self);
        }
        rfc3339_text(self.seconds, self.nanos)
    }
}

/// Whether the instant lies in the years 0 to 9999.
pub open spec fn has_plain_year(seconds: int) -> bool {
    0 <= calendar::date_of(seconds / DAY as int).year <= 9999
}

/// Whether `text` has the form `YYYY-MM-DDTHH:MM:SSZ`.
pub open spec fn is_plain_form(text: Seq<char>) -> bool {
    &&& text.len() == 20
    &&& text[4] == '-'
    &&& text[7] == '-'
    &&& text[10] == 'T'
    &&& text[13] == ':'
    &&& text[16] == ':'
    &&& text[19] == 'Z'
    &&& forall|i: int|
        0 <= i < 19 && i != 4 && i != 7 && i != 10 && i != 13 && i != 16 ==> '0'
            <= #[trigger] text[i] <= '9'
}

/// Whether the first instant is not later than the second.
pub open spec fn instant_not_after(
    seconds: int,
    nanos: int,
    other_seconds: int,
    other_nanos: int,
) -> bool {
    seconds < other_seconds || seconds == other_seconds && nanos <= other_nanos
}

/// Fractions of a second are cut off, not rounded: instants in the same second read the same.
pub proof fn law_fraction_is_cut(seconds: int, nanos: int, other_nanos: int)
    requires
        is_instant(seconds, nanos),
        is_instant(seconds, other_nanos),
        nanos >= 1_000_000_000 <==> other_nanos >= 1_000_000_000,
    ensures
        rfc3339(seconds, nanos) == rfc3339(seconds, other_nanos),
{
}

/// In the years 0 to 9999 every instant reads `YYYY-MM-DDTHH:MM:SSZ`.
pub proof fn law_plain_form(seconds: int, nanos: int)
    requires
        is_instant(seconds, nanos),
        has_plain_year(seconds),
    ensures
        is_plain_form(rfc3339(seconds, nanos)),
{
    lemma_plain_text(seconds, nanos);
}

/// In the years 0 to 9999 a later instant never reads smaller.
pub proof fn law_text_keeps_order(
    seconds: int,
    nanos: int,
    other_seconds: int,
    other_nanos: int,
)
    requires
        is_instant(seconds, nanos),
        is_instant(other_seconds, other_nanos),
        has_plain_year(seconds),
        has_plain_year(other_seconds),
        instant_not_after(seconds, nanos, other_seconds, other_nanos),
    ensures
        text::not_after(rfc3339(seconds, nanos), rfc3339(other_seconds, other_nanos)),
{
    let one = fields(seconds, nanos);
    let other = fields(other_seconds, other_nanos);
    lemma_plain_text(seconds, nanos);
    lemma_plain_text(other_seconds, other_nanos);
    lemma_fields_in_order(seconds, nanos, other_seconds, other_nanos);
    if one != other {
        lemma_plain_order(one, other, choose|i: int| differ_first(one, other, i));
    }
}

/// The numbers of two digits that an instant reads as: the two halves of the year, the month, the
/// day, the hour, the minute and the second.
spec fn fields(seconds: int, nanos: int) -> Seq<int> {
    let date = calendar::date_of(seconds / DAY as int);
    let second = seconds % DAY as int;
    seq![
        date.year / 100,
        date.year % 100,
        date.month,
        date.day,
        second / 3600,
        second / 60 % 60,
        second % 60 + if nanos >= 1_000_000_000 {
            1int
        } else {
            0
        },
    ]
}

/// The text of seven fields.
spec fn plain(f: Seq<int>) -> Seq<char> {
    seq![
        text::digit((f[0] / 10) as nat),
        text::digit((f[0] % 10) as nat),
        text::digit((f[1] / 10) as nat),
        text::digit((f[1] % 10) as nat),
        '-',
        text::digit((f[2] / 10) as nat),
        text::digit((f[2] % 10) as nat),
        '-',
        text::digit((f[3] / 10) as nat),
        text::digit((f[3] % 10) as nat),
        'T',
        text::digit((f[4] / 10) as nat),
        text::digit((f[4] % 10) as nat),
        ':',
        text::digit((f[5] / 10) as nat),
        text::digit((f[5] % 10) as nat),
        ':',
        text::digit((f[6] / 10) as nat),
        text::digit((f[6] % 10) as nat),
        'Z',
    ]
}

/// Where the field stands in the text.
spec fn place(field: int) -> int {
    if field < 2 {
        2 * field
    } else {
        3 * field - 1
    }
}

/// The text follows the order of the fields.
proof fn lemma_plain_order(one: Seq<int>, other: Seq<int>, i: int)
    requires
        differ_first(one, other, i),
        forall|j: int| 0 <= j < 7 ==> 0 <= #[trigger] one[j] < 100,
        forall|j: int| 0 <= j < 7 ==> 0 <= #[trigger] other[j] < 100,
    ensures
        text::not_after(plain(one), plain(other)),
{
    let at = if one[i] / 10 < other[i] / 10 {
        place(i)
    } else {
        place(i) + 1
    };
    assert(plain(one)[at] < plain(other)[at]);
    assert(plain(one).take(at) =~= plain(other).take(at));
}

/// Whether `i` is the first field in which the two differ, and there the first is smaller.
spec fn differ_first(one: Seq<int>, other: Seq<int>, i: int) -> bool {
    &&& 0 <= i < 7
    &&& one[i] < other[i]
    &&& forall|j: int| 0 <= j < i ==> one[j] == other[j]
}

/// What stands where in the text of an instant in the years 0 to 9999.
proof fn lemma_plain_text(seconds: int, nanos: int)
    requires
        is_instant(seconds, nanos),
        has_plain_year(seconds),
    ensures
        is_plain_form(rfc3339(seconds, nanos)),
        forall|i: int| 0 <= i < 7 ==> 0 <= #[trigger] fields(seconds, nanos)[i] < 100,
        rfc3339(seconds, nanos) == plain(fields(seconds, nanos)),
{
    calendar::law_day_has_date(seconds / DAY as int);
    assert(rfc3339(seconds, nanos) =~= plain(fields(seconds, nanos)));
}

/// The fields follow the order of the instants.
proof fn lemma_fields_in_order(seconds: int, nanos: int, other_seconds: int, other_nanos: int)
    requires
        is_instant(seconds, nanos),
        is_instant(other_seconds, other_nanos),
        has_plain_year(seconds),
        has_plain_year(other_seconds),
        instant_not_after(seconds, nanos, other_seconds, other_nanos),
    ensures
        fields(seconds, nanos) == fields(other_seconds, other_nanos) || exists|i: int|
            differ_first(fields(seconds, nanos), fields(other_seconds, other_nanos), i),
{
    let one = fields(seconds, nanos);
    let other = fields(other_seconds, other_nanos);
    let day = seconds / DAY as int;
    let other_day = other_seconds / DAY as int;
    calendar::law_day_has_date(day);
    calendar::law_day_has_date(other_day);
    calendar::law_days_in_order(calendar::date_of(day), calendar::date_of(other_day));
    let i = if one[0] != other[0] {
        0int
    } else if one[1] != other[1] {
        1
    } else if one[2] != other[2] {
        2
    } else if one[3] != other[3] {
        3
    } else if one[4] != other[4] {
        4
    } else if one[5] != other[5] {
        5
    } else {
        6
    };
    if one[i] == other[i] {
        assert(one =~= other);
    } else {
        assert(differ_first(one, other, i));
    }
}

/// An instant lies in the years that the calendar of a [`Timestamp`] reaches over, and is one of
/// every second of them. Only in the last second of a minute can it lie in a leap second.
pub proof fn law_instants_fill_the_years(seconds: int, nanos: int)
    ensures
        is_instant(seconds, nanos) <==> {
            &&& -262143 <= calendar::date_of(seconds / DAY as int).year <= 262142
            &&& 0 <= nanos
            &&& nanos < 1_000_000_000 || nanos < 2_000_000_000 && seconds % 60 == 59
        },
{
    let day = seconds / DAY as int;
    let date = calendar::date_of(day);
    let first = Date { year: -262143, month: 1, day: 1 };
    let next = Date { year: 262143, month: 1, day: 1 };
    calendar::law_day_has_date(day);
    calendar::law_days_in_order(date, first);
    calendar::law_days_in_order(date, next);
    assert(calendar::day_number(first) * DAY == FIRST_SECOND);
    assert(calendar::day_number(next) * DAY == LAST_SECOND + 1);
}

/// In the years 0 to 9999 instants of different seconds read differently, leap seconds aside.
pub proof fn law_text_tells_second(seconds: int, nanos: int, other_seconds: int, other_nanos: int)
    requires
        is_instant(seconds, nanos),
        is_instant(other_seconds, other_nanos),
        has_plain_year(seconds),
        has_plain_year(other_seconds),
        nanos < 1_000_000_000,
        other_nanos < 1_000_000_000,
    ensures
        rfc3339(seconds, nanos) == rfc3339(other_seconds, other_nanos) <==> seconds
            == other_seconds,
{
    let one = fields(seconds, nanos);
    let other = fields(other_seconds, other_nanos);
    lemma_plain_text(seconds, nanos);
    lemma_plain_text(other_seconds, other_nanos);
    if rfc3339(seconds, nanos) == rfc3339(other_seconds, other_nanos) {
        lemma_plain_tells(one, other);
        calendar::law_day_has_date(seconds / DAY as int);
        calendar::law_day_has_date(other_seconds / DAY as int);
        assert(one[0] == other[0] && one[1] == other[1] && one[2] == other[2] && one[3] == other[3]);
        assert(one[4] == other[4] && one[5] == other[5] && one[6] == other[6]);
        assert(calendar::date_of(seconds / DAY as int) == calendar::date_of(
            other_seconds / DAY as int,
        ));
    }
}

/// Equal texts have equal fields.
proof fn lemma_plain_tells(one: Seq<int>, other: Seq<int>)
    requires
        one.len() == 7,
        other.len() == 7,
        plain(one) == plain(other),
        forall|j: int| 0 <= j < 7 ==> 0 <= #[trigger] one[j] < 100,
        forall|j: int| 0 <= j < 7 ==> 0 <= #[trigger] other[j] < 100,
    ensures
        one == other,
{
    let (a, b) = (plain(one), plain(other));
    assert forall|j: int| 0 <= j < 7 implies one[j] == other[j] by {
        assert(a[place(j)] == b[place(j)]);
        assert(a[place(j) + 1] == b[place(j) + 1]);
    }
    assert(one =~= other);
}

} // verus!
