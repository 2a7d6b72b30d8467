use crate::model::GroupBy;
use crate::text::{decimal, int_text, push_decimal, push_int, push_two_digits, two_digit_text};
use vstd::prelude::*;

verus! {

/// The half of the year (1 or 2) that a month falls in.
pub open spec fn semester_of(month: int) -> int {
    if month <= 6 { 1 } else { 2 }
}

/// The quarter of the year (1 to 4) that a month falls in.
pub open spec fn trimester_of(month: int) -> int {
    (month - 1) / 3 + 1
}

/// The third of the year (1 to 3) that a month falls in.
pub open spec fn quadrimester_of(month: int) -> int {
    (month - 1) / 4 + 1
}

/// The two-week bucket (1 to 26) of an ISO week; weeks 51 to 53 share the last bucket.
pub open spec fn biweekly_of(iso_week: int) -> int {
    if iso_week >= 51 { 26 } else { (iso_week - 1) / 2 + 1 }
}

pub open spec fn valid_month(month: int) -> bool {
    1 <= month <= 12
}

pub open spec fn valid_iso_week(week: int) -> bool {
    1 <= week <= 53
}

/// Calculate semester number (1 or 2) from month
pub fn calculate_semester(month: u32) -> (r: u32)
    requires
        valid_month(month as int),
    ensures
        r == semester_of(month as int),
        1 <= r <= 2,
        r == 1 <==> month <= 6,
{
    validate_month(month);
    if month <= 6 {
        1
    } else {
        2
    }
}

/// Calculate trimester number (1-4) from month
pub fn calculate_trimester(month: u32) -> (r: u32)
    requires
        valid_month(month as int),
    ensures
        r == trimester_of(month as int),
        1 <= r <= 4,
{
    validate_month(month);
    (month - 1) / 3 + 1
}

/// Calculate quadrimester number (1-3) from month
pub fn calculate_quadrimester(month: u32) -> (r: u32)
    requires
        valid_month(month as int),
    ensures
        r == quadrimester_of(month as int),
        1 <= r <= 3,
{
    validate_month(month);
    (month - 1) / 4 + 1
}

/// Holds callers to a month number from 1 to 12: any other month is a contract
/// violation, refused wherever the call is verified.
pub fn validate_month(month: u32)
    requires
        valid_month(month as int),
{
    proof {
        assert(1 <= month <= 12);
    }
}

/// Calculate biweekly number from ISO week (weeks 51 to 53 all fall in the 26th bucket)
pub fn calculate_biweekly(iso_week: u32) -> (r: u32)
    requires
        valid_iso_week(iso_week as int),
    ensures
        r == biweekly_of(iso_week as int),
        1 <= r <= 26,
        iso_week <= 50 ==> r == (iso_week - 1) / 2 + 1,
        iso_week >= 51 ==> r == 26,
{
    if iso_week >= 51 {
        26
    } else {
        (iso_week - 1) / 2 + 1
    }
}

} // verus!

verus! {

/// The earliest year that chrono's `NaiveDate` can hold.
pub const MIN_YEAR: i32 = -262143;

/// The latest year that chrono's `NaiveDate` can hold.
pub const MAX_YEAR: i32 = 262142;

pub open spec fn is_leap_year(year: int) -> bool {
    (year % 4 == 0 && year % 100 != 0) || year % 400 == 0
}

pub open spec fn days_in_month(year: int, month: int) -> int {
    if month == 2 {
        if is_leap_year(year) { 29 } else { 28 }
    } else if month == 4 || month == 6 || month == 9 || month == 11 {
        30
    } else {
        31
    }
}

/// A day of the proleptic Gregorian calendar in the range chrono supports.
pub open spec fn valid_date(year: int, month: int, day: int) -> bool {
    &&& MIN_YEAR <= year <= MAX_YEAR
    &&& valid_month(month)
    &&& 1 <= day <= days_in_month(year, month)
}

/// The ISO week-year and week number of a calendar day, as chrono computes them.
pub uninterp spec fn iso_week_of(year: int, month: int, day: int) -> (int, int);

/// Relies on chrono's `NaiveDate::from_ymd_opt`, which gives a date for every valid
/// year, month and day in its range, and on `Datelike::iso_week` with `IsoWeek::year`
/// and `IsoWeek::week`, whose week number ranges from 1 to 53.
#[verifier::external_body]
fn iso_week(year: i32, month: u32, day: u32) -> (r: Option<(i32, u32)>)
    ensures
        valid_date(year as int, month as int, day as int) ==> r is Some,
        r matches Some(w) ==> {
            &&& (w.0 as int, w.1 as int) == iso_week_of(year as int, month as int, day as int)
            &&& valid_iso_week(w.1 as int)
        },
{
    match chrono::NaiveDate::from_ymd_opt(year, month, day) {
        Some(d) => {
            let w = chrono::Datelike::iso_week(&d);
            Some((w.year(), w.week()))
        },
        None => None,
    }
}

/// An instant in UTC, held as its calendar date and time of day.
/// A nanosecond count of a billion or more marks a leap second, and only follows
/// second 59, as in chrono.
#[derive(Clone, Copy, Debug, PartialEq, Eq, Structural)]
pub struct Timestamp {
    pub year: i32,
    pub month: u32,
    pub day: u32,
    pub hour: u32,
    pub minute: u32,
    pub second: u32,
    pub nanosecond: u32,
}

impl Timestamp {
    pub open spec fn wf(self) -> bool {
        &&& valid_date(self.year as int, self.month as int, self.day as int)
        &&& self.hour < 24
        &&& self.minute < 60
        &&& self.second < 60
        &&& self.nanosecond < 1_000_000_000 || (self.second == 59 && self.nanosecond
            < 2_000_000_000)
    }

    /// Chronological order: the fields compared from the year down to the nanosecond.
    pub open spec fn earlier_than(self, other: Timestamp) -> bool {
        if self.year != other.year {
            self.year < other.year
        } else if self.month != other.month {
            self.month < other.month
        } else if self.day != other.day {
            self.day < other.day
        } else if self.hour != other.hour {
            self.hour < other.hour
        } else if self.minute != other.minute {
            self.minute < other.minute
        } else if self.second != other.second {
            self.second < other.second
        } else {
            self.nanosecond < other.nanosecond
        }
    }

    /// Builds a timestamp from its fields, or `None` where they name no instant.
    pub fn new(
        year: i32,
        month: u32,
        day: u32,
        hour: u32,
        minute: u32,
        second: u32,
        nanosecond: u32,
    ) -> (r: Option<Timestamp>)
        ensures
            r is Some <==> (Timestamp { year, month, day, hour, minute, second, nanosecond }).wf(),
            r matches Some(t) ==> t == (Timestamp {
                year,
                month,
                day,
                hour,
                minute,
                second,
                nanosecond,
            }),
    {
        let t = Timestamp { year, month, day, hour, minute, second, nanosecond };
        if year < MIN_YEAR || year > MAX_YEAR || month < 1 || month > 12 || day < 1 {
            return None;
        }
        if day > month_length(year, month) || hour >= 24 || minute >= 60 || second >= 60 {
            return None;
        }
        if nanosecond >= 2_000_000_000 || (nanosecond >= 1_000_000_000 && second != 59) {
            return None;
        }
        Some(t)
    }

    /// Whether `self` is strictly earlier than `other`.
    pub fn is_earlier_than(&self, other: &Timestamp) -> (r: bool)
        ensures
            r == self.earlier_than(*other),
    {
        if self.year != other.year {
            self.year < other.year
        } else if self.month != other.month {
            self.month < other.month
        } else if self.day != other.day {
            self.day < other.day
        } else if self.hour != other.hour {
            self.hour < other.hour
        } else if self.minute != other.minute {
            self.minute < other.minute
        } else if self.second != other.second {
            self.second < other.second
        } else {
            self.nanosecond < other.nanosecond
        }
    }
}

/// The number of days in a month of a year.
pub fn month_length(year: i32, month: u32) -> (r: u32)
    requires
        valid_month(month as int),
    ensures
        r == days_in_month(year as int, month as int),
{
    if month == 2 {
        let leap = (year % 4 == 0 && year % 100 != 0) || year % 400 == 0;
        if leap {
            29
        } else {
            28
        }
    } else if month == 4 || month == 6 || month == 9 || month == 11 {
        30
    } else {
        31
    }
}

} // verus!

verus! {

/// The identifier of the period of a given granularity that a timestamp falls in:
/// (year, index within the year). The year is the ISO week-year for weeks and
/// biweekly periods, the calendar year otherwise; a year period has index 0.
pub open spec fn period_key(t: Timestamp, g: GroupBy) -> (int, int) {
    let iso = iso_week_of(t.year as int, t.month as int, t.day as int);
    match g {
        GroupBy::Week => iso,
        GroupBy::Biweekly => (iso.0, biweekly_of(iso.1)),
        GroupBy::Month => (t.year as int, t.month as int),
        GroupBy::Trimester => (t.year as int, trimester_of(t.month as int)),
        GroupBy::Quadrimester => (t.year as int, quadrimester_of(t.month as int)),
        GroupBy::Semester => (t.year as int, semester_of(t.month as int)),
        GroupBy::Year => (t.year as int, 0),
    }
}

/// Lexicographic order on period identifiers.
pub open spec fn key_before(a: (int, int), b: (int, int)) -> bool {
    a.0 < b.0 || (a.0 == b.0 && a.1 < b.1)
}

/// Whether `date` falls in a period strictly before the one that contains `now`.
pub open spec fn before_current(date: Timestamp, now: Timestamp, g: GroupBy) -> bool {
    key_before(period_key(date, g), period_key(now, g))
}

/// The ISO week-year and week number of a timestamp.
pub fn iso_week_key(t: Timestamp) -> (r: (i32, u32))
    requires
        t.wf(),
    ensures
        (r.0 as int, r.1 as int) == iso_week_of(t.year as int, t.month as int, t.day as int),
        valid_iso_week(r.1 as int),
{
    iso_week(t.year, t.month, t.day).unwrap()
}

/// The identifier of the period of granularity `g` that `t` falls in.
pub fn period_of(t: Timestamp, g: GroupBy) -> (r: (i32, u32))
    requires
        t.wf(),
    ensures
        (r.0 as int, r.1 as int) == period_key(t, g),
{
    match g {
        GroupBy::Week => iso_week_key(t),
        GroupBy::Biweekly => {
            let w = iso_week_key(t);
            (w.0, calculate_biweekly(w.1))
        },
        GroupBy::Month => (t.year, t.month),
        GroupBy::Trimester => (t.year, calculate_trimester(t.month)),
        GroupBy::Quadrimester => (t.year, calculate_quadrimester(t.month)),
        GroupBy::Semester => (t.year, calculate_semester(t.month)),
        GroupBy::Year => (t.year, 0),
    }
}

/// Whether `date` falls in a period of granularity `g` strictly before the one
/// that contains `now`.
pub fn is_before_current(date: Timestamp, now: Timestamp, g: GroupBy) -> (r: bool)
    requires
        date.wf(),
        now.wf(),
    ensures
        r == before_current(date, now, g),
{
    let current = period_of(now, g);
    let file_period = period_of(date, g);
    file_period.0 < current.0 || (file_period.0 == current.0 && file_period.1 < current.1)
}

/// Get the current week identifier (for comparison)
pub fn get_current_week(now: Timestamp) -> (r: (i32, u32))
    requires
        now.wf(),
    ensures
        (r.0 as int, r.1 as int) == period_key(now, GroupBy::Week),
{
    period_of(now, GroupBy::Week)
}

/// Get the current month identifier (for comparison)
pub fn get_current_month(now: Timestamp) -> (r: (i32, u32))
    requires
        now.wf(),
    ensures
        r == (now.year, now.month),
{
    period_of(now, GroupBy::Month)
}

/// Get the current year
pub fn get_current_year(now: Timestamp) -> (r: i32)
    requires
        now.wf(),
    ensures
        r == now.year,
{
    period_of(now, GroupBy::Year).0
}

/// Get the current semester identifier (for comparison)
pub fn get_current_semester(now: Timestamp) -> (r: (i32, u32))
    requires
        now.wf(),
    ensures
        (r.0 as int, r.1 as int) == (now.year as int, semester_of(now.month as int)),
{
    period_of(now, GroupBy::Semester)
}

/// Get the current trimester identifier (for comparison)
pub fn get_current_trimester(now: Timestamp) -> (r: (i32, u32))
    requires
        now.wf(),
    ensures
        (r.0 as int, r.1 as int) == (now.year as int, trimester_of(now.month as int)),
{
    period_of(now, GroupBy::Trimester)
}

/// Get the current quadrimester identifier (for comparison)
pub fn get_current_quadrimester(now: Timestamp) -> (r: (i32, u32))
    requires
        now.wf(),
    ensures
        (r.0 as int, r.1 as int) == (now.year as int, quadrimester_of(now.month as int)),
{
    period_of(now, GroupBy::Quadrimester)
}

/// Get the current biweekly identifier (for comparison)
pub fn get_current_biweekly(now: Timestamp) -> (r: (i32, u32))
    requires
        now.wf(),
    ensures
        (r.0 as int, r.1 as int) == period_key(now, GroupBy::Biweekly),
{
    period_of(now, GroupBy::Biweekly)
}

/// Check if a date is before the current week
pub fn is_before_current_week(date: Timestamp, now: Timestamp) -> (r: bool)
    requires
        date.wf(),
        now.wf(),
    ensures
        r == before_current(date, now, GroupBy::Week),
{
    is_before_current(date, now, GroupBy::Week)
}

/// Check if a date is before the current month
pub fn is_before_current_month(date: Timestamp, now: Timestamp) -> (r: bool)
    requires
        date.wf(),
        now.wf(),
    ensures
        r == before_current(date, now, GroupBy::Month),
        r == (date.year < now.year || (date.year == now.year && date.month < now.month)),
{
    is_before_current(date, now, GroupBy::Month)
}

/// Check if a date is before the current year
pub fn is_before_current_year(date: Timestamp, now: Timestamp) -> (r: bool)
    requires
        date.wf(),
        now.wf(),
    ensures
        r == before_current(date, now, GroupBy::Year),
        r == (date.year < now.year),
{
    is_before_current(date, now, GroupBy::Year)
}

/// Check if a date is before the current semester
pub fn is_before_current_semester(date: Timestamp, now: Timestamp) -> (r: bool)
    requires
        date.wf(),
        now.wf(),
    ensures
        r == before_current(date, now, GroupBy::Semester),
{
    is_before_current(date, now, GroupBy::Semester)
}

/// Check if a date is before the current trimester
pub fn is_before_current_trimester(date: Timestamp, now: Timestamp) -> (r: bool)
    requires
        date.wf(),
        now.wf(),
    ensures
        r == before_current(date, now, GroupBy::Trimester),
{
    is_before_current(date, now, GroupBy::Trimester)
}

/// Check if a date is before the current quadrimester
pub fn is_before_current_quadrimester(date: Timestamp, now: Timestamp) -> (r: bool)
    requires
        date.wf(),
        now.wf(),
    ensures
        r == before_current(date, now, GroupBy::Quadrimester),
{
    is_before_current(date, now, GroupBy::Quadrimester)
}

/// Check if a date is before the current biweekly period
pub fn is_before_current_biweekly(date: Timestamp, now: Timestamp) -> (r: bool)
    requires
        date.wf(),
        now.wf(),
    ensures
        r == before_current(date, now, GroupBy::Biweekly),
{
    is_before_current(date, now, GroupBy::Biweekly)
}

} // verus!

verus! {

/// The folder name of the period of granularity `g` that `t` falls in.
pub open spec fn period_label(t: Timestamp, g: GroupBy) -> Seq<char> {
    let k = period_key(t, g);
    match g {
        GroupBy::Week => int_text(k.0) + seq!['-', 'W'] + two_digit_text(k.1 as nat),
        GroupBy::Biweekly => int_text(k.0) + seq!['-', 'B', 'W'] + two_digit_text(k.1 as nat),
        GroupBy::Month => int_text(k.0) + seq!['-'] + two_digit_text(k.1 as nat),
        GroupBy::Trimester => int_text(k.0) + seq!['-', 'Q'] + decimal(k.1 as nat),
        GroupBy::Quadrimester => int_text(k.0) + seq!['-', 'Q', 'D'] + decimal(k.1 as nat),
        GroupBy::Semester => int_text(k.0) + seq!['-', 'H'] + decimal(k.1 as nat),
        GroupBy::Year => int_text(k.0),
    }
}

/// The folder name of the period of granularity `g` that `t` falls in.
pub fn period_identifier(t: Timestamp, g: GroupBy) -> (r: String)
    requires
        t.wf(),
    ensures
        r@ == period_label(t, g),
{
    let k = period_of(t, g);
    let mut s = String::new();
    push_int(&mut s, k.0);
    match g {
        GroupBy::Week => {
            proof { reveal_strlit("-W"); }
            s.append("-W");
            push_two_digits(&mut s, k.1);
        },
        GroupBy::Biweekly => {
            proof { reveal_strlit("-BW"); }
            s.append("-BW");
            push_two_digits(&mut s, k.1);
        },
        GroupBy::Month => {
            proof { reveal_strlit("-"); }
            s.append("-");
            push_two_digits(&mut s, k.1);
        },
        GroupBy::Trimester => {
            proof { reveal_strlit("-Q"); }
            s.append("-Q");
            push_decimal(&mut s, k.1 as u64);
        },
        GroupBy::Quadrimester => {
            proof { reveal_strlit("-QD"); }
            s.append("-QD");
            push_decimal(&mut s, k.1 as u64);
        },
        GroupBy::Semester => {
            proof { reveal_strlit("-H"); }
            s.append("-H");
            push_decimal(&mut s, k.1 as u64);
        },
        GroupBy::Year => {},
    }
    proof {
        assert(s@ =~= period_label(t, g));
    }
    s
}

/// Get the week identifier string (e.g., "2025-W49")
pub fn get_week_identifier(date: Timestamp) -> (r: String)
    requires
        date.wf(),
    ensures
        r@ == period_label(date, GroupBy::Week),
{
    period_identifier(date, GroupBy::Week)
}

/// Get the month identifier string (e.g., "2025-11")
pub fn get_month_identifier(date: Timestamp) -> (r: String)
    requires
        date.wf(),
    ensures
        r@ == int_text(date.year as int) + seq!['-'] + two_digit_text(date.month as nat),
{
    period_identifier(date, GroupBy::Month)
}

/// Get the year identifier string (e.g., "2025")
pub fn get_year_identifier(date: Timestamp) -> (r: String)
    requires
        date.wf(),
    ensures
        r@ == int_text(date.year as int),
{
    period_identifier(date, GroupBy::Year)
}

/// Get the semester identifier string (e.g., "2025-H1")
pub fn get_semester_identifier(date: Timestamp) -> (r: String)
    requires
        date.wf(),
    ensures
        r@ == int_text(date.year as int) + seq!['-', 'H'] + decimal(
            semester_of(date.month as int) as nat,
        ),
{
    period_identifier(date, GroupBy::Semester)
}

/// Get the trimester identifier string (e.g., "2025-Q1")
pub fn get_trimester_identifier(date: Timestamp) -> (r: String)
    requires
        date.wf(),
    ensures
        r@ == int_text(date.year as int) + seq!['-', 'Q'] + decimal(
            trimester_of(date.month as int) as nat,
        ),
{
    period_identifier(date, GroupBy::Trimester)
}

/// Get the quadrimester identifier string (e.g., "2025-QD1")
pub fn get_quadrimester_identifier(date: Timestamp) -> (r: String)
    requires
        date.wf(),
    ensures
        r@ == int_text(date.year as int) + seq!['-', 'Q', 'D'] + decimal(
            quadrimester_of(date.month as int) as nat,
        ),
{
    period_identifier(date, GroupBy::Quadrimester)
}

/// Get the biweekly identifier string (e.g., "2025-BW01")
pub fn get_biweekly_identifier(date: Timestamp) -> (r: String)
    requires
        date.wf(),
    ensures
        r@ == period_label(date, GroupBy::Biweekly),
{
    period_identifier(date, GroupBy::Biweekly)
}

} // verus!

verus! {

/// Whether period `a` comes right before period `b`: the same year with the index one
/// lower, or a period of the year before (its last period among them).
pub open spec fn is_previous_period(a: (int, int), b: (int, int)) -> bool {
    (a.0 == b.0 && a.1 + 1 == b.1) || a.0 + 1 == b.0
}

/// For every granularity, a timestamp in the same period as the reference time is not
/// before the current period, one in the preceding period is, and one in a later
/// period is not.
pub proof fn lemma_before_current_by_period(date: Timestamp, now: Timestamp, g: GroupBy)
    ensures
        period_key(date, g) == period_key(now, g) ==> !before_current(date, now, g),
        is_previous_period(period_key(date, g), period_key(now, g)) ==> before_current(
            date,
            now,
            g,
        ),
        key_before(period_key(now, g), period_key(date, g)) ==> !before_current(date, now, g),
{
}

/// For the granularities read off the calendar date (month, trimester, quadrimester,
/// semester, year), a timestamp at or after the reference time is never before the
/// current period.
pub proof fn lemma_not_before_current_when_not_earlier(
    date: Timestamp,
    now: Timestamp,
    g: GroupBy,
)
    requires
        date.wf(),
        now.wf(),
        !date.earlier_than(now),
        g != GroupBy::Week,
        g != GroupBy::Biweekly,
    ensures
        !before_current(date, now, g),
{
    assert(now.year < date.year || (now.year == date.year && now.month <= date.month));
    if now.year == date.year {
        let (a, b) = (now.month as int, date.month as int);
        assert(trimester_of(a) <= trimester_of(b)) by (nonlinear_arith)
            requires
                1 <= a <= b,
        ;
        assert(quadrimester_of(a) <= quadrimester_of(b)) by (nonlinear_arith)
            requires
                1 <= a <= b,
        ;
    }
}

} // verus!
