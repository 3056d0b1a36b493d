//! The numbers and labels that stand for days, periods and quarters in the
//! stored tables and in listings.

use vstd::prelude::*;
use crate::scrape::sub::Semester;
use crate::scrape::timetable::{block_number, Day, Period};

verus! {

/// The number that stands for a day: 0 for Sunday up to 6 for Saturday.
pub open spec fn day_number(day: Day) -> i32 {
    match day {
        Day::Sunday => 0,
        Day::Monday => 1,
        Day::Tuesday => 2,
        Day::Wednesday => 3,
        Day::Thursday => 4,
        Day::Friday => 5,
        Day::Saturday => 6,
    }
}

/// The number that stands for a period: 1 for the first up to 6 for the
/// sixth.
pub open spec fn period_number(period: Period) -> i32 {
    block_number(period) as i32
}

/// The number that stands for a quarter: 1 for the first up to 4 for the
/// fourth.
pub open spec fn semester_number(semester: Semester) -> i32 {
    match semester {
        Semester::First => 1,
        Semester::Second => 2,
        Semester::Third => 3,
        Semester::Fourth => 4,
    }
}

/// The day that a number stands for.
pub open spec fn day_of_number(n: i32) -> Option<Day> {
    if n == 0 {
        Some(Day::Sunday)
    } else if n == 1 {
        Some(Day::Monday)
    } else if n == 2 {
        Some(Day::Tuesday)
    } else if n == 3 {
        Some(Day::Wednesday)
    } else if n == 4 {
        Some(Day::Thursday)
    } else if n == 5 {
        Some(Day::Friday)
    } else if n == 6 {
        Some(Day::Saturday)
    } else {
        None
    }
}

/// The period that a number stands for.
pub open spec fn period_of_number(n: i32) -> Option<Period> {
    if n == 1 {
        Some(Period::First)
    } else if n == 2 {
        Some(Period::Second)
    } else if n == 3 {
        Some(Period::Third)
    } else if n == 4 {
        Some(Period::Fourth)
    } else if n == 5 {
        Some(Period::Fifth)
    } else if n == 6 {
        Some(Period::Sixth)
    } else {
        None
    }
}

/// The quarter that a number stands for.
pub open spec fn semester_of_number(n: i32) -> Option<Semester> {
    if n == 1 {
        Some(Semester::First)
    } else if n == 2 {
        Some(Semester::Second)
    } else if n == 3 {
        Some(Semester::Third)
    } else if n == 4 {
        Some(Semester::Fourth)
    } else {
        None
    }
}

/// Every day, period and quarter is found again from its number, and the
/// number of a period lies between 1 and 6.
pub proof fn lemma_numbers_are_faithful(day: Day, period: Period, semester: Semester)
    ensures
        day_of_number(day_number(day)) == Some(day),
        period_of_number(period_number(period)) == Some(period),
        semester_of_number(semester_number(semester)) == Some(semester),
        0 <= day_number(day) <= 6,
        1 <= period_number(period) <= 6,
        1 <= semester_number(semester) <= 4,
{
}

/// The number that stands for a day.
pub fn day_code(day: Day) -> (n: i32)
    ensures
        n == day_number(day),
{
    match day {
        Day::Sunday => 0,
        Day::Monday => 1,
        Day::Tuesday => 2,
        Day::Wednesday => 3,
        Day::Thursday => 4,
        Day::Friday => 5,
        Day::Saturday => 6,
    }
}

/// The number that stands for a period.
pub fn period_code(period: Period) -> (n: i32)
    ensures
        n == period_number(period),
{
    match period {
        Period::First => 1,
        Period::Second => 2,
        Period::Third => 3,
        Period::Fourth => 4,
        Period::Fifth => 5,
        Period::Sixth => 6,
    }
}

/// The number that stands for a quarter.
pub fn semester_code(semester: Semester) -> (n: i32)
    ensures
        n == semester_number(semester),
{
    match semester {
        Semester::First => 1,
        Semester::Second => 2,
        Semester::Third => 3,
        Semester::Fourth => 4,
    }
}

/// The character that a listing writes for a day number; nothing for a
/// number that stands for no day.
pub open spec fn day_label_of(n: i32) -> Seq<char> {
    if n == 0 {
        "\u{65e5}"@
    } else if n == 1 {
        "\u{6708}"@
    } else if n == 2 {
        "\u{706b}"@
    } else if n == 3 {
        "\u{6c34}"@
    } else if n == 4 {
        "\u{6728}"@
    } else if n == 5 {
        "\u{91d1}"@
    } else if n == 6 {
        "\u{571f}"@
    } else {
        ""@
    }
}

/// The class hours that a listing writes for a period number; nothing for a
/// number that stands for no period.
pub open spec fn period_label_of(n: i32) -> Seq<char> {
    if n == 1 {
        "1-2"@
    } else if n == 2 {
        "3-4"@
    } else if n == 3 {
        "5-6"@
    } else if n == 4 {
        "7-8"@
    } else if n == 5 {
        "9-10"@
    } else if n == 6 {
        "11-12"@
    } else {
        ""@
    }
}

/// The token that a listing writes for a quarter number; nothing for a
/// number that stands for no quarter.
pub open spec fn semester_label_of(n: i32) -> Seq<char> {
    if n == 1 {
        "1Q"@
    } else if n == 2 {
        "2Q"@
    } else if n == 3 {
        "3Q"@
    } else if n == 4 {
        "4Q"@
    } else {
        ""@
    }
}

/// The character that a listing writes for a day number.
pub fn day_label(n: i32) -> (label: &'static str)
    ensures
        label@ == day_label_of(n),
{
    if n == 0 {
        "\u{65e5}"
    } else if n == 1 {
        "\u{6708}"
    } else if n == 2 {
        "\u{706b}"
    } else if n == 3 {
        "\u{6c34}"
    } else if n == 4 {
        "\u{6728}"
    } else if n == 5 {
        "\u{91d1}"
    } else if n == 6 {
        "\u{571f}"
    } else {
        ""
    }
}

/// The class hours that a listing writes for a period number.
pub fn period_label(n: i32) -> (label: &'static str)
    ensures
        label@ == period_label_of(n),
{
    if n == 1 {
        "1-2"
    } else if n == 2 {
        "3-4"
    } else if n == 3 {
        "5-6"
    } else if n == 4 {
        "7-8"
    } else if n == 5 {
        "9-10"
    } else if n == 6 {
        "11-12"
    } else {
        ""
    }
}

/// The token that a listing writes for a quarter number.
pub fn semester_label(n: i32) -> (label: &'static str)
    ensures
        label@ == semester_label_of(n),
{
    if n == 1 {
        "1Q"
    } else if n == 2 {
        "2Q"
    } else if n == 3 {
        "3Q"
    } else if n == 4 {
        "4Q"
    } else {
        ""
    }
}

} // verus!
