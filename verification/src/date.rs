//! Calendar dates of the years 0 to 9999 and their `YYYY-MM-DD` text.

use crate::text::{digit_char, digit_str};
use chrono::Datelike;
use vstd::prelude::*;
use vstd::string::StringExecFns;

verus! {

/// Whether February has 29 days in `year`.
pub open spec fn is_leap_year(year: int) -> bool {
    year % 4 == 0 && (year % 100 != 0 || year % 400 == 0)
}

/// Number of days of a month of the Gregorian calendar, 0 for a month that
/// does not exist.
pub open spec fn days_in_month(year: int, month: int) -> int {
    if month == 4 || month == 6 || month == 9 || month == 11 {
        30
    } else if month == 2 {
        if is_leap_year(year) {
            29
        } else {
            28
        }
    } else if 1 <= month <= 12 {
        31
    } else {
        0
    }
}

/// Whether year, month and day name a day that can be written `YYYY-MM-DD`.
pub open spec fn is_calendar_date(year: int, month: int, day: int) -> bool {
    &&& 0 <= year <= 9999
    &&& 1 <= month <= 12
    &&& 1 <= day <= days_in_month(year, month)
}

/// `year-month-day` with four, two and two digits.
pub open spec fn iso_date_text(year: int, month: int, day: int) -> Seq<char> {
    seq![
        digit_char(year / 1000),
        digit_char(year / 100 % 10),
        digit_char(year / 10 % 10),
        digit_char(year % 10),
        '-',
        digit_char(month / 10),
        digit_char(month % 10),
        '-',
        digit_char(day / 10),
        digit_char(day % 10),
    ]
}

/// Whether `text` has the form `YYYY-MM-DD`: ten characters, all of them
/// digits but for the two hyphens.
pub open spec fn has_iso_date_form(text: Seq<char>) -> bool {
    &&& text.len() == 10
    &&& text[4] == '-'
    &&& text[7] == '-'
    &&& forall|i: int| 0 <= i < 10 && i != 4 && i != 7 ==> '0' <= #[trigger] text[i] <= '9'
}

/// A date of the calendar is written in the form `YYYY-MM-DD`.
pub proof fn lemma_iso_text_has_date_form(year: int, month: int, day: int)
    requires
        is_calendar_date(year, month, day),
    ensures
        has_iso_date_form(iso_date_text(year, month, day)),
{
    let text = iso_date_text(year, month, day);
    assert forall|i: int| 0 <= i < 10 && i != 4 && i != 7 implies '0' <= #[trigger] text[i]
        <= '9' by {
        if i == 0 {
            assert(text[i] == digit_char(year / 1000));
        } else if i == 1 {
            assert(text[i] == digit_char(year / 100 % 10));
        } else if i == 2 {
            assert(text[i] == digit_char(year / 10 % 10));
        } else if i == 3 {
            assert(text[i] == digit_char(year % 10));
        } else if i == 5 {
            assert(text[i] == digit_char(month / 10));
        } else if i == 6 {
            assert(text[i] == digit_char(month % 10));
        } else if i == 8 {
            assert(text[i] == digit_char(day / 10));
        } else {
            assert(text[i] == digit_char(day % 10));
        }
    }
}

/// A day of the Gregorian calendar in the years 0 to 9999.
#[derive(Clone, Copy, Debug, PartialEq, Eq)]
pub struct CalendarDate {
    year: u16,
    month: u8,
    day: u8,
}

impl CalendarDate {
    /// The year, from 0 to 9999.
    pub closed spec fn year(&self) -> int {
        self.year as int
    }

    /// The month, from 1 to 12.
    pub closed spec fn month(&self) -> int {
        self.month as int
    }

    /// The day of the month, from 1 on.
    pub closed spec fn day(&self) -> int {
        self.day as int
    }

    /// Every date that the program holds is one of the calendar.
    #[verifier::type_invariant]
    pub open spec fn well_formed(&self) -> bool {
        is_calendar_date(self.year(), self.month(), self.day())
    }

    /// The text of this date as the ledger wants it.
    pub open spec fn iso_text(&self) -> Seq<char> {
        iso_date_text(self.year(), self.month(), self.day())
    }

    /// The date with these numbers, if the calendar has it.
    pub fn new(year: i32, month: u32, day: u32) -> (date: Option<Self>)
        ensures
            date is Some <==> is_calendar_date(year as int, month as int, day as int),
            date matches Some(d) ==> d.well_formed() && d.year() == year && d.month() == month
                && d.day() == day,
    {
        if year < 0 || year > 9999 || month < 1 || month > 12 || day < 1 {
            return None;
        }
        let leap = year % 4 == 0 && (year % 100 != 0 || year % 400 == 0);
        let last: u32 = if month == 4 || month == 6 || month == 9 || month == 11 {
            30
        } else if month == 2 {
            if leap {
                29
            } else {
                28
            }
        } else {
            31
        };
        if day > last {
            return None;
        }
        Some(CalendarDate { year: year as u16, month: month as u8, day: day as u8 })
    }

    /// Today on the local clock, or `None` where the clock stands outside
    /// the years 0 to 9999.
    pub fn today() -> (date: Option<Self>)
        ensures
            date matches Some(d) ==> d.well_formed(),
    {
        let (year, month, day) = local_today();
        Self::new(year, month, day)
    }

    /// The year, from 0 to 9999.
    pub fn year_number(&self) -> (year: u16)
        ensures
            year == self.year(),
            year <= 9999,
    {
        proof {
            use_type_invariant(self);
        }
        self.year
    }

    /// The month, from 1 to 12.
    pub fn month_number(&self) -> (month: u8)
        ensures
            month == self.month(),
            1 <= month <= 12,
    {
        proof {
            use_type_invariant(self);
        }
        self.month
    }

    /// The day of the month.
    pub fn day_number(&self) -> (day: u8)
        ensures
            day == self.day(),
            1 <= day <= days_in_month(self.year(), self.month()),
    {
        proof {
            use_type_invariant(self);
        }
        self.day
    }

    /// This date as `YYYY-MM-DD`.
    pub fn to_iso_string(&self) -> (text: String)
        ensures
            text@ == self.iso_text(),
            has_iso_date_form(text@),
    {
        proof {
            use_type_invariant(self);
            reveal_strlit("-");
            lemma_iso_text_has_date_form(self.year(), self.month(), self.day());
        }
        let y: u16 = self.year;
        let m: u8 = self.month;
        let d: u8 = self.day;
        let mut text = String::new();
        text.append(digit_str((y / 1000) as u8));
        text.append(digit_str((y / 100 % 10) as u8));
        text.append(digit_str((y / 10 % 10) as u8));
        text.append(digit_str((y % 10) as u8));
        text.append("-");
        text.append(digit_str(m / 10));
        text.append(digit_str(m % 10));
        text.append("-");
        text.append(digit_str(d / 10));
        text.append(digit_str(d % 10));
        assert(text@ =~= self.iso_text());
        text
    }
}

/// Year, month and day of `chrono::Local::now().date_naive()`, read through
/// `Datelike`. The result follows the clock and the time zone of the
/// machine, so nothing is claimed of it. `chrono` panics where the clock
/// stands before 1970 or the machine's zone data name no local time; no
/// argument decides that, so no precondition can rule it out.
#[verifier::external_body]
fn local_today() -> (ymd: (i32, u32, u32)) {
    let today = chrono::Local::now().date_naive();
    (today.year(), today.month(), today.day())
}

} // verus!
