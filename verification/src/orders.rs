//! The order statistics that the bot reports: calendar dates, the record
//! day and the daily totals.

use vstd::prelude::*;
use crate::text::{decimal, digit_char};

verus! {

/// A proleptic Gregorian leap year.
pub open spec fn is_leap_year(year: int) -> bool {
    year % 4 == 0 && (year % 100 != 0 || year % 400 == 0)
}

pub open spec fn days_in_month(year: int, month: int) -> int {
    if month == 2 {
        if is_leap_year(year) { 29 } else { 28 }
    } else if month == 4 || month == 6 || month == 9 || month == 11 {
        30
    } else {
        31
    }
}

/// A day that exists in the proleptic Gregorian calendar, in the years that
/// chrono's `NaiveDate` covers.
pub open spec fn valid_date(year: int, month: int, day: int) -> bool {
    &&& -262143 <= year <= 262142
    &&& 1 <= month <= 12
    &&& 1 <= day <= days_in_month(year, month)
}

/// A calendar day.
pub struct CalendarDate {
    year: i32,
    month: u32,
    day: u32,
}

impl View for CalendarDate {
    /// Year, month and day.
    type V = (int, int, int);

    closed spec fn view(&self) -> (int, int, int) {
        (self.year as int, self.month as int, self.day as int)
    }
}

impl CalendarDate {
    #[verifier::type_invariant]
    closed spec fn is_valid(self) -> bool {
        valid_date(self.year as int, self.month as int, self.day as int)
    }

    /// The given day, if it exists.
    pub fn new(year: i32, month: u32, day: u32) -> (date: Option<CalendarDate>)
        ensures
            date is Some <==> valid_date(year as int, month as int, day as int),
            date matches Some(d) ==> d@ == (year as int, month as int, day as int),
    {
        if year < -262143 || year > 262142 || month < 1 || month > 12 || day < 1 {
            return None;
        }
        let leap = year % 4 == 0 && (year % 100 != 0 || year % 400 == 0);
        let days: u32 = if month == 2 {
            if leap { 29 } else { 28 }
        } else if month == 4 || month == 6 || month == 9 || month == 11 {
            30
        } else {
            31
        };
        assert(leap == is_leap_year(year as int));
        if day > days {
            None
        } else {
            Some(CalendarDate { year, month, day })
        }
    }

    pub fn year(&self) -> (year: i32)
        ensures
            year as int == self@.0,
    {
        self.year
    }

    pub fn month(&self) -> (month: u32)
        ensures
            month as int == self@.1,
    {
        self.month
    }

    pub fn day(&self) -> (day: u32)
        ensures
            day as int == self@.2,
    {
        self.day
    }
}

/// Two digits for a number below a hundred.
pub open spec fn two_digits(n: int) -> Seq<char> {
    seq![digit_char((n / 10) as nat), digit_char((n % 10) as nat)]
}

/// `digits` with zeros before them up to `width` characters.
pub open spec fn zero_padded(digits: Seq<char>, width: nat) -> Seq<char> {
    if digits.len() < width {
        Seq::new((width - digits.len()) as nat, |_i: int| '0') + digits
    } else {
        digits
    }
}

/// A year as chrono's `%Y` writes it: at least four digits, with a sign
/// before years outside 0 to 9999.
pub open spec fn year_text(year: int) -> Seq<char> {
    let digits = zero_padded(decimal((if year < 0 { -year } else { year }) as nat), 4);
    if 0 <= year <= 9999 {
        digits
    } else if year < 0 {
        seq!['-'] + digits
    } else {
        seq!['+'] + digits
    }
}

/// A date as chrono writes it with the format `%d.%m.%Y`.
pub open spec fn day_month_year(year: int, month: int, day: int) -> Seq<char> {
    two_digits(day) + "."@ + two_digits(month) + "."@ + year_text(year)
}

/// chrono's `NaiveDate::from_ymd_opt(..).format("%d.%m.%Y")`, written to a
/// string: the day and month zero-padded to two digits, the year to four,
/// the year with a sign outside 0 to 9999. `from_ymd_opt` gives `None` on a
/// day that does not exist, which `requires` leaves out.
#[verifier::external_body]
fn chrono_day_month_year(year: i32, month: u32, day: u32) -> (text: String)
    requires
        valid_date(year as int, month as int, day as int),
    ensures
        text@ == day_month_year(year as int, month as int, day as int),
{
    let date = chrono::NaiveDate::from_ymd_opt(year, month, day).unwrap();
    date.format("%d.%m.%Y").to_string()
}

/// The date written as `dd.mm.yyyy`.
pub fn format_date(date: &CalendarDate) -> (text: String)
    ensures
        text@ == day_month_year(date@.0, date@.1, date@.2),
{
    proof {
        use_type_invariant(date);
    }
    chrono_day_month_year(date.year, date.month, date.day)
}

/// The day on which the most waffles were ordered in a guild.
pub struct Highscore {
    pub date: CalendarDate,
    pub total_orders: i64,
}

/// The orders of a guild today.
pub struct DailyStats {
    pub total_orders: i64,
    /// (`discord_user_id`, count)
    pub top_users: Vec<(String, i64)>,
}

} // verus!
