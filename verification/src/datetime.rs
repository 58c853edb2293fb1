//! The date and time value that a read of the clock produces.

use vstd::prelude::*;

verus! {

/// Whether `year` is a leap year of the proleptic Gregorian calendar.
pub open spec fn is_leap_year(year: int) -> bool {
    (year % 4 == 0 && year % 100 != 0) || year % 400 == 0
}

/// The number of days of `month` in `year`; 0 where `month` is no month.
pub open spec fn days_in_month(year: int, month: int) -> int {
    if month == 2 {
        if is_leap_year(year) {
            29
        } else {
            28
        }
    } else if month == 4 || month == 6 || month == 9 || month == 11 {
        30
    } else if 1 <= month <= 12 {
        31
    } else {
        0
    }
}

/// Whether six fields name a moment of the calendar: a month from 1 to 12,
/// a day from 1 to the length of that month, and a time of day below 24:00:00.
pub open spec fn valid_fields(
    year: int,
    month: int,
    day: int,
    hour: int,
    minute: int,
    second: int,
) -> bool {
    &&& 1 <= month <= 12
    &&& 1 <= day <= days_in_month(year, month)
    &&& 0 <= hour <= 23
    &&& 0 <= minute <= 59
    &&& 0 <= second <= 59
}

/// A date and time as the clock holds it: plain fields, most significant first.
///
/// Any combination of fields can be held; [`RTCDateTime::is_valid`] tells
/// whether it names a moment of the calendar.
#[derive(Debug, Clone, Copy, PartialEq, Eq, Structural, Hash, Ord)]
pub struct RTCDateTime {
    pub year: usize,
    pub month: u8,
    pub day: u8,
    pub hour: u8,
    pub minute: u8,
    pub second: u8,
}

impl RTCDateTime {
    /// The fields as a tuple, most significant first.
    pub open spec fn fields(self) -> (usize, u8, u8, u8, u8, u8) {
        (self.year, self.month, self.day, self.hour, self.minute, self.second)
    }

    /// Whether the value names a moment of the calendar.
    pub open spec fn valid(self) -> bool {
        valid_fields(
            self.year as int,
            self.month as int,
            self.day as int,
            self.hour as int,
            self.minute as int,
            self.second as int,
        )
    }

    /// The greatest value of the type: every field at its limit. It is no
    /// date of the calendar; it serves as a bound that nothing exceeds.
    pub fn max() -> (top: Self)
        ensures
            top.fields() == (usize::MAX, 255u8, 255u8, 255u8, 255u8, 255u8),
            forall|other: RTCDateTime| !top.precedes(other),
    {
        RTCDateTime {
            year: usize::MAX,
            month: u8::MAX,
            day: u8::MAX,
            hour: u8::MAX,
            minute: u8::MAX,
            second: u8::MAX,
        }
    }

    /// The least value of the type: every field zero. It is no date of the
    /// calendar; it serves as a bound that nothing goes below.
    pub fn min() -> (bottom: Self)
        ensures
            bottom.fields() == (0usize, 0u8, 0u8, 0u8, 0u8, 0u8),
            forall|other: RTCDateTime| !other.precedes(bottom),
    {
        RTCDateTime { year: 0, month: 0, day: 0, hour: 0, minute: 0, second: 0 }
    }

    /// The last moment of the calendar that can be held: 31 December of the
    /// greatest year, 23:59:59.
    pub fn max_valid() -> (last: Self)
        ensures
            last.fields() == (usize::MAX, 12u8, 31u8, 23u8, 59u8, 59u8),
            last.valid(),
            forall|other: RTCDateTime| other.valid() ==> !last.precedes(other),
    {
        RTCDateTime { year: usize::MAX, month: 12, day: 31, hour: 23, minute: 59, second: 59 }
    }

    /// The first moment of the calendar that can be held: 1 January of year 0,
    /// 00:00:00.
    pub fn min_valid() -> (first: Self)
        ensures
            first.fields() == (0usize, 1u8, 1u8, 0u8, 0u8, 0u8),
            first.valid(),
            forall|other: RTCDateTime| other.valid() ==> !other.precedes(first),
    {
        RTCDateTime { year: 0, month: 1, day: 1, hour: 0, minute: 0, second: 0 }
    }

    /// The maximal number of days of `month` in `year`, 0 for a month outside 1 to 12.
    pub fn days_by_month(year: usize, month: u8) -> (days: u8)
        ensures
            days == days_in_month(year as int, month as int),
    {
        match month {
            1 | 3 | 5 | 7 | 8 | 10 | 12 => 31,
            4 | 6 | 9 | 11 => 30,
            2 => {
                if (year % 4 == 0 && year % 100 != 0) || year % 400 == 0 {
                    29
                } else {
                    28
                }
            },
            _ => 0,
        }
    }

    /// Check whether the value is a valid date and time, taking the lengths
    /// of the months and leap years into account.
    pub fn is_valid(&self) -> (ok: bool)
        ensures
            ok == self.valid(),
    {
        1 <= self.month && self.month <= 12 && self.hour < 24 && self.minute < 60 && self.second
            < 60 && 1 <= self.day && self.day <= RTCDateTime::days_by_month(self.year, self.month)
    }

    /// Build a value from a tuple of fields, most significant first.
    /// Fields that name no moment of the calendar are refused, never adjusted.
    pub fn from_tuple(tuple: &(usize, u8, u8, u8, u8, u8)) -> (made: Option<Self>)
        ensures
            made is Some <==> valid_fields(
                tuple.0 as int,
                tuple.1 as int,
                tuple.2 as int,
                tuple.3 as int,
                tuple.4 as int,
                tuple.5 as int,
            ),
            made matches Some(datetime) ==> datetime.fields() == *tuple,
    {
        let datetime = RTCDateTime {
            year: tuple.0,
            month: tuple.1,
            day: tuple.2,
            hour: tuple.3,
            minute: tuple.4,
            second: tuple.5,
        };
        if datetime.is_valid() {
            Some(datetime)
        } else {
            None
        }
    }

    /// The fields as a tuple, most significant first.
    pub fn as_tuple(&self) -> (tuple: (usize, u8, u8, u8, u8, u8))
        ensures
            tuple == self.fields(),
    {
        (self.year, self.month, self.day, self.hour, self.minute, self.second)
    }

    /// Turn the value into the tuple of its fields, most significant first.
    pub fn into_tuple(self) -> (tuple: (usize, u8, u8, u8, u8, u8))
        ensures
            tuple == self.fields(),
    {
        (self.year, self.month, self.day, self.hour, self.minute, self.second)
    }
}

impl Default for RTCDateTime {
    /// Every field zero.
    fn default() -> (zero: Self)
        ensures
            zero.fields() == (0usize, 0u8, 0u8, 0u8, 0u8, 0u8),
    {
        RTCDateTime { year: 0, month: 0, day: 0, hour: 0, minute: 0, second: 0 }
    }
}

/// The months of a year add up to 365 days, and to 366 in a leap year.
pub proof fn months_fill_the_year(year: int)
    ensures
        days_in_month(year, 1) + days_in_month(year, 2) + days_in_month(year, 3) + days_in_month(
            year,
            4,
        ) + days_in_month(year, 5) + days_in_month(year, 6) + days_in_month(year, 7)
            + days_in_month(year, 8) + days_in_month(year, 9) + days_in_month(year, 10)
            + days_in_month(year, 11) + days_in_month(year, 12) == if is_leap_year(year) {
            366int
        } else {
            365int
        },
{
}

/// A year that ends a century is a leap year only where it is divisible by
/// 400; any other year is one exactly where it is divisible by 4.
pub proof fn leap_years_follow_the_centuries(year: int)
    ensures
        year % 100 == 0 ==> (is_leap_year(year) <==> year % 400 == 0),
        year % 100 != 0 ==> (is_leap_year(year) <==> year % 4 == 0),
{
}

/// A field out of range makes a value invalid, whatever the other fields
/// hold: a month of 0 or above 12, a day of 0 or beyond the end of the month
/// (the 29th of February outside a leap year, the 31st of a month of 30
/// days), an hour above 23, a minute or a second above 59.
pub proof fn out_of_range_is_invalid(datetime: RTCDateTime)
    ensures
        datetime.month == 0 || datetime.month > 12 ==> !datetime.valid(),
        datetime.day == 0 || datetime.day > 31 ==> !datetime.valid(),
        datetime.month == 2 && datetime.day == 29 && !is_leap_year(datetime.year as int)
            ==> !datetime.valid(),
        datetime.month == 2 && datetime.day > 29 ==> !datetime.valid(),
        (datetime.month == 4 || datetime.month == 6 || datetime.month == 9 || datetime.month == 11)
            && datetime.day > 30 ==> !datetime.valid(),
        datetime.hour > 23 ==> !datetime.valid(),
        datetime.minute > 59 ==> !datetime.valid(),
        datetime.second > 59 ==> !datetime.valid(),
{
}

/// Two values are equal exactly where their fields are equal, one by one.
pub proof fn fields_identify_the_value(a: RTCDateTime, b: RTCDateTime)
    ensures
        a.fields() == b.fields() <==> a == b,
{
}

} // verus!
