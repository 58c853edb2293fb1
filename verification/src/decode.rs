//! From the raw bytes of the clock registers to a normalised date and time.
//!
//! The chip stores each field either in plain binary or in binary-coded
//! decimal, and the hour either on a 24-hour clock or on a 12-hour clock with
//! an afternoon flag in the top bit. Status register B says which. The year is
//! stored with two digits only; the century comes from a century register or
//! from a reference year that the caller supplies.

use vstd::prelude::*;
use crate::datetime::RTCDateTime;

verus! {

/// Bit of status register B that is set when the fields are plain binary.
pub const BINARY_MODE: u8 = 0x04;

/// Bit of status register B that is set when the hour is on a 24-hour clock.
pub const HOUR_24_MODE: u8 = 0x02;

/// Bit of the hour byte that marks the afternoon on a 12-hour clock.
pub const PM_FLAG: u8 = 0x80;

/// How the century of the year is found.
#[derive(Debug, Clone, Copy, PartialEq, Eq, Structural)]
pub enum CMOSCenturyHandler {
    /// The number of the register that holds the century.
    CenturyRegister(u8),
    /// A reference year: the result is the first year at or after it that
    /// ends in the two digits read.
    CurrentYear(usize),
}

/// The bytes of one capture of the clock registers, as read, plus the byte of
/// the century register (0 where none is used).
#[derive(Debug, Clone, Copy, PartialEq, Eq, Structural)]
pub struct RawClock {
    pub second: u8,
    pub minute: u8,
    pub hour: u8,
    pub day: u8,
    pub month: u8,
    pub year: u8,
    pub century: u8,
}

/// Whether a byte of status register B says that the fields are stored in
/// plain binary: its bit of value 4 is set. Otherwise they are stored in
/// binary-coded decimal.
pub open spec fn stores_binary(status_b: u8) -> bool {
    (status_b / 4) % 2 == 1
}

/// Whether a byte of status register B says that the hour is on a 24-hour
/// clock: its bit of value 2 is set. Otherwise it is on a 12-hour clock.
pub open spec fn counts_24_hours(status_b: u8) -> bool {
    (status_b / 2) % 2 == 1
}

/// The number that a byte stands for in binary-coded decimal: the low nibble
/// counts units, the high nibble tens. Nibbles above 9 are taken as they are.
pub open spec fn bcd_value(raw: int) -> int {
    raw % 16 + (raw / 16) * 10
}

/// The byte that stands for `value` in binary-coded decimal.
pub open spec fn bcd_encoding(value: int) -> int {
    (value / 10) * 16 + value % 10
}

/// The hour byte after conversion from binary-coded decimal: the low seven
/// bits are converted, the afternoon flag stays where it is.
pub open spec fn bcd_hour_value(raw: int) -> int {
    bcd_value(raw % 128) + (raw / 128) * 128
}

/// The hour on a 24-hour clock, for an hour byte of a 12-hour clock whose
/// afternoon flag is set.
pub open spec fn afternoon_hour(hour: int) -> int {
    (hour % 128 + 12) % 24
}

/// The full year for the two digits `year` and the century byte `century`.
pub open spec fn full_year(handler: CMOSCenturyHandler, year: int, century: int) -> int {
    match handler {
        CMOSCenturyHandler::CenturyRegister(_) => year + century * 100,
        CMOSCenturyHandler::CurrentYear(reference) => {
            let tentative = (reference / 100) * 100 + year;
            if tentative < reference {
                tentative + 100
            } else {
                tentative
            }
        },
    }
}

impl CMOSCenturyHandler {
    /// Whether every year that can come out fits the machine word: with a
    /// reference year, its century plus the largest byte must fit.
    pub open spec fn representable(self) -> bool {
        match self {
            CMOSCenturyHandler::CenturyRegister(_) => true,
            CMOSCenturyHandler::CurrentYear(reference) => (reference / 100) * 100 + 255
                <= usize::MAX,
        }
    }

    /// Tells whether the years that this handler can produce fit the machine word.
    pub fn is_representable(&self) -> (ok: bool)
        ensures
            ok == self.representable(),
    {
        match self {
            CMOSCenturyHandler::CenturyRegister(_) => true,
            CMOSCenturyHandler::CurrentYear(reference) => (*reference / 100) * 100 <= usize::MAX
                - 255,
        }
    }

    /// Whether the century is read from a register.
    pub open spec fn uses_register(self) -> bool {
        self is CenturyRegister
    }
}

impl RawClock {
    /// The capture before anything was read: every byte zero.
    pub open spec fn zero() -> RawClock {
        RawClock { second: 0, minute: 0, hour: 0, day: 0, month: 0, year: 0, century: 0 }
    }

    /// The fields as numbers, after conversion from binary-coded decimal
    /// where status register B asks for it. The hour keeps its afternoon flag.
    pub open spec fn binary(self, status_b: u8, handler: CMOSCenturyHandler) -> RawClock {
        if stores_binary(status_b) {
            self
        } else {
            RawClock {
                second: bcd_value(self.second as int) as u8,
                minute: bcd_value(self.minute as int) as u8,
                hour: bcd_hour_value(self.hour as int) as u8,
                day: bcd_value(self.day as int) as u8,
                month: bcd_value(self.month as int) as u8,
                year: bcd_value(self.year as int) as u8,
                century: if handler.uses_register() {
                    bcd_value(self.century as int) as u8
                } else {
                    self.century
                },
            }
        }
    }

    /// The date and time that the capture stands for under the formats that
    /// status register B announces.
    pub open spec fn decoded(self, status_b: u8, handler: CMOSCenturyHandler) -> RTCDateTime {
        let plain = self.binary(status_b, handler);
        RTCDateTime {
            year: full_year(handler, plain.year as int, plain.century as int) as usize,
            month: plain.month,
            day: plain.day,
            hour: if !counts_24_hours(status_b) && plain.hour >= 128 {
                afternoon_hour(plain.hour as int) as u8
            } else {
                plain.hour
            },
            minute: plain.minute,
            second: plain.second,
        }
    }
}

/// Convert a byte of binary-coded decimal to the number it stands for.
pub fn bcd_to_binary(raw: u8) -> (value: u8)
    ensures
        value == bcd_value(raw as int),
        value <= 165,
{
    assert((raw & 0x0F) == raw % 16 && (raw >> 4) == raw / 16 && (raw >> 4) <= 15) by (bit_vector);
    (raw & 0x0F) + (raw >> 4) * 10
}

/// Convert an hour byte of binary-coded decimal: the low seven bits become
/// the number they stand for, the afternoon flag is kept.
pub fn bcd_hour_to_binary(raw: u8) -> (value: u8)
    ensures
        value == bcd_hour_value(raw as int),
        value >= 128 <==> raw >= 128,
{
    assert((raw & 0x0F) == (raw % 128) % 16 && ((raw & 0x70) >> 4) == (raw % 128) / 16 && ((raw
        & 0x70) >> 4) <= 7 && (raw & 0x80) == (raw / 128) * 128) by (bit_vector);
    let low: u8 = (raw & 0x0F) + ((raw & 0x70) >> 4) * 10;
    let flag: u8 = raw & PM_FLAG;
    assert(low | flag == low + flag) by (bit_vector)
        requires
            low <= 85,
            flag == 0 || flag == 128,
    ;
    low | flag
}

/// Bring an hour byte of a 12-hour clock to the 24-hour clock: with the
/// afternoon flag set, twelve hours are added to the low seven bits, modulo
/// 24; without it the byte is the hour.
pub fn hour_to_24(hour: u8) -> (value: u8)
    ensures
        value == if hour >= 128 {
            afternoon_hour(hour as int)
        } else {
            hour as int
        },
{
    assert((hour & 0x80 != 0) == (hour >= 128) && (hour & 0x7F) == hour % 128) by (bit_vector);
    if (hour & PM_FLAG) != 0 {
        ((hour & 0x7F) + 12) % 24
    } else {
        hour
    }
}

/// Rebuild the four-digit year from the two digits and the century byte.
///
/// With a century register the century byte counts hundreds. With a
/// reference year the two digits are placed in its century, and in the next
/// one if that falls before the reference year.
pub fn reconstruct_year(handler: CMOSCenturyHandler, year: u8, century: u8) -> (full: usize)
    requires
        handler.representable(),
    ensures
        full == full_year(handler, year as int, century as int),
{
    match handler {
        CMOSCenturyHandler::CenturyRegister(_) => {
            let hundreds: u32 = century as u32 * 100;
            year as usize + hundreds as usize
        },
        CMOSCenturyHandler::CurrentYear(reference) => {
            let tentative: usize = (reference / 100) * 100 + year as usize;
            if tentative < reference {
                tentative + 100
            } else {
                tentative
            }
        },
    }
}

/// Decode one capture of the clock registers under the formats that status
/// register B announces. The result is not checked for validity: a chip in
/// a bad state gives a date that [`RTCDateTime::is_valid`] refuses.
pub fn decode(raw: &RawClock, status_b: u8, handler: CMOSCenturyHandler) -> (datetime:
    RTCDateTime)
    requires
        handler.representable(),
    ensures
        datetime == raw.decoded(status_b, handler),
{
    let mut second = raw.second;
    let mut minute = raw.minute;
    let mut hour = raw.hour;
    let mut day = raw.day;
    let mut month = raw.month;
    let mut year = raw.year;
    let mut century = raw.century;
    assert(((status_b & 0x04) == 0) == ((status_b / 4) % 2 != 1) && ((status_b & 0x02) == 0) == ((
    status_b / 2) % 2 != 1)) by (bit_vector);
    if (status_b & BINARY_MODE) == 0 {
        second = bcd_to_binary(second);
        minute = bcd_to_binary(minute);
        hour = bcd_hour_to_binary(hour);
        day = bcd_to_binary(day);
        month = bcd_to_binary(month);
        year = bcd_to_binary(year);
        if let CMOSCenturyHandler::CenturyRegister(_) = handler {
            century = bcd_to_binary(century);
        }
    }
    if (status_b & HOUR_24_MODE) == 0 {
        hour = hour_to_24(hour);
    }
    RTCDateTime { year: reconstruct_year(handler, year, century), month, day, hour, minute, second }
}

/// Binary-coded decimal loses nothing: a number from 0 to 99 is encoded in
/// one byte, and converting that byte gives the number back.
pub proof fn bcd_round_trip(value: int)
    requires
        0 <= value <= 99,
    ensures
        0 <= bcd_encoding(value) <= 0x99,
        bcd_value(bcd_encoding(value)) == value,
{
}

/// The conversion of the hour byte leaves the afternoon flag alone: for an
/// hour from 0 to 79 in binary-coded decimal, with or without the flag, it
/// gives the hour, with or without the flag.
pub proof fn bcd_hour_round_trip(hour: int, afternoon: bool)
    requires
        0 <= hour <= 79,
    ensures
        bcd_hour_value(bcd_encoding(hour) + if afternoon { 128int } else { 0 }) == hour + if afternoon {
            128int
        } else {
            0
        },
{
}

/// An hour byte with the afternoon flag always gives an hour below 24, and
/// the hours 1 to 11 of the afternoon give 13 to 23.
pub proof fn afternoon_hour_range(hour: int)
    requires
        128 <= hour <= 255,
    ensures
        0 <= afternoon_hour(hour) <= 23,
        1 <= hour - 128 <= 11 ==> afternoon_hour(hour) == hour - 128 + 12,
{
}

/// With a reference year, two digits give the one year that ends in them
/// among the hundred years that begin with the reference year.
pub proof fn reference_year_window(reference: usize, year: int)
    requires
        0 <= year <= 99,
    ensures
        reference <= full_year(CMOSCenturyHandler::CurrentYear(reference), year, 0) < reference
            + 100,
        full_year(CMOSCenturyHandler::CurrentYear(reference), year, 0) % 100 == year,
{
    let base = (reference / 100) * 100;
    assert(base <= reference < base + 100);
    assert((base + year) % 100 == year) by (nonlinear_arith)
        requires
            base == (reference / 100) * 100,
            0 <= year <= 99,
    ;
    assert((base + year + 100) % 100 == year) by (nonlinear_arith)
        requires
            base == (reference / 100) * 100,
            0 <= year <= 99,
    ;
}

/// With a century register, the century byte and two digits give the year
/// whose hundreds are the one and whose last two digits are the other.
pub proof fn century_register_year(reg: u8, year: int, century: int)
    requires
        0 <= year <= 99,
        0 <= century,
    ensures
        full_year(CMOSCenturyHandler::CenturyRegister(reg), year, century) / 100 == century,
        full_year(CMOSCenturyHandler::CenturyRegister(reg), year, century) % 100 == year,
{
}

/// The capture that a chip holds for `moment` when it stores its fields in
/// binary-coded decimal on a 24-hour clock.
pub open spec fn bcd_capture(moment: RTCDateTime) -> RawClock {
    RawClock {
        second: bcd_encoding(moment.second as int) as u8,
        minute: bcd_encoding(moment.minute as int) as u8,
        hour: bcd_encoding(moment.hour as int) as u8,
        day: bcd_encoding(moment.day as int) as u8,
        month: bcd_encoding(moment.month as int) as u8,
        year: bcd_encoding(moment.year as int % 100) as u8,
        century: bcd_encoding(moment.year as int / 100) as u8,
    }
}

/// The capture that a chip holds for `moment` when it stores its fields in
/// plain binary on a 24-hour clock.
pub open spec fn binary_capture(moment: RTCDateTime) -> RawClock {
    RawClock {
        second: moment.second,
        minute: moment.minute,
        hour: moment.hour,
        day: moment.day,
        month: moment.month,
        year: (moment.year % 100) as u8,
        century: (moment.year / 100) as u8,
    }
}

/// Decoding undoes the chip's encoding. For a moment of the calendar up to
/// the year 9999, held on a 24-hour clock in either format, the capture
/// decodes to that moment: with a century register, and with any reference
/// year that lies at most 99 years before it.
pub proof fn decoding_inverts_encoding(
    moment: RTCDateTime,
    status_b: u8,
    handler: CMOSCenturyHandler,
)
    requires
        moment.valid(),
        moment.year <= 9999,
        counts_24_hours(status_b),
        handler matches CMOSCenturyHandler::CurrentYear(reference) ==> reference <= moment.year
            < reference + 100,
    ensures
        !stores_binary(status_b) ==> bcd_capture(moment).decoded(status_b, handler)
            == moment,
        stores_binary(status_b) ==> binary_capture(moment).decoded(status_b, handler)
            == moment,
{
    let year: int = moment.year as int % 100;
    let century: int = moment.year as int / 100;
    bcd_round_trip(moment.second as int);
    bcd_round_trip(moment.minute as int);
    bcd_round_trip(moment.hour as int);
    bcd_round_trip(moment.day as int);
    bcd_round_trip(moment.month as int);
    bcd_round_trip(year);
    bcd_round_trip(century);
    match handler {
        CMOSCenturyHandler::CenturyRegister(_) => {},
        CMOSCenturyHandler::CurrentYear(reference) => {
            reference_year_window(reference, year);
            let full = full_year(handler, year, 0);
            assert(full == moment.year) by {
                assert(full % 100 == moment.year % 100);
                assert(-100 < full - moment.year < 100);
            }
            assert(full_year(handler, year, century) == full);
        },
    }
}

} // verus!
