//! Calendar fields and the rules that decide whether they name a moment
//! that a cell can hold.

use vstd::prelude::*;
use vstd::string::StringExecFns;

use crate::engine::{
    date_and_hms, date_from_ymd, date_refusal, describe, moment_of, time_refusal, SerialDate,
};
use crate::error::{ErrorView, XlsxWriterError};

verus! {

/// A calendar date, as the caller writes it.
#[derive(Debug, Clone, Copy)]
pub struct ExcelDate {
    pub year: u16,
    pub month: u8,
    pub day: u8,
}

/// A calendar date with a time of day, as the caller writes it.
#[derive(Debug, Clone, Copy)]
pub struct ExcelDateTime {
    pub year: u16,
    pub month: u8,
    pub day: u8,
    pub hour: u8,
    pub minute: u8,
    pub second: u8,
}

/// The number format of a date cell.
pub const DATE_FORMAT: &'static str = "yyyy-mm-dd";

/// The number format of a date-time cell.
pub const DATETIME_FORMAT: &'static str = "yyyy-mm-dd hh:mm:ss";

/// The Gregorian leap-year rule.
pub open spec fn leap_year(year: int) -> bool {
    year % 4 == 0 && (year % 100 != 0 || year % 400 == 0)
}

/// The number of days of a month of the Gregorian calendar.
pub open spec fn month_length(year: int, month: int) -> int {
    if month == 2 {
        if leap_year(year) { 29 } else { 28 }
    } else if month == 4 || month == 6 || month == 9 || month == 11 {
        30
    } else {
        31
    }
}

/// Whether the fields name a day of the Gregorian calendar.
pub open spec fn calendar_date(year: int, month: int, day: int) -> bool {
    1 <= month <= 12 && 1 <= day <= month_length(year, month)
}

/// Whether the engine's date constructor takes the fields. It knows the years
/// 1900 to 9999 and the day before them, and it counts a 29th of February in
/// 1900, as spreadsheets do.
pub open spec fn engine_takes_date(year: int, month: int, day: int) -> bool {
    &&& (1900 <= year <= 9999 || (year == 1899 && month == 12 && day == 31))
    &&& 1 <= month <= 12
    &&& 1 <= day <= if year == 1900 && month == 2 { 29 } else { month_length(year, month) }
}

/// Whether the engine's time setter takes the fields: it lets any hour pass,
/// a minute up to 60 and a second below 60.
pub open spec fn engine_takes_time(minute: int, second: int) -> bool {
    minute <= 60 && second <= 59
}

/// Whether a cell can hold the date: it is a day of the Gregorian calendar
/// in the range that the engine knows.
pub open spec fn writable_date(year: int, month: int, day: int) -> bool {
    calendar_date(year, month, day) && engine_takes_date(year, month, day)
}

/// Whether the fields name a time of day.
pub open spec fn clock_time(hour: int, minute: int, second: int) -> bool {
    0 <= hour <= 23 && 0 <= minute <= 59 && 0 <= second <= 59
}

/// Whether the hour, minute and second of a moment name a time of day.
pub open spec fn time_of_day(at: ExcelDateTime) -> bool {
    clock_time(at.hour as int, at.minute as int, at.second as int)
}

/// Why no cell can hold the date, if none can: the engine's reason where the
/// engine refuses the fields, and the calendar's where the engine would
/// take a day that the Gregorian calendar lacks.
pub open spec fn date_error(year: u16, month: u8, day: u8) -> Option<Seq<char>> {
    if !engine_takes_date(year as int, month as int, day as int) {
        Some(date_refusal(year, month, day))
    } else if !calendar_date(year as int, month as int, day as int) {
        Some("Day is not in the calendar"@)
    } else {
        None
    }
}

/// Why no cell can hold the moment, if none can: the date's reason first;
/// then the engine's reason where the engine refuses minute or second; then
/// the clock's, where the engine would take an hour or a minute that no
/// clock shows.
pub open spec fn moment_error(at: ExcelDateTime) -> Option<Seq<char>> {
    if date_error(at.year, at.month, at.day) is Some {
        date_error(at.year, at.month, at.day)
    } else if !engine_takes_time(at.minute as int, at.second as int) {
        Some(time_refusal(at.minute, at.second))
    } else if at.hour > 23 {
        Some("Hour is outside the range 0-23"@)
    } else if at.minute > 59 {
        Some("Minute is outside the range 0-59"@)
    } else {
        None
    }
}

/// Whether `year` is a leap year.
pub fn is_leap_year(year: u16) -> (r: bool)
    ensures
        r == leap_year(year as int),
{
    year % 4 == 0 && (year % 100 != 0 || year % 400 == 0)
}

/// The number of days in `month` of `year`; months are counted from 1.
pub fn days_in_month(year: u16, month: u8) -> (r: u8)
    ensures
        r == month_length(year as int, month as int),
{
    if month == 2 {
        if is_leap_year(year) { 29 } else { 28 }
    } else if month == 4 || month == 6 || month == 9 || month == 11 {
        30
    } else {
        31
    }
}

impl ExcelDate {
    /// The date as the contracts see it: a moment at midnight.
    pub open spec fn moment(self) -> ExcelDateTime {
        ExcelDateTime {
            year: self.year,
            month: self.month,
            day: self.day,
            hour: 0,
            minute: 0,
            second: 0,
        }
    }

    /// Whether a cell can hold this date.
    pub open spec fn writable(self) -> bool {
        writable_date(self.year as int, self.month as int, self.day as int)
    }

    /// The engine's value for this date, or the reason why no cell can
    /// hold it. A day that the engine would take and the Gregorian calendar
    /// lacks is refused here.
    pub fn encode(&self) -> (r: Result<SerialDate, XlsxWriterError>)
        ensures
            r is Ok <==> self.writable(),
            match date_error(self.year, self.month, self.day) {
                Some(reason) => r is Err && r->Err_0@ == ErrorView::DateError(reason),
                None => r is Ok && moment_of(r->Ok_0) == self.moment(),
            },
    {
        match date_from_ymd(self.year, self.month, self.day) {
            Ok(serial) => {
                if self.is_calendar_date() {
                    Ok(serial)
                } else {
                    Err(XlsxWriterError::DateError(String::from_str("Day is not in the calendar")))
                }
            },
            Err(error) => Err(XlsxWriterError::DateError(describe(&error))),
        }
    }

    /// Whether the fields name a day of the Gregorian calendar.
    pub fn is_calendar_date(&self) -> (r: bool)
        ensures
            r == calendar_date(self.year as int, self.month as int, self.day as int),
    {
        1 <= self.month && self.month <= 12 && 1 <= self.day && self.day <= days_in_month(
            self.year,
            self.month,
        )
    }
}

impl ExcelDateTime {
    /// The date part.
    pub fn date(&self) -> (r: ExcelDate)
        ensures
            r == (ExcelDate { year: self.year, month: self.month, day: self.day }),
    {
        ExcelDate { year: self.year, month: self.month, day: self.day }
    }

    /// Whether a cell can hold this moment.
    pub open spec fn writable(self) -> bool {
        &&& writable_date(self.year as int, self.month as int, self.day as int)
        &&& time_of_day(self)
    }

    /// The engine's value for this moment, or the reason why no cell can
    /// hold it: the date's reason first, then the engine's reason against
    /// minute or second, then the clock's against an hour or a minute that
    /// the engine would take.
    pub fn encode(&self) -> (r: Result<SerialDate, XlsxWriterError>)
        ensures
            r is Ok <==> self.writable(),
            match moment_error(*self) {
                Some(reason) => r is Err && r->Err_0@ == ErrorView::DateError(reason),
                None => r is Ok && moment_of(r->Ok_0) == *self,
            },
    {
        let day = match self.date().encode() {
            Ok(day) => day,
            Err(error) => {
                return Err(error);
            },
        };
        let serial = match date_and_hms(day, self.hour, self.minute, self.second) {
            Ok(serial) => serial,
            Err(error) => {
                return Err(XlsxWriterError::DateError(describe(&error)));
            },
        };
        if self.hour > 23 {
            return Err(
                XlsxWriterError::DateError(String::from_str("Hour is outside the range 0-23")),
            );
        }
        if self.minute > 59 {
            return Err(
                XlsxWriterError::DateError(String::from_str("Minute is outside the range 0-59")),
            );
        }
        Ok(serial)
    }
}

} // verus!
