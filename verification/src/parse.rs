//! Parsing of the two configuration grammars: a time of day written
//! `HH:MM` on a 24-hour clock, and a calendar date written `YYYY-MM-DD`.
//! A string that does not match its grammar, or names a time or date that
//! does not exist, is rejected with a `ConfigError`.

use vstd::prelude::*;
use vstd::string::*;
use crate::civil::{Date, TimeOfDay};

verus! {

/// An unparseable configuration value; fatal to the caller.
#[derive(Clone, Copy, Debug, PartialEq, Eq, Structural)]
pub enum ConfigError {
    /// The time of day is not a valid `HH:MM` 24-hour time.
    InvalidTime,
    /// The first-execution date is not a valid `YYYY-MM-DD` calendar date.
    InvalidDate,
}

pub open spec fn is_digit(c: char) -> bool {
    48 <= c as u32 <= 57
}

pub open spec fn digit_val(c: char) -> int {
    c as u32 - 48
}

/// `s` is a well-formed `HH:MM` time on the 24-hour clock.
pub open spec fn is_time_str(s: Seq<char>) -> bool {
    &&& s.len() == 5
    &&& is_digit(s[0])
    &&& is_digit(s[1])
    &&& s[2] == ':'
    &&& is_digit(s[3])
    &&& is_digit(s[4])
    &&& 10 * digit_val(s[0]) + digit_val(s[1]) < 24
    &&& 10 * digit_val(s[3]) + digit_val(s[4]) < 60
}

/// The time a well-formed `HH:MM` string names.
pub open spec fn time_of_str(s: Seq<char>) -> TimeOfDay {
    TimeOfDay {
        hour: (10 * digit_val(s[0]) + digit_val(s[1])) as u8,
        minute: (10 * digit_val(s[3]) + digit_val(s[4])) as u8,
    }
}

/// `s` is a well-formed `YYYY-MM-DD` date that exists in the calendar.
pub open spec fn is_date_str(s: Seq<char>) -> bool {
    &&& s.len() == 10
    &&& is_digit(s[0])
    &&& is_digit(s[1])
    &&& is_digit(s[2])
    &&& is_digit(s[3])
    &&& s[4] == '-'
    &&& is_digit(s[5])
    &&& is_digit(s[6])
    &&& s[7] == '-'
    &&& is_digit(s[8])
    &&& is_digit(s[9])
    &&& date_of_str(s).valid()
}

/// The date a well-formed `YYYY-MM-DD` string names.
pub open spec fn date_of_str(s: Seq<char>) -> Date {
    Date {
        year: (1000 * digit_val(s[0]) + 100 * digit_val(s[1]) + 10 * digit_val(s[2]) + digit_val(
            s[3],
        )) as u16,
        month: (10 * digit_val(s[5]) + digit_val(s[6])) as u8,
        day: (10 * digit_val(s[8]) + digit_val(s[9])) as u8,
    }
}

/// Reads the character at `i` as a decimal digit, or rejects the string.
fn digit_at(s: &str, i: usize, err: ConfigError) -> (r: Result<u8, ConfigError>)
    requires
        i < s@.len(),
    ensures
        r is Ok <==> is_digit(s@[i as int]),
        r matches Ok(d) ==> d == digit_val(s@[i as int]) && d < 10,
        r matches Err(e) ==> e == err,
{
    let c = s.get_char(i);
    let v = c as u32;
    if 48 <= v && v <= 57 {
        Ok((v - 48) as u8)
    } else {
        Err(err)
    }
}

/// Parses `HH:MM` into a time of day.
pub fn parse_time(s: &str) -> (r: Result<TimeOfDay, ConfigError>)
    ensures
        r is Ok <==> is_time_str(s@),
        r matches Ok(t) ==> t == time_of_str(s@) && t.valid(),
        r matches Err(e) ==> e == ConfigError::InvalidTime,
{
    if s.unicode_len() != 5 {
        return Err(ConfigError::InvalidTime);
    }
    if s.get_char(2) != ':' {
        return Err(ConfigError::InvalidTime);
    }
    let h10 = digit_at(s, 0, ConfigError::InvalidTime)?;
    let h1 = digit_at(s, 1, ConfigError::InvalidTime)?;
    let m10 = digit_at(s, 3, ConfigError::InvalidTime)?;
    let m1 = digit_at(s, 4, ConfigError::InvalidTime)?;
    let hour: u8 = 10 * h10 + h1;
    let minute: u8 = 10 * m10 + m1;
    if hour < 24 && minute < 60 {
        Ok(TimeOfDay { hour, minute })
    } else {
        Err(ConfigError::InvalidTime)
    }
}

/// Parses `YYYY-MM-DD` into a calendar date, rejecting dates that do not
/// exist (a thirteenth month, a thirtieth of February, year zero).
pub fn parse_date(s: &str) -> (r: Result<Date, ConfigError>)
    ensures
        r is Ok <==> is_date_str(s@),
        r matches Ok(d) ==> d == date_of_str(s@) && d.valid(),
        r matches Err(e) ==> e == ConfigError::InvalidDate,
{
    if s.unicode_len() != 10 {
        return Err(ConfigError::InvalidDate);
    }
    if s.get_char(4) != '-' || s.get_char(7) != '-' {
        return Err(ConfigError::InvalidDate);
    }
    let y1000 = digit_at(s, 0, ConfigError::InvalidDate)?;
    let y100 = digit_at(s, 1, ConfigError::InvalidDate)?;
    let y10 = digit_at(s, 2, ConfigError::InvalidDate)?;
    let y1 = digit_at(s, 3, ConfigError::InvalidDate)?;
    let m10 = digit_at(s, 5, ConfigError::InvalidDate)?;
    let m1 = digit_at(s, 6, ConfigError::InvalidDate)?;
    let d10 = digit_at(s, 8, ConfigError::InvalidDate)?;
    let d1 = digit_at(s, 9, ConfigError::InvalidDate)?;
    let year: u16 = 1000 * y1000 as u16 + 100 * y100 as u16 + 10 * y10 as u16 + y1 as u16;
    let month: u8 = 10 * m10 + m1;
    let day: u8 = 10 * d10 + d1;
    let date = Date { year, month, day };
    if date.is_valid() {
        Ok(date)
    } else {
        Err(ConfigError::InvalidDate)
    }
}

} // verus!
