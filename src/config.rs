//! Reading the wanted time of day from text: the whole text is `HH:MM`, or
//! `H:MM` with a one-digit hour, in ASCII decimal digits.
use vstd::prelude::*;

use crate::clock::{minute_of_day, MidnightTime};
use crate::text::{chars_of, digit_of, digit_value, is_digit, is_digit_char};

verus! {

/// Why the wanted time of day could not be read.
#[derive(Debug, Clone, Copy, PartialEq, Eq, Structural)]
pub enum ConfigError {
    /// The text is not `HH:MM` or `H:MM`.
    WrongFormat,
    /// The hour is above 23 or the minute above 59.
    IncorrectTime,
}

/// The hour and minute that the whole text `s` writes as `HH:MM` or `H:MM`, if it does.
pub open spec fn clock_of(s: Seq<char>) -> Option<(int, int)> {
    if s.len() == 5 && is_digit(s[0]) && is_digit(s[1]) && s[2] == ':' && is_digit(s[3])
        && is_digit(s[4]) {
        Some(
            (
                10 * digit_value(s[0]) + digit_value(s[1]),
                10 * digit_value(s[3]) + digit_value(s[4]),
            ),
        )
    } else if s.len() == 4 && is_digit(s[0]) && s[1] == ':' && is_digit(s[2]) && is_digit(s[3]) {
        Some((digit_value(s[0]), 10 * digit_value(s[2]) + digit_value(s[3])))
    } else {
        None
    }
}

/// The time of day that the text `s` gives, or why it gives none.
pub open spec fn time_of_text(s: Seq<char>) -> Result<MidnightTime, ConfigError> {
    match clock_of(s) {
        None => Err(ConfigError::WrongFormat),
        Some((h, m)) => if h < 24 && m < 60 {
            Ok(MidnightTime(minute_of_day(h, m) as u16))
        } else {
            Err(ConfigError::IncorrectTime)
        },
    }
}

/// The wanted time of day that `arg` gives, or why it gives none.
pub fn parse_time(arg: &str) -> (r: Result<MidnightTime, ConfigError>)
    ensures
        r == time_of_text(arg@),
{
    let s = chars_of(arg);
    let n = s.len();
    let hm: Option<(u32, u32)> = if n == 5 && is_digit_char(s[0]) && is_digit_char(s[1]) && s[2]
        == ':' && is_digit_char(s[3]) && is_digit_char(s[4]) {
        Some((10 * digit_of(s[0]) + digit_of(s[1]), 10 * digit_of(s[3]) + digit_of(s[4])))
    } else if n == 4 && is_digit_char(s[0]) && s[1] == ':' && is_digit_char(s[2]) && is_digit_char(
        s[3],
    ) {
        Some((digit_of(s[0]), 10 * digit_of(s[2]) + digit_of(s[3])))
    } else {
        None
    };
    match hm {
        None => Err(ConfigError::WrongFormat),
        Some((h, m)) => {
            if h < 24 && m < 60 {
                Ok(MidnightTime::from_hm(h, m))
            } else {
                Err(ConfigError::IncorrectTime)
            }
        },
    }
}

} // verus!
