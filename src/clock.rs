//! Times of day as minutes after midnight, and instants as Unix timestamps.
use vstd::prelude::*;

use crate::text::{decimal, decimal_of};

verus! {

/// Minutes in one day: a minute of the day lies below this.
pub const MINUTES_PER_DAY: u16 = 1440;

/// Seconds in one day.
pub const SECONDS_PER_DAY: i64 = 86400;

/// How many days ahead of today the provider opens its booking window.
pub const LOOKAHEAD_DAYS: i64 = 15;

/// The number of days from 0001-01-01 (day 1 of the common era) to 1970-01-01.
pub const UNIX_EPOCH_DAYS_FROM_CE: i64 = 719163;

/// The minute of the day at `hour`:`minute`.
pub open spec fn minute_of_day(hour: int, minute: int) -> int {
    hour * 60 + minute
}

/// A time of day, as the number of minutes after midnight.
#[derive(Debug, Clone, Copy, PartialEq, Eq, Structural)]
pub struct MidnightTime(pub u16);

impl MidnightTime {
    /// A proper time of day lies within one day.
    pub open spec fn wf(self) -> bool {
        self.0 < MINUTES_PER_DAY
    }

    /// The time `hour`:`minute`.
    pub fn from_hm(hour: u32, minute: u32) -> (r: MidnightTime)
        requires
            hour < 24,
            minute < 60,
        ensures
            r.0 == minute_of_day(hour as int, minute as int),
            r.wf(),
    {
        MidnightTime((hour * 60 + minute) as u16)
    }

    /// The hour of this time.
    pub fn hour(&self) -> (h: u32)
        ensures
            h == self.0 / 60,
    {
        (self.0 / 60) as u32
    }

    /// This time as the decimal number of minutes after midnight.
    pub fn to_string(&self) -> (r: String)
        ensures
            r@ == decimal_of(self.0 as int),
    {
        decimal(self.0 as i64)
    }

    /// The minute within the hour of this time.
    pub fn minute(&self) -> (m: u32)
        ensures
            m == self.0 % 60,
    {
        (self.0 % 60) as u32
    }
}

/// Writing a time of day as minutes after midnight and reading hour and minute
/// back gives the hour and minute it was written from.
pub proof fn lemma_hour_minute_round_trip(hour: u32, minute: u32)
    requires
        hour < 24,
        minute < 60,
    ensures
        minute_of_day(hour as int, minute as int) / 60 == hour,
        minute_of_day(hour as int, minute as int) % 60 == minute,
{
    assert(minute_of_day(hour as int, minute as int) / 60 == hour) by (nonlinear_arith)
        requires
            hour < 24,
            minute < 60,
    ;
    assert(minute_of_day(hour as int, minute as int) % 60 == minute) by (nonlinear_arith)
        requires
            hour < 24,
            minute < 60,
    ;
}

/// A calendar day, counted in days from 1970-01-01 (which is day 0).
#[derive(Debug, Clone, Copy, PartialEq, Eq, Structural)]
pub struct EpochDay(pub i64);

/// An instant, as whole seconds since 1970-01-01 00:00 UTC.
#[derive(Debug, Clone, Copy, PartialEq, Eq, Hash, Structural)]
pub struct UnixTime(pub i64);

impl UnixTime {
    /// The UTC calendar day that holds this instant.
    pub fn to_naive_date(&self) -> (r: EpochDay)
        ensures
            r.0 == self.0 as int / SECONDS_PER_DAY as int,
    {
        if self.0 >= 0 {
            EpochDay(self.0 / SECONDS_PER_DAY)
        } else {
            let back: u64 = (-(self.0 + 1)) as u64;
            let r = EpochDay(-((back / (SECONDS_PER_DAY as u64)) as i64) - 1);
            assert(r.0 == self.0 as int / SECONDS_PER_DAY as int) by (nonlinear_arith)
                requires
                    self.0 < 0,
                    back == -(self.0 + 1),
                    r.0 == -(back as int / 86400) - 1,
                    SECONDS_PER_DAY == 86400,
            {
                let q = back as int / 86400;
                assert(back as int == 86400 * q + back as int % 86400);
                assert(self.0 as int == 86400 * (-q - 1) + (86399 - back as int % 86400));
            }
            r
        }
    }

    /// This instant as the decimal number of seconds since the epoch.
    pub fn to_string(&self) -> (r: String)
        ensures
            r@ == decimal_of(self.0 as int),
    {
        decimal(self.0)
    }

    /// The same instant one day later.
    pub fn add_day(&self) -> (r: UnixTime)
        requires
            self.0 <= i64::MAX - SECONDS_PER_DAY,
        ensures
            r.0 == self.0 + SECONDS_PER_DAY,
    {
        UnixTime(self.0 + SECONDS_PER_DAY)
    }

    /// Midnight (UTC) of the day `LOOKAHEAD_DAYS` after the day numbered
    /// `today_from_ce` in the common era.
    pub fn lookahead_midnight(today_from_ce: i32) -> (r: UnixTime)
        ensures
            r.0 == (today_from_ce - UNIX_EPOCH_DAYS_FROM_CE + LOOKAHEAD_DAYS) * SECONDS_PER_DAY,
            r.0 % SECONDS_PER_DAY == 0,
    {
        let day: i64 = today_from_ce as i64 - UNIX_EPOCH_DAYS_FROM_CE + LOOKAHEAD_DAYS;
        proof {
            vstd::arithmetic::div_mod::lemma_mod_multiples_basic(day as int, 86400);
        }
        UnixTime(day * SECONDS_PER_DAY)
    }
}

} // verus!
