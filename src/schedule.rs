//! One day's schedule: working hours and the intervals already taken, and the
//! question whether a time of day is free.
use vstd::prelude::*;

use crate::clock::{EpochDay, MidnightTime, UnixTime, MINUTES_PER_DAY};

verus! {

/// The working hours the provider reports for one day.
#[derive(Debug, Clone, Copy)]
pub struct SlotResponse {
    /// Start and end of the working hours.
    pub w: [MidnightTime; 2],
}

/// The provider's answer to a schedule request, with each of its maps given as
/// a list of (day, value) entries.
#[derive(Debug, Clone)]
pub struct ScheduleResponse {
    pub it: u16,
    pub sa: Vec<u16>,
    /// Working hours, keyed by the midnight of their day.
    pub time: Vec<(UnixTime, SlotResponse)>,
    /// Taken intervals, keyed by the midnight of their day.
    pub events: Vec<(UnixTime, Vec<[MidnightTime; 2]>)>,
}

/// Why a schedule response gives no schedule.
#[derive(Debug, Clone, Copy, PartialEq, Eq, Structural)]
pub enum ScheduleError {
    /// The working hours or the taken intervals have no entry for the day.
    NoSlots,
    /// The working hours or the taken intervals have entries for more than one day.
    MultipleDays,
    /// A minute of the working hours or of a taken interval lies outside the day.
    MinuteOutOfRange,
}

/// An interval of the day, both ends included.
#[derive(Debug, Clone, Copy, PartialEq, Eq, Structural)]
pub struct Slot {
    pub start: MidnightTime,
    pub end: MidnightTime,
}

impl Slot {
    /// Whether the minute `t` lies in this interval, both ends included.
    pub open spec fn contains(self, t: MidnightTime) -> bool {
        self.start.0 <= t.0 && t.0 <= self.end.0
    }

    /// The interval from `array[0]` to `array[1]`.
    pub fn from_midnight_array(array: &[MidnightTime; 2]) -> (r: Slot)
        requires
            array[0].wf(),
            array[1].wf(),
        ensures
            r.start == array[0],
            r.end == array[1],
    {
        Slot { start: array[0], end: array[1] }
    }

    /// Whether `time` lies in this interval, both ends included.
    pub fn in_slot(&self, time: &MidnightTime) -> (r: bool)
        ensures
            r == self.contains(*time),
    {
        self.start.0 <= time.0 && time.0 <= self.end.0
    }
}

/// Whether both minutes of a pair lie within the day.
pub open spec fn pair_wf(pair: [MidnightTime; 2]) -> bool {
    pair[0].wf() && pair[1].wf()
}

/// Whether every minute of the only entries of `response` lies within the day.
pub open spec fn minutes_wf(response: ScheduleResponse) -> bool {
    &&& pair_wf(response.time@[0].1.w)
    &&& forall|i: int|
        0 <= i < response.events@[0].1@.len() ==> #[trigger] pair_wf(response.events@[0].1@[i])
}

/// The interval that a pair of minutes stands for.
pub open spec fn slot_of(pair: [MidnightTime; 2]) -> Slot {
    Slot { start: pair[0], end: pair[1] }
}

/// One day's working hours and the intervals already taken on it.
#[derive(Debug, Clone)]
pub struct Schedule {
    pub date: EpochDay,
    pub working_hours: Slot,
    pub taken_times: Vec<Slot>,
}

impl Schedule {
    /// Whether `t` is free: within the working hours and in no taken interval.
    pub open spec fn free(self, t: MidnightTime) -> bool {
        &&& self.working_hours.contains(t)
        &&& forall|i: int|
            0 <= i < self.taken_times@.len() ==> !#[trigger] self.taken_times@[i].contains(t)
    }

    /// The schedule of the one day that `response` describes.
    ///
    /// Fails with `NoSlots` when the working hours or the taken intervals have
    /// no entry, with `MultipleDays` when either has more than one, and with
    /// `MinuteOutOfRange` when a minute of those entries lies outside the day.
    pub fn from_response(response: ScheduleResponse) -> (r: Result<Schedule, ScheduleError>)
        ensures
            (response.time@.len() == 0 || response.events@.len() == 0) ==> r == Err::<
                Schedule,
                ScheduleError,
            >(ScheduleError::NoSlots),
            (response.time@.len() > 0 && response.events@.len() > 0 && (response.time@.len() > 1
                || response.events@.len() > 1)) ==> r == Err::<Schedule, ScheduleError>(
                ScheduleError::MultipleDays,
            ),
            (response.time@.len() == 1 && response.events@.len() == 1 && !minutes_wf(response))
                ==> r == Err::<Schedule, ScheduleError>(ScheduleError::MinuteOutOfRange),
            r is Ok <==> (response.time@.len() == 1 && response.events@.len() == 1 && minutes_wf(
                response,
            )),
            r matches Ok(s) ==> {
                &&& s.date.0 == response.time@[0].0.0 as int / 86400
                &&& s.working_hours == slot_of(response.time@[0].1.w)
                &&& s.taken_times@ == response.events@[0].1@.map_values(|p| slot_of(p))
            },
    {
        if response.time.len() == 0 || response.events.len() == 0 {
            return Err(ScheduleError::NoSlots);
        }
        if response.time.len() > 1 || response.events.len() > 1 {
            return Err(ScheduleError::MultipleDays);
        }
        let w = &response.time[0].1.w;
        if w[0].0 >= MINUTES_PER_DAY || w[1].0 >= MINUTES_PER_DAY {
            assert(!pair_wf(response.time@[0].1.w));
            return Err(ScheduleError::MinuteOutOfRange);
        }
        let events = &response.events[0].1;
        let mut k: usize = 0;
        while k < events.len()
            invariant
                response.time@.len() == 1,
                response.events@.len() == 1,
                events@ == response.events@[0].1@,
                pair_wf(response.time@[0].1.w),
                k <= events@.len(),
                forall|j: int| 0 <= j < k ==> #[trigger] pair_wf(events@[j]),
            decreases events@.len() - k,
        {
            if events[k][0].0 >= MINUTES_PER_DAY || events[k][1].0 >= MINUTES_PER_DAY {
                assert(!pair_wf(events@[k as int]));
                return Err(ScheduleError::MinuteOutOfRange);
            }
            k += 1;
        }
        assert(minutes_wf(response));
        let working_hours = Slot::from_midnight_array(w);
        let mut taken_times: Vec<Slot> = Vec::new();
        let mut i: usize = 0;
        while i < events.len()
            invariant
                i <= events@.len(),
                taken_times@ == events@.subrange(0, i as int).map_values(|p| slot_of(p)),
                forall|j: int| 0 <= j < events@.len() ==> #[trigger] pair_wf(events@[j]),
            decreases events@.len() - i,
        {
            assert(pair_wf(events@[i as int]));
            taken_times.push(Slot::from_midnight_array(&events[i]));
            assert(events@.subrange(0, i + 1).drop_last() == events@.subrange(0, i as int));
            i += 1;
        }
        assert(events@.subrange(0, events@.len() as int) == events@);
        Ok(Schedule { date: response.time[0].0.to_naive_date(), working_hours, taken_times })
    }

    /// Whether `time` is free: it lies within the working hours and in none of
    /// the taken intervals, both ends of every interval included.
    pub fn time_is_free(&self, time: &MidnightTime) -> (r: bool)
        ensures
            r == self.free(*time),
    {
        if !self.working_hours.in_slot(time) {
            return false;
        }
        let mut i: usize = 0;
        while i < self.taken_times.len()
            invariant
                i <= self.taken_times@.len(),
                forall|j: int| 0 <= j < i ==> !#[trigger] self.taken_times@[j].contains(*time),
            decreases self.taken_times@.len() - i,
        {
            if self.taken_times[i].in_slot(time) {
                return false;
            }
            i += 1;
        }
        true
    }
}

} // verus!
