//! The decisions of one sign-up run, between the requests that the caller makes.
use vstd::prelude::*;

use crate::clock::MidnightTime;
use crate::provider::{booking_result, is_success, BookingError};
use crate::schedule::Schedule;

verus! {

/// How a sign-up run ends once the schedule was read.
#[derive(Debug, Clone, Copy, PartialEq, Eq, Structural)]
pub enum RunOutcome {
    /// The slot was booked.
    Booked,
    /// The wanted time was not free, so nothing was booked.
    NotFree(MidnightTime),
    /// The slot was free, but the booking request failed.
    BookingFailed(BookingError),
}

/// What to do once the day's schedule is known.
#[derive(Debug, Clone, Copy, PartialEq, Eq, Structural)]
pub enum Action {
    /// Send a booking request for this time.
    Book(MidnightTime),
    /// Send nothing more: the run ends so.
    Finish(RunOutcome),
}

/// The step after reading the schedule: book `time` when it is free.
pub fn on_schedule(schedule: &Schedule, time: &MidnightTime) -> (r: Action)
    ensures
        schedule.free(*time) ==> r == Action::Book(*time),
        !schedule.free(*time) ==> r == Action::Finish(RunOutcome::NotFree(*time)),
{
    if schedule.time_is_free(time) {
        Action::Book(*time)
    } else {
        Action::Finish(RunOutcome::NotFree(*time))
    }
}

/// The step after the booking request was answered with `status`.
pub fn on_booking_answer(status: u16) -> (r: RunOutcome)
    ensures
        is_success(status) ==> r == RunOutcome::Booked,
        !is_success(status) ==> r == RunOutcome::BookingFailed(BookingError::RequestFailed(status)),
{
    match booking_result(status) {
        Ok(()) => RunOutcome::Booked,
        Err(e) => RunOutcome::BookingFailed(e),
    }
}

} // verus!
