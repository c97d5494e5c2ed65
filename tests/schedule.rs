use lesson_signup::clock::{MidnightTime, UnixTime};
use lesson_signup::run::{on_booking_answer, on_schedule, Action, RunOutcome};
use lesson_signup::provider::BookingError;
use lesson_signup::schedule::{Schedule, ScheduleError, ScheduleResponse, Slot, SlotResponse};

fn response(hours: Option<[u16; 2]>, taken: Option<Vec<[u16; 2]>>) -> ScheduleResponse {
    let day = UnixTime(1_700_006_400);
    ScheduleResponse {
        it: 30,
        sa: vec![1, 2],
        time: hours
            .map(|h| vec![(day, SlotResponse { w: [MidnightTime(h[0]), MidnightTime(h[1])] })])
            .unwrap_or_default(),
        events: taken
            .map(|t| vec![(day, t.iter().map(|p| [MidnightTime(p[0]), MidnightTime(p[1])]).collect())])
            .unwrap_or_default(),
    }
}

fn schedule(taken: Vec<[u16; 2]>) -> Schedule {
    Schedule::from_response(response(Some([540, 1020]), Some(taken))).unwrap()
}

#[test]
fn in_slot_includes_both_ends() {
    let slot = Slot::from_midnight_array(&[MidnightTime(540), MidnightTime(600)]);
    assert!(slot.in_slot(&MidnightTime(540)));
    assert!(slot.in_slot(&MidnightTime(600)));
    assert!(slot.in_slot(&MidnightTime(570)));
    assert!(!slot.in_slot(&MidnightTime(539)));
    assert!(!slot.in_slot(&MidnightTime(601)));
}

#[test]
fn free_at_opening_without_bookings() {
    assert!(schedule(vec![]).time_is_free(&MidnightTime(540)));
}

#[test]
fn busy_at_start_of_taken_interval() {
    assert!(!schedule(vec![[540, 600]]).time_is_free(&MidnightTime(540)));
}

#[test]
fn busy_at_end_of_taken_interval() {
    assert!(!schedule(vec![[540, 600]]).time_is_free(&MidnightTime(600)));
    assert!(schedule(vec![[540, 600]]).time_is_free(&MidnightTime(601)));
}

#[test]
fn free_before_a_later_booking() {
    assert!(schedule(vec![[600, 660]]).time_is_free(&MidnightTime(570)));
}

#[test]
fn busy_before_opening() {
    assert!(!schedule(vec![]).time_is_free(&MidnightTime(539)));
}

#[test]
fn busy_after_closing_even_without_bookings() {
    assert!(schedule(vec![]).time_is_free(&MidnightTime(1020)));
    assert!(!schedule(vec![]).time_is_free(&MidnightTime(1021)));
}

#[test]
fn busy_inside_any_of_several_bookings() {
    let s = schedule(vec![[600, 660], [700, 720], [900, 960]]);
    assert!(!s.time_is_free(&MidnightTime(710)));
    assert!(!s.time_is_free(&MidnightTime(960)));
    assert!(s.time_is_free(&MidnightTime(690)));
}

#[test]
fn both_maps_empty_gives_no_slots() {
    assert_eq!(Schedule::from_response(response(None, None)).unwrap_err(), ScheduleError::NoSlots);
}

#[test]
fn empty_working_hours_gives_no_slots() {
    let r = Schedule::from_response(response(None, Some(vec![[600, 660]])));
    assert_eq!(r.unwrap_err(), ScheduleError::NoSlots);
}

#[test]
fn empty_taken_events_gives_no_slots() {
    let r = Schedule::from_response(response(Some([540, 1020]), None));
    assert_eq!(r.unwrap_err(), ScheduleError::NoSlots);
}

#[test]
fn more_than_one_day_is_refused() {
    let mut two = response(Some([540, 1020]), Some(vec![]));
    two.time.push((UnixTime(1_700_092_800), SlotResponse { w: [MidnightTime(600), MidnightTime(900)] }));
    assert_eq!(Schedule::from_response(two).unwrap_err(), ScheduleError::MultipleDays);
}

#[test]
fn minutes_outside_the_day_are_refused() {
    let r = Schedule::from_response(response(Some([540, 1440]), Some(vec![])));
    assert_eq!(r.unwrap_err(), ScheduleError::MinuteOutOfRange);
    let r = Schedule::from_response(response(Some([540, 1020]), Some(vec![[600, 660], [1500, 1510]])));
    assert_eq!(r.unwrap_err(), ScheduleError::MinuteOutOfRange);
    let r = Schedule::from_response(response(Some([0, 1439]), Some(vec![[1439, 1439]])));
    assert!(r.is_ok());
}

#[test]
fn schedule_keeps_the_day_and_intervals() {
    let s = schedule(vec![[600, 660], [700, 720]]);
    assert_eq!(s.date.0, 19676);
    assert_eq!(s.working_hours, Slot { start: MidnightTime(540), end: MidnightTime(1020) });
    assert_eq!(
        s.taken_times,
        vec![
            Slot { start: MidnightTime(600), end: MidnightTime(660) },
            Slot { start: MidnightTime(700), end: MidnightTime(720) }
        ]
    );
}

#[test]
fn free_time_leads_to_booking() {
    assert_eq!(on_schedule(&schedule(vec![]), &MidnightTime(540)), Action::Book(MidnightTime(540)));
}

#[test]
fn taken_time_ends_the_run_without_booking() {
    assert_eq!(
        on_schedule(&schedule(vec![[540, 600]]), &MidnightTime(540)),
        Action::Finish(RunOutcome::NotFree(MidnightTime(540)))
    );
}

#[test]
fn failed_booking_is_reported_apart_from_not_free() {
    let outcome = on_booking_answer(500);
    assert_eq!(outcome, RunOutcome::BookingFailed(BookingError::RequestFailed(500)));
    assert_ne!(outcome, RunOutcome::NotFree(MidnightTime(540)));
    assert_eq!(on_booking_answer(404), RunOutcome::BookingFailed(BookingError::RequestFailed(404)));
}

#[test]
fn accepted_booking_is_booked() {
    assert_eq!(on_booking_answer(200), RunOutcome::Booked);
    assert_eq!(on_booking_answer(204), RunOutcome::Booked);
}
