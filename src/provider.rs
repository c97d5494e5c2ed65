//! What is sent to the scheduling provider and how its answers are judged.
use vstd::prelude::*;
use vstd::string::StringExecFns;

use crate::clock::{MidnightTime, UnixTime};
use crate::session::{session_from_headers, session_in_headers};
use crate::text::{decimal, decimal_of};

verus! {

/// The provider's sign-in endpoint.
pub const LOGIN_PATH: &'static str = "/data/api/site_login";

/// The provider's endpoint for a day's schedule.
pub const SCHEDULE_PATH: &'static str = "/data/api/site_get_data_for_appointment";

/// The provider's endpoint for booking a slot.
pub const APPOINTMENT_PATH: &'static str = "/data/api/site_appointment";

/// Why signing in failed.
#[derive(Debug, Clone, Copy, PartialEq, Eq, Structural)]
pub enum AuthError {
    /// The sign-in request was answered with this status, which is not a success.
    RequestFailed(u16),
    /// No `Set-Cookie` header holds a session.
    TokenNotFound,
}

/// Why fetching a schedule failed.
#[derive(Debug, Clone, Copy, PartialEq, Eq, Structural)]
pub enum FetchError {
    /// The schedule request was answered with this status, which is not a success.
    RequestFailed(u16),
    /// The answer's body is not a schedule.
    DecodeError,
}

/// Why booking failed.
#[derive(Debug, Clone, Copy, PartialEq, Eq, Structural)]
pub enum BookingError {
    /// The booking request was answered with this status, which is not a success.
    RequestFailed(u16),
}

/// Whether an HTTP status reports success (`2xx`).
pub open spec fn is_success(status: u16) -> bool {
    200 <= status < 300
}

/// Whether an HTTP status reports success (`2xx`).
pub fn is_success_status(status: u16) -> (r: bool)
    ensures
        r == is_success(status),
{
    200 <= status && status < 300
}

/// The session that a sign-in answer with `status` and these `Set-Cookie`
/// headers grants.
pub fn login_result(status: u16, set_cookies: &Vec<String>) -> (r: Result<String, AuthError>)
    ensures
        !is_success(status) ==> r == Err::<String, AuthError>(AuthError::RequestFailed(status)),
        is_success(status) ==> match session_in_headers(set_cookies@, 0) {
            Some(v) => r matches Ok(t) && t@ == v,
            None => r == Err::<String, AuthError>(AuthError::TokenNotFound),
        },
{
    if !is_success_status(status) {
        return Err(AuthError::RequestFailed(status));
    }
    match session_from_headers(set_cookies) {
        Some(v) => Ok(v),
        None => Err(AuthError::TokenNotFound),
    }
}

/// Whether a schedule answer with `status` can be read.
pub fn fetch_result(status: u16) -> (r: Result<(), FetchError>)
    ensures
        r is Ok <==> is_success(status),
        !is_success(status) ==> r == Err::<(), FetchError>(FetchError::RequestFailed(status)),
{
    if is_success_status(status) {
        Ok(())
    } else {
        Err(FetchError::RequestFailed(status))
    }
}

/// Whether a booking answered with `status` was accepted.
pub fn booking_result(status: u16) -> (r: Result<(), BookingError>)
    ensures
        r is Ok <==> is_success(status),
        !is_success(status) ==> r == Err::<(), BookingError>(BookingError::RequestFailed(status)),
{
    if is_success_status(status) {
        Ok(())
    } else {
        Err(BookingError::RequestFailed(status))
    }
}

/// The text `s` percent-encoded for a form field.
pub uninterp spec fn url_encoded(s: Seq<char>) -> Seq<char>;

/// Relies on `urlencoding::encode`: every byte of the text but ASCII letters,
/// digits and `-`, `_`, `.`, `~` percent-encoded.
#[verifier::external_body]
fn url_encode(s: &str) -> (r: String)
    ensures
        r@ == url_encoded(s@),
{
    urlencoding::encode(s).into_owned()
}

/// The form body of a sign-in request.
pub open spec fn login_body_of(phone_number: Seq<char>, password: Seq<char>) -> Seq<char> {
    "p="@ + url_encoded(password) + "&t="@ + url_encoded(phone_number)
}

/// The form body of a sign-in request.
pub fn login_body(phone_number: &str, password: &str) -> (r: String)
    ensures
        r@ == login_body_of(phone_number@, password@),
{
    let mut r = String::from_str("p=");
    let p = url_encode(password);
    r.append(p.as_str());
    r.append("&t=");
    let t = url_encode(phone_number);
    r.append(t.as_str());
    r
}

/// The form body of a request for the schedule between `start` and `end`.
pub open spec fn schedule_body_of(instructor_id: u32, start: UnixTime, end: UnixTime) -> Seq<
    char,
> {
    "generalId="@ + decimal_of(instructor_id as int) + "&insideId=1.1&from="@ + decimal_of(
        start.0 as int,
    ) + "&to="@ + decimal_of(end.0 as int) + "&teid=-1"@
}

/// The form body of a request for the schedule between `start` and `end`.
pub fn schedule_body(instructor_id: u32, start: &UnixTime, end: &UnixTime) -> (r: String)
    ensures
        r@ == schedule_body_of(instructor_id, *start, *end),
{
    let mut r = String::from_str("generalId=");
    let id = decimal(instructor_id as i64);
    r.append(id.as_str());
    r.append("&insideId=1.1&from=");
    let from = start.to_string();
    r.append(from.as_str());
    r.append("&to=");
    let to = end.to_string();
    r.append(to.as_str());
    r.append("&teid=-1");
    r
}

/// The form body of a request to book `time` on the day that starts at `date`.
pub open spec fn appointment_body_of(instructor_id: u32, date: UnixTime, time: MidnightTime) -> Seq<
    char,
> {
    "uid="@ + decimal_of(instructor_id as int) + "&mid=1.1&s=1.1%2C&sc=1%2C&d="@ + decimal_of(
        date.0 as int,
    ) + "&t="@ + decimal_of(time.0 as int) + "&te=-1&non=&nop=&oc="@
}

/// The form body of a request to book `time` on the day that starts at `date`.
pub fn appointment_body(instructor_id: u32, date: &UnixTime, time: &MidnightTime) -> (r: String)
    ensures
        r@ == appointment_body_of(instructor_id, *date, *time),
{
    let mut r = String::from_str("uid=");
    let id = decimal(instructor_id as i64);
    r.append(id.as_str());
    r.append("&mid=1.1&s=1.1%2C&sc=1%2C&d=");
    let d = date.to_string();
    r.append(d.as_str());
    r.append("&t=");
    let t = time.to_string();
    r.append(t.as_str());
    r.append("&te=-1&non=&nop=&oc=");
    r
}

} // verus!
