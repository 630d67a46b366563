use vstd::prelude::*;
use vstd::string::StringExecFns;

use chrono::Datelike;

use crate::text::{date_str, dec_rep, format_ddmmyyyy, u64_to_dec};

verus! {

/// Why a run stops. Every failure is terminal: nothing is caught, retried or
/// downgraded.
#[derive(Debug, Clone, Copy, PartialEq, Eq, Structural)]
pub enum AppError {
    /// The appointment API could not be reached at the transport level.
    FetchError,
    /// The appointment API answered with the carried non-200 status code.
    RequestFailed(u16),
    /// The appointment API answered 200 with a body of an unexpected shape.
    DecodeError,
    /// The webhook rejected a message or could not be reached.
    NotifyError,
}

/// The one-line rendering of an error.
pub open spec fn error_text(e: AppError) -> Seq<char> {
    match e {
        AppError::FetchError => "Failed to reach the appointment API"@,
        AppError::RequestFailed(code) => "Bad Return Code: "@ + dec_rep(code as nat),
        AppError::DecodeError => "Failed to decode the API response"@,
        AppError::NotifyError => "Failed to post message to the webhook"@,
    }
}

impl AppError {
    /// Renders the error in one line for the terminal.
    pub fn describe(&self) -> (r: String)
        ensures
            r@ == error_text(*self),
    {
        match *self {
            AppError::FetchError => String::from_str("Failed to reach the appointment API"),
            AppError::RequestFailed(code) => {
                let mut r = String::from_str("Bad Return Code: ");
                let digits = u64_to_dec(code as u64);
                r.append(digits.as_str());
                r
            },
            AppError::DecodeError => String::from_str("Failed to decode the API response"),
            AppError::NotifyError => String::from_str("Failed to post message to the webhook"),
        }
    }
}

/// Decision on one HTTP status code from the appointment API: exactly 200 is
/// accepted; any other code fails the run with `RequestFailed` carrying that
/// code.
pub fn classify_status(code: u16) -> (r: Result<(), AppError>)
    ensures
        code == 200 ==> r == Result::<(), AppError>::Ok(()),
        code != 200 ==> r == Result::<(), AppError>::Err(AppError::RequestFailed(code)),
{
    if code == 200 {
        Ok(())
    } else {
        Err(AppError::RequestFailed(code))
    }
}

/// Relies on chrono's `Utc::now` brought into the fixed Indian time zone with
/// chrono-tz, and on `Datelike::day`, `Datelike::month` and `Datelike::year`:
/// chrono documents that the day ranges over 1..=31 and the month over
/// 1..=12. Nothing more is assumed of the clock: the result differs from call
/// to call.
#[verifier::external_body]
fn today_ist_ymd() -> (r: (u32, u32, i32))
    ensures
        1 <= r.0 <= 31,
        1 <= r.1 <= 12,
{
    let now = chrono::Utc::now().with_timezone(&chrono_tz::Tz::Asia__Kolkata);
    (now.day(), now.month(), now.year())
}

/// Whether `s` renders some calendar date as `DD-MM-YYYY`.
pub open spec fn is_rendered_date(s: Seq<char>) -> bool {
    exists|d: int, m: int, y: int|
        1 <= d <= 31 && 1 <= m <= 12 && s == #[trigger] date_str(d, m, y)
}

/// Today's date in the fixed Indian time zone, rendered `DD-MM-YYYY` as the
/// appointment API expects — whatever the host machine's own time zone is.
pub fn get_today_ist() -> (r: String)
    ensures
        is_rendered_date(r@),
{
    let (d, m, y) = today_ist_ymd();
    let r = format_ddmmyyyy(d, m, y);
    proof {
        assert(r@ == date_str(d as int, m as int, y as int));
    }
    r
}

/// The query URL for one district on one date: the fixed API base, the
/// district identifier, and the date.
pub open spec fn district_url(district_id: Seq<char>, date: Seq<char>) -> Seq<char> {
    "https://cdn-api.co-vin.in/api/v2/appointment/sessions"@
        + "/calendarByDistrict?district_id="@ + district_id + "&date="@ + date
}

/// Builds the query URL for one district and one rendered date.
pub fn build_district_url(district_id: &str, date: &str) -> (r: String)
    ensures
        r@ == district_url(district_id@, date@),
{
    let mut r = String::from_str("https://cdn-api.co-vin.in/api/v2/appointment/sessions");
    r.append("/calendarByDistrict?district_id=");
    r.append(district_id);
    r.append("&date=");
    r.append(date);
    r
}

/// The query URL for one district for today in the fixed Indian time zone.
pub fn district_request_url(district_id: &str) -> (r: String)
    ensures
        exists|date: Seq<char>|
            is_rendered_date(date) && r@ == #[trigger] district_url(district_id@, date),
{
    let date = get_today_ist();
    build_district_url(district_id, date.as_str())
}

} // verus!
