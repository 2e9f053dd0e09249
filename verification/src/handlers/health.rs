//! `GET /health`: tells that the server is up, and when it said so.

use vstd::prelude::*;
use vstd::string::StringExecFns;

verus! {

/// The JSON body of a health report.
#[derive(Debug, Clone, PartialEq)]
pub struct HealthStatus {
    /// Always `healthy`.
    pub status: String,
    /// When the report was made: UTC, in RFC 3339 form.
    pub timestamp: String,
}

/// The response to a health check.
#[derive(Debug, Clone, PartialEq)]
pub struct HealthResponse {
    pub status: u16,
    pub body: HealthStatus,
}

/// Reads the clock with `std::time::SystemTime::now`, makes a UTC instant
/// of it with `chrono`'s conversion from a system time (which also takes a
/// clock that reads before 1970), and writes it with
/// `chrono::DateTime::to_rfc3339_opts`, with a `Z` offset, as `chrono`
/// writes a UTC instant into JSON. Which instant comes out is the clock's
/// affair. Taken on trust from `chrono`'s writer is the shape that every
/// instant has: a date, `T` and a time of at least nineteen characters in
/// all, at most a fraction of a second, and `Z` at the end.
#[verifier::external_body]
fn utc_now() -> (text: String)
    ensures
        text@.len() >= 20,
        text@.last() == 'Z',
{
    chrono::DateTime::<chrono::Utc>::from(std::time::SystemTime::now()).to_rfc3339_opts(
        chrono::SecondsFormat::AutoSi,
        true,
    )
}

/// The health report made at the given instant: status 200, `healthy`, and
/// the instant as it was given.
pub fn health_at(timestamp: String) -> (response: HealthResponse)
    ensures
        response.status == 200,
        response.body.status@ == "healthy"@,
        response.body.timestamp == timestamp,
{
    HealthResponse {
        status: 200,
        body: HealthStatus { status: String::from_str("healthy"), timestamp },
    }
}

/// The health report made now. It depends on nothing but the clock, so it
/// is 200 and `healthy` whatever the state of the upstream API. Of the
/// timestamp it states what holds of every instant: at least twenty
/// characters, the last of them `Z`.
pub fn health() -> (response: HealthResponse)
    ensures
        response.status == 200,
        response.body.status@ == "healthy"@,
        response.body.timestamp@.len() >= 20,
        response.body.timestamp@.last() == 'Z',
{
    health_at(utc_now())
}

} // verus!
