use vstd::prelude::*;

verus! {

/// Milliseconds by which `deadline` lies ahead of `now`; zero once it has passed.
pub open spec fn spec_millis_until(deadline: u64, now: u64) -> u64 {
    if deadline > now {
        (deadline - now) as u64
    } else {
        0
    }
}

/// How long a caller that read the clock at `now` has to wait for `deadline`.
pub fn millis_until(deadline: u64, now: u64) -> (wait: u64)
    ensures
        wait == spec_millis_until(deadline, now),
        now + wait >= deadline,
{
    if deadline > now {
        deadline - now
    } else {
        0
    }
}

/// Reads the wall clock through `std::time::SystemTime::now`: milliseconds
/// since the epoch, zero where the clock stands before it. Nothing is claimed
/// of the value, which differs from call to call.
#[verifier::external_body]
pub fn get_timestamp() -> u64 {
    match std::time::SystemTime::now().duration_since(std::time::UNIX_EPOCH) {
        Ok(elapsed) => elapsed.as_millis() as u64,
        Err(_) => 0,
    }
}

/// The seconds since the epoch that `chrono` reads out of a date written as
/// RFC 2822 has it and as HTTP `Date` headers carry it; `None` where `chrono`
/// does not take the text for such a date.
pub uninterp spec fn spec_http_date_seconds(date: Seq<char>) -> Option<i64>;

/// Calls `chrono::DateTime::parse_from_rfc2822` and, where that gives a date,
/// `chrono::DateTime::timestamp` on it. The result depends on the text alone,
/// and it is what [`spec_http_date_seconds`] names.
#[verifier::external_body]
pub(crate) fn parse_http_date(date: &str) -> (seconds: Option<i64>)
    ensures
        seconds == spec_http_date_seconds(date@),
{
    match chrono::DateTime::parse_from_rfc2822(date) {
        Ok(parsed) => Some(parsed.timestamp()),
        Err(_) => None,
    }
}

} // verus!
