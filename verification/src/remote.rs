//! Decisions taken around remote calls.
//!
//! The network itself lives outside the library; what is decided here is
//! pure: how an HTTP status is classified, when a rate-limited request is
//! retried and with what backoff, and how the "current session" endpoint's
//! status codes are read.

use vstd::prelude::*;

verus! {

/// Most retries allowed for a rate-limited request.
pub const MAX_RETRIES: u32 = 5;

/// Backoff before the first retry, in seconds; it doubles on every
/// further retry.
pub const INITIAL_BACKOFF_SECS: u64 = 2;

/// What to do with a response of the source-system API.
#[derive(Debug, PartialEq, Eq, Structural)]
pub enum RetryStep {
    /// A successful status: take the body.
    Succeed,
    /// A failure that retrying will not mend, or the retry budget is
    /// spent: give up and report the status.
    Fail,
    /// Rate limited with budget left: wait `delay_secs`, then retry with
    /// the stepped-up counters.
    RetryAfter { delay_secs: u64, retries: u32, backoff_secs: u64 },
}

/// Decides one round of the retry loop from the response status and the
/// loop's counters: HTTP 429 is retried with exponential backoff up to
/// `MAX_RETRIES` times, any other non-success status fails at once.
pub fn retry_step(status: u16, retries: u32, backoff_secs: u64) -> (r: RetryStep)
    requires
        backoff_secs <= u64::MAX / 2,
        retries < u32::MAX,
    ensures
        status == 429 && retries < MAX_RETRIES ==> r == (RetryStep::RetryAfter {
            delay_secs: backoff_secs,
            retries: (retries + 1) as u32,
            backoff_secs: (2 * backoff_secs) as u64,
        }),
        status == 429 && retries >= MAX_RETRIES ==> r == RetryStep::Fail,
        status != 429 && 200 <= status < 300 ==> r == RetryStep::Succeed,
        status != 429 && !(200 <= status < 300) ==> r == RetryStep::Fail,
{
    if status == 429 {
        if retries >= MAX_RETRIES {
            RetryStep::Fail
        } else {
            RetryStep::RetryAfter {
                delay_secs: backoff_secs,
                retries: retries + 1,
                backoff_secs: 2 * backoff_secs,
            }
        }
    } else if 200 <= status && status < 300 {
        RetryStep::Succeed
    } else {
        RetryStep::Fail
    }
}

/// How the body of a "current session" response is to be read.
#[derive(Debug, PartialEq, Eq, Structural)]
pub enum CurrentSessionStep {
    /// HTTP 200: the body is the running session.
    ParseSession,
    /// HTTP 404: no session is running.
    Absent,
    /// Another success status: the body may be a session or `null`.
    ParseMaybe,
    /// A failure status: report it.
    Error,
}

/// Classifies the status of the "current session" endpoint: 200 carries a
/// session, 404 means none is running, any other success may carry
/// either, and the rest are failures.
pub fn current_session_step(status: u16) -> (r: CurrentSessionStep)
    ensures
        status == 200 ==> r == CurrentSessionStep::ParseSession,
        status == 404 ==> r == CurrentSessionStep::Absent,
        status != 200 && status != 404 && 200 <= status < 300 ==> r
            == CurrentSessionStep::ParseMaybe,
        status != 200 && status != 404 && !(200 <= status < 300) ==> r == CurrentSessionStep::Error,
{
    if status == 200 {
        CurrentSessionStep::ParseSession
    } else if status == 404 {
        CurrentSessionStep::Absent
    } else if 200 <= status && status < 300 {
        CurrentSessionStep::ParseMaybe
    } else {
        CurrentSessionStep::Error
    }
}

} // verus!
