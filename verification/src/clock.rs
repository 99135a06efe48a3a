//! The time, and how long tests wait.

use crate::span::{Span, NANOS_PER_SEC};
use std::time::Duration;
use vstd::prelude::*;

verus! {

/// `Utc::now().timestamp()`: the seconds since the Unix epoch. A clock that stands
/// before the epoch makes the call panic, so what comes back is never negative.
#[verifier::external_body]
fn utc_timestamp() -> (timestamp: i64)
    ensures
        timestamp >= 0,
{
    chrono::Utc::now().timestamp()
}

/// `timestamp` was read from the clock.
pub closed spec fn clock_read(timestamp: i64) -> bool {
    call_ensures(utc_timestamp, (), timestamp)
}

/// The seconds since the Unix epoch.
pub fn now() -> (seconds: u64)
    ensures
        exists|timestamp: i64| #[trigger] clock_read(timestamp) && seconds == timestamp,
{
    let timestamp: i64 = utc_timestamp();
    assert(clock_read(timestamp));
    timestamp as u64
}

/// How long a test waits for a network. In a debug build the virtual machine takes long
/// to start, so it is given ten times as much.
pub fn timeout_span(debug_build: bool) -> (span: Span)
    ensures
        span@ == (if debug_build {
            150int
        } else {
            15int
        }) * NANOS_PER_SEC,
{
    if debug_build {
        Span::from_secs(150)
    } else {
        Span::from_secs(15)
    }
}

/// How long a test waits for something that should be there at once.
pub fn short_timeout() -> (span: Span)
    ensures
        span@ == 300 * 1_000_000,
{
    Span::from_millis(300)
}

/// How long a test waits for Kademlia.
pub fn kad_timeout() -> (span: Span)
    ensures
        span@ == 500 * 1_000_000,
{
    Span::from_millis(500)
}

/// How `Duration` prints a length of time, in nanoseconds, for debugging.
pub uninterp spec fn debug_duration(nanos: nat) -> Seq<char>;

/// The debug format of `Duration`.
#[verifier::external_body]
fn format_duration(span: Span) -> (text: String)
    ensures
        text@ == debug_duration(span@),
{
    let (secs, nanos) = span.parts();
    format!("{:?}", Duration::new(secs, nanos))
}

/// What is said of something that was not there within `span`.
pub fn timeout_message(span: Span) -> (message: String)
    ensures
        message@ == "timed out after "@ + debug_duration(span@),
{
    let mut message = "timed out after ".to_owned();
    message.append(format_duration(span).as_str());
    message
}

/// Something was not there in time: what is said of it, and why the wait ended.
#[derive(Debug)]
pub struct TimedOut<E> {
    pub message: String,
    pub cause: E,
}

/// The result of a wait for `span`: what came in time, or the message that nothing did,
/// beside the reason that the wait gave.
pub fn timeout<T, E>(span: Span, waited: Result<T, E>) -> (r: Result<T, TimedOut<E>>)
    ensures
        match (waited, r) {
            (Ok(value), Ok(result)) => result == value,
            (Err(why), Err(timed_out)) => {
                &&& timed_out.message@ == "timed out after "@ + debug_duration(span@)
                &&& timed_out.cause == why
            },
            _ => false,
        },
{
    match waited {
        Ok(value) => Ok(value),
        Err(cause) => Err(TimedOut { message: timeout_message(span), cause }),
    }
}

/// What came in time is handed on as it is. What did not is reported by a message that starts the
/// same for every length of the wait, and the reason is kept.
pub proof fn law_timeout_keeps_what_came<T, E>(
    span: Span,
    waited: Result<T, E>,
    r: Result<T, TimedOut<E>>,
)
    requires
        call_ensures(timeout::<T, E>, (span, waited), r),
    ensures
        waited is Ok <==> r is Ok,
        waited matches Ok(value) ==> r == Ok::<T, TimedOut<E>>(value),
        waited matches Err(why) ==> {
            &&& r->Err_0.cause == why
            &&& r->Err_0.message@.take(16) == "timed out after "@
            &&& r->Err_0.message@.skip(16) == debug_duration(span@)
        },
{
    reveal_strlit("timed out after ");
    if waited is Err {
        assert(r->Err_0.message@.take(16) =~= "timed out after "@);
        assert(r->Err_0.message@.skip(16) =~= debug_duration(span@));
    }
}

/// A debug build waits ten times as long, and every build longest for a network.
pub proof fn law_timeouts_are_graded(debug: Span, release: Span, kad: Span, short: Span)
    requires
        call_ensures(timeout_span, (true,), debug),
        call_ensures(timeout_span, (false,), release),
        call_ensures(kad_timeout, (), kad),
        call_ensures(short_timeout, (), short),
    ensures
        debug@ == 10 * release@,
        release@ == 30 * kad@,
        3 * kad@ == 5 * short@,
        short@ == 300_000_000,
{
}

} // verus!
