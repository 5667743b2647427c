//! The operations the tracker offers its user interface. Each one takes what
//! the OS reported (an idle time, or the text of the error in reading it) and
//! answers with plain values.

use vstd::prelude::*;
use vstd::string::StringExecFns;

use crate::constants::IDLE_THRESHOLD_SECONDS;
use crate::idle::{idle_at, is_idle_seconds};
use crate::text::join;

verus! {

/// The state of the work timer.
pub struct TimerState {
    pub active: bool,
    pub title: Option<String>,
    pub elapsed_seconds: Option<u64>,
}

/// The user's idle status at one moment.
pub struct IdleStatus {
    pub is_idle: bool,
    pub idle_time_seconds: u64,
    pub last_update: String,
    pub session_start: String,
}

/// One entry of the activity log.
pub struct ActivityLog {
    pub timestamp: String,
    pub idle_time_seconds: u64,
    pub is_idle: bool,
    pub session_duration_seconds: u64,
    pub activity_state: String,
}

/// A greeting for `name`.
pub fn greet(name: String) -> (r: String)
    ensures
        r@ == "Hello, "@ + name@ + "!"@,
{
    let head = join("Hello, ", name.as_str());
    join(head.as_str(), "!")
}

/// The work timer's state. No timer is kept, so it is always inactive.
pub fn get_timer_state() -> (r: TimerState)
    ensures
        !r.active,
        r.title is None,
        r.elapsed_seconds is None,
{
    TimerState { active: false, title: None, elapsed_seconds: None }
}

/// Stops the work timer; with no timer kept there is nothing to stop.
pub fn stop_timer() -> (r: Result<(), String>)
    ensures
        r is Ok,
{
    Ok(())
}

/// The idle time that was read, or an error that names the failure.
pub fn get_idle_time(sample: Result<u64, String>) -> (r: Result<u64, String>)
    ensures
        sample matches Ok(s) ==> r == Ok::<u64, String>(s),
        sample matches Err(e) ==> r matches Err(m) && m@ == "Failed to get idle time: "@ + e@,
{
    match sample {
        Ok(s) => Ok(s),
        Err(e) => Err(join("Failed to get idle time: ", e.as_str())),
    }
}

/// Whether the idle time that was read reaches the idle threshold.
pub fn is_user_idle(sample: Result<u64, String>) -> (r: Result<bool, String>)
    ensures
        sample matches Ok(s) ==> r == Ok::<bool, String>(idle_at(s, IDLE_THRESHOLD_SECONDS)),
        sample matches Err(e) ==> r matches Err(m) && m@ == "Failed to check idle status: "@ + e@,
{
    match sample {
        Ok(s) => Ok(is_idle_seconds(s)),
        Err(e) => Err(join("Failed to check idle status: ", e.as_str())),
    }
}

/// The idle status for the idle time that was read, stamped with `timestamp`.
/// No session is tracked here, so the session is taken to start at that moment.
pub fn get_idle_status(sample: Result<u64, String>, timestamp: &str) -> (r: Result<
    IdleStatus,
    String,
>)
    ensures
        sample matches Ok(s) ==> r matches Ok(st) && {
            &&& st.idle_time_seconds == s
            &&& st.is_idle == idle_at(s, IDLE_THRESHOLD_SECONDS)
            &&& st.last_update@ == timestamp@
            &&& st.session_start@ == timestamp@
        },
        sample matches Err(e) ==> r matches Err(m) && m@ == "Failed to get idle status: "@ + e@,
{
    match sample {
        Ok(s) => Ok(
            IdleStatus {
                is_idle: is_idle_seconds(s),
                idle_time_seconds: s,
                last_update: String::from_str(timestamp),
                session_start: String::from_str(timestamp),
            },
        ),
        Err(e) => Err(join("Failed to get idle status: ", e.as_str())),
    }
}

/// The name of an activity state in the log.
pub open spec fn log_state_spec(is_idle: bool) -> Seq<char> {
    if is_idle {
        "idle"@
    } else {
        "active"@
    }
}

/// A log entry for the given idle time and state, stamped with `timestamp`.
/// The session duration is taken to be the idle time.
pub fn create_activity_log(idle_time_seconds: u64, is_idle: bool, timestamp: &str) -> (r: Result<
    ActivityLog,
    String,
>)
    ensures
        r matches Ok(log) && {
            &&& log.timestamp@ == timestamp@
            &&& log.idle_time_seconds == idle_time_seconds
            &&& log.is_idle == is_idle
            &&& log.session_duration_seconds == idle_time_seconds
            &&& log.activity_state@ == log_state_spec(is_idle)
        },
{
    let activity_state = if is_idle {
        String::from_str("idle")
    } else {
        String::from_str("active")
    };
    Ok(
        ActivityLog {
            timestamp: String::from_str(timestamp),
            idle_time_seconds,
            is_idle,
            session_duration_seconds: idle_time_seconds,
            activity_state,
        },
    )
}

} // verus!
