//! The idle monitor: classifies idle samples against a threshold and reports
//! changes between idle and active, edge-triggered, plus a status on every tick.

use vstd::prelude::*;
use vstd::string::StringExecFns;

use crate::constants::IDLE_THRESHOLD_SECONDS;

verus! {

/// Whether a sample of `idle_seconds` counts as idle under `threshold`.
pub open spec fn idle_at(idle_seconds: u64, threshold: u64) -> bool {
    idle_seconds >= threshold
}

/// Seconds from `start` to `now` on a monotonic clock; zero if `now` is earlier.
pub open spec fn elapsed_spec(start: u64, now: u64) -> u64 {
    if now >= start {
        (now - start) as u64
    } else {
        0
    }
}

/// Classifies a sample: idle exactly when it reaches the threshold.
pub fn classify_idle(idle_seconds: u64, threshold: u64) -> (r: bool)
    ensures
        r == idle_at(idle_seconds, threshold),
{
    idle_seconds >= threshold
}

/// Classifies a sample against the tracker's fixed threshold.
pub fn is_idle_seconds(idle_seconds: u64) -> (r: bool)
    ensures
        r == idle_at(idle_seconds, IDLE_THRESHOLD_SECONDS),
{
    classify_idle(idle_seconds, IDLE_THRESHOLD_SECONDS)
}

fn elapsed(start: u64, now: u64) -> (r: u64)
    ensures
        r == elapsed_spec(start, now),
{
    if now >= start {
        now - start
    } else {
        0
    }
}

/// The direction of a change between idle and active.
#[derive(Debug, Clone, Copy, PartialEq, Eq, Structural)]
pub enum ActivityChange {
    BecameIdle,
    BecameActive,
}

/// The name under which a change is reported.
pub open spec fn activity_label_spec(c: ActivityChange) -> Seq<char> {
    match c {
        ActivityChange::BecameIdle => "became_idle"@,
        ActivityChange::BecameActive => "became_active"@,
    }
}

impl ActivityChange {
    /// The name under which this change is reported.
    pub fn label(&self) -> (r: String)
        ensures
            r@ == activity_label_spec(*self),
    {
        match self {
            ActivityChange::BecameIdle => String::from_str("became_idle"),
            ActivityChange::BecameActive => String::from_str("became_active"),
        }
    }
}

/// The monitor's state between ticks. `session_start` is a reading of a
/// monotonic clock in seconds: the moment the user last became active.
#[derive(Debug, Clone, Copy, PartialEq, Eq, Structural)]
pub struct IdleMonitorState {
    pub last_idle_state: bool,
    pub session_start: u64,
    pub threshold_seconds: u64,
}

/// Reported when the user changes between idle and active.
pub struct IdleChangeEvent {
    pub activity_state: ActivityChange,
    pub is_idle: bool,
    pub idle_time_seconds: u64,
    pub session_duration_seconds: u64,
    pub timestamp: String,
}

/// Reported on every tick, changed or not.
pub struct IdleStatusEvent {
    pub is_idle: bool,
    pub idle_time_seconds: u64,
    pub session_duration_seconds: u64,
    pub last_update: String,
}

/// What one tick reports: a change event if the classification changed, and
/// the status in any case.
pub struct TickOutcome {
    pub changed: Option<IdleChangeEvent>,
    pub status: IdleStatusEvent,
}

/// The change a sample brings about in state `s`, if any.
pub open spec fn change_spec(s: IdleMonitorState, idle_seconds: u64) -> Option<ActivityChange> {
    let idle = idle_at(idle_seconds, s.threshold_seconds);
    if idle == s.last_idle_state {
        None
    } else if idle {
        Some(ActivityChange::BecameIdle)
    } else {
        Some(ActivityChange::BecameActive)
    }
}

/// The state after a tick at `now` with a sample of `idle_seconds`: the new
/// classification is kept, and the session restarts at `now` exactly when the
/// user became active.
pub open spec fn next_state_spec(s: IdleMonitorState, idle_seconds: u64, now: u64) -> IdleMonitorState {
    IdleMonitorState {
        last_idle_state: idle_at(idle_seconds, s.threshold_seconds),
        session_start: if change_spec(s, idle_seconds) == Some(ActivityChange::BecameActive) {
            now
        } else {
            s.session_start
        },
        threshold_seconds: s.threshold_seconds,
    }
}

/// The session duration reported by the status event of a tick.
pub open spec fn status_duration_spec(s: IdleMonitorState, idle_seconds: u64, now: u64) -> u64 {
    elapsed_spec(next_state_spec(s, idle_seconds, now).session_start, now)
}

impl IdleMonitorState {
    /// A monitor that starts active, with its session beginning at `now`,
    /// under the tracker's fixed threshold.
    pub fn new(now: u64) -> (r: IdleMonitorState)
        ensures
            !r.last_idle_state,
            r.session_start == now,
            r.threshold_seconds == IDLE_THRESHOLD_SECONDS,
    {
        IdleMonitorState::with_threshold(IDLE_THRESHOLD_SECONDS, now)
    }

    /// A monitor that starts active at `now` under the given threshold.
    pub fn with_threshold(threshold_seconds: u64, now: u64) -> (r: IdleMonitorState)
        ensures
            !r.last_idle_state,
            r.session_start == now,
            r.threshold_seconds == threshold_seconds,
    {
        IdleMonitorState { last_idle_state: false, session_start: now, threshold_seconds }
    }

    /// One tick with a sample of `idle_seconds` taken at `now`, stamped with
    /// `timestamp`. A change event comes exactly when the classification
    /// differs from the previous tick's; it reports the session as it stood
    /// before the tick. The status event reports the session after it.
    pub fn tick(&mut self, idle_seconds: u64, now: u64, timestamp: &str) -> (r: TickOutcome)
        ensures
            *final(self) == next_state_spec(*old(self), idle_seconds, now),
            r.status.is_idle == idle_at(idle_seconds, old(self).threshold_seconds),
            r.status.idle_time_seconds == idle_seconds,
            r.status.session_duration_seconds == status_duration_spec(*old(self), idle_seconds, now),
            r.status.last_update@ == timestamp@,
            r.changed.is_none() <==> change_spec(*old(self), idle_seconds).is_none(),
            r.changed matches Some(e) ==> {
                &&& change_spec(*old(self), idle_seconds) == Some(e.activity_state)
                &&& e.is_idle == idle_at(idle_seconds, old(self).threshold_seconds)
                &&& e.idle_time_seconds == idle_seconds
                &&& e.session_duration_seconds == elapsed_spec(old(self).session_start, now)
                &&& e.timestamp@ == timestamp@
            },
    {
        let is_idle = classify_idle(idle_seconds, self.threshold_seconds);
        let mut changed: Option<IdleChangeEvent> = None;
        if is_idle != self.last_idle_state {
            let activity_state = if is_idle {
                ActivityChange::BecameIdle
            } else {
                ActivityChange::BecameActive
            };
            changed = Some(
                IdleChangeEvent {
                    activity_state,
                    is_idle,
                    idle_time_seconds: idle_seconds,
                    session_duration_seconds: elapsed(self.session_start, now),
                    timestamp: String::from_str(timestamp),
                },
            );
            self.last_idle_state = is_idle;
            if !is_idle {
                self.session_start = now;
            }
        }
        let status = IdleStatusEvent {
            is_idle,
            idle_time_seconds: idle_seconds,
            session_duration_seconds: elapsed(self.session_start, now),
            last_update: String::from_str(timestamp),
        };
        TickOutcome { changed, status }
    }

    /// One tick of the monitor on whatever the idle source returned, stamped
    /// with `timestamp`. A failed sample skips the tick: the state is kept and
    /// nothing is reported. A good one is a `tick`.
    pub fn observe(&mut self, sample: Result<u64, String>, now: u64, timestamp: &str) -> (r: Option<
        TickOutcome,
    >)
        ensures
            sample is Err ==> r is None && *final(self) == *old(self),
            sample matches Ok(idle_seconds) ==> {
                &&& *final(self) == next_state_spec(*old(self), idle_seconds, now)
                &&& r matches Some(o) && {
                    &&& o.status.is_idle == idle_at(idle_seconds, old(self).threshold_seconds)
                    &&& o.status.idle_time_seconds == idle_seconds
                    &&& o.status.session_duration_seconds == status_duration_spec(
                        *old(self),
                        idle_seconds,
                        now,
                    )
                    &&& o.status.last_update@ == timestamp@
                    &&& o.changed.is_none() <==> change_spec(*old(self), idle_seconds).is_none()
                    &&& o.changed matches Some(e) ==> {
                        &&& change_spec(*old(self), idle_seconds) == Some(e.activity_state)
                        &&& e.is_idle == idle_at(idle_seconds, old(self).threshold_seconds)
                        &&& e.idle_time_seconds == idle_seconds
                        &&& e.session_duration_seconds == elapsed_spec(old(self).session_start, now)
                        &&& e.timestamp@ == timestamp@
                    }
                }
            },
    {
        match sample {
            Ok(idle_seconds) => Some(self.tick(idle_seconds, now, timestamp)),
            Err(_) => None,
        }
    }
}

/// A sample at or above the threshold is always classified idle, and one below
/// it always active, whatever the monitor's state.
pub proof fn lemma_classification_is_by_threshold(s: IdleMonitorState, idle_seconds: u64, now: u64)
    ensures
        next_state_spec(s, idle_seconds, now).last_idle_state <==> idle_seconds
            >= s.threshold_seconds,
{
}

/// A tick whose sample is classified like the previous one reports no change,
/// however its idle time differs.
pub proof fn lemma_no_repeated_change(s: IdleMonitorState, first: u64, second: u64, now: u64)
    requires
        idle_at(first, s.threshold_seconds) == idle_at(second, s.threshold_seconds),
    ensures
        change_spec(next_state_spec(s, first, now), second) is None,
{
}

/// When a tick makes the user active again, its status reports a session of
/// zero seconds.
pub proof fn lemma_session_resets_on_activity(s: IdleMonitorState, idle_seconds: u64, now: u64)
    requires
        change_spec(s, idle_seconds) == Some(ActivityChange::BecameActive),
    ensures
        status_duration_spec(s, idle_seconds, now) == 0,
{
}

/// Between two ticks at `now1 <= now2`, the second of which does not make the
/// user active again, the reported session duration does not shrink: it grows
/// by the time between the ticks.
pub proof fn lemma_session_grows_between_ticks(
    s: IdleMonitorState,
    first: u64,
    now1: u64,
    second: u64,
    now2: u64,
)
    requires
        now1 <= now2,
        change_spec(next_state_spec(s, first, now1), second) != Some(ActivityChange::BecameActive),
    ensures
        status_duration_spec(s, first, now1) <= status_duration_spec(
            next_state_spec(s, first, now1),
            second,
            now2,
        ),
        next_state_spec(s, first, now1).session_start <= now1 ==> status_duration_spec(
            next_state_spec(s, first, now1),
            second,
            now2,
        ) == status_duration_spec(s, first, now1) + (now2 - now1),
{
}

} // verus!
