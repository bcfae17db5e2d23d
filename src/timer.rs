//! The shared timer state and the record that carries it across restarts.
use vstd::prelude::*;

use crate::config::AppConfig;

verus! {

/// Why the countdown is paused.
#[derive(Clone, Copy, Debug, PartialEq, Eq, Structural)]
pub enum PauseReason {
    Manual,
    Meeting,
}

/// The single source of truth about the work countdown.
#[derive(Clone, Copy, Debug, PartialEq, Eq, Structural)]
pub struct TimerState {
    /// Seconds left until the next break.
    pub seconds_remaining: u32,
    pub is_paused: bool,
    pub pause_reason: Option<PauseReason>,
    pub is_strict_mode: bool,
    /// Length of a full work interval in seconds.
    pub work_interval_seconds: u32,
    /// Seconds left before a manual pause ends by itself.
    pub manual_pause_seconds_remaining: Option<u32>,
}

impl TimerState {
    /// The state invariants: the countdown never exceeds the interval, a pause
    /// always has a reason, and only a manual pause counts down.
    pub open spec fn wf(&self) -> bool {
        &&& self.seconds_remaining <= self.work_interval_seconds
        &&& self.is_paused == self.pause_reason.is_some()
        &&& self.manual_pause_seconds_remaining.is_some() ==> self.pause_reason == Some(
            PauseReason::Manual,
        )
    }

    /// A fresh working state at the start of a full interval.
    pub open spec fn fresh(interval: u32, strict: bool) -> TimerState {
        TimerState {
            seconds_remaining: interval,
            is_paused: false,
            pause_reason: None,
            is_strict_mode: strict,
            work_interval_seconds: interval,
            manual_pause_seconds_remaining: None,
        }
    }

    /// Counting down towards the next break, not paused.
    pub open spec fn is_working(&self) -> bool {
        !self.is_paused && self.pause_reason.is_none() && self.manual_pause_seconds_remaining.is_none()
    }

    /// Paused because a meeting is in progress.
    pub open spec fn is_meeting_paused(&self) -> bool {
        self.pause_reason == Some(PauseReason::Meeting)
    }

    /// The same state, back at the start of a full interval and not paused.
    pub open spec fn reset(self) -> TimerState {
        TimerState {
            seconds_remaining: self.work_interval_seconds,
            is_paused: false,
            pause_reason: None,
            manual_pause_seconds_remaining: None,
            ..self
        }
    }

    /// Whether the state invariants hold.
    pub fn is_valid(&self) -> (r: bool)
        ensures
            r == self.wf(),
    {
        let manual_ok = match self.manual_pause_seconds_remaining {
            Some(_) => match self.pause_reason {
                Some(PauseReason::Manual) => true,
                _ => false,
            },
            None => true,
        };
        self.seconds_remaining <= self.work_interval_seconds && self.is_paused
            == self.pause_reason.is_some() && manual_ok
    }

    /// A fresh state for the configured interval.
    pub fn new(config: &AppConfig) -> (r: Self)
        requires
            config.interval_seconds() <= u32::MAX,
        ensures
            r == Self::fresh((config.work_interval_minutes * 60) as u32, config.strict_mode),
            r.wf(),
    {
        let interval = config.work_interval_minutes * 60;
        TimerState {
            seconds_remaining: interval,
            is_paused: false,
            pause_reason: None,
            is_strict_mode: config.strict_mode,
            work_interval_seconds: interval,
            manual_pause_seconds_remaining: None,
        }
    }
}

/// The durable record that lets a countdown survive a restart.
#[derive(Clone, Copy, Debug, PartialEq, Eq, Structural)]
pub struct PersistedTimer {
    pub seconds_remaining: u32,
    /// Unix time in seconds at which the record was written.
    pub saved_at: u64,
}

/// The countdown a saved record resumes with at time `now`: what was left,
/// minus the time since it was saved (none if the clock went back), and zero
/// once that time covers it.
pub open spec fn resumed_seconds(record: PersistedTimer, now: u64) -> int {
    let elapsed: int = if now >= record.saved_at { now - record.saved_at } else { 0 };
    if elapsed >= record.seconds_remaining { 0 } else { record.seconds_remaining - elapsed }
}

/// The state to start with, given the configuration, the saved record if one
/// could be read, and the time now. A record longer than the configured
/// interval, or one whose countdown ran out meanwhile, gives a fresh state.
pub open spec fn restored(config: AppConfig, record: Option<PersistedTimer>, now: u64) -> TimerState {
    let interval = (config.work_interval_minutes * 60) as u32;
    let fresh = TimerState::fresh(interval, config.strict_mode);
    match record {
        None => fresh,
        Some(p) => if p.seconds_remaining > interval || resumed_seconds(p, now) == 0 {
            fresh
        } else {
            TimerState { seconds_remaining: resumed_seconds(p, now) as u32, ..fresh }
        },
    }
}

/// Initialise the timer state from the saved record, if any, continuing the
/// countdown from where it stood minus the time the application was away.
pub fn restore_or_create(config: &AppConfig, persisted: Option<PersistedTimer>, now: u64) -> (r:
    TimerState)
    requires
        config.interval_seconds() <= u32::MAX,
    ensures
        r == restored(*config, persisted, now),
        r.wf(),
{
    let interval = config.work_interval_minutes * 60;
    match persisted {
        None => TimerState::new(config),
        Some(p) => {
            if p.seconds_remaining > interval {
                return TimerState::new(config);
            }
            let elapsed: u64 = now.saturating_sub(p.saved_at);
            let adjusted: u32 = if elapsed >= p.seconds_remaining as u64 {
                0
            } else {
                p.seconds_remaining - elapsed as u32
            };
            if adjusted == 0 {
                return TimerState::new(config);
            }
            TimerState {
                seconds_remaining: adjusted,
                is_paused: false,
                pause_reason: None,
                is_strict_mode: config.strict_mode,
                work_interval_seconds: interval,
                manual_pause_seconds_remaining: None,
            }
        },
    }
}

/// The record to write for `state` at Unix time `now`.
pub fn persist_state(state: &TimerState, now: u64) -> (r: PersistedTimer)
    ensures
        r == (PersistedTimer { seconds_remaining: state.seconds_remaining, saved_at: now }),
{
    PersistedTimer { seconds_remaining: state.seconds_remaining, saved_at: now }
}

} // verus!
