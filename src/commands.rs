//! Commands from the user interface. Each one takes the timer state under the
//! same lock as the loop and either changes it or is refused, leaving it as
//! it was.
use vstd::prelude::*;

use crate::config::AppConfig;
use crate::engine::{Effect, LoopContext};
use crate::timer::{PauseReason, TimerState};

verus! {

/// Skip the coming break: back to a full interval, not paused, and the
/// pre-break warning is due again in the new cycle. Refused in strict mode.
pub fn skip_break(ts: &mut TimerState, ctx: &mut LoopContext) -> (r: Result<(), String>)
    requires
        old(ts).wf(),
    ensures
        r is Err <==> old(ts).is_strict_mode,
        r is Err ==> *final(ts) == *old(ts) && *final(ctx) == *old(ctx) && r->Err_0@
            == "Strict mode: cannot skip breaks"@,
        r is Ok ==> *final(ts) == old(ts).reset() && *final(ctx) == (LoopContext {
            notified_pre_warning: false,
            ..*old(ctx)
        }),
        final(ts).wf(),
{
    if ts.is_strict_mode {
        return Err(String::from_str("Strict mode: cannot skip breaks"));
    }
    ctx.notified_pre_warning = false;
    ts.seconds_remaining = ts.work_interval_seconds;
    ts.is_paused = false;
    ts.pause_reason = None;
    ts.manual_pause_seconds_remaining = None;
    Ok(())
}

/// Pause for `minutes`, after which the pause ends by itself. Refused in
/// strict mode.
pub fn pause_timer(minutes: u32, ts: &mut TimerState) -> (r: Result<(), String>)
    requires
        old(ts).wf(),
        !old(ts).is_strict_mode ==> minutes * 60 <= u32::MAX,
    ensures
        r is Err <==> old(ts).is_strict_mode,
        r is Err ==> *final(ts) == *old(ts) && r->Err_0@ == "Strict mode: cannot pause timer"@,
        r is Ok ==> *final(ts) == (TimerState {
            is_paused: true,
            pause_reason: Some(PauseReason::Manual),
            manual_pause_seconds_remaining: Some((minutes * 60) as u32),
            ..*old(ts)
        }),
        final(ts).wf(),
{
    if ts.is_strict_mode {
        return Err(String::from_str("Strict mode: cannot pause timer"));
    }
    ts.is_paused = true;
    ts.pause_reason = Some(PauseReason::Manual);
    ts.manual_pause_seconds_remaining = Some(minutes * 60);
    Ok(())
}

/// End a pause by hand. Refused while paused for a meeting: only the end of
/// the meeting ends that pause.
pub fn resume_timer(ts: &mut TimerState) -> (r: Result<(), String>)
    requires
        old(ts).wf(),
    ensures
        r is Err <==> old(ts).is_meeting_paused(),
        r is Err ==> *final(ts) == *old(ts) && r->Err_0@
            == "Cannot manually resume \u{2014} meeting in progress"@,
        r is Ok ==> *final(ts) == (TimerState {
            is_paused: false,
            pause_reason: None,
            manual_pause_seconds_remaining: None,
            ..*old(ts)
        }),
        final(ts).wf(),
{
    match ts.pause_reason {
        Some(PauseReason::Meeting) => {
            return Err(String::from_str("Cannot manually resume \u{2014} meeting in progress"));
        },
        _ => {},
    }
    ts.is_paused = false;
    ts.pause_reason = None;
    ts.manual_pause_seconds_remaining = None;
    Ok(())
}

/// The emergency way out of a break: it works in every state, strict mode
/// included, and leaves a full working interval.
pub open spec fn force_skip_effects() -> Seq<Effect> {
    seq![
        Effect::LogForceSkip,
        Effect::DisableInputSuppression,
        Effect::CloseOverlays,
        Effect::EmitBreakEnd { force_skipped: true },
    ]
}

/// End the break at once, whatever the mode or pause: the audit log gets an
/// entry, input suppression and the overlays go, the loop leaves the break,
/// and a full interval starts.
pub fn force_skip_break(ts: &mut TimerState, ctx: &mut LoopContext) -> (effects: Vec<Effect>)
    requires
        old(ts).wf(),
    ensures
        *final(ts) == old(ts).reset(),
        *final(ctx) == (LoopContext {
            break_active: false,
            break_seconds_left: 0,
            notified_pre_warning: false,
            ..*old(ctx)
        }),
        final(ts).is_working(),
        final(ts).seconds_remaining == old(ts).work_interval_seconds,
        final(ts).wf(),
        effects@ == force_skip_effects(),
{
    let mut effects: Vec<Effect> = Vec::new();
    effects.push(Effect::LogForceSkip);
    effects.push(Effect::DisableInputSuppression);
    effects.push(Effect::CloseOverlays);
    ts.seconds_remaining = ts.work_interval_seconds;
    ts.is_paused = false;
    ts.pause_reason = None;
    ts.manual_pause_seconds_remaining = None;
    ctx.break_active = false;
    ctx.break_seconds_left = 0;
    ctx.notified_pre_warning = false;
    effects.push(Effect::EmitBreakEnd { force_skipped: true });
    assert(effects@ =~= force_skip_effects());
    effects
}

/// The timer state once newly saved settings take effect: the strict-mode
/// flag and the interval follow them, and the countdown is cut to the new
/// interval if it is longer.
pub open spec fn with_config(ts: TimerState, config: AppConfig) -> TimerState {
    let interval = (config.work_interval_minutes * 60) as u32;
    TimerState {
        is_strict_mode: config.strict_mode,
        work_interval_seconds: interval,
        seconds_remaining: if ts.seconds_remaining > interval {
            interval
        } else {
            ts.seconds_remaining
        },
        ..ts
    }
}

/// Apply newly saved settings to the timer state.
pub fn apply_config(ts: &mut TimerState, config: &AppConfig)
    requires
        old(ts).wf(),
        config.interval_seconds() <= u32::MAX,
    ensures
        *final(ts) == with_config(*old(ts), *config),
        final(ts).wf(),
{
    let interval = config.work_interval_minutes * 60;
    ts.is_strict_mode = config.strict_mode;
    ts.work_interval_seconds = interval;
    if ts.seconds_remaining > interval {
        ts.seconds_remaining = interval;
    }
}

} // verus!
