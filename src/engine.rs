//! The once-per-second state machine. `step` is its model: from the timer
//! state, the loop's own context, the settings and what the outside world
//! reports for this second, it gives the next state, the next context and the
//! effects to carry out, in order. `LoopContext::tick` computes exactly that.
use vstd::prelude::*;

use crate::config::AppConfig;
use crate::timer::{PauseReason, TimerState};
use crate::tray::TrayIconState;

verus! {

/// Ticks between two meeting probes, and between two throttled writes.
pub const POLL_PERIOD: u32 = 30;

/// The settings the loop reads each tick.
#[derive(Clone, Copy, Debug, PartialEq, Eq, Structural)]
pub struct LoopConfig {
    pub break_duration_seconds: u32,
    pub strict_mode: bool,
    pub meeting_detection: bool,
    /// Lead time of the pre-break warning; 0 turns it off.
    pub pre_warning_seconds: u32,
}

impl LoopConfig {
    /// The part of the settings that the loop reads.
    pub fn from_config(config: &AppConfig) -> (r: LoopConfig)
        ensures
            r == (LoopConfig {
                break_duration_seconds: config.break_duration_seconds,
                strict_mode: config.strict_mode,
                meeting_detection: config.meeting_detection,
                pre_warning_seconds: config.pre_warning_seconds,
            }),
    {
        LoopConfig {
            break_duration_seconds: config.break_duration_seconds,
            strict_mode: config.strict_mode,
            meeting_detection: config.meeting_detection,
            pre_warning_seconds: config.pre_warning_seconds,
        }
    }
}

/// What the loop remembers from one tick to the next, besides the timer state.
#[derive(Clone, Copy, Debug, PartialEq, Eq, Structural)]
pub struct LoopContext {
    /// Ticks since the last meeting probe (it stops counting at the period).
    pub meeting_poll_counter: u32,
    /// A break is in progress.
    pub break_active: bool,
    /// Seconds left of the break in progress.
    pub break_seconds_left: u32,
    /// The pre-break warning of this cycle has been sent.
    pub notified_pre_warning: bool,
    /// Ticks since the last throttled write.
    pub persist_counter: u32,
    /// The system was asleep at the previous tick.
    pub was_sleeping: bool,
}

/// A side effect the loop or a command asks for.
#[derive(Clone, Copy, Debug, PartialEq, Eq, Structural)]
pub enum Effect {
    CloseOverlays,
    OpenOverlays { break_duration: u32, strict_mode: bool },
    EnableInputSuppression,
    DisableInputSuppression,
    PlayBreakSound,
    SetTrayIcon(TrayIconState),
    UpdateTrayMenu { seconds_remaining: u32, is_paused: bool, is_strict_mode: bool },
    NotifyPreBreak { lead_seconds: u32 },
    EmitTimerTick { seconds_remaining: u32, is_paused: bool, pause_reason: Option<PauseReason> },
    EmitBreakStart { duration: u32 },
    EmitBreakTick { seconds_remaining: u32 },
    EmitBreakEnd { force_skipped: bool },
    /// Write the durable record with this countdown.
    Persist { seconds_remaining: u32 },
    /// Append an entry to the force-skip audit log.
    LogForceSkip,
}

impl LoopContext {
    /// Counters stay below their period.
    pub open spec fn wf(&self) -> bool {
        &&& self.meeting_poll_counter <= POLL_PERIOD
        &&& self.persist_counter < POLL_PERIOD
    }

    /// The context the loop starts with.
    pub open spec fn initial() -> LoopContext {
        LoopContext {
            meeting_poll_counter: 0,
            break_active: false,
            break_seconds_left: 0,
            notified_pre_warning: false,
            persist_counter: 0,
            was_sleeping: false,
        }
    }

    pub fn new() -> (r: LoopContext)
        ensures
            r == Self::initial(),
            r.wf(),
    {
        LoopContext {
            meeting_poll_counter: 0,
            break_active: false,
            break_seconds_left: 0,
            notified_pre_warning: false,
            persist_counter: 0,
            was_sleeping: false,
        }
    }
}

/// The meeting counter after one more awake tick.
pub open spec fn next_poll_count(c: u32) -> u32 {
    if c < POLL_PERIOD { (c + 1) as u32 } else { POLL_PERIOD }
}

/// This tick consults the meeting probe: the system is and was awake,
/// detection is on, and the period has run out.
pub open spec fn probe_due(ctx: LoopContext, cfg: LoopConfig, sleeping: bool) -> bool {
    &&& !ctx.was_sleeping
    &&& !sleeping
    &&& cfg.meeting_detection
    &&& next_poll_count(ctx.meeting_poll_counter) >= POLL_PERIOD
}

/// Paused for a meeting, with no manual countdown.
pub open spec fn meeting_paused(ts: TimerState) -> TimerState {
    TimerState {
        is_paused: true,
        pause_reason: Some(PauseReason::Meeting),
        manual_pause_seconds_remaining: None,
        ..ts
    }
}

/// Not paused; the countdown is left where it is.
pub open spec fn unpaused(ts: TimerState) -> TimerState {
    TimerState { is_paused: false, pause_reason: None, manual_pause_seconds_remaining: None, ..ts }
}

/// Awake to asleep: any break is abandoned.
pub open spec fn fall_asleep(ts: TimerState, ctx: LoopContext) -> (TimerState, LoopContext, Seq<
    Effect,
>) {
    (
        ts,
        LoopContext {
            break_active: false,
            notified_pre_warning: false,
            was_sleeping: true,
            ..ctx
        },
        seq![Effect::CloseOverlays, Effect::DisableInputSuppression],
    )
}

/// Asleep to awake: a fresh cycle starts.
pub open spec fn wake_up(ts: TimerState, ctx: LoopContext) -> (TimerState, LoopContext, Seq<Effect>) {
    let ts2 = ts.reset();
    (
        ts2,
        LoopContext { meeting_poll_counter: 0, was_sleeping: false, ..ctx },
        seq![
            Effect::Persist { seconds_remaining: ts2.seconds_remaining },
            Effect::SetTrayIcon(TrayIconState::Open),
            Effect::EmitTimerTick {
                seconds_remaining: ts2.seconds_remaining,
                is_paused: false,
                pause_reason: None,
            },
        ],
    )
}

/// What a probe result does: a meeting that starts pauses the timer (and
/// aborts a break, resetting the countdown); one that ends resumes it.
pub open spec fn meeting_update(ts: TimerState, ctx: LoopContext, meeting_now: bool) -> (
    TimerState,
    LoopContext,
    Seq<Effect>,
) {
    if meeting_now && !ts.is_meeting_paused() {
        if ctx.break_active {
            (
                meeting_paused(ts.reset()),
                LoopContext { break_active: false, ..ctx },
                seq![Effect::CloseOverlays, Effect::DisableInputSuppression],
            )
        } else {
            (meeting_paused(ts), ctx, seq![])
        }
    } else if !meeting_now && ts.is_meeting_paused() {
        (unpaused(ts), ctx, seq![])
    } else {
        (ts, ctx, seq![])
    }
}

/// The throttled write: every period-th pass writes the countdown.
pub open spec fn throttled_persist(ctx: LoopContext, seconds: u32) -> (LoopContext, Seq<Effect>) {
    if ctx.persist_counter + 1 >= POLL_PERIOD {
        (LoopContext { persist_counter: 0, ..ctx }, seq![Effect::Persist { seconds_remaining: seconds }])
    } else {
        (LoopContext { persist_counter: (ctx.persist_counter + 1) as u32, ..ctx }, seq![])
    }
}

/// One second of a break: the break counter goes down first, and the break
/// ends when it reaches zero.
pub open spec fn break_tick(ts: TimerState, ctx: LoopContext) -> (TimerState, LoopContext, Seq<Effect>) {
    let left: u32 = if ctx.break_seconds_left > 0 { (ctx.break_seconds_left - 1) as u32 } else { 0 };
    if left == 0 {
        let ts2 = ts.reset();
        (
            ts2,
            LoopContext {
                break_active: false,
                break_seconds_left: 0,
                notified_pre_warning: false,
                ..ctx
            },
            seq![
                Effect::CloseOverlays,
                Effect::DisableInputSuppression,
                Effect::EmitBreakEnd { force_skipped: false },
                Effect::Persist { seconds_remaining: ts2.seconds_remaining },
                Effect::SetTrayIcon(TrayIconState::Open),
            ],
        )
    } else {
        (
            ts,
            LoopContext { break_seconds_left: left, ..ctx },
            seq![Effect::EmitBreakTick { seconds_remaining: left }],
        )
    }
}

/// The manual pause countdown after one second: at zero it is cleared and a
/// manual pause ends.
pub open spec fn manual_countdown(ts: TimerState) -> TimerState {
    match ts.manual_pause_seconds_remaining {
        Some(r) => if r == 0 {
            if ts.pause_reason == Some(PauseReason::Manual) {
                unpaused(ts)
            } else {
                TimerState { manual_pause_seconds_remaining: None, ..ts }
            }
        } else {
            TimerState { manual_pause_seconds_remaining: Some((r - 1) as u32), ..ts }
        },
        None => ts,
    }
}

/// One second while paused: time does not advance.
pub open spec fn paused_tick(ts: TimerState, ctx: LoopContext, cfg: LoopConfig) -> (
    TimerState,
    LoopContext,
    Seq<Effect>,
) {
    let ts2 = manual_countdown(ts);
    let p = throttled_persist(ctx, ts2.seconds_remaining);
    (
        ts2,
        p.0,
        seq![
            Effect::EmitTimerTick {
                seconds_remaining: ts2.seconds_remaining,
                is_paused: ts2.is_paused,
                pause_reason: ts2.pause_reason,
            },
            Effect::UpdateTrayMenu {
                seconds_remaining: ts2.seconds_remaining,
                is_paused: true,
                is_strict_mode: cfg.strict_mode,
            },
        ] + p.1,
    )
}

/// Whether this working second sends the pre-break warning.
pub open spec fn warns(ctx: LoopContext, cfg: LoopConfig, seconds: u32) -> bool {
    !ctx.notified_pre_warning && cfg.pre_warning_seconds > 0 && seconds == cfg.pre_warning_seconds
}

/// The effects of a break that starts.
pub open spec fn break_start_effects(cfg: LoopConfig) -> Seq<Effect> {
    (if cfg.strict_mode { seq![Effect::EnableInputSuppression] } else { seq![] }) + seq![
        Effect::OpenOverlays {
            break_duration: cfg.break_duration_seconds,
            strict_mode: cfg.strict_mode,
        },
        Effect::PlayBreakSound,
        Effect::SetTrayIcon(TrayIconState::Rest),
        Effect::EmitBreakStart { duration: cfg.break_duration_seconds },
    ]
}

/// One working second: the countdown goes down by one (not below zero); at
/// the warning's lead time the warning goes out once; at zero a break starts.
pub open spec fn work_tick(ts: TimerState, ctx: LoopContext, cfg: LoopConfig) -> (
    TimerState,
    LoopContext,
    Seq<Effect>,
) {
    let s: u32 = if ts.seconds_remaining > 0 { (ts.seconds_remaining - 1) as u32 } else { 0 };
    let ts2 = TimerState { seconds_remaining: s, ..ts };
    let w = warns(ctx, cfg, s);
    let ctx1 = LoopContext { notified_pre_warning: ctx.notified_pre_warning || w, ..ctx };
    let p = throttled_persist(ctx1, s);
    let e = (if w {
        seq![
            Effect::NotifyPreBreak { lead_seconds: cfg.pre_warning_seconds },
            Effect::SetTrayIcon(TrayIconState::Blink),
        ]
    } else {
        seq![]
    }) + seq![
        Effect::EmitTimerTick { seconds_remaining: s, is_paused: false, pause_reason: None },
        Effect::UpdateTrayMenu {
            seconds_remaining: s,
            is_paused: false,
            is_strict_mode: cfg.strict_mode,
        },
    ] + p.1;
    if s == 0 {
        (
            ts2,
            LoopContext {
                break_active: true,
                break_seconds_left: cfg.break_duration_seconds,
                ..p.0
            },
            e + break_start_effects(cfg),
        )
    } else {
        (ts2, p.0, e)
    }
}

/// An awake tick: the meeting probe first (when due), then the break, the
/// pause or the work countdown.
pub open spec fn awake_tick(ts: TimerState, ctx: LoopContext, cfg: LoopConfig, meeting_now: bool) -> (
    TimerState,
    LoopContext,
    Seq<Effect>,
) {
    let probe = probe_due(ctx, cfg, false);
    let counted = LoopContext {
        meeting_poll_counter: if probe { 0 } else { next_poll_count(ctx.meeting_poll_counter) },
        ..ctx
    };
    let m = if probe { meeting_update(ts, counted, meeting_now) } else { (ts, counted, seq![]) };
    let r = if m.1.break_active {
        break_tick(m.0, m.1)
    } else if m.0.is_paused {
        paused_tick(m.0, m.1, cfg)
    } else {
        work_tick(m.0, m.1, cfg)
    };
    (r.0, r.1, m.2 + r.2)
}

/// One tick of the loop. Sleep edges come first and end the tick; while the
/// system sleeps nothing happens.
pub open spec fn step(
    ts: TimerState,
    ctx: LoopContext,
    cfg: LoopConfig,
    sleeping: bool,
    meeting_now: bool,
) -> (TimerState, LoopContext, Seq<Effect>) {
    if !ctx.was_sleeping && sleeping {
        fall_asleep(ts, ctx)
    } else if ctx.was_sleeping && !sleeping {
        wake_up(ts, ctx)
    } else if sleeping {
        (ts, ctx, seq![])
    } else {
        awake_tick(ts, ctx, cfg, meeting_now)
    }
}

impl LoopContext {
    /// Whether the coming tick consults the meeting probe; on other ticks the
    /// probe's answer is not read.
    pub fn probe_due(&self, cfg: &LoopConfig, sleeping: bool) -> (r: bool)
        ensures
            r == probe_due(*self, *cfg, sleeping),
    {
        let next = if self.meeting_poll_counter < POLL_PERIOD {
            self.meeting_poll_counter + 1
        } else {
            POLL_PERIOD
        };
        !self.was_sleeping && !sleeping && cfg.meeting_detection && next >= POLL_PERIOD
    }

    /// Advance the timer by one second. `sleeping` is whether the system is
    /// asleep now; `meeting_now` is the probe's answer, read only when
    /// `probe_due` holds.
    pub fn tick(
        &mut self,
        ts: &mut TimerState,
        cfg: &LoopConfig,
        sleeping: bool,
        meeting_now: bool,
    ) -> (effects: Vec<Effect>)
        requires
            old(self).wf(),
            old(ts).wf(),
        ensures
            (*final(ts), *final(self), effects@) == step(
                *old(ts),
                *old(self),
                *cfg,
                sleeping,
                meeting_now,
            ),
            final(self).wf(),
            final(ts).wf(),
    {
        let mut effects: Vec<Effect> = Vec::new();
        if !self.was_sleeping && sleeping {
            self.break_active = false;
            self.notified_pre_warning = false;
            self.was_sleeping = true;
            effects.push(Effect::CloseOverlays);
            effects.push(Effect::DisableInputSuppression);
            assert(effects@ =~= fall_asleep(*old(ts), *old(self)).2);
            return effects;
        }
        if self.was_sleeping && !sleeping {
            reset_countdown(ts);
            effects.push(Effect::Persist { seconds_remaining: ts.seconds_remaining });
            effects.push(Effect::SetTrayIcon(TrayIconState::Open));
            effects.push(
                Effect::EmitTimerTick {
                    seconds_remaining: ts.seconds_remaining,
                    is_paused: false,
                    pause_reason: None,
                },
            );
            self.meeting_poll_counter = 0;
            self.was_sleeping = false;
            assert(effects@ =~= wake_up(*old(ts), *old(self)).2);
            return effects;
        }
        if sleeping {
            return effects;
        }
        let probe = self.probe_due(cfg, false);
        if probe {
            self.meeting_poll_counter = 0;
        } else if self.meeting_poll_counter < POLL_PERIOD {
            self.meeting_poll_counter = self.meeting_poll_counter + 1;
        }
        if probe {
            self.apply_meeting(ts, meeting_now, &mut effects);
        }
        if self.break_active {
            self.break_second(ts, &mut effects);
        } else if ts.is_paused {
            self.paused_second(ts, cfg, &mut effects);
        } else {
            self.work_second(ts, cfg, &mut effects);
        }
        effects
    }

    fn apply_meeting(&mut self, ts: &mut TimerState, meeting_now: bool, effects: &mut Vec<Effect>)
        requires
            old(ts).wf(),
            old(self).wf(),
        ensures
            ({
                let r = meeting_update(*old(ts), *old(self), meeting_now);
                *final(ts) == r.0 && *final(self) == r.1 && final(effects)@ == old(effects)@ + r.2
            }),
            final(ts).wf(),
            final(self).wf(),
    {
        let meeting_paused = match ts.pause_reason {
            Some(PauseReason::Meeting) => true,
            _ => false,
        };
        if meeting_now && !meeting_paused {
            if self.break_active {
                effects.push(Effect::CloseOverlays);
                effects.push(Effect::DisableInputSuppression);
                self.break_active = false;
                ts.seconds_remaining = ts.work_interval_seconds;
            }
            ts.is_paused = true;
            ts.pause_reason = Some(PauseReason::Meeting);
            ts.manual_pause_seconds_remaining = None;
        } else if !meeting_now && meeting_paused {
            ts.is_paused = false;
            ts.pause_reason = None;
            ts.manual_pause_seconds_remaining = None;
        }
        assert(final(effects)@ =~= old(effects)@ + meeting_update(*old(ts), *old(self), meeting_now).2);
    }

    /// The throttled write: count this pass and ask for a write every period.
    fn maybe_persist(&mut self, seconds: u32, effects: &mut Vec<Effect>)
        requires
            old(self).wf(),
        ensures
            ({
                let r = throttled_persist(*old(self), seconds);
                *final(self) == r.0 && final(effects)@ == old(effects)@ + r.1
            }),
            final(self).wf(),
    {
        if self.persist_counter + 1 >= POLL_PERIOD {
            self.persist_counter = 0;
            effects.push(Effect::Persist { seconds_remaining: seconds });
        } else {
            self.persist_counter = self.persist_counter + 1;
        }
        assert(final(effects)@ =~= old(effects)@ + throttled_persist(*old(self), seconds).1);
    }

    fn break_second(&mut self, ts: &mut TimerState, effects: &mut Vec<Effect>)
        requires
            old(ts).wf(),
            old(self).wf(),
        ensures
            ({
                let r = break_tick(*old(ts), *old(self));
                *final(ts) == r.0 && *final(self) == r.1 && final(effects)@ == old(effects)@ + r.2
            }),
            final(ts).wf(),
            final(self).wf(),
    {
        let left = self.break_seconds_left.saturating_sub(1);
        if left == 0 {
            self.break_active = false;
            self.break_seconds_left = 0;
            self.notified_pre_warning = false;
            reset_countdown(ts);
            effects.push(Effect::CloseOverlays);
            effects.push(Effect::DisableInputSuppression);
            effects.push(Effect::EmitBreakEnd { force_skipped: false });
            effects.push(Effect::Persist { seconds_remaining: ts.seconds_remaining });
            effects.push(Effect::SetTrayIcon(TrayIconState::Open));
        } else {
            self.break_seconds_left = left;
            effects.push(Effect::EmitBreakTick { seconds_remaining: left });
        }
        assert(final(effects)@ =~= old(effects)@ + break_tick(*old(ts), *old(self)).2);
    }

    fn paused_second(&mut self, ts: &mut TimerState, cfg: &LoopConfig, effects: &mut Vec<Effect>)
        requires
            old(ts).wf(),
            old(self).wf(),
        ensures
            ({
                let r = paused_tick(*old(ts), *old(self), *cfg);
                *final(ts) == r.0 && *final(self) == r.1 && final(effects)@ == old(effects)@ + r.2
            }),
            final(ts).wf(),
            final(self).wf(),
    {
        match ts.manual_pause_seconds_remaining {
            Some(r) => {
                if r == 0 {
                    ts.manual_pause_seconds_remaining = None;
                    match ts.pause_reason {
                        Some(PauseReason::Manual) => {
                            ts.is_paused = false;
                            ts.pause_reason = None;
                        },
                        _ => {},
                    }
                } else {
                    ts.manual_pause_seconds_remaining = Some(r - 1);
                }
            },
            None => {},
        }
        assert(*ts == manual_countdown(*old(ts)));
        effects.push(
            Effect::EmitTimerTick {
                seconds_remaining: ts.seconds_remaining,
                is_paused: ts.is_paused,
                pause_reason: ts.pause_reason,
            },
        );
        effects.push(
            Effect::UpdateTrayMenu {
                seconds_remaining: ts.seconds_remaining,
                is_paused: true,
                is_strict_mode: cfg.strict_mode,
            },
        );
        self.maybe_persist(ts.seconds_remaining, effects);
        assert(final(effects)@ =~= old(effects)@ + paused_tick(*old(ts), *old(self), *cfg).2);
    }

    #[verifier::rlimit(50)]
    fn work_second(&mut self, ts: &mut TimerState, cfg: &LoopConfig, effects: &mut Vec<Effect>)
        requires
            old(ts).wf(),
            old(self).wf(),
            !old(ts).is_paused,
        ensures
            ({
                let r = work_tick(*old(ts), *old(self), *cfg);
                *final(ts) == r.0 && *final(self) == r.1 && final(effects)@ == old(effects)@ + r.2
            }),
            final(ts).wf(),
            final(self).wf(),
    {
        if ts.seconds_remaining > 0 {
            ts.seconds_remaining = ts.seconds_remaining - 1;
        }
        let s = ts.seconds_remaining;
        let ghost w = warns(*old(self), *cfg, s);
        let warn = !self.notified_pre_warning && cfg.pre_warning_seconds > 0 && s
            == cfg.pre_warning_seconds;
        if warn {
            self.notified_pre_warning = true;
            effects.push(Effect::NotifyPreBreak { lead_seconds: cfg.pre_warning_seconds });
            effects.push(Effect::SetTrayIcon(TrayIconState::Blink));
        }
        effects.push(Effect::EmitTimerTick { seconds_remaining: s, is_paused: false, pause_reason: None });
        effects.push(
            Effect::UpdateTrayMenu { seconds_remaining: s, is_paused: false, is_strict_mode: cfg.strict_mode },
        );
        let ghost ctx1 = *self;
        let ghost e1 = effects@;
        assert(e1 =~= old(effects)@ + (if w {
            seq![
                Effect::NotifyPreBreak { lead_seconds: cfg.pre_warning_seconds },
                Effect::SetTrayIcon(TrayIconState::Blink),
            ]
        } else {
            seq![]
        }) + seq![
            Effect::EmitTimerTick { seconds_remaining: s, is_paused: false, pause_reason: None },
            Effect::UpdateTrayMenu {
                seconds_remaining: s,
                is_paused: false,
                is_strict_mode: cfg.strict_mode,
            },
        ]);
        self.maybe_persist(s, effects);
        let ghost e2 = effects@;
        if s == 0 {
            self.start_break(cfg, effects);
        }
        proof {
            let r = work_tick(*old(ts), *old(self), *cfg);
            assert(ctx1 == LoopContext { notified_pre_warning: old(self).notified_pre_warning || w, ..*old(self) });
            if s == 0 {
                assert(effects@ =~= e2 + break_start_effects(*cfg));
            }
            assert(effects@ =~= old(effects)@ + r.2);
        }
    }

    fn start_break(&mut self, cfg: &LoopConfig, effects: &mut Vec<Effect>)
        ensures
            *final(self) == (LoopContext {
                break_active: true,
                break_seconds_left: cfg.break_duration_seconds,
                ..*old(self)
            }),
            final(effects)@ == old(effects)@ + break_start_effects(*cfg),
    {
        self.break_active = true;
        self.break_seconds_left = cfg.break_duration_seconds;
        if cfg.strict_mode {
            effects.push(Effect::EnableInputSuppression);
        }
        effects.push(
            Effect::OpenOverlays { break_duration: cfg.break_duration_seconds, strict_mode: cfg.strict_mode },
        );
        effects.push(Effect::PlayBreakSound);
        effects.push(Effect::SetTrayIcon(TrayIconState::Rest));
        effects.push(Effect::EmitBreakStart { duration: cfg.break_duration_seconds });
        assert(final(effects)@ =~= old(effects)@ + break_start_effects(*cfg));
    }
}

/// Back to the start of a full interval, not paused.
fn reset_countdown(ts: &mut TimerState)
    ensures
        *final(ts) == old(ts).reset(),
        final(ts).wf(),
{
    ts.seconds_remaining = ts.work_interval_seconds;
    ts.is_paused = false;
    ts.pause_reason = None;
    ts.manual_pause_seconds_remaining = None;
}

} // verus!
