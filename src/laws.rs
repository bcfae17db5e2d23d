//! Properties of the timer over several seconds and across restarts, proved
//! from the model in `engine` and `timer`.
use vstd::prelude::*;

use crate::config::AppConfig;
use crate::engine::{probe_due, step, Effect, LoopConfig, LoopContext};
use crate::timer::{restored, PersistedTimer, TimerState};

verus! {

/// `n` seconds in which the sleep signal and the meeting probe report the
/// same values each time.
pub open spec fn run_steady(
    ts: TimerState,
    ctx: LoopContext,
    cfg: LoopConfig,
    sleeping: bool,
    meeting_now: bool,
    n: nat,
) -> (TimerState, LoopContext, Seq<Effect>)
    decreases n,
{
    if n == 0 {
        (ts, ctx, seq![])
    } else {
        let r = step(ts, ctx, cfg, sleeping, meeting_now);
        let rest = run_steady(r.0, r.1, cfg, sleeping, meeting_now, (n - 1) as nat);
        (rest.0, rest.1, r.2 + rest.2)
    }
}

/// `n` seconds awake with no meeting.
pub open spec fn run_quiet(ts: TimerState, ctx: LoopContext, cfg: LoopConfig, n: nat) -> (
    TimerState,
    LoopContext,
    Seq<Effect>,
) {
    run_steady(ts, ctx, cfg, false, false, n)
}

/// How many break-end events a sequence of effects holds.
pub open spec fn break_end_count(s: Seq<Effect>) -> nat
    decreases s.len(),
{
    if s.len() == 0 {
        0
    } else {
        break_end_count(s.drop_last()) + if s.last() is EmitBreakEnd {
            1nat
        } else {
            0nat
        }
    }
}

/// How many pre-break warnings a sequence of effects holds.
pub open spec fn warning_count(s: Seq<Effect>) -> nat
    decreases s.len(),
{
    if s.len() == 0 {
        0
    } else {
        warning_count(s.drop_last()) + if s.last() is NotifyPreBreak {
            1nat
        } else {
            0nat
        }
    }
}

proof fn lemma_warning_count_add(a: Seq<Effect>, b: Seq<Effect>)
    ensures
        warning_count(a + b) == warning_count(a) + warning_count(b),
    decreases b.len(),
{
    if b.len() == 0 {
        assert(a + b =~= a);
    } else {
        assert((a + b).drop_last() =~= a + b.drop_last());
        lemma_warning_count_add(a, b.drop_last());
    }
}

/// No effect of a break in progress: neither a break tick nor a break end.
pub open spec fn no_break_progress(s: Seq<Effect>) -> bool {
    forall|i: int| 0 <= i < s.len() ==> !(#[trigger] s[i] is EmitBreakTick) && !(s[i] is EmitBreakEnd)
}

proof fn lemma_break_end_count_add(a: Seq<Effect>, b: Seq<Effect>)
    ensures
        break_end_count(a + b) == break_end_count(a) + break_end_count(b),
    decreases b.len(),
{
    if b.len() == 0 {
        assert(a + b =~= a);
    } else {
        assert((a + b).drop_last() =~= a + b.drop_last());
        lemma_break_end_count_add(a, b.drop_last());
    }
}

/// Counting down: from a working state with `s` seconds left, `t <= s` quiet
/// seconds leave `s - t`. In particular a fresh interval `I` shows `I - t`
/// after `t` seconds.
pub proof fn lemma_work_countdown(ts: TimerState, ctx: LoopContext, cfg: LoopConfig, t: nat)
    requires
        ts.is_working(),
        !ctx.break_active,
        !ctx.was_sleeping,
        t <= ts.seconds_remaining,
    ensures
        run_quiet(ts, ctx, cfg, t).0.seconds_remaining == ts.seconds_remaining - t,
    decreases t,
{
    reveal_with_fuel(run_steady, 2);
    if t > 0 {
        let r = step(ts, ctx, cfg, false, false);
        assert(r.0.seconds_remaining == ts.seconds_remaining - 1);
        assert(r.0.is_working());
        assert(!r.1.was_sleeping);
        if t > 1 {
            lemma_work_countdown(r.0, r.1, cfg, (t - 1) as nat);
        }
    }
}

/// The pre-break warning goes out once, when the countdown reaches its lead
/// time: from a working state `s` seconds before the break with no warning
/// sent in this cycle and a lead time `p < s`, the `s - p` quiet seconds up to
/// the lead time send exactly one warning.
pub proof fn lemma_warning_once(ts: TimerState, ctx: LoopContext, cfg: LoopConfig, t: nat)
    requires
        ts.is_working(),
        !ctx.break_active,
        !ctx.was_sleeping,
        !ctx.notified_pre_warning,
        0 < cfg.pre_warning_seconds < ts.seconds_remaining,
        t == ts.seconds_remaining - cfg.pre_warning_seconds,
    ensures
        run_quiet(ts, ctx, cfg, t).0.seconds_remaining == cfg.pre_warning_seconds,
        run_quiet(ts, ctx, cfg, t).1.notified_pre_warning,
        !run_quiet(ts, ctx, cfg, t).1.break_active,
        !run_quiet(ts, ctx, cfg, t).1.was_sleeping,
        warning_count(run_quiet(ts, ctx, cfg, t).2) == 1,
    decreases t,
{
    reveal_with_fuel(run_steady, 2);
    let r = step(ts, ctx, cfg, false, false);
    assert(r.0.is_working() && !r.1.break_active && !r.1.was_sleeping);
    if t == 1 {
        assert(warning_count(r.2) == 1) by {
            reveal_with_fuel(warning_count, 7);
        }
        assert(r.2 + seq![] =~= r.2);
    } else {
        assert(!r.1.notified_pre_warning);
        assert(warning_count(r.2) == 0) by {
            reveal_with_fuel(warning_count, 7);
        }
        lemma_warning_once(r.0, r.1, cfg, (t - 1) as nat);
        lemma_warning_count_add(r.2, run_quiet(r.0, r.1, cfg, (t - 1) as nat).2);
    }
}

/// Once the warning of a cycle is sent, the rest of the working countdown
/// sends no other: `n <= s` quiet seconds from `s` send none.
pub proof fn lemma_no_second_warning(ts: TimerState, ctx: LoopContext, cfg: LoopConfig, n: nat)
    requires
        ts.is_working(),
        !ctx.break_active,
        !ctx.was_sleeping,
        ctx.notified_pre_warning,
        n <= ts.seconds_remaining,
    ensures
        warning_count(run_quiet(ts, ctx, cfg, n).2) == 0,
    decreases n,
{
    reveal_with_fuel(run_steady, 2);
    if n > 0 {
        let r = step(ts, ctx, cfg, false, false);
        assert(warning_count(r.2) == 0) by {
            reveal_with_fuel(warning_count, 11);
        }
        if n > 1 {
            lemma_no_second_warning(r.0, r.1, cfg, (n - 1) as nat);
            lemma_warning_count_add(r.2, run_quiet(r.0, r.1, cfg, (n - 1) as nat).2);
        } else {
            assert(r.2 + seq![] =~= r.2);
        }
    }
}

/// After a force-skip, even one in the middle of a break, the loop is back
/// at work: the next second sends neither a break tick nor a break end, and
/// `t` quiet seconds leave `I - t` of the full interval `I`.
pub proof fn lemma_force_skip_resumes_work(
    ts: TimerState,
    ctx: LoopContext,
    cfg: LoopConfig,
    meeting_now: bool,
    t: nat,
)
    requires
        ts.wf(),
        !ctx.was_sleeping,
        t <= ts.work_interval_seconds,
    ensures
        ({
            let ts2 = ts.reset();
            let ctx2 = LoopContext {
                break_active: false,
                break_seconds_left: 0,
                notified_pre_warning: false,
                ..ctx
            };
            &&& ts2.is_working()
            &&& no_break_progress(step(ts2, ctx2, cfg, false, meeting_now).2)
            &&& run_quiet(ts2, ctx2, cfg, t).0.seconds_remaining == ts.work_interval_seconds - t
        }),
{
    let ts2 = ts.reset();
    let ctx2 = LoopContext {
        break_active: false,
        break_seconds_left: 0,
        notified_pre_warning: false,
        ..ctx
    };
    lemma_no_break_progress_outside_break(ts2, ctx2, cfg, false, meeting_now);
    lemma_work_countdown(ts2, ctx2, cfg, t);
}

/// The working second that brings the countdown to zero starts a break of
/// the configured length and announces it.
pub proof fn lemma_break_starts_at_zero(ts: TimerState, ctx: LoopContext, cfg: LoopConfig)
    requires
        ts.is_working(),
        ts.seconds_remaining == 1,
        !ctx.break_active,
        !ctx.was_sleeping,
    ensures
        ({
            let r = step(ts, ctx, cfg, false, false);
            &&& r.0.seconds_remaining == 0
            &&& r.1.break_active
            &&& r.1.break_seconds_left == cfg.break_duration_seconds
            &&& r.2.last() == (Effect::EmitBreakStart { duration: cfg.break_duration_seconds })
        }),
{
}

/// A break ends after exactly as many seconds as it lasts: `d - 1` quiet
/// seconds into a break of `d` seconds it is still on and no break end has
/// been sent; one more second sends exactly one and ends it.
pub proof fn lemma_break_lasts_exactly(ts: TimerState, ctx: LoopContext, cfg: LoopConfig, d: nat)
    requires
        ctx.break_active,
        ctx.break_seconds_left == d,
        d >= 1,
        !ctx.was_sleeping,
    ensures
        run_quiet(ts, ctx, cfg, (d - 1) as nat).1.break_active,
        break_end_count(run_quiet(ts, ctx, cfg, (d - 1) as nat).2) == 0,
        !run_quiet(ts, ctx, cfg, d).1.break_active,
        break_end_count(run_quiet(ts, ctx, cfg, d).2) == 1,
    decreases d,
{
    reveal_with_fuel(run_steady, 2);
    let r = step(ts, ctx, cfg, false, false);
    if d == 1 {
        assert(break_end_count(r.2) == 1) by {
            reveal_with_fuel(break_end_count, 7);
        }
        assert(r.2 + seq![] =~= r.2);
    } else {
        assert(r.1.break_active && r.1.break_seconds_left == d - 1 && !r.1.was_sleeping);
        assert(break_end_count(r.2) == 0) by {
            reveal_with_fuel(break_end_count, 2);
        }
        lemma_break_lasts_exactly(r.0, r.1, cfg, (d - 1) as nat);
        lemma_break_end_count_add(r.2, run_quiet(r.0, r.1, cfg, (d - 2) as nat).2);
        lemma_break_end_count_add(r.2, run_quiet(r.0, r.1, cfg, (d - 1) as nat).2);
    }
}

/// Every tick keeps the timer state's invariants and the loop's counters in
/// range, whatever the sleep signal and the probe report.
pub proof fn lemma_step_keeps_invariants(
    ts: TimerState,
    ctx: LoopContext,
    cfg: LoopConfig,
    sleeping: bool,
    meeting_now: bool,
)
    requires
        ts.wf(),
        ctx.wf(),
    ensures
        step(ts, ctx, cfg, sleeping, meeting_now).0.wf(),
        step(ts, ctx, cfg, sleeping, meeting_now).1.wf(),
{
}

/// A tick that begins outside a break sends neither a break tick nor a break
/// end, whatever the sleep signal and the probe report.
pub proof fn lemma_no_break_progress_outside_break(
    ts: TimerState,
    ctx: LoopContext,
    cfg: LoopConfig,
    sleeping: bool,
    meeting_now: bool,
)
    requires
        !ctx.break_active,
    ensures
        no_break_progress(step(ts, ctx, cfg, sleeping, meeting_now).2),
{
}

/// A meeting detected during a break aborts it: the timer is paused for the
/// meeting with a full interval ahead, the break is over, and that tick sends
/// neither a break tick nor a break end.
pub proof fn lemma_meeting_aborts_break(ts: TimerState, ctx: LoopContext, cfg: LoopConfig)
    requires
        ts.wf(),
        ctx.break_active,
        !ts.is_meeting_paused(),
        probe_due(ctx, cfg, false),
    ensures
        ({
            let r = step(ts, ctx, cfg, false, true);
            &&& r.0.is_paused
            &&& r.0.is_meeting_paused()
            &&& r.0.seconds_remaining == ts.work_interval_seconds
            &&& !r.1.break_active
            &&& no_break_progress(r.2)
        }),
{
}

/// While the meeting goes on, a timer paused for it stays paused with its
/// countdown untouched, and no break tick or break end is sent, for any
/// number of seconds.
pub proof fn lemma_meeting_pause_holds(ts: TimerState, ctx: LoopContext, cfg: LoopConfig, n: nat)
    requires
        ts.wf(),
        ts.is_meeting_paused(),
        !ctx.break_active,
        !ctx.was_sleeping,
    ensures
        ({
            let r = run_steady(ts, ctx, cfg, false, true, n);
            &&& r.0 == ts
            &&& !r.1.break_active
            &&& !r.1.was_sleeping
            &&& no_break_progress(r.2)
        }),
    decreases n,
{
    if n > 0 {
        let r = step(ts, ctx, cfg, false, true);
        assert(r.0 == ts);
        lemma_meeting_pause_holds(r.0, r.1, cfg, (n - 1) as nat);
        let rest = run_steady(r.0, r.1, cfg, false, true, (n - 1) as nat);
        assert(no_break_progress(r.2 + rest.2)) by {
            assert forall|i: int| 0 <= i < (r.2 + rest.2).len() implies !(#[trigger] (r.2
                + rest.2)[i] is EmitBreakTick) && !((r.2 + rest.2)[i] is EmitBreakEnd) by {
                if i >= r.2.len() {
                    assert((r.2 + rest.2)[i] == rest.2[i - r.2.len()]);
                }
            }
        }
    }
}

/// Only the end of the meeting ends a meeting pause: on an awake tick with no
/// sleep edge, the pause stays unless the probe runs and reports no meeting.
pub proof fn lemma_meeting_pause_only_ends_with_meeting(
    ts: TimerState,
    ctx: LoopContext,
    cfg: LoopConfig,
    meeting_now: bool,
)
    requires
        ts.wf(),
        ts.is_meeting_paused(),
        !ctx.break_active,
        !ctx.was_sleeping,
        !(probe_due(ctx, cfg, false) && !meeting_now),
    ensures
        step(ts, ctx, cfg, false, meeting_now).0.is_meeting_paused(),
{
}

/// When the probe reports that the meeting has ended, the pause ends by
/// itself, with no resume command.
pub proof fn lemma_meeting_end_resumes(ts: TimerState, ctx: LoopContext, cfg: LoopConfig)
    requires
        ts.wf(),
        ts.is_meeting_paused(),
        probe_due(ctx, cfg, false),
    ensures
        step(ts, ctx, cfg, false, false).0.pause_reason is None,
        !step(ts, ctx, cfg, false, false).0.is_paused,
{
}

/// Saving and restoring: a record of `s` seconds saved at `saved_at` and read
/// back `delta` seconds later resumes with `s - delta` seconds when
/// `delta < s`, and gives a fresh full interval otherwise.
pub proof fn lemma_persist_restore(config: AppConfig, s: u32, saved_at: u64, delta: u64)
    requires
        config.interval_seconds() <= u32::MAX,
        s <= config.interval_seconds(),
        saved_at + delta <= u64::MAX,
    ensures
        ({
            let record = PersistedTimer { seconds_remaining: s, saved_at };
            let r = restored(config, Some(record), (saved_at + delta) as u64);
            let fresh = TimerState::fresh((config.work_interval_minutes * 60) as u32, config.strict_mode);
            &&& delta < s ==> r == TimerState { seconds_remaining: (s - delta) as u32, ..fresh }
            &&& delta >= s ==> r == fresh
        }),
{
}

} // verus!
