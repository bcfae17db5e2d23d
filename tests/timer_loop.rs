use twenty20::config::AppConfig;
use twenty20::engine::{Effect, LoopConfig, LoopContext};
use twenty20::timer::{PauseReason, TimerState};
use twenty20::tray::TrayIconState;

fn config(minutes: u32, break_secs: u32, pre_warning: u32, meeting: bool, strict: bool) -> AppConfig {
    let mut c = AppConfig::default();
    c.work_interval_minutes = minutes;
    c.break_duration_seconds = break_secs;
    c.pre_warning_seconds = pre_warning;
    c.meeting_detection = meeting;
    c.strict_mode = strict;
    c
}

/// Runs `n` awake ticks with the given meeting answer and collects the effects.
fn run(ctx: &mut LoopContext, ts: &mut TimerState, cfg: &LoopConfig, n: u32, meeting: bool) -> Vec<Effect> {
    let mut all = Vec::new();
    for _ in 0..n {
        let m = ctx.probe_due(cfg, false) && meeting;
        all.extend(ctx.tick(ts, cfg, false, m));
    }
    all
}

fn count(effects: &[Effect], pred: impl Fn(&Effect) -> bool) -> usize {
    effects.iter().filter(|e| pred(e)).count()
}

#[test]
fn work_countdown_after_t_ticks() {
    for &(minutes, t) in &[(1u32, 0u32), (1, 1), (1, 59), (1, 60), (20, 700), (60, 3600)] {
        let c = config(minutes, 20, 0, false, false);
        let cfg = LoopConfig::from_config(&c);
        let mut ts = TimerState::new(&c);
        let mut ctx = LoopContext::new();
        run(&mut ctx, &mut ts, &cfg, t, false);
        assert_eq!(ts.seconds_remaining, minutes * 60 - t);
    }
}

#[test]
fn break_lasts_exactly_its_duration() {
    for &d in &[1u32, 5, 20, 60] {
        let c = config(1, d, 0, false, false);
        let cfg = LoopConfig::from_config(&c);
        let mut ts = TimerState::new(&c);
        let mut ctx = LoopContext::new();
        let e = run(&mut ctx, &mut ts, &cfg, 60, false);
        assert_eq!(count(&e, |x| matches!(x, Effect::EmitBreakStart { .. })), 1);
        assert!(ctx.break_active);
        let before = run(&mut ctx, &mut ts, &cfg, d - 1, false);
        assert_eq!(count(&before, |x| matches!(x, Effect::EmitBreakEnd { .. })), 0);
        assert!(ctx.break_active);
        let last = run(&mut ctx, &mut ts, &cfg, 1, false);
        assert_eq!(count(&last, |x| matches!(x, Effect::EmitBreakEnd { force_skipped: false })), 1);
        assert!(!ctx.break_active);
        assert_eq!(ts.seconds_remaining, 60);
    }
}

#[test]
fn break_ticks_count_down() {
    let c = config(1, 5, 0, false, false);
    let cfg = LoopConfig::from_config(&c);
    let mut ts = TimerState::new(&c);
    let mut ctx = LoopContext::new();
    run(&mut ctx, &mut ts, &cfg, 60, false);
    let e = run(&mut ctx, &mut ts, &cfg, 4, false);
    let ticks: Vec<u32> = e
        .iter()
        .filter_map(|x| match x {
            Effect::EmitBreakTick { seconds_remaining } => Some(*seconds_remaining),
            _ => None,
        })
        .collect();
    assert_eq!(ticks, vec![4, 3, 2, 1]);
}

#[test]
fn meeting_during_break_aborts_it() {
    let c = config(1, 60, 0, true, true);
    let cfg = LoopConfig::from_config(&c);
    let mut ts = TimerState::new(&c);
    let mut ctx = LoopContext::new();
    // The probe is due on every 30th awake tick: ticks 30 and 60 see no meeting.
    run(&mut ctx, &mut ts, &cfg, 60, false);
    assert!(ctx.break_active);
    // Tick 90 is the next probe; the meeting shows up there.
    let during = run(&mut ctx, &mut ts, &cfg, 29, false);
    assert_eq!(count(&during, |x| matches!(x, Effect::EmitBreakEnd { .. })), 0);
    assert!(ctx.break_active);
    assert!(ctx.probe_due(&cfg, false));
    let e = ctx.tick(&mut ts, &cfg, false, true);
    assert!(!ctx.break_active);
    assert!(ts.is_paused);
    assert_eq!(ts.pause_reason, Some(PauseReason::Meeting));
    assert_eq!(ts.seconds_remaining, 60);
    assert!(e.contains(&Effect::CloseOverlays));
    assert!(e.contains(&Effect::DisableInputSuppression));
    let after = run(&mut ctx, &mut ts, &cfg, 100, true);
    assert_eq!(
        count(&after, |x| matches!(x, Effect::EmitBreakEnd { .. } | Effect::EmitBreakTick { .. })),
        0
    );
    assert_eq!(ts.pause_reason, Some(PauseReason::Meeting));
    assert_eq!(ts.seconds_remaining, 60);
}

#[test]
fn meeting_outside_break_keeps_countdown() {
    let c = config(20, 20, 0, true, false);
    let cfg = LoopConfig::from_config(&c);
    let mut ts = TimerState::new(&c);
    let mut ctx = LoopContext::new();
    run(&mut ctx, &mut ts, &cfg, 29, false);
    assert_eq!(ts.seconds_remaining, 1200 - 29);
    let e = ctx.tick(&mut ts, &cfg, false, true);
    assert_eq!(ts.pause_reason, Some(PauseReason::Meeting));
    assert_eq!(ts.seconds_remaining, 1200 - 29);
    assert!(e.contains(&Effect::EmitTimerTick {
        seconds_remaining: 1200 - 29,
        is_paused: true,
        pause_reason: Some(PauseReason::Meeting),
    }));
}

#[test]
fn meeting_end_resumes_without_command() {
    let c = config(20, 20, 0, true, false);
    let cfg = LoopConfig::from_config(&c);
    let mut ts = TimerState::new(&c);
    let mut ctx = LoopContext::new();
    run(&mut ctx, &mut ts, &cfg, 30, true);
    assert_eq!(ts.pause_reason, Some(PauseReason::Meeting));
    assert!(twenty20::commands::resume_timer(&mut ts).is_err());
    run(&mut ctx, &mut ts, &cfg, 29, true);
    assert!(twenty20::commands::resume_timer(&mut ts).is_err());
    assert_eq!(ts.pause_reason, Some(PauseReason::Meeting));
    run(&mut ctx, &mut ts, &cfg, 30, false);
    assert_eq!(ts.pause_reason, None);
    assert!(!ts.is_paused);
}

#[test]
fn end_to_end_cycle() {
    let c = config(20, 20, 60, false, false);
    let cfg = LoopConfig::from_config(&c);
    let mut ts = TimerState::new(&c);
    let mut ctx = LoopContext::new();
    let first = run(&mut ctx, &mut ts, &cfg, 1140, false);
    assert_eq!(ts.seconds_remaining, 60);
    assert_eq!(count(&first, |x| matches!(x, Effect::NotifyPreBreak { lead_seconds: 60 })), 1);
    assert!(first.contains(&Effect::SetTrayIcon(TrayIconState::Blink)));
    let second = run(&mut ctx, &mut ts, &cfg, 60, false);
    assert_eq!(count(&second, |x| matches!(x, Effect::NotifyPreBreak { .. })), 0);
    assert_eq!(count(&second, |x| *x == Effect::EmitBreakStart { duration: 20 }), 1);
    assert!(second.contains(&Effect::PlayBreakSound));
    assert!(second.contains(&Effect::OpenOverlays { break_duration: 20, strict_mode: false }));
    assert!(!second.contains(&Effect::EnableInputSuppression));
    assert_eq!(ts.seconds_remaining, 0);
    assert!(ctx.break_active);
    let third = run(&mut ctx, &mut ts, &cfg, 20, false);
    assert_eq!(count(&third, |x| matches!(x, Effect::EmitBreakEnd { .. })), 1);
    assert!(third.contains(&Effect::EmitBreakEnd { force_skipped: false }));
    assert_eq!(ts.seconds_remaining, 1200);
    assert!(!ts.is_paused);
    // The next cycle warns again.
    let next = run(&mut ctx, &mut ts, &cfg, 1140, false);
    assert_eq!(count(&next, |x| matches!(x, Effect::NotifyPreBreak { .. })), 1);
}

#[test]
fn strict_break_enables_input_suppression() {
    let c = config(1, 20, 0, false, true);
    let cfg = LoopConfig::from_config(&c);
    let mut ts = TimerState::new(&c);
    let mut ctx = LoopContext::new();
    let e = run(&mut ctx, &mut ts, &cfg, 60, false);
    assert!(e.contains(&Effect::EnableInputSuppression));
    assert!(e.contains(&Effect::OpenOverlays { break_duration: 20, strict_mode: true }));
}

#[test]
fn sleep_abandons_break_and_wake_resets() {
    let c = config(1, 20, 0, false, false);
    let cfg = LoopConfig::from_config(&c);
    let mut ts = TimerState::new(&c);
    let mut ctx = LoopContext::new();
    run(&mut ctx, &mut ts, &cfg, 65, false);
    assert!(ctx.break_active);
    let e = ctx.tick(&mut ts, &cfg, true, false);
    assert_eq!(e, vec![Effect::CloseOverlays, Effect::DisableInputSuppression]);
    assert!(!ctx.break_active);
    let asleep = ctx.tick(&mut ts, &cfg, true, false);
    assert!(asleep.is_empty());
    twenty20::commands::pause_timer(5, &mut ts).unwrap();
    let woke = ctx.tick(&mut ts, &cfg, false, false);
    assert_eq!(
        woke,
        vec![
            Effect::Persist { seconds_remaining: 60 },
            Effect::SetTrayIcon(TrayIconState::Open),
            Effect::EmitTimerTick { seconds_remaining: 60, is_paused: false, pause_reason: None },
        ]
    );
    assert_eq!(ts.seconds_remaining, 60);
    assert!(!ts.is_paused);
    assert_eq!(ts.manual_pause_seconds_remaining, None);
}

#[test]
fn manual_pause_runs_out() {
    let c = config(20, 20, 0, false, false);
    let cfg = LoopConfig::from_config(&c);
    let mut ts = TimerState::new(&c);
    let mut ctx = LoopContext::new();
    twenty20::commands::pause_timer(1, &mut ts).unwrap();
    assert_eq!(ts.manual_pause_seconds_remaining, Some(60));
    run(&mut ctx, &mut ts, &cfg, 60, false);
    assert!(ts.is_paused);
    assert_eq!(ts.manual_pause_seconds_remaining, Some(0));
    assert_eq!(ts.seconds_remaining, 1200);
    run(&mut ctx, &mut ts, &cfg, 1, false);
    assert!(!ts.is_paused);
    assert_eq!(ts.pause_reason, None);
    assert_eq!(ts.manual_pause_seconds_remaining, None);
    run(&mut ctx, &mut ts, &cfg, 1, false);
    assert_eq!(ts.seconds_remaining, 1199);
}

#[test]
fn persistence_is_throttled() {
    let c = config(20, 20, 0, false, false);
    let cfg = LoopConfig::from_config(&c);
    let mut ts = TimerState::new(&c);
    let mut ctx = LoopContext::new();
    let e = run(&mut ctx, &mut ts, &cfg, 90, false);
    let writes: Vec<u32> = e
        .iter()
        .filter_map(|x| match x {
            Effect::Persist { seconds_remaining } => Some(*seconds_remaining),
            _ => None,
        })
        .collect();
    assert_eq!(writes, vec![1170, 1140, 1110]);
}

#[test]
fn tray_menu_follows_ticks() {
    let c = config(20, 20, 0, false, true);
    let cfg = LoopConfig::from_config(&c);
    let mut ts = TimerState::new(&c);
    let mut ctx = LoopContext::new();
    let e = ctx.tick(&mut ts, &cfg, false, false);
    assert!(e.contains(&Effect::UpdateTrayMenu { seconds_remaining: 1199, is_paused: false, is_strict_mode: true }));
    assert!(e.contains(&Effect::EmitTimerTick { seconds_remaining: 1199, is_paused: false, pause_reason: None }));
}

#[test]
fn force_skip_ends_the_loops_break() {
    let c = config(1, 20, 0, false, true);
    let cfg = LoopConfig::from_config(&c);
    let mut ts = TimerState::new(&c);
    let mut ctx = LoopContext::new();
    run(&mut ctx, &mut ts, &cfg, 65, false);
    assert!(ctx.break_active);
    let e = twenty20::commands::force_skip_break(&mut ts, &mut ctx);
    assert!(e.contains(&Effect::EmitBreakEnd { force_skipped: true }));
    assert!(!ctx.break_active);
    assert_eq!(ts.seconds_remaining, 60);
    let after = run(&mut ctx, &mut ts, &cfg, 30, false);
    assert_eq!(
        count(&after, |x| matches!(x, Effect::EmitBreakEnd { .. } | Effect::EmitBreakTick { .. })),
        0
    );
    assert_eq!(ts.seconds_remaining, 30);
}

#[test]
fn skip_after_warning_warns_again() {
    let c = config(20, 20, 60, false, false);
    let cfg = LoopConfig::from_config(&c);
    let mut ts = TimerState::new(&c);
    let mut ctx = LoopContext::new();
    let first = run(&mut ctx, &mut ts, &cfg, 1150, false);
    assert_eq!(count(&first, |x| matches!(x, Effect::NotifyPreBreak { .. })), 1);
    assert_eq!(twenty20::commands::skip_break(&mut ts, &mut ctx), Ok(()));
    assert_eq!(ts.seconds_remaining, 1200);
    let second = run(&mut ctx, &mut ts, &cfg, 1140, false);
    assert_eq!(count(&second, |x| matches!(x, Effect::NotifyPreBreak { lead_seconds: 60 })), 1);
}
