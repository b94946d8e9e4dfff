use claude_deck::config::{
    default_buttons, default_true, effective_refresh_interval, ButtonAssignment, Metric,
    DEFAULT_REFRESH_INTERVAL_SECS, MIN_REFRESH_INTERVAL_SECS,
};
use claude_deck::deck::{
    assign_button_metric, assigned_screen_buttons, ensure_button_slot, metric_label,
    plan_button_pushes, poll_failure_reaction, released_buttons, require_screen_button,
    session_and_weekly, startup_step, tray_tooltip, ButtonPush, PollFailureReaction, PushStyle,
    StartupStep, STARTUP_CONNECT_ATTEMPTS,
};
use claude_deck::usage::PollError;

fn buttons(metrics: &[Metric]) -> Vec<ButtonAssignment> {
    metrics.iter().map(|m| ButtonAssignment { metric: *m }).collect()
}

#[test]
fn defaults() {
    assert!(default_buttons().is_empty());
    assert!(default_true());
    assert_eq!(ButtonAssignment::default().metric, Metric::Unassigned);
    assert_eq!(DEFAULT_REFRESH_INTERVAL_SECS, 300);
}

#[test]
fn refresh_interval_is_floored() {
    assert_eq!(effective_refresh_interval(50), MIN_REFRESH_INTERVAL_SECS);
    assert_eq!(effective_refresh_interval(0), 120);
    assert_eq!(effective_refresh_interval(120), 120);
    assert_eq!(effective_refresh_interval(300), 300);
    assert_eq!(effective_refresh_interval(effective_refresh_interval(7)), 120);
}

#[test]
fn slots_grow_with_unassigned_buttons() {
    let mut b = buttons(&[Metric::Session]);
    ensure_button_slot(&mut b, 3);
    assert_eq!(
        b,
        buttons(&[Metric::Session, Metric::Unassigned, Metric::Unassigned, Metric::Unassigned])
    );
    ensure_button_slot(&mut b, 1);
    assert_eq!(b.len(), 4);
}

#[test]
fn only_screen_buttons_can_be_assigned() {
    assert_eq!(require_screen_button(5), Ok(()));
    assert_eq!(
        require_screen_button(6),
        Err("button 6 has no screen (only buttons 0-5 do)".to_string())
    );
    assert_eq!(
        require_screen_button(8),
        Err("button 8 has no screen (only buttons 0-5 do)".to_string())
    );
}

#[test]
fn assigning_a_metric() {
    let mut b = default_buttons();
    assert_eq!(assign_button_metric(&mut b, 2, Metric::Weekly), Ok(()));
    assert_eq!(b, buttons(&[Metric::Unassigned, Metric::Unassigned, Metric::Weekly]));
    assert_eq!(assign_button_metric(&mut b, 0, Metric::Session), Ok(()));
    assert_eq!(b, buttons(&[Metric::Session, Metric::Unassigned, Metric::Weekly]));
    let before = b.clone();
    assert!(assign_button_metric(&mut b, 7, Metric::Budget).is_err());
    assert_eq!(b, before);
}

#[test]
fn unassigning_releases_button() {
    let old = buttons(&[Metric::Session, Metric::Weekly, Metric::Unassigned, Metric::Budget]);
    let new = buttons(&[Metric::Session, Metric::Unassigned, Metric::Weekly]);
    assert_eq!(released_buttons(&old, &new), vec![1, 3]);
    assert_eq!(released_buttons(&new, &old), vec![2]);
}

#[test]
fn reset_releases_every_assigned_screen_button() {
    let old = buttons(&[
        Metric::Session,
        Metric::Unassigned,
        Metric::Budget,
        Metric::Unassigned,
        Metric::Unassigned,
        Metric::Weekly,
        Metric::Session,
    ]);
    assert_eq!(released_buttons(&old, &default_buttons()), vec![0, 2, 5]);
    assert_eq!(assigned_screen_buttons(&old), vec![0, 2, 5]);
}

#[test]
fn nothing_assigned_nothing_blanked() {
    assert!(assigned_screen_buttons(&default_buttons()).is_empty());
    assert!(released_buttons(&default_buttons(), &default_buttons()).is_empty());
}

#[test]
fn labels() {
    assert_eq!(metric_label(Metric::Session), "5H");
    assert_eq!(metric_label(Metric::Weekly), "7D");
    assert_eq!(metric_label(Metric::Budget), "BUD");
    assert_eq!(metric_label(Metric::Unassigned), "");
}

#[test]
fn finds_session_and_weekly_limits() {
    let kinds: Vec<String> = ["other", "weekly_all", "session", "session"]
        .iter()
        .map(|s| s.to_string())
        .collect();
    assert_eq!(session_and_weekly(&kinds), (Some(2), Some(1)));
    let none: Vec<String> = vec!["weekly".to_string()];
    assert_eq!(session_and_weekly(&none), (None, None));
}

#[test]
fn plans_pushes_per_button() {
    let b = buttons(&[
        Metric::Session,
        Metric::Unassigned,
        Metric::Budget,
        Metric::Weekly,
        Metric::Unassigned,
        Metric::Unassigned,
        Metric::Session,
    ]);
    let plan = plan_button_pushes(&b, false, true, false);
    assert_eq!(
        plan,
        vec![
            ButtonPush { index: 0, metric: Metric::Session, style: PushStyle::Gauge },
            ButtonPush { index: 2, metric: Metric::Budget, style: PushStyle::Disabled },
        ]
    );
    let plan = plan_button_pushes(&b, true, true, true);
    assert_eq!(
        plan,
        vec![
            ButtonPush { index: 0, metric: Metric::Session, style: PushStyle::Gauge },
            ButtonPush { index: 2, metric: Metric::Budget, style: PushStyle::Gauge },
            ButtonPush { index: 3, metric: Metric::Weekly, style: PushStyle::Gauge },
        ]
    );
}

#[test]
fn tooltip_text() {
    assert_eq!(
        tray_tooltip("Usage Deck", Some(42), Some(7)),
        "Usage Deck\nSession: 42%\nWeekly: 7%"
    );
    assert_eq!(tray_tooltip("Deck", None, Some(-3)), "Deck\nSession: —\nWeekly: -3%");
}

#[test]
fn startup_attempts() {
    assert_eq!(startup_step(0), StartupStep::Attempt { wait_first: false });
    assert_eq!(startup_step(1), StartupStep::Attempt { wait_first: true });
    assert_eq!(startup_step(7), StartupStep::Attempt { wait_first: true });
    assert_eq!(startup_step(8), StartupStep::GiveUp);
    let attempts = (0..100).filter(|a| startup_step(*a) != StartupStep::GiveUp).count();
    assert_eq!(attempts as u32, STARTUP_CONNECT_ATTEMPTS);
}

#[test]
fn rate_limit_backs_off() {
    assert_eq!(
        poll_failure_reaction(&PollError::RateLimited { retry_after_secs: Some(30) }),
        PollFailureReaction::BackOff {
            secs: 30,
            notice: "Rate limited by usage endpoint - waiting 30s".to_string()
        }
    );
    assert_eq!(
        poll_failure_reaction(&PollError::RateLimited { retry_after_secs: None }),
        PollFailureReaction::BackOff {
            secs: 120,
            notice: "Rate limited by usage endpoint - waiting 120s".to_string()
        }
    );
    assert_eq!(
        poll_failure_reaction(&PollError::Other("boom".to_string())),
        PollFailureReaction::Report { message: "boom".to_string() }
    );
}
