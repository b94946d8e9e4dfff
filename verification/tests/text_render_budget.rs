use claude_deck::budget::{day_state, BudgetState};
use claude_deck::render::{severity_color, BACKGROUND, LABEL_COLOR, TEXT_COLOR};
use claude_deck::deck::{require_screen_button, tray_tooltip};
use claude_deck::text::text_eq;
use claude_deck::usage::{classify_response, PollError, ResponseClass};

#[test]
fn decimal_text() {
    assert_eq!(tray_tooltip("T", Some(0), Some(120)), "T\nSession: 0%\nWeekly: 120%");
    assert_eq!(tray_tooltip("T", Some(-45), Some(i64::MIN)), "T\nSession: -45%\nWeekly: -9223372036854775808%");
    assert_eq!(
        PollError::RateLimited { retry_after_secs: Some(u64::MAX) }.message(),
        "rate limited by usage endpoint (HTTP 429), retry after 18446744073709551615s"
    );
    assert_eq!(
        require_screen_button(1000),
        Err("button 1000 has no screen (only buttons 0-5 do)".to_string())
    );
}

fn retry_after(text: &str) -> Option<u64> {
    match classify_response(429, Some(text)) {
        ResponseClass::RateLimited { retry_after_secs } => retry_after_secs,
        other => panic!("unexpected class {other:?}"),
    }
}

#[test]
fn parses_retry_after_seconds() {
    assert_eq!(retry_after("120"), Some(120));
    assert_eq!(retry_after("+5"), Some(5));
    assert_eq!(retry_after("007"), Some(7));
    assert_eq!(retry_after(""), None);
    assert_eq!(retry_after("+"), None);
    assert_eq!(retry_after("-1"), None);
    assert_eq!(retry_after(" 1"), None);
    assert_eq!(retry_after("1.5"), None);
    assert_eq!(retry_after("Wed, 21 Oct 2015 07:28:00 GMT"), None);
    assert_eq!(retry_after("18446744073709551615"), Some(u64::MAX));
    assert_eq!(retry_after("18446744073709551616"), None);
}

#[test]
fn compares_text() {
    assert!(text_eq("critical", "critical"));
    assert!(!text_eq("critical", "critica"));
    assert!(!text_eq("normal", "Normal"));
    assert!(text_eq("", ""));
    assert!(text_eq("—", "—"));
}

#[test]
fn severity_colours() {
    assert_eq!(severity_color("critical"), [216, 58, 58]);
    assert_eq!(severity_color("warning"), [216, 164, 0]);
    assert_eq!(severity_color("normal"), [46, 158, 76]);
    assert_eq!(severity_color("off"), [55, 55, 65]);
    assert_eq!(severity_color("unknown"), [100, 100, 100]);
    assert_eq!(severity_color(""), [100, 100, 100]);
    assert_ne!(severity_color("normal"), BACKGROUND);
    assert_eq!(BACKGROUND, [20, 20, 20]);
    assert_eq!(TEXT_COLOR, [255, 255, 255]);
    assert_eq!(LABEL_COLOR, [210, 210, 210]);
}

#[test]
fn same_day_keeps_start_of_day() {
    let stored = BudgetState { day: "2026-08-14".to_string(), weekly_percent_at_day_start: 12u32 };
    let (state, save) = day_state(Some(stored), "2026-08-14".to_string(), 40u32);
    assert_eq!(state.day, "2026-08-14");
    assert_eq!(state.weekly_percent_at_day_start, 12);
    assert!(!save);
}

#[test]
fn new_day_starts_fresh() {
    let stored = BudgetState { day: "2026-08-13".to_string(), weekly_percent_at_day_start: 12u32 };
    let (state, save) = day_state(Some(stored), "2026-08-14".to_string(), 40u32);
    assert_eq!(state.day, "2026-08-14");
    assert_eq!(state.weekly_percent_at_day_start, 40);
    assert!(save);
    let (state, save) = day_state::<u32>(None, "2026-08-14".to_string(), 3);
    assert_eq!(state.weekly_percent_at_day_start, 3);
    assert!(save);
}
