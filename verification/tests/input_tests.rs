use lamp::button::{debounce_scan, debounce_step, is_long_press, RESET_TIMEOUT_IN_MILLISECONDS};
use lamp::common::Events;
use lamp::encoder::encoder_event;
use lamp::switch::switch_event;

#[test]
fn debounce_step_rejects_unchanged_level() {
    assert_eq!(debounce_step(true, true), None);
    assert_eq!(debounce_step(false, false), None);
    assert_eq!(debounce_step(true, false), Some(false));
    assert_eq!(debounce_step(false, true), Some(true));
}

#[test]
fn debounce_returns_final_stable_level() {
    // P1 scenario: High→Low→High→Low held for the quiet interval; the first
    // round re-samples after the bounce returned to High, the second sees
    // the settled Low
    let rounds = vec![(true, true), (true, false)];
    assert_eq!(debounce_scan(&rounds), Some(false));
}

#[test]
fn debounce_skips_any_number_of_bounce_rounds() {
    let rounds = vec![(true, true), (true, true), (true, true), (true, false)];
    assert_eq!(debounce_scan(&rounds), Some(false));
    let rounds: Vec<(bool, bool)> = vec![];
    assert_eq!(debounce_scan(&rounds), None);
    let rounds = vec![(false, false), (false, true)];
    assert_eq!(debounce_scan(&rounds), Some(true));
}

#[test]
fn long_press_threshold() {
    assert!(!is_long_press(0));
    assert!(!is_long_press(RESET_TIMEOUT_IN_MILLISECONDS - 1));
    assert!(is_long_press(RESET_TIMEOUT_IN_MILLISECONDS));
    assert!(is_long_press(u64::MAX));
}

#[test]
fn encoder_direction_mapping() {
    assert_eq!(encoder_event(true, false), Events::EncoderTurn(false));
    assert_eq!(encoder_event(false, false), Events::EncoderTurn(true));
    assert_eq!(encoder_event(true, true), Events::EncoderTurn(true));
    assert_eq!(encoder_event(false, true), Events::EncoderTurn(false));
}

#[test]
fn switch_level_mapping() {
    assert_eq!(switch_event(true), Events::SwitchToggle(true));
    assert_eq!(switch_event(false), Events::SwitchToggle(false));
}
