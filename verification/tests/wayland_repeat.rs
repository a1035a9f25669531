use kime::wayland_repeat::{default_repeat_info, PressState, RepeatInfo, DEFAULT_REPEAT_DELAY, DEFAULT_REPEAT_RATE};
use std::time::Instant;

#[test]
fn protocol_repeat_info_uses_compositor_values() {
    assert_eq!(
        RepeatInfo::from_protocol(30, 250, false),
        Some(RepeatInfo {
            rate: 30,
            delay: 250
        })
    );
}

#[test]
fn zero_rate_disables_repeat_without_fallback() {
    assert_eq!(RepeatInfo::from_protocol(0, 600, false), None);
}

#[test]
fn zero_rate_uses_fallback_and_preserves_delay_when_requested() {
    assert_eq!(
        RepeatInfo::from_protocol(0, 600, true),
        Some(RepeatInfo {
            rate: DEFAULT_REPEAT_RATE,
            delay: 600
        })
    );
}

#[test]
fn invalid_values_cannot_create_a_negative_duration_or_rate() {
    assert_eq!(RepeatInfo::from_protocol(-1, -1, true), None);
    assert_eq!(
        RepeatInfo::from_protocol(20, -1, false),
        Some(default_repeat_info())
    );
}

#[test]
fn default_repeat_info_is_twenty_per_second_after_200_ms() {
    assert_eq!(default_repeat_info(), RepeatInfo { rate: 20, delay: 200 });
    assert_eq!(DEFAULT_REPEAT_RATE, 20);
    assert_eq!(DEFAULT_REPEAT_DELAY, 200);
}

#[test]
fn negative_delay_with_zero_rate_and_fallback_uses_both_defaults() {
    assert_eq!(
        RepeatInfo::from_protocol(0, -5, true),
        Some(RepeatInfo { rate: 20, delay: 200 })
    );
}

#[test]
fn negative_rate_never_repeats_even_with_fallback() {
    assert_eq!(RepeatInfo::from_protocol(-30, 100, true), None);
    assert_eq!(RepeatInfo::from_protocol(i32::MIN, 0, false), None);
}

#[test]
fn zero_delay_is_kept() {
    assert_eq!(
        RepeatInfo::from_protocol(1, 0, false),
        Some(RepeatInfo { rate: 1, delay: 0 })
    );
}

#[test]
fn pressing_matches_only_the_held_key() {
    let state = PressState::Pressing {
        pressed_at: Instant::now(),
        is_repeating: false,
        key: 38,
        wayland_time: 1234,
    };
    assert!(state.is_pressing(38));
    assert!(!state.is_pressing(39));
    assert!(!PressState::NotPressing.is_pressing(38));
}
