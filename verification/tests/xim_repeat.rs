use kime::xim_repeat::{
    repeat_id, should_start_repeat, KeyEvent, KeyEventKind, XimRepeats, XIM_REPEAT_DELAY_NANOS,
    XIM_REPEAT_INTERVAL_NANOS,
};

fn press(detail: u8, event: u32) -> KeyEvent {
    KeyEvent {
        response_type: 2,
        detail,
        sequence: 7,
        time: 1000,
        root: 0x100,
        event,
        child: 0,
        root_x: 10,
        root_y: 20,
        event_x: 1,
        event_y: 2,
        state: 0,
        same_screen: true,
    }
}

#[test]
fn repeat_id_packs_window_and_context() {
    assert_eq!(repeat_id(0x1234_5678, 0x9abc), 0x1234_5678_9abc);
    assert_eq!(repeat_id(0, 1), 1);
    assert_eq!(repeat_id(u32::MAX, u16::MAX), 0xffff_ffff_ffff);
    assert_ne!(repeat_id(1, 0), repeat_id(0, 1));
}

#[test]
fn start_uses_event_window_and_replays_as_press() {
    let mut repeats = XimRepeats::new();
    let mut ev = press(38, 0x42);
    ev.response_type = 2 | 0x80;
    assert!(repeats.start_repeat(5, ev, Some(7), Some(8), 1_000));
    let r = repeats.get(5).unwrap();
    assert_eq!(r.keycode, 38);
    assert_eq!(r.event.event, 0x42);
    assert_eq!(r.event.response_type, 2);
    assert_eq!(r.next, 1_000 + 400_000_000);
    assert_eq!(r.pending, 0);
    assert_eq!(XIM_REPEAT_DELAY_NANOS, 400_000_000);
}

#[test]
fn start_falls_back_to_focus_then_client_window() {
    let mut repeats = XimRepeats::new();
    assert!(repeats.start_repeat(1, press(38, 0), Some(7), Some(8), 0));
    assert_eq!(repeats.get(1).unwrap().event.event, 7);
    assert!(repeats.start_repeat(2, press(38, 0), None, Some(8), 0));
    assert_eq!(repeats.get(2).unwrap().event.event, 8);
}

#[test]
fn start_without_any_window_does_nothing() {
    let mut repeats = XimRepeats::new();
    assert!(!repeats.start_repeat(1, press(38, 0), None, None, 0));
    assert_eq!(repeats.get(1), None);
    assert_eq!(repeats.repeat_timeout(0), None);
}

#[test]
fn timeout_is_least_wait_and_zero_when_due() {
    let mut repeats = XimRepeats::new();
    assert_eq!(repeats.repeat_timeout(0), None);
    repeats.start_repeat(1, press(38, 9), None, None, 100);
    repeats.start_repeat(2, press(39, 9), None, None, 50);
    assert_eq!(repeats.repeat_timeout(100), Some(400_000_000 - 50));
    assert_eq!(repeats.repeat_timeout(500_000_000), Some(0));
}

#[test]
fn due_repeats_lists_only_those_due() {
    let mut repeats = XimRepeats::new();
    repeats.start_repeat(1, press(38, 9), None, None, 0);
    repeats.start_repeat(2, press(39, 9), None, None, 100_000_000);
    let due = repeats.due_repeats(400_000_000);
    assert_eq!(due.len(), 1);
    assert_eq!(due[0].0, 1);
    let mut both: Vec<u64> = repeats.due_repeats(500_000_000).iter().map(|e| e.0).collect();
    both.sort();
    assert_eq!(both, vec![1, 2]);
    assert!(repeats.due_repeats(399_999_999).is_empty());
}

#[test]
fn emitting_counts_pending_and_moves_next_one_interval_on() {
    let mut repeats = XimRepeats::new();
    repeats.start_repeat(1, press(38, 9), None, None, 0);
    repeats.record_emitted(1, 900_000_000);
    let r = repeats.get(1).unwrap();
    assert_eq!(r.pending, 1);
    assert_eq!(r.next, 900_000_000 + XIM_REPEAT_INTERVAL_NANOS);
    assert!(repeats.due_repeats(900_000_000).is_empty());
    repeats.record_emitted(2, 900_000_000);
    assert_eq!(repeats.get(2), None);
}

#[test]
fn emitted_press_comes_back_as_synthetic() {
    let mut repeats = XimRepeats::new();
    repeats.start_repeat(1, press(38, 9), None, None, 0);
    repeats.record_emitted(1, 400_000_000);
    assert_eq!(repeats.classify_key_event(1, 2, 38), KeyEventKind::Synthetic);
    assert_eq!(repeats.get(1).unwrap().pending, 0);
    // The next press of the same key without a pending synthetic one is the
    // client's own repeat: the fallback stops.
    assert_eq!(repeats.classify_key_event(1, 2, 38), KeyEventKind::NativeRepeat);
    assert_eq!(repeats.get(1), None);
}

#[test]
fn sent_event_flag_is_ignored_when_telling_presses() {
    let mut repeats = XimRepeats::new();
    repeats.start_repeat(1, press(38, 9), None, None, 0);
    repeats.record_emitted(1, 400_000_000);
    assert_eq!(repeats.classify_key_event(1, 2 | 0x80, 38), KeyEventKind::Synthetic);
}

#[test]
fn release_stops_the_repeat() {
    let mut repeats = XimRepeats::new();
    repeats.start_repeat(1, press(38, 9), None, None, 0);
    repeats.start_repeat(2, press(38, 9), None, None, 0);
    assert_eq!(repeats.classify_key_event(1, 3, 38), KeyEventKind::Release);
    assert_eq!(repeats.get(1), None);
    assert!(repeats.get(2).is_some());
    assert_eq!(repeats.classify_key_event(9, 3, 38), KeyEventKind::Release);
}

#[test]
fn other_key_ends_repeat_and_is_fresh() {
    let mut repeats = XimRepeats::new();
    repeats.start_repeat(1, press(38, 9), None, None, 0);
    assert_eq!(repeats.classify_key_event(1, 2, 40), KeyEventKind::Fresh);
    assert_eq!(repeats.get(1), None);
    assert_eq!(repeats.classify_key_event(1, 2, 40), KeyEventKind::Fresh);
}

#[test]
fn stop_and_clear() {
    let mut repeats = XimRepeats::new();
    repeats.start_repeat(1, press(38, 9), None, None, 0);
    repeats.start_repeat(2, press(38, 9), None, None, 0);
    repeats.stop_repeat(1);
    assert_eq!(repeats.get(1), None);
    assert!(repeats.get(2).is_some());
    repeats.clear_repeats();
    assert_eq!(repeats.get(2), None);
    assert_eq!(repeats.repeat_timeout(0), None);
}

#[test]
fn only_fresh_consumed_repeatable_presses_start_a_repeat() {
    assert!(should_start_repeat(true, KeyEventKind::Fresh, true));
    assert!(!should_start_repeat(false, KeyEventKind::Fresh, true));
    assert!(!should_start_repeat(true, KeyEventKind::Synthetic, true));
    assert!(!should_start_repeat(true, KeyEventKind::NativeRepeat, true));
    assert!(!should_start_repeat(true, KeyEventKind::Fresh, false));
}
