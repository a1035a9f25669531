use kime::font::load_preedit_font;
use kime::xim_input::{
    clear_preedit_action, modifiers_from_state, plan_input_result, preedit_action,
    show_preedit_window, ClearPreeditAction, InputResultFlags, InputResultPlan, Modifiers,
    PreeditAction,
};

/// A preedit font that is not installed comes as empty data: loading it
/// must not panic, and the preedit window is disabled.
#[test]
fn missing_preedit_font_does_not_panic() {
    assert!(
        load_preedit_font(Vec::new(), 0).is_none(),
        "preedit window should be disabled when the font is missing"
    );
}

#[test]
fn data_that_is_not_a_font_gives_no_font() {
    assert!(load_preedit_font(vec![0, 1, 0], 0).is_none());
    assert!(load_preedit_font(vec![0xde, 0xad, 0xbe, 0xef, 0, 0, 0, 0], 0).is_none());
}

#[test]
fn modifiers_come_from_the_x11_mask() {
    assert_eq!(
        modifiers_from_state(0x1 | 0x4 | 0x8 | 0x10 | 0x40),
        Modifiers { shift: true, control: true, alt: true, super_key: true, numlock: true }
    );
    assert_eq!(
        modifiers_from_state(0x2 | 0x20 | 0x80 | 0x100),
        Modifiers { shift: false, control: false, alt: false, super_key: false, numlock: false }
    );
    assert_eq!(modifiers_from_state(0x10).numlock, true);
    assert_eq!(modifiers_from_state(0x8).alt, true);
}

#[test]
fn input_result_plan() {
    let plan = plan_input_result(InputResultFlags {
        language_changed: true,
        has_preedit: false,
        has_commit: true,
        not_ready: false,
        consumed: true,
    });
    assert_eq!(
        plan,
        InputResultPlan {
            update_layout: true,
            clear_preedit: true,
            commit: true,
            draw_preedit: false,
            engine_ready: true,
            consumed: true,
        }
    );
    let plan = plan_input_result(InputResultFlags {
        language_changed: false,
        has_preedit: true,
        has_commit: false,
        not_ready: true,
        consumed: false,
    });
    assert!(!plan.clear_preedit && plan.draw_preedit && !plan.engine_ready && !plan.consumed);
}

#[test]
fn preedit_actions() {
    assert_eq!(preedit_action(true, false, true, false, false), PreeditAction::DrawCallback);
    assert_eq!(preedit_action(false, false, false, true, true), PreeditAction::Skip);
    assert_eq!(preedit_action(false, true, true, true, true), PreeditAction::Skip);
    assert_eq!(preedit_action(false, true, false, false, false), PreeditAction::Skip);
    assert_eq!(preedit_action(false, true, false, true, true), PreeditAction::RefreshWindow);
    assert_eq!(preedit_action(false, true, false, true, false), PreeditAction::CreateWindow);
}

#[test]
fn clear_preedit_actions() {
    assert_eq!(clear_preedit_action(true, true), ClearPreeditAction::DrawEmptyCallback);
    assert_eq!(clear_preedit_action(false, true), ClearPreeditAction::DestroyWindow);
    assert_eq!(clear_preedit_action(false, false), ClearPreeditAction::Nothing);
}

#[test]
fn preedit_window_for_new_contexts() {
    assert!(show_preedit_window(false, true, false));
    assert!(show_preedit_window(false, false, true));
    assert!(!show_preedit_window(true, false, false));
    assert!(!show_preedit_window(false, true, true));
}
