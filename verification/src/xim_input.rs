//! What the XIM frontend does with a key event and with the engine's answer.
use vstd::prelude::*;

use crate::x11_consts::{control_mask, mod1_mask, mod2_mask, mod4_mask, shift_mask};

verus! {

/// The modifiers of a key event, read from the X11 key/button mask.
#[derive(Clone, Copy, Debug, PartialEq, Eq, Structural)]
pub struct Modifiers {
    pub shift: bool,
    pub control: bool,
    /// Mod1.
    pub alt: bool,
    /// Mod4.
    pub super_key: bool,
    /// Mod2: whether the keypad gives digits.
    pub numlock: bool,
}

/// The modifiers that the X11 `state` mask of a key event sets.
pub open spec fn spec_modifiers(state: u16) -> Modifiers {
    Modifiers {
        shift: state & 0x1 != 0,
        control: state & 0x4 != 0,
        alt: state & 0x8 != 0,
        super_key: state & 0x40 != 0,
        numlock: state & 0x10 != 0,
    }
}

/// Reads the modifiers of a key event from its X11 `state` mask.
pub fn modifiers_from_state(state: u16) -> (m: Modifiers)
    ensures
        m == spec_modifiers(state),
        // Each modifier is read from its own bit of the X11 key/button mask.
        m.shift == (state & 0x1 != 0),
        m.control == (state & 0x4 != 0),
        m.alt == (state & 0x8 != 0),
        m.numlock == (state & 0x10 != 0),
        m.super_key == (state & 0x40 != 0),
{
    Modifiers {
        shift: state & shift_mask() != 0,
        control: state & control_mask() != 0,
        alt: state & mod1_mask() != 0,
        super_key: state & mod4_mask() != 0,
        numlock: state & mod2_mask() != 0,
    }
}

/// Each modifier follows its own bit: setting or clearing the Shift bit
/// (bit 0) turns `shift` on or off and leaves every other modifier as it
/// was, and so for Control (bit 2), Alt (bit 3), NumLock (bit 4) and Super
/// (bit 6).
pub proof fn lemma_each_modifier_reads_its_own_bit(state: u16)
    ensures
        spec_modifiers(state | 0x1) == (Modifiers { shift: true, ..spec_modifiers(state) }),
        spec_modifiers(state & !0x1u16) == (Modifiers { shift: false, ..spec_modifiers(state) }),
        spec_modifiers(state | 0x4) == (Modifiers { control: true, ..spec_modifiers(state) }),
        spec_modifiers(state & !0x4u16) == (Modifiers { control: false, ..spec_modifiers(state) }),
        spec_modifiers(state | 0x8) == (Modifiers { alt: true, ..spec_modifiers(state) }),
        spec_modifiers(state & !0x8u16) == (Modifiers { alt: false, ..spec_modifiers(state) }),
        spec_modifiers(state | 0x10) == (Modifiers { numlock: true, ..spec_modifiers(state) }),
        spec_modifiers(state & !0x10u16) == (Modifiers { numlock: false, ..spec_modifiers(state) }),
        spec_modifiers(state | 0x40) == (Modifiers { super_key: true, ..spec_modifiers(state) }),
        spec_modifiers(state & !0x40u16) == (Modifiers { super_key: false, ..spec_modifiers(state) }),
{
    assert(((state | 0x1) & 0x1 != 0) && (((state | 0x1) & 0x4 != 0) == (state & 0x4 != 0)) && (((state
        | 0x1) & 0x8 != 0) == (state & 0x8 != 0)) && (((state | 0x1) & 0x10 != 0) == (state & 0x10 != 0))
        && (((state | 0x1) & 0x40 != 0) == (state & 0x40 != 0))) by (bit_vector);
    assert(!((state & !0x1u16) & 0x1 != 0) && (((state & !0x1u16) & 0x4 != 0) == (state & 0x4 != 0)) && (((
    state & !0x1u16) & 0x8 != 0) == (state & 0x8 != 0)) && (((state & !0x1u16) & 0x10 != 0) == (state & 0x10
        != 0)) && (((state & !0x1u16) & 0x40 != 0) == (state & 0x40 != 0))) by (bit_vector);
    assert(((state | 0x4) & 0x4 != 0) && (((state | 0x4) & 0x1 != 0) == (state & 0x1 != 0)) && (((state
        | 0x4) & 0x8 != 0) == (state & 0x8 != 0)) && (((state | 0x4) & 0x10 != 0) == (state & 0x10 != 0))
        && (((state | 0x4) & 0x40 != 0) == (state & 0x40 != 0))) by (bit_vector);
    assert(!((state & !0x4u16) & 0x4 != 0) && (((state & !0x4u16) & 0x1 != 0) == (state & 0x1 != 0)) && (((
    state & !0x4u16) & 0x8 != 0) == (state & 0x8 != 0)) && (((state & !0x4u16) & 0x10 != 0) == (state & 0x10
        != 0)) && (((state & !0x4u16) & 0x40 != 0) == (state & 0x40 != 0))) by (bit_vector);
    assert(((state | 0x8) & 0x8 != 0) && (((state | 0x8) & 0x1 != 0) == (state & 0x1 != 0)) && (((state
        | 0x8) & 0x4 != 0) == (state & 0x4 != 0)) && (((state | 0x8) & 0x10 != 0) == (state & 0x10 != 0))
        && (((state | 0x8) & 0x40 != 0) == (state & 0x40 != 0))) by (bit_vector);
    assert(!((state & !0x8u16) & 0x8 != 0) && (((state & !0x8u16) & 0x1 != 0) == (state & 0x1 != 0)) && (((
    state & !0x8u16) & 0x4 != 0) == (state & 0x4 != 0)) && (((state & !0x8u16) & 0x10 != 0) == (state & 0x10
        != 0)) && (((state & !0x8u16) & 0x40 != 0) == (state & 0x40 != 0))) by (bit_vector);
    assert(((state | 0x10) & 0x10 != 0) && (((state | 0x10) & 0x1 != 0) == (state & 0x1 != 0)) && (((state
        | 0x10) & 0x4 != 0) == (state & 0x4 != 0)) && (((state | 0x10) & 0x8 != 0) == (state & 0x8 != 0))
        && (((state | 0x10) & 0x40 != 0) == (state & 0x40 != 0))) by (bit_vector);
    assert(!((state & !0x10u16) & 0x10 != 0) && (((state & !0x10u16) & 0x1 != 0) == (state & 0x1 != 0)) && (((
    state & !0x10u16) & 0x4 != 0) == (state & 0x4 != 0)) && (((state & !0x10u16) & 0x8 != 0) == (state & 0x8
        != 0)) && (((state & !0x10u16) & 0x40 != 0) == (state & 0x40 != 0))) by (bit_vector);
    assert(((state | 0x40) & 0x40 != 0) && (((state | 0x40) & 0x1 != 0) == (state & 0x1 != 0)) && (((state
        | 0x40) & 0x4 != 0) == (state & 0x4 != 0)) && (((state | 0x40) & 0x8 != 0) == (state & 0x8 != 0))
        && (((state | 0x40) & 0x10 != 0) == (state & 0x10 != 0))) by (bit_vector);
    assert(!((state & !0x40u16) & 0x40 != 0) && (((state & !0x40u16) & 0x1 != 0) == (state & 0x1 != 0)) && (((
    state & !0x40u16) & 0x4 != 0) == (state & 0x4 != 0)) && (((state & !0x40u16) & 0x8 != 0) == (state & 0x8
        != 0)) && (((state & !0x40u16) & 0x10 != 0) == (state & 0x10 != 0))) by (bit_vector);
}

/// The flags of the engine's answer to a key press.
#[derive(Clone, Copy, Debug, PartialEq, Eq, Structural)]
pub struct InputResultFlags {
    pub language_changed: bool,
    pub has_preedit: bool,
    pub has_commit: bool,
    pub not_ready: bool,
    pub consumed: bool,
}

/// What the frontend does with the engine's answer, in this order: update
/// the keyboard layout state, clear the preedit, commit (and clear the
/// engine's commit string), draw the preedit; then record whether the engine
/// is ready and tell the client whether the key was consumed.
#[derive(Clone, Copy, Debug, PartialEq, Eq, Structural)]
pub struct InputResultPlan {
    pub update_layout: bool,
    pub clear_preedit: bool,
    pub commit: bool,
    pub draw_preedit: bool,
    pub engine_ready: bool,
    pub consumed: bool,
}

/// The plan for an answer with these flags.
pub open spec fn spec_input_result_plan(flags: InputResultFlags) -> InputResultPlan {
    InputResultPlan {
        update_layout: flags.language_changed,
        clear_preedit: !flags.has_preedit,
        commit: flags.has_commit,
        draw_preedit: flags.has_preedit,
        engine_ready: !flags.not_ready,
        consumed: flags.consumed,
    }
}

/// Plans what to do with the engine's answer to a key press.
pub fn plan_input_result(flags: InputResultFlags) -> (plan: InputResultPlan)
    ensures
        plan == spec_input_result_plan(flags),
        // The preedit is either cleared or drawn, never both.
        plan.clear_preedit != plan.draw_preedit,
        // Each action follows its own flag of the answer, whatever the others.
        plan.consumed == flags.consumed,
        plan.commit == flags.has_commit,
        plan.draw_preedit == flags.has_preedit,
        plan.update_layout == flags.language_changed,
        plan.engine_ready == !flags.not_ready,
{
    InputResultPlan {
        update_layout: flags.language_changed,
        clear_preedit: !flags.has_preedit,
        commit: flags.has_commit,
        draw_preedit: flags.has_preedit,
        engine_ready: !flags.not_ready,
        consumed: flags.consumed,
    }
}

/// The client is told the key was consumed exactly when the engine's answer
/// says so: committing, a preedit, a language change or readiness never
/// change it. Each other action follows its own flag the same way.
pub proof fn lemma_plan_follows_each_flag(flags: InputResultFlags)
    ensures
        spec_input_result_plan(flags).consumed == flags.consumed,
        spec_input_result_plan(flags).commit == flags.has_commit,
        spec_input_result_plan(flags).draw_preedit == flags.has_preedit,
        spec_input_result_plan(flags).clear_preedit == !flags.has_preedit,
        spec_input_result_plan(flags).update_layout == flags.language_changed,
        spec_input_result_plan(flags).engine_ready == !flags.not_ready,
{
}

/// How the preedit string reaches the user.
#[derive(Clone, Copy, Debug, PartialEq, Eq, Structural)]
pub enum PreeditAction {
    /// The client draws it: send it through the preedit-draw callback.
    DrawCallback,
    /// Nothing is shown.
    Skip,
    /// Update and refresh the input context's preedit window.
    RefreshWindow,
    /// Open a preedit window for the input context and show it there.
    CreateWindow,
}

/// The way to show the preedit: the client draws it where its input style
/// has preedit callbacks; else the frontend's own window shows it, where the
/// window is enabled for the context, there is something to show and a font
/// was loaded.
pub open spec fn spec_preedit_action(
    preedit_callbacks: bool,
    show_preedit_window: bool,
    preedit_empty: bool,
    has_font: bool,
    has_window: bool,
) -> PreeditAction {
    if preedit_callbacks {
        PreeditAction::DrawCallback
    } else if !show_preedit_window || preedit_empty || !has_font {
        PreeditAction::Skip
    } else if has_window {
        PreeditAction::RefreshWindow
    } else {
        PreeditAction::CreateWindow
    }
}

/// Decides how to show the preedit of an input context.
pub fn preedit_action(
    preedit_callbacks: bool,
    show_preedit_window: bool,
    preedit_empty: bool,
    has_font: bool,
    has_window: bool,
) -> (action: PreeditAction)
    ensures
        action == spec_preedit_action(preedit_callbacks, show_preedit_window, preedit_empty, has_font, has_window),
        // Without a font no window is ever made or drawn.
        !has_font ==> action != PreeditAction::CreateWindow && action != PreeditAction::RefreshWindow,
        // A client with preedit callbacks always draws the preedit itself.
        preedit_callbacks ==> action == PreeditAction::DrawCallback,
        // Otherwise nothing is shown without an enabled window, a preedit and a font.
        !preedit_callbacks && (!show_preedit_window || preedit_empty || !has_font) ==> action == PreeditAction::Skip,
        // Otherwise the context's window is refreshed, or made where it has none.
        !preedit_callbacks && show_preedit_window && !preedit_empty && has_font ==> action == (if has_window {
            PreeditAction::RefreshWindow
        } else {
            PreeditAction::CreateWindow
        }),
{
    if preedit_callbacks {
        return PreeditAction::DrawCallback;
    }
    if !show_preedit_window {
        return PreeditAction::Skip;
    }
    if preedit_empty {
        return PreeditAction::Skip;
    }
    if !has_font {
        return PreeditAction::Skip;
    }
    if has_window {
        PreeditAction::RefreshWindow
    } else {
        PreeditAction::CreateWindow
    }
}

/// A client with preedit callbacks always draws the preedit itself; any
/// other client sees it in a window only with the window enabled, a preedit
/// to show and a font, and a context that has a window keeps it.
pub proof fn lemma_preedit_reaches_the_user(
    preedit_callbacks: bool,
    show_preedit_window: bool,
    preedit_empty: bool,
    has_font: bool,
    has_window: bool,
)
    ensures
        preedit_callbacks ==> spec_preedit_action(preedit_callbacks, show_preedit_window, preedit_empty, has_font, has_window)
            == PreeditAction::DrawCallback,
        spec_preedit_action(preedit_callbacks, show_preedit_window, preedit_empty, has_font, has_window)
            == PreeditAction::CreateWindow <==> !preedit_callbacks && show_preedit_window && !preedit_empty
            && has_font && !has_window,
        spec_preedit_action(preedit_callbacks, show_preedit_window, preedit_empty, has_font, has_window)
            == PreeditAction::RefreshWindow <==> !preedit_callbacks && show_preedit_window && !preedit_empty
            && has_font && has_window,
{
}

/// How the preedit is taken away.
#[derive(Clone, Copy, Debug, PartialEq, Eq, Structural)]
pub enum ClearPreeditAction {
    /// Send an empty string through the preedit-draw callback.
    DrawEmptyCallback,
    /// Close the input context's preedit window.
    DestroyWindow,
    /// Nothing is shown, so nothing to do.
    Nothing,
}

/// The way to clear the preedit of an input context.
pub open spec fn spec_clear_preedit_action(preedit_callbacks: bool, has_window: bool) -> ClearPreeditAction {
    if preedit_callbacks {
        ClearPreeditAction::DrawEmptyCallback
    } else if has_window {
        ClearPreeditAction::DestroyWindow
    } else {
        ClearPreeditAction::Nothing
    }
}

/// Decides how to clear the preedit of an input context.
pub fn clear_preedit_action(preedit_callbacks: bool, has_window: bool) -> (action: ClearPreeditAction)
    ensures
        action == spec_clear_preedit_action(preedit_callbacks, has_window),
        // A client with preedit callbacks is always sent the empty preedit,
        // whatever the window state.
        preedit_callbacks ==> action == ClearPreeditAction::DrawEmptyCallback,
        // Otherwise the window is closed where there is one, and nothing done where there is none.
        !preedit_callbacks && has_window ==> action == ClearPreeditAction::DestroyWindow,
        !preedit_callbacks && !has_window ==> action == ClearPreeditAction::Nothing,
{
    if preedit_callbacks {
        ClearPreeditAction::DrawEmptyCallback
    } else if has_window {
        ClearPreeditAction::DestroyWindow
    } else {
        ClearPreeditAction::Nothing
    }
}

/// Whether a new input context gets the frontend's preedit window: not where
/// the client draws the preedit through callbacks, and not in a release
/// build running in a Wayland session (under Xwayland).
pub open spec fn spec_show_preedit_window(preedit_callbacks: bool, release_build: bool, wayland_session: bool) -> bool {
    !preedit_callbacks && !(release_build && wayland_session)
}

/// A client with preedit callbacks never gets the window, nor does any
/// client under Xwayland in a release build; every other client does.
pub proof fn lemma_preedit_window_for_new_contexts(preedit_callbacks: bool, release_build: bool, wayland_session: bool)
    ensures
        spec_show_preedit_window(preedit_callbacks, release_build, wayland_session) <==> !preedit_callbacks
            && !(release_build && wayland_session),
{
}

/// Decides whether a new input context gets the preedit window.
pub fn show_preedit_window(preedit_callbacks: bool, release_build: bool, wayland_session: bool) -> (show: bool)
    ensures
        show == spec_show_preedit_window(preedit_callbacks, release_build, wayland_session),
        // No window for a client that draws the preedit itself.
        preedit_callbacks ==> !show,
        // No window under Xwayland in a release build.
        release_build && wayland_session ==> !show,
        // A window in every other case.
        !preedit_callbacks && !(release_build && wayland_session) ==> show,
{
    let mut show = true;
    if preedit_callbacks {
        show = false;
    }
    if release_build && wayland_session {
        show = false;
    }
    show
}

} // verus!
