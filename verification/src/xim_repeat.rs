//! The key-repeat fallback of the XIM frontend.
//!
//! XIM clients that do not repeat keys themselves get synthetic key presses:
//! once a consumed key has been held for `XIM_REPEAT_DELAY_NANOS`, a press is
//! injected every `XIM_REPEAT_INTERVAL_NANOS` until the key is released. The
//! table counts the injected presses (`pending`) so that they can be told apart
//! from presses that the client repeats itself.
//!
//! Times are nanoseconds on a monotonic clock whose origin the caller chooses.
use ahash::AHashMap;
use vstd::prelude::*;

use crate::ahash_map::{repeat_entries, table_clear, table_entries, table_get, table_insert, table_new, table_remove};
use crate::x11_consts::key_press_event;

verus! {

/// Delay between the first press of a key and its first synthetic repeat.
pub const XIM_REPEAT_DELAY_NANOS: u64 = 400_000_000;

/// Interval between two synthetic repeats.
pub const XIM_REPEAT_INTERVAL_NANOS: u64 = 50_000_000;

/// The bit that the X server sets in `response_type` of an event that a
/// client sent with `SendEvent`.
pub const SEND_EVENT_FLAG: u8 = 0x80;

/// The `response_type` of an X11 core KeyPress event.
pub open spec fn spec_key_press_code() -> u8 {
    2
}

/// The fields of an X11 core key event (`KeyPressEvent` in x11rb), as the XIM
/// frontend reads and replays them.
#[derive(Clone, Copy, Debug, PartialEq, Eq, Structural)]
pub struct KeyEvent {
    pub response_type: u8,
    pub detail: u8,
    pub sequence: u16,
    pub time: u32,
    pub root: u32,
    pub event: u32,
    pub child: u32,
    pub root_x: i16,
    pub root_y: i16,
    pub event_x: i16,
    pub event_y: i16,
    pub state: u16,
    pub same_screen: bool,
}

/// A key being repeated for one input context.
#[derive(Clone, Copy, Debug, PartialEq, Eq, Structural)]
pub struct XimRepeat {
    /// Hardware keycode of the repeated key.
    pub keycode: u8,
    /// The press being repeated, aimed at the window that gets the repeats.
    pub event: KeyEvent,
    /// When the next synthetic press is due.
    pub next: u64,
    /// Synthetic presses sent and not yet seen coming back from the client.
    pub pending: u32,
}

/// The repeat table with no entry.
pub open spec fn no_repeats() -> Map<u64, XimRepeat> {
    Map::empty()
}

/// The id of an input context in the repeat table: the client window in the
/// high bits, the input-context id in the low 16 bits.
pub open spec fn spec_repeat_id(client_win: u32, input_context_id: u16) -> u64 {
    (client_win as int * 0x10000 + input_context_id as int) as u64
}

/// Computes the repeat-table id of an input context.
pub fn repeat_id(client_win: u32, input_context_id: u16) -> (id: u64)
    ensures
        id == spec_repeat_id(client_win, input_context_id),
        id as int == client_win as int * 0x10000 + input_context_id as int,
{
    let w = client_win as u64;
    let c = input_context_id as u64;
    assert((w << 16u64) | c == w * 0x10000 + c) by (bit_vector)
        requires
            w <= 0xffff_ffff,
            c <= 0xffff,
    ;
    (w << 16u64) | c
}

/// Distinct input contexts never share a repeat-table id.
pub proof fn lemma_repeat_id_injective(w1: u32, c1: u16, w2: u32, c2: u16)
    ensures
        spec_repeat_id(w1, c1) == spec_repeat_id(w2, c2) ==> w1 == w2 && c1 == c2,
{
    assert(spec_repeat_id(w1, c1) == w1 as int * 0x10000 + c1 as int);
    assert(spec_repeat_id(w2, c2) == w2 as int * 0x10000 + c2 as int);
}

/// The repeat-table id gives back the client window (its high bits) and the
/// input-context id (its low 16 bits).
pub proof fn lemma_repeat_id_recovers_context(client_win: u32, input_context_id: u16)
    ensures
        spec_repeat_id(client_win, input_context_id) / 0x10000 == client_win,
        spec_repeat_id(client_win, input_context_id) % 0x10000 == input_context_id,
{
    let id = spec_repeat_id(client_win, input_context_id);
    assert(id == client_win as int * 0x10000 + input_context_id as int);
    vstd::arithmetic::div_mod::lemma_fundamental_div_mod_converse(
        id as int,
        0x10000,
        client_win as int,
        input_context_id as int,
    );
}

/// Whether an event with this `response_type` is a key press (sent by the
/// server or by a client).
pub open spec fn spec_is_key_press(response_type: u8) -> bool {
    response_type & !SEND_EVENT_FLAG == spec_key_press_code()
}

/// `a - b`, or zero where `b` is not below `a`.
pub open spec fn saturating_diff(a: u64, b: u64) -> u64 {
    if a > b { (a - b) as u64 } else { 0 }
}

/// `a + 1`, or `a` where it is already the largest `u32`.
pub open spec fn saturating_inc(a: u32) -> u32 {
    if a < u32::MAX { (a + 1) as u32 } else { a }
}

/// The window that receives the synthetic repeats of `event`: the window on
/// which the client received the key, else the focus window, else the client
/// window; zero where none is known.
pub open spec fn spec_repeat_target(event: KeyEvent, focus_win: Option<u32>, app_win: Option<u32>) -> u32 {
    if event.event != 0 {
        event.event
    } else {
        match focus_win {
            Some(w) => w,
            None => match app_win {
                Some(w) => w,
                None => 0,
            },
        }
    }
}

/// The entry that starting a repeat of `event` at `now` creates.
pub open spec fn spec_new_repeat(event: KeyEvent, target: u32, now: u64) -> XimRepeat {
    XimRepeat {
        keycode: event.detail,
        event: KeyEvent { event: target, response_type: spec_key_press_code(), ..event },
        next: (now + XIM_REPEAT_DELAY_NANOS) as u64,
        pending: 0,
    }
}

/// How the frontend takes a key event forwarded by a client.
#[derive(Clone, Copy, Debug, PartialEq, Eq, Structural)]
pub enum KeyEventKind {
    /// A key release: it ends any repeat of the input context and is passed back.
    Release,
    /// A press that the frontend itself injected.
    Synthetic,
    /// A press that the client repeated itself: the fallback stops.
    NativeRepeat,
    /// Any other press.
    Fresh,
}

/// The kind of a forwarded key event and the repeat table after it.
pub open spec fn spec_classify(
    m: Map<u64, XimRepeat>,
    id: u64,
    response_type: u8,
    keycode: u8,
) -> (KeyEventKind, Map<u64, XimRepeat>) {
    if !spec_is_key_press(response_type) {
        (KeyEventKind::Release, m.remove(id))
    } else if m.dom().contains(id) {
        let r = m[id];
        if r.keycode == keycode && r.pending > 0 {
            (KeyEventKind::Synthetic, m.insert(id, XimRepeat { pending: (r.pending - 1) as u32, ..r }))
        } else if r.keycode == keycode {
            (KeyEventKind::NativeRepeat, m.remove(id))
        } else {
            (KeyEventKind::Fresh, m.remove(id))
        }
    } else {
        (KeyEventKind::Fresh, m)
    }
}

/// The repeat table after a synthetic press for `id` was sent at `now`.
pub open spec fn spec_record_emitted(m: Map<u64, XimRepeat>, id: u64, now: u64) -> Map<u64, XimRepeat> {
    if m.dom().contains(id) {
        let r = m[id];
        m.insert(
            id,
            XimRepeat {
                pending: saturating_inc(r.pending),
                next: (now + XIM_REPEAT_INTERVAL_NANOS) as u64,
                ..r
            },
        )
    } else {
        m
    }
}

/// Whether a repeat that has been started for a press should be: the press
/// was consumed by the engine, is neither a synthetic nor a client-repeated
/// press, and its key may repeat.
pub open spec fn spec_should_start_repeat(consumed: bool, kind: KeyEventKind, key_can_repeat: bool) -> bool {
    consumed && kind == KeyEventKind::Fresh && key_can_repeat
}

/// Decides whether a consumed press starts a repeat.
pub fn should_start_repeat(consumed: bool, kind: KeyEventKind, key_can_repeat: bool) -> (res: bool)
    ensures
        res == spec_should_start_repeat(consumed, kind, key_can_repeat),
        res ==> consumed && key_can_repeat && kind == KeyEventKind::Fresh,
        consumed && key_can_repeat && kind == KeyEventKind::Fresh ==> res,
{
    consumed && matches!(kind, KeyEventKind::Fresh) && key_can_repeat
}

/// Neither a release, nor a synthetic press, nor a press that the client
/// repeated itself ever starts a repeat: the fallback never feeds itself.
pub proof fn lemma_only_fresh_presses_start_repeats(consumed: bool, kind: KeyEventKind, key_can_repeat: bool)
    requires
        kind != KeyEventKind::Fresh,
    ensures
        !spec_should_start_repeat(consumed, kind, key_can_repeat),
{
}

/// The pending XIM key repeats, one per input context.
pub struct XimRepeats {
    table: AHashMap<u64, XimRepeat>,
}

impl XimRepeats {
    /// The repeats, by input-context id.
    pub closed spec fn view(&self) -> Map<u64, XimRepeat> {
        repeat_entries(self.table)
    }

    /// An empty table.
    pub fn new() -> (res: Self)
        ensures
            res.view() == no_repeats(),
    {
        XimRepeats { table: table_new() }
    }

    /// The repeat of input context `id`, if any.
    pub fn get(&self, id: u64) -> (res: Option<XimRepeat>)
        ensures
            res == (if self.view().dom().contains(id) { Some(self.view()[id]) } else { None }),
    {
        table_get(&self.table, id)
    }

    /// Stops the repeat of input context `id`.
    pub fn stop_repeat(&mut self, id: u64)
        ensures
            final(self).view() == old(self).view().remove(id),
    {
        let _ = table_remove(&mut self.table, id);
    }

    /// Stops every repeat.
    pub fn clear_repeats(&mut self)
        ensures
            final(self).view() == no_repeats(),
    {
        table_clear(&mut self.table);
    }

    /// Starts repeating the press `event` for input context `id` at time
    /// `now`, aimed at the window that `spec_repeat_target` picks. Nothing
    /// starts where no target window is known; `true` when a repeat started.
    pub fn start_repeat(
        &mut self,
        id: u64,
        event: KeyEvent,
        focus_win: Option<u32>,
        app_win: Option<u32>,
        now: u64,
    ) -> (started: bool)
        requires
            now <= u64::MAX - XIM_REPEAT_DELAY_NANOS,
        ensures
            started == (spec_repeat_target(event, focus_win, app_win) != 0),
            started ==> final(self).view() == old(self).view().insert(
                id,
                spec_new_repeat(event, spec_repeat_target(event, focus_win, app_win), now),
            ),
            !started ==> final(self).view() == old(self).view(),
            // The window of the event itself wins; then the focus window;
            // then the client window; with none, nothing starts.
            event.event != 0 ==> started && final(self).view()[id].event.event == event.event,
            event.event == 0 && focus_win is Some ==> started == (focus_win->0 != 0) && (started
                ==> final(self).view()[id].event.event == focus_win->0),
            event.event == 0 && focus_win is None && app_win is Some ==> started == (app_win->0 != 0) && (
            started ==> final(self).view()[id].event.event == app_win->0),
            event.event == 0 && focus_win is None && app_win is None ==> !started,
            // The new repeat replays a key press of the same key, due one
            // delay after `now`, with nothing pending.
            started ==> final(self).view()[id].keycode == event.detail && final(self).view()[id].pending == 0
                && final(self).view()[id].next == now + 400_000_000 && final(self).view()[id].event.response_type
                == 2 && final(self).view()[id].event.detail == event.detail && final(self).view()[id].event.root
                == event.root && final(self).view()[id].event.root_x == event.root_x
                && final(self).view()[id].event.root_y == event.root_y && final(self).view()[id].event.state
                == event.state && final(self).view()[id].event.sequence == event.sequence
                && final(self).view()[id].event.time == event.time && final(self).view()[id].event.child
                == event.child && final(self).view()[id].event.event_x == event.event_x
                && final(self).view()[id].event.event_y == event.event_y
                && final(self).view()[id].event.same_screen == event.same_screen,
            // Every other input context keeps its repeat.
            forall|other: u64|
                other != id ==> (#[trigger] final(self).view().dom().contains(other) == old(self).view().dom().contains(
                    other,
                ) && (old(self).view().dom().contains(other) ==> final(self).view()[other] == old(
                    self,
                ).view()[other])),
    {
        let target = if event.event != 0 {
            event.event
        } else {
            match focus_win {
                Some(w) => w,
                None => match app_win {
                    Some(w) => w,
                    None => 0,
                },
            }
        };

        if target == 0 {
            return false;
        }

        let mut replayed = event;
        replayed.event = target;
        replayed.response_type = key_press_event();
        let repeat = XimRepeat {
            keycode: event.detail,
            event: replayed,
            next: now + XIM_REPEAT_DELAY_NANOS,
            pending: 0,
        };
        let _ = table_insert(&mut self.table, id, repeat);
        true
    }

    /// Takes a key event that a client forwarded for input context `id`: a
    /// release stops the repeat; a press is told apart as injected by the
    /// frontend, repeated by the client, or new, and the table follows
    /// `spec_classify`.
    pub fn classify_key_event(&mut self, id: u64, response_type: u8, keycode: u8) -> (kind: KeyEventKind)
        ensures
            (kind, final(self).view()) == spec_classify(old(self).view(), id, response_type, keycode),
            // A release (any event but a key press, sent or not) stops the repeat.
            (response_type & 0x7f) != 2 ==> kind == KeyEventKind::Release && final(self).view() == old(
                self,
            ).view().remove(id),
            // A press of a context with no repeat is new and changes nothing.
            (response_type & 0x7f) == 2 && !old(self).view().dom().contains(id) ==> kind == KeyEventKind::Fresh
                && final(self).view() == old(self).view(),
            // A press of the repeated key with presses pending is one of them
            // coming back: one fewer is pending, nothing else changes.
            (response_type & 0x7f) == 2 && old(self).view().dom().contains(id) && old(self).view()[id].keycode
                == keycode && old(self).view()[id].pending > 0 ==> kind == KeyEventKind::Synthetic
                && final(self).view().dom() == old(self).view().dom() && final(self).view()[id].pending
                == old(self).view()[id].pending - 1 && final(self).view()[id].next == old(self).view()[id].next
                && final(self).view()[id].keycode == keycode && final(self).view()[id].event == old(
                self,
            ).view()[id].event,
            // A press of the repeated key with none pending is the client's own
            // repeat: the fallback stops.
            (response_type & 0x7f) == 2 && old(self).view().dom().contains(id) && old(self).view()[id].keycode
                == keycode && old(self).view()[id].pending == 0 ==> kind == KeyEventKind::NativeRepeat
                && final(self).view() == old(self).view().remove(id),
            // A press of another key ends the repeat and is new.
            (response_type & 0x7f) == 2 && old(self).view().dom().contains(id) && old(self).view()[id].keycode
                != keycode ==> kind == KeyEventKind::Fresh && final(self).view() == old(self).view().remove(id),
            // Every other input context keeps its repeat.
            forall|other: u64|
                other != id ==> (#[trigger] final(self).view().dom().contains(other) == old(self).view().dom().contains(
                    other,
                ) && (old(self).view().dom().contains(other) ==> final(self).view()[other] == old(
                    self,
                ).view()[other])),
    {
        proof {
            assert(response_type & !0x80u8 == response_type & 0x7f) by (bit_vector);
        }
        let is_key_press = response_type & !SEND_EVENT_FLAG == key_press_event();
        if !is_key_press {
            let _ = table_remove(&mut self.table, id);
            return KeyEventKind::Release;
        }
        match table_get(&self.table, id) {
            Some(repeat) => {
                if repeat.keycode == keycode && repeat.pending > 0 {
                    let mut updated = repeat;
                    updated.pending = repeat.pending - 1;
                    let _ = table_insert(&mut self.table, id, updated);
                    KeyEventKind::Synthetic
                } else if repeat.keycode == keycode {
                    let _ = table_remove(&mut self.table, id);
                    KeyEventKind::NativeRepeat
                } else {
                    let _ = table_remove(&mut self.table, id);
                    KeyEventKind::Fresh
                }
            },
            None => KeyEventKind::Fresh,
        }
    }

    /// How long, at time `now`, until the next synthetic press is due: the
    /// least wait over all repeats (zero for one already due); `None` when
    /// nothing repeats.
    pub fn repeat_timeout(&self, now: u64) -> (res: Option<u64>)
        ensures
            res is None <==> self.view().dom() == Set::<u64>::empty(),
            res matches Some(t) ==> (exists|id: u64|
                self.view().dom().contains(id) && t == saturating_diff(#[trigger] self.view()[id].next, now)),
            res matches Some(t) ==> (forall|id: u64|
                self.view().dom().contains(id) ==> t <= saturating_diff(#[trigger] self.view()[id].next, now)),
            // No wait exactly when some repeat is already due.
            res matches Some(t) ==> (t == 0 <==> exists|id: u64|
                self.view().dom().contains(id) && #[trigger] self.view()[id].next <= now),
    {
        let entries = table_entries(&self.table);
        let mut best: Option<u64> = None;
        let mut i: usize = 0;
        while i < entries.len()
            invariant
                0 <= i <= entries@.len(),
                forall|k: int|
                    0 <= k < entries@.len() ==> self.view().dom().contains(#[trigger] entries@[k].0)
                        && self.view()[entries@[k].0] == entries@[k].1,
                best is None <==> i == 0,
                best matches Some(t) ==> (exists|k: int|
                    0 <= k < i && t == saturating_diff(#[trigger] entries@[k].1.next, now)),
                best matches Some(t) ==> (forall|k: int|
                    0 <= k < i ==> t <= saturating_diff(#[trigger] entries@[k].1.next, now)),
            decreases entries@.len() - i,
        {
            let next = entries[i].1.next;
            let wait = if next > now { next - now } else { 0 };
            best = match best {
                Some(t) => if wait < t { Some(wait) } else { Some(t) },
                None => Some(wait),
            };
            i = i + 1;
        }
        proof {
            if best is None {
                assert forall|id: u64| !self.view().dom().contains(id) by {
                    if self.view().dom().contains(id) {
                        let k = choose|k: int| 0 <= k < entries@.len() && #[trigger] entries@[k].0 == id;
                    }
                }
                assert(self.view().dom() =~= Set::<u64>::empty());
            } else {
                let t = best->0;
                let k = choose|k: int| 0 <= k < entries@.len() && t == saturating_diff(#[trigger] entries@[k].1.next, now);
                assert(self.view().dom().contains(entries@[k].0));
                assert forall|id: u64|
                    self.view().dom().contains(id) implies t <= saturating_diff(#[trigger] self.view()[id].next, now) by {
                    let j = choose|j: int| 0 <= j < entries@.len() && #[trigger] entries@[j].0 == id;
                    assert(t <= saturating_diff(entries@[j].1.next, now));
                }
            }
        }
        best
    }

    /// The repeats due at time `now`, each with its input-context id: every
    /// repeat whose next press is not after `now` comes out exactly once.
    pub fn due_repeats(&self, now: u64) -> (due: Vec<(u64, XimRepeat)>)
        ensures
            forall|k: int|
                0 <= k < due@.len() ==> self.view().dom().contains(#[trigger] due@[k].0)
                    && self.view()[due@[k].0] == due@[k].1 && due@[k].1.next <= now,
            forall|k: int, l: int| 0 <= k < l < due@.len() ==> #[trigger] due@[k].0 != #[trigger] due@[l].0,
            forall|id: u64|
                #[trigger] self.view().dom().contains(id) && self.view()[id].next <= now ==> exists|k: int|
                    0 <= k < due@.len() && #[trigger] due@[k].0 == id,
    {
        let entries = table_entries(&self.table);
        let mut due: Vec<(u64, XimRepeat)> = Vec::new();
        let mut i: usize = 0;
        while i < entries.len()
            invariant
                0 <= i <= entries@.len(),
                forall|k: int|
                    0 <= k < entries@.len() ==> self.view().dom().contains(#[trigger] entries@[k].0)
                        && self.view()[entries@[k].0] == entries@[k].1,
                forall|k: int, l: int|
                    0 <= k < l < entries@.len() ==> #[trigger] entries@[k].0 != #[trigger] entries@[l].0,
                forall|k: int|
                    0 <= k < due@.len() ==> self.view().dom().contains(#[trigger] due@[k].0)
                        && self.view()[due@[k].0] == due@[k].1 && due@[k].1.next <= now,
                forall|k: int| 0 <= k < due@.len() ==> exists|j: int| 0 <= j < i && #[trigger] due@[k].0 == entries@[j].0,
                forall|k: int, l: int| 0 <= k < l < due@.len() ==> #[trigger] due@[k].0 != #[trigger] due@[l].0,
                forall|j: int|
                    0 <= j < i && (#[trigger] entries@[j]).1.next <= now ==> exists|k: int|
                        0 <= k < due@.len() && #[trigger] due@[k].0 == entries@[j].0,
            decreases entries@.len() - i,
        {
            let entry = entries[i];
            let ghost old_due = due@;
            if entry.1.next <= now {
                proof {
                    assert forall|k: int| 0 <= k < due@.len() implies #[trigger] due@[k].0 != entry.0 by {
                        let j = choose|j: int| 0 <= j < i && #[trigger] due@[k].0 == entries@[j].0;
                        assert(entries@[j].0 != entries@[i as int].0);
                    }
                }
                due.push(entry);
            }
            proof {
                assert forall|j: int|
                    0 <= j < i + 1 && (#[trigger] entries@[j]).1.next <= now implies exists|k: int|
                        0 <= k < due@.len() && #[trigger] due@[k].0 == entries@[j].0 by {
                    if j < i {
                        let k = choose|k: int| 0 <= k < old_due.len() && #[trigger] old_due[k].0 == entries@[j].0;
                        assert(due@[k] == old_due[k]);
                    } else {
                        assert(due@[due@.len() - 1].0 == entries@[j].0);
                    }
                }
            }
            i = i + 1;
        }
        proof {
            assert forall|id: u64|
                #[trigger] self.view().dom().contains(id) && self.view()[id].next <= now implies exists|k: int|
                    0 <= k < due@.len() && #[trigger] due@[k].0 == id by {
                let j = choose|j: int| 0 <= j < entries@.len() && #[trigger] entries@[j].0 == id;
                assert(entries@[j].1.next <= now);
            }
        }
        due
    }

    /// Records that the synthetic press of input context `id` was sent at
    /// time `now`: one more press is pending and the next one is due one
    /// interval later. Missed intervals are not made up for.
    pub fn record_emitted(&mut self, id: u64, now: u64)
        requires
            now <= u64::MAX - XIM_REPEAT_INTERVAL_NANOS,
        ensures
            final(self).view() == spec_record_emitted(old(self).view(), id, now),
            // The repeat is no longer due at `now`.
            final(self).view().dom().contains(id) ==> final(self).view()[id].next > now,
            // One more press is pending (the count stops at its largest
            // value), the next is due one interval after `now`, and the key
            // and event are kept.
            old(self).view().dom().contains(id) ==> final(self).view().dom() == old(self).view().dom()
                && final(self).view()[id].next == now + 50_000_000 && final(self).view()[id].keycode == old(
                self,
            ).view()[id].keycode && final(self).view()[id].event == old(self).view()[id].event && (old(
                self,
            ).view()[id].pending < u32::MAX ==> final(self).view()[id].pending == old(self).view()[id].pending
                + 1) && (old(self).view()[id].pending == u32::MAX ==> final(self).view()[id].pending == u32::MAX),
            // Nothing happens to a context with no repeat, nor to other contexts.
            !old(self).view().dom().contains(id) ==> final(self).view() == old(self).view(),
            forall|other: u64|
                other != id ==> (#[trigger] final(self).view().dom().contains(other) == old(self).view().dom().contains(
                    other,
                ) && (old(self).view().dom().contains(other) ==> final(self).view()[other] == old(
                    self,
                ).view()[other])),
    {
        match table_get(&self.table, id) {
            Some(repeat) => {
                let mut updated = repeat;
                updated.pending = repeat.pending.saturating_add(1);
                updated.next = now + XIM_REPEAT_INTERVAL_NANOS;
                let _ = table_insert(&mut self.table, id, updated);
            },
            None => {},
        }
    }
}

/// A synthetic press that the frontend sends comes back from the client
/// recognised as synthetic, and the pending count returns to what it was.
pub proof fn lemma_emitted_press_is_synthetic(m: Map<u64, XimRepeat>, id: u64, now: u64)
    requires
        m.dom().contains(id),
        m[id].pending < u32::MAX,
    ensures
        spec_classify(spec_record_emitted(m, id, now), id, spec_key_press_code(), m[id].keycode)
            == (KeyEventKind::Synthetic, m.insert(
                id,
                XimRepeat { next: (now + XIM_REPEAT_INTERVAL_NANOS) as u64, ..m[id] },
            )),
{
    assert(spec_is_key_press(spec_key_press_code())) by (bit_vector);
    let after = spec_record_emitted(m, id, now);
    assert(after[id].pending == m[id].pending + 1);
    assert(spec_classify(after, id, spec_key_press_code(), m[id].keycode).1 =~= m.insert(
        id,
        XimRepeat { next: (now + XIM_REPEAT_INTERVAL_NANOS) as u64, ..m[id] },
    ));
}

/// A release always ends the repeat of its input context, whatever the table
/// held.
pub proof fn lemma_release_stops_repeat(m: Map<u64, XimRepeat>, id: u64, response_type: u8, keycode: u8)
    requires
        !spec_is_key_press(response_type),
    ensures
        !spec_classify(m, id, response_type, keycode).1.dom().contains(id),
        spec_classify(m, id, response_type, keycode).0 == KeyEventKind::Release,
{
}

/// A repeat just started is not due before one delay has passed, and a press
/// of its key forwarded before any synthetic one was sent is taken for the
/// client's own repeat, which stops the fallback.
pub proof fn lemma_started_repeat_yields_to_native(
    m: Map<u64, XimRepeat>,
    id: u64,
    event: KeyEvent,
    target: u32,
    now: u64,
)
    requires
        now <= u64::MAX - XIM_REPEAT_DELAY_NANOS,
    ensures
        m.insert(id, spec_new_repeat(event, target, now))[id].next == now + XIM_REPEAT_DELAY_NANOS,
        spec_classify(
            m.insert(id, spec_new_repeat(event, target, now)),
            id,
            spec_key_press_code(),
            event.detail,
        ) == (KeyEventKind::NativeRepeat, m.insert(id, spec_new_repeat(event, target, now)).remove(id)),
{
    assert(spec_is_key_press(spec_key_press_code())) by (bit_vector);
}

} // verus!
