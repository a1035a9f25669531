use std::time::Instant;
use vstd::prelude::*;

verus! {

/// Key-repeat parameters of the Wayland frontend.
#[derive(Clone, Copy, Debug, PartialEq, Eq, Structural)]
pub struct RepeatInfo {
    /// The rate of repeating keys in characters per second
    pub rate: i32,
    /// Delay in milliseconds since key down until repeating starts
    pub delay: i32,
}

/// Repeat rate, in characters per second, used when the compositor gives none
/// that can be used.
pub const DEFAULT_REPEAT_RATE: i32 = 20;

/// Repeat delay, in milliseconds, used when the compositor gives none that can
/// be used.
pub const DEFAULT_REPEAT_DELAY: i32 = 200;

/// The default repeat parameters as a value.
pub open spec fn spec_default_repeat_info() -> RepeatInfo {
    RepeatInfo { rate: DEFAULT_REPEAT_RATE, delay: DEFAULT_REPEAT_DELAY }
}

/// The repeat parameters used when the compositor gives none that can be used.
pub fn default_repeat_info() -> (res: RepeatInfo)
    ensures
        res == spec_default_repeat_info(),
        res.rate == 20,
        res.delay == 200,
{
    RepeatInfo { rate: DEFAULT_REPEAT_RATE, delay: DEFAULT_REPEAT_DELAY }
}

/// What `RepeatInfo::from_protocol` gives for the compositor's `rate` and
/// `delay`: a negative delay falls back to the default delay; a positive rate
/// is kept; a zero rate means "no repeat" unless the caller asks for the
/// default rate instead; a negative rate never repeats.
pub open spec fn spec_from_protocol(rate: i32, delay: i32, fallback_on_zero: bool) -> Option<RepeatInfo> {
    let delay = if delay >= 0 { delay } else { DEFAULT_REPEAT_DELAY };
    if rate >= 1 {
        Some(RepeatInfo { rate, delay })
    } else if rate == 0 && fallback_on_zero {
        Some(RepeatInfo { rate: DEFAULT_REPEAT_RATE, delay })
    } else {
        None
    }
}

impl RepeatInfo {
    /// Builds the repeat parameters from the values of a `wl_keyboard.repeat_info`
    /// event.
    pub fn from_protocol(rate: i32, delay: i32, fallback_on_zero: bool) -> (res: Option<Self>)
        ensures
            res == spec_from_protocol(rate, delay, fallback_on_zero),
            // A repeat that is on never has a negative delay nor a non-positive rate.
            res matches Some(info) ==> info.rate > 0 && info.delay >= 0,
            // A positive rate from the compositor is kept, whatever the fallback flag.
            rate >= 1 ==> res == Some(RepeatInfo { rate, delay: if delay >= 0 { delay } else { 200 } }),
            // The default rate stands in for a zero rate only when asked for.
            rate == 0 && fallback_on_zero ==> res == Some(
                RepeatInfo { rate: 20, delay: if delay >= 0 { delay } else { 200 } },
            ),
            // A negative rate, or a zero rate without the fallback, turns repeat off.
            rate < 0 || (rate == 0 && !fallback_on_zero) ==> res is None,
    {
        let delay = if delay >= 0 { delay } else { DEFAULT_REPEAT_DELAY };

        if rate >= 1 {
            Some(RepeatInfo { rate, delay })
        } else if rate == 0 && fallback_on_zero {
            Some(RepeatInfo { rate: DEFAULT_REPEAT_RATE, delay })
        } else {
            None
        }
    }
}

/// A positive rate that the compositor announces is the rate in force,
/// whatever the fallback flag; a non-negative delay is kept as announced.
pub proof fn lemma_positive_rate_is_kept(rate: i32, delay: i32, fallback_on_zero: bool)
    requires
        rate >= 1,
    ensures
        spec_from_protocol(rate, delay, fallback_on_zero) matches Some(info) && info.rate == rate
            && (delay >= 0 ==> info.delay == delay) && (delay < 0 ==> info.delay == 200),
{
}

/// The rate in force differs from the announced one only where a zero rate
/// was announced with the fallback asked for, and then it is 20 per second.
pub proof fn lemma_default_rate_only_for_zero(rate: i32, delay: i32, fallback_on_zero: bool)
    ensures
        spec_from_protocol(rate, delay, fallback_on_zero) matches Some(info) ==> (info.rate != rate ==> rate == 0
            && fallback_on_zero && info.rate == 20),
        spec_from_protocol(rate, delay, fallback_on_zero) is None <==> (rate < 0 || (rate == 0 && !fallback_on_zero)),
{
}

/// Whether the Wayland frontend sees a key held down.
#[derive(Clone, Copy)]
pub enum PressState {
    /// User is pressing no key, or user lifted last pressed key. But kime-wayland is ready for key
    /// long-press.
    NotPressing,
    /// User is pressing a key.
    Pressing {
        /// User started pressing a key at this moment.
        pressed_at: Instant,
        /// `false` if user just started pressing a key. Soon, key repeating will be begin. `true`
        /// if user have pressed a key for a long enough time, key repeating is happening right
        /// now.
        is_repeating: bool,
        /// Key code used by wayland
        key: u32,
        /// Timestamp with millisecond granularity used by wayland. Their base is undefined, so
        /// they can't be compared against system time. They can be compared with each other
        /// though.
        wayland_time: u32,
    },
}

impl PressState {
    /// Whether `query_key` is the key being held down.
    pub fn is_pressing(&self, query_key: u32) -> (res: bool)
        ensures
            res <==> (*self matches PressState::Pressing { key, .. } && key == query_key),
    {
        if let PressState::Pressing { key, .. } = self {
            *key == query_key
        } else {
            false
        }
    }
}

} // verus!
