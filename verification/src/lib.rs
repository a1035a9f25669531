//! Decision logic of the kime input-method frontends and daemon, with its
//! behaviour stated in contracts and proved by Verus.
//!
//! - `wayland_repeat`: key-repeat parameters announced by a Wayland compositor
//!   and the press state of the Wayland frontend.
//! - `xim_repeat`: the key-repeat fallback of the XIM frontend.
//! - `xim_input`: modifiers of X11 key events, and what the XIM frontend does
//!   with the engine's answers and with the preedit.
//! - `font`: the font of the XIM preedit window.
//! - `hotkeys`: the hotkey tables of the engine configuration.
//! - `profile`: runtime hotkey profiles and the signals that switch them.
//! - `daemon`: decisions of the kime daemon.
mod ahash_map;
mod std_time;
mod text;
mod x11_consts;

pub mod daemon;
pub mod font;
pub mod hotkeys;
pub mod profile;
pub mod wayland_repeat;
pub mod xim_input;
pub mod xim_repeat;
