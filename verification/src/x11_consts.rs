use vstd::prelude::*;
use x11rb::protocol::xproto::{KeyButMask, KEY_PRESS_EVENT};

verus! {

/// `x11rb::protocol::xproto::KEY_PRESS_EVENT`, the `response_type` of a core
/// KeyPress event: 2.
#[verifier::external_body]
pub(crate) fn key_press_event() -> (code: u8)
    ensures
        code == 2,
{
    KEY_PRESS_EVENT
}

/// `KeyButMask::SHIFT` of x11rb as a `u16`: bit 0.
#[verifier::external_body]
pub(crate) fn shift_mask() -> (mask: u16)
    ensures
        mask == 0x1,
{
    u16::from(KeyButMask::SHIFT)
}

/// `KeyButMask::CONTROL` of x11rb as a `u16`: bit 2.
#[verifier::external_body]
pub(crate) fn control_mask() -> (mask: u16)
    ensures
        mask == 0x4,
{
    u16::from(KeyButMask::CONTROL)
}

/// `KeyButMask::MOD1` of x11rb as a `u16`: bit 3.
#[verifier::external_body]
pub(crate) fn mod1_mask() -> (mask: u16)
    ensures
        mask == 0x8,
{
    u16::from(KeyButMask::MOD1)
}

/// `KeyButMask::MOD2` of x11rb as a `u16`: bit 4.
#[verifier::external_body]
pub(crate) fn mod2_mask() -> (mask: u16)
    ensures
        mask == 0x10,
{
    u16::from(KeyButMask::MOD2)
}

/// `KeyButMask::MOD4` of x11rb as a `u16`: bit 6.
#[verifier::external_body]
pub(crate) fn mod4_mask() -> (mask: u16)
    ensures
        mask == 0x40,
{
    u16::from(KeyButMask::MOD4)
}

} // verus!
