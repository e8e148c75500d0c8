//! What each [`Action`](crate::binding::Action) comes to on each platform: the
//! events to synthesise, as plain values, with nothing sent anywhere.
//!
//! [`linux`] speaks of `uinput` events and D-Bus calls, [`macos`] of Quartz
//! events, [`windows`] of `SendInput` records.
use vstd::prelude::*;

pub mod keys;
pub mod linux;
pub mod macos;
pub mod windows;

verus! {

/// Stamped into the source user data of every mouse event that is synthesised on
/// macOS, so that an event tap of the same program can tell its own injections
/// from real input. Real events carry `0` there.
pub const SYNTHETIC_EVENT_USER_DATA: i64 = 0x4F4C_4749;

/// Why an action comes to no event.
#[derive(Debug, Clone, Copy, PartialEq, Eq)]
pub enum Skipped {
    /// The action is to do nothing: the input is captured and suppressed.
    Suppressed,
    /// The action is one of the device, handled where the device is driven.
    DeviceSide,
    /// The platform has nothing that corresponds to the action.
    NoEquivalent,
    /// A custom shortcut without a key.
    NoKeyCode,
    /// A custom shortcut whose key code the platform has no key for.
    Unmapped(u16),
}

/// One key where `mask` has one of the bits `bits`, else none.
pub open spec fn held_where(mask: u8, bits: u8, key: u16) -> Seq<u16> {
    if mask & bits != 0 {
        seq![key]
    } else {
        Seq::empty()
    }
}

} // verus!
