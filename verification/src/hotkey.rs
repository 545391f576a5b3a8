//! The global hotkey that switches the magnifier.

use vstd::prelude::*;

use crate::settings::Setting;
use crate::state::AppState;

verus! {

/// The number under which the hotkey is registered.
pub const HOTKEY_ID: i32 = 1;

/// The message by which the system reports a hotkey.
pub const WM_HOTKEY: u32 = 786;

/// What a switch of the magnifier does to the overlay window.
#[derive(Debug, Clone, Copy, PartialEq, Eq, Structural)]
pub enum OverlayChange {
    Show,
    Hide,
}

/// Whether a message reports the hotkey. Only the low half of `wparam` counts.
pub open spec fn reports_hotkey(message: u32, wparam: usize) -> bool {
    message == WM_HOTKEY && wparam as int % 0x1_0000_0000 == HOTKEY_ID
}

/// Whether a message reports the hotkey.
pub fn is_hotkey(message: u32, wparam: usize) -> (r: bool)
    ensures
        r == reports_hotkey(message, wparam),
{
    let wide: u64 = wparam as u64;
    let low: i32 = wide as u32 as i32;
    proof {
        assert((wide as u32) as i32 == 1i32 <==> wide % 0x1_0000_0000 == 1) by (bit_vector);
    }
    message == WM_HOTKEY && low == HOTKEY_ID
}

/// The settings after a message.
pub open spec fn after_message(state: AppState, message: u32, wparam: usize) -> AppState {
    if reports_hotkey(message, wparam) {
        state.with(Setting::ToggleMagnifier)
    } else {
        state
    }
}

/// Takes a message: the hotkey switches the magnifier, any other message does
/// nothing. Tells what happens to the overlay window.
pub fn handle_message(state: &mut AppState, message: u32, wparam: usize) -> (r: Option<
    OverlayChange,
>)
    ensures
        *final(state) == after_message(*old(state), message, wparam),
        r == if !reports_hotkey(message, wparam) {
            None
        } else if old(state).enabled {
            Some(OverlayChange::Hide)
        } else {
            Some(OverlayChange::Show)
        },
{
    if !is_hotkey(message, wparam) {
        return None;
    }
    state.apply(Setting::ToggleMagnifier);
    if state.enabled {
        Some(OverlayChange::Show)
    } else {
        Some(OverlayChange::Hide)
    }
}

/// The settings after a series of messages.
pub open spec fn after_messages(state: AppState, messages: Seq<(u32, usize)>) -> AppState
    decreases messages.len(),
{
    if messages.len() == 0 {
        state
    } else {
        after_message(
            after_messages(state, messages.drop_last()),
            messages.last().0,
            messages.last().1,
        )
    }
}

/// How many of the messages report the hotkey.
pub open spec fn presses(messages: Seq<(u32, usize)>) -> nat
    decreases messages.len(),
{
    if messages.len() == 0 {
        0
    } else {
        presses(messages.drop_last()) + if reports_hotkey(messages.last().0, messages.last().1) {
            1nat
        } else {
            0nat
        }
    }
}

/// After any messages the magnifier is switched exactly where the hotkey was
/// pressed an odd number of times, and nothing else has changed.
pub proof fn law_presses_toggle(state: AppState, messages: Seq<(u32, usize)>)
    ensures
        after_messages(state, messages) == (AppState {
            enabled: state.enabled != (presses(messages) % 2 == 1),
            ..state
        }),
    decreases messages.len(),
{
    if messages.len() > 0 {
        law_presses_toggle(state, messages.drop_last());
    }
}

/// A message switches the magnifier exactly where it is message 786 and the low
/// half of its parameter is 1; nothing else changes, and any other message
/// changes nothing at all.
pub proof fn law_hotkey_switches(state: AppState, message: u32, wparam: usize)
    ensures
        ({
            let after = after_message(state, message, wparam);
            let pressed = message == 786 && wparam as int % 0x1_0000_0000 == 1;
            &&& reports_hotkey(message, wparam) <==> pressed
            &&& pressed ==> after.enabled != state.enabled
            &&& !pressed ==> after.enabled == state.enabled
            &&& (AppState { enabled: state.enabled, ..after }) == state
        }),
{
}

} // verus!
