//! The library's numbers are those of the system's headers.

use clear_view::{appbar, capture, hotkey, overlay, tts};
use windows::Win32::Graphics::Dxgi;
use windows::Win32::Media::Speech;
use windows::Win32::UI::Shell;
use windows::Win32::UI::WindowsAndMessaging as messages;

#[test]
fn appbar_codes_match_the_shell() {
    assert_eq!(appbar::ABM_NEW, Shell::ABM_NEW);
    assert_eq!(appbar::ABM_REMOVE, Shell::ABM_REMOVE);
    assert_eq!(appbar::ABM_QUERYPOS, Shell::ABM_QUERYPOS);
    assert_eq!(appbar::ABM_SETPOS, Shell::ABM_SETPOS);
    assert_eq!(appbar::ABM_WINDOWPOSCHANGED, Shell::ABM_WINDOWPOSCHANGED);
    assert_eq!(appbar::ABE_LEFT, Shell::ABE_LEFT);
    assert_eq!(appbar::ABE_TOP, Shell::ABE_TOP);
    assert_eq!(appbar::ABE_RIGHT, Shell::ABE_RIGHT);
    assert_eq!(appbar::ABE_BOTTOM, Shell::ABE_BOTTOM);
    assert_eq!(appbar::ABN_POSCHANGED, Shell::ABN_POSCHANGED as usize);
}

#[test]
fn window_messages_match_the_system() {
    assert_eq!(overlay::WM_DESTROY, messages::WM_DESTROY);
    assert_eq!(overlay::WM_NCHITTEST, messages::WM_NCHITTEST);
    assert_eq!(overlay::WM_TIMER, messages::WM_TIMER);
    assert_eq!(hotkey::WM_HOTKEY, messages::WM_HOTKEY);
}

#[test]
fn duplication_errors_match_the_system() {
    assert_eq!(capture::DXGI_ERROR_WAIT_TIMEOUT, Dxgi::DXGI_ERROR_WAIT_TIMEOUT.0);
    assert_eq!(capture::DXGI_ERROR_ACCESS_LOST, Dxgi::DXGI_ERROR_ACCESS_LOST.0);
    assert_eq!(capture::DXGI_ERROR_DEVICE_REMOVED, Dxgi::DXGI_ERROR_DEVICE_REMOVED.0);
}

#[test]
fn speech_flags_match_the_system() {
    assert_eq!(tts::SPF_ASYNC, Speech::SPF_ASYNC.0 as u32);
    assert_eq!(tts::SPF_PURGEBEFORESPEAK, Speech::SPF_PURGEBEFORESPEAK.0 as u32);
    assert_eq!(tts::speech_flags(false), Speech::SPF_ASYNC.0 as u32);
    assert_eq!(
        tts::speech_flags(true),
        (Speech::SPF_ASYNC.0 | Speech::SPF_PURGEBEFORESPEAK.0) as u32
    );
}
