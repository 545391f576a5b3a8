use clear_view::hotkey::{handle_message, is_hotkey, OverlayChange, HOTKEY_ID, WM_HOTKEY};
use clear_view::state::AppState;

#[test]
fn only_the_hotkey_counts() {
    assert!(is_hotkey(WM_HOTKEY, HOTKEY_ID as usize));
    assert!(!is_hotkey(WM_HOTKEY, 2));
    assert!(!is_hotkey(WM_HOTKEY, 0));
    assert!(!is_hotkey(WM_HOTKEY + 1, 1));
    assert_eq!(is_hotkey(WM_HOTKEY, usize::MAX), false);
}

#[test]
fn only_the_low_half_counts() {
    let wide = (1u64 << 32) + 1;
    assert!(is_hotkey(WM_HOTKEY, wide as usize));
}

#[test]
fn presses_switch_the_magnifier() {
    let mut s = AppState::default();
    assert_eq!(handle_message(&mut s, WM_HOTKEY, 1), Some(OverlayChange::Show));
    assert!(s.enabled);
    assert_eq!(handle_message(&mut s, 5, 1), None);
    assert!(s.enabled);
    assert_eq!(handle_message(&mut s, WM_HOTKEY, 1), Some(OverlayChange::Hide));
    assert_eq!(s, AppState::default());
}
