use clear_view::settings::Setting;
use clear_view::shared::new_shared;
use clear_view::state::AppState;
use std::sync::Arc;

#[test]
fn a_new_lock_guards_the_initial_settings() {
    let shared = new_shared();
    assert_eq!(*shared.read(), AppState::default());
}

#[test]
fn a_change_under_the_lock_is_seen_by_others() {
    let shared = new_shared();
    let other = Arc::clone(&shared);
    shared.write().apply(Setting::ToggleMagnifier);
    assert!(other.read().enabled);
}
