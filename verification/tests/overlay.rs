use clear_view::appbar::{register, reposition, ABN_POSCHANGED};
use clear_view::geometry::Rect;
use clear_view::gfx::TextureUpload;
use clear_view::outputs::OutputInfo;
use clear_view::overlay::{
    classify_message, cursor_settled, primary_output, Action, Applied, Follow, FrameRef, Uniforms,
    WindowData, WindowEvent, WM_DESTROY, WM_NCHITTEST, WM_TIMER,
};
use clear_view::settings::Setting;
use clear_view::state::{AppState, DisplayMode, Edge};

const CALLBACK: u32 = 0xC123;

fn outputs() -> Vec<OutputInfo> {
    vec![
        OutputInfo { idx: 0, left: 0, top: 0, width: 1920, height: 1080 },
        OutputInfo { idx: 2, left: 1920, top: -100, width: 1280, height: 1024 },
    ]
}

fn data() -> WindowData {
    WindowData::new(&outputs(), CALLBACK)
}

fn want(enabled: bool, mode: DisplayMode, panel_size: u32) -> AppState {
    AppState { enabled, display_mode: mode, panel_size, ..AppState::default() }
}

fn full() -> Rect {
    Rect { left: 0, top: 0, right: 1920, bottom: 1080 }
}

const TOP: DisplayMode = DisplayMode::Docked(Edge::Top);
const LEFT: DisplayMode = DisplayMode::Docked(Edge::Left);
const CLAIM: Rect = Rect { left: 0, top: 40, right: 1920, bottom: 340 };

/// Performs the transition and returns its actions.
fn step(d: &mut WindowData, w: AppState) -> Vec<Action> {
    assert!(d.can_place(&w));
    let actions = d.begin_transition(&w);
    let claims = actions.contains(&Action::MoveToClaim);
    d.finish_transition(&w, if claims { Some(CLAIM) } else { None });
    actions
}

#[test]
fn messages_are_told_apart() {
    assert_eq!(classify_message(CALLBACK, CALLBACK), WindowEvent::AppBar);
    assert_eq!(classify_message(WM_DESTROY, CALLBACK), WindowEvent::Destroy);
    assert_eq!(classify_message(WM_NCHITTEST, CALLBACK), WindowEvent::HitTest);
    assert_eq!(classify_message(WM_TIMER, CALLBACK), WindowEvent::Timer);
    assert_eq!(classify_message(0, 0), WindowEvent::Other);
    assert_eq!(classify_message(3, CALLBACK), WindowEvent::Other);
    assert_eq!(classify_message(WM_TIMER, WM_TIMER), WindowEvent::AppBar);
}

#[test]
fn the_cursor_counter_has_a_threshold() {
    assert!(cursor_settled(true, -1));
    assert!(!cursor_settled(true, 0));
    assert!(cursor_settled(false, 0));
    assert!(!cursor_settled(false, -1));
}

#[test]
fn the_overlay_starts_hidden_on_the_first_monitor() {
    let d = data();
    assert_eq!(d.active, outputs()[0]);
    assert_eq!(
        d.cur,
        Applied {
            enabled: false,
            mode: DisplayMode::Fullscreen,
            panel_size: 300,
            appbar_active: false,
            cursor_hidden: false,
        }
    );
    assert_eq!((d.wgpu.tex_w, d.wgpu.surface_h), (1920, 1080));
    assert_eq!(d.last_frame, None);
    assert_eq!(primary_output(&vec![]).width, 1920);
    assert_eq!(WindowData::new(&vec![], CALLBACK).active.height, 1080);
}

#[test]
fn enabling_fullscreen() {
    let mut d = data();
    let a = step(&mut d, want(true, DisplayMode::Fullscreen, 300));
    assert_eq!(a, vec![Action::MoveTo(full()), Action::ShowWindow, Action::HideCursor]);
    assert!(d.cur.cursor_hidden && !d.cur.appbar_active && d.cur.enabled);
    assert_eq!((d.wgpu.surface_w, d.wgpu.surface_h), (1920, 1080));
}

#[test]
fn enabling_docked() {
    let mut d = data();
    let a = step(&mut d, want(true, TOP, 300));
    let call = register(Edge::Top, 300, 1920, 1080, CALLBACK);
    assert_eq!(a, vec![Action::Register(call), Action::MoveToClaim, Action::ShowWindow]);
    assert!(!d.cur.cursor_hidden && d.cur.appbar_active);
    assert_eq!((d.wgpu.surface_w, d.wgpu.surface_h), (1920, 300));
}

#[test]
fn switching_modes_while_enabled() {
    let mut d = data();
    step(&mut d, want(true, DisplayMode::Fullscreen, 300));
    let a = step(&mut d, want(true, TOP, 250));
    let top = register(Edge::Top, 250, 1920, 1080, CALLBACK);
    assert_eq!(a, vec![Action::Register(top), Action::MoveToClaim, Action::ShowCursor]);
    let a = step(&mut d, want(true, LEFT, 250));
    let left = register(Edge::Left, 250, 1920, 1080, CALLBACK);
    assert_eq!(a, vec![Action::Unregister, Action::Register(left), Action::MoveToClaim]);
    let a = step(&mut d, want(true, DisplayMode::Fullscreen, 250));
    assert_eq!(a, vec![Action::Unregister, Action::MoveTo(full()), Action::HideCursor]);
}

#[test]
fn changing_the_panel_size() {
    let mut d = data();
    step(&mut d, want(true, TOP, 300));
    let a = step(&mut d, want(true, TOP, 200));
    let call = reposition(Edge::Top, 200, 1920, 1080);
    assert_eq!(a, vec![Action::Reposition(call), Action::MoveToClaim]);
    assert_eq!(d.cur.panel_size, 200);
    assert!(d.cur.appbar_active);
}

#[test]
fn panel_size_is_ignored_in_fullscreen() {
    let mut d = data();
    step(&mut d, want(true, DisplayMode::Fullscreen, 300));
    let before = d.wgpu;
    assert_eq!(step(&mut d, want(true, DisplayMode::Fullscreen, 200)), vec![]);
    assert_eq!(d.cur.panel_size, 200);
    assert_eq!(d.wgpu, before);
}

#[test]
fn disabling_hides_and_releases_without_moving() {
    let mut d = data();
    step(&mut d, want(true, TOP, 300));
    let surface = d.wgpu;
    assert_eq!(step(&mut d, want(false, TOP, 300)), vec![Action::Unregister, Action::HideWindow]);
    assert_eq!(d.wgpu, surface);
    assert!(!d.cur.appbar_active);
    step(&mut d, want(true, DisplayMode::Fullscreen, 300));
    let a = step(&mut d, want(false, DisplayMode::Fullscreen, 300));
    assert_eq!(a, vec![Action::HideWindow, Action::ShowCursor]);
    assert!(!d.cur.cursor_hidden);
}

#[test]
fn nothing_happens_while_disabled() {
    let mut d = data();
    assert_eq!(step(&mut d, want(false, TOP, 700)), vec![]);
    assert_eq!(d, data());
}

#[test]
fn a_second_tick_does_nothing() {
    let mut d = data();
    let modes = [DisplayMode::Fullscreen, TOP, LEFT];
    for mode in modes {
        let w = want(true, mode, 300);
        step(&mut d, w);
        assert!(!d.wants_transition(&w));
        let before = d;
        assert_eq!(step(&mut d, w), vec![]);
        assert_eq!(d, before);
    }
}

#[test]
fn claims_and_releases_alternate() {
    let mut d = data();
    let mut registered = false;
    let mut hidden = false;
    let modes = [DisplayMode::Fullscreen, TOP, LEFT, TOP];
    for round in 0..40u32 {
        let w = want(round % 3 != 0, modes[(round % 4) as usize], 100 + round % 5);
        for a in step(&mut d, w) {
            match a {
                Action::Register(_) => {
                    assert!(!registered);
                    registered = true;
                }
                Action::Unregister => {
                    assert!(registered);
                    registered = false;
                }
                Action::Reposition(_) | Action::MoveToClaim => assert!(registered),
                Action::HideCursor => {
                    assert!(!hidden);
                    hidden = true;
                }
                Action::ShowCursor => {
                    assert!(hidden);
                    hidden = false;
                }
                _ => {}
            }
        }
        assert_eq!(registered, w.enabled && w.display_mode != DisplayMode::Fullscreen);
        assert_eq!(hidden, w.enabled && w.display_mode == DisplayMode::Fullscreen);
    }
    assert_eq!(d.close(), if registered { vec![Action::Unregister] } else { vec![] });
}

#[test]
fn closing_releases_the_edge() {
    let mut d = data();
    assert_eq!(d.close(), vec![]);
    step(&mut d, want(true, TOP, 300));
    assert_eq!(d.close(), vec![Action::Unregister]);
}

#[test]
fn a_panel_that_cannot_be_placed_is_recognised() {
    let d = data();
    assert!(!d.can_place(&want(true, DisplayMode::Docked(Edge::Bottom), 0x8000_0000)));
    assert!(d.can_place(&want(false, DisplayMode::Docked(Edge::Bottom), 0x8000_0000)));
    assert!(d.can_place(&want(true, DisplayMode::Fullscreen, 0x8000_0000)));
}

#[test]
fn the_shell_is_answered_while_docked() {
    let mut d = data();
    assert_eq!(d.handle_appbar_callback(ABN_POSCHANGED), None);
    step(&mut d, want(true, TOP, 300));
    assert!(d.can_redock(ABN_POSCHANGED));
    assert_eq!(
        d.handle_appbar_callback(ABN_POSCHANGED),
        Some(reposition(Edge::Top, 300, 1920, 1080))
    );
    assert_eq!(d.handle_appbar_callback(2), None);
    let mut moved = d;
    moved.moved_by_shell(Rect { left: 0, top: 0, right: 1920, bottom: 10 });
    assert_eq!((moved.wgpu.surface_w, moved.wgpu.surface_h), (1920, 16));
    assert_eq!(moved.cur, d.cur);
}

#[test]
fn the_window_follows_the_cursor() {
    let mut d = data();
    let outs = outputs();
    d.last_frame = Some(5);
    assert_eq!(d.follow_cursor(&outs, DisplayMode::Fullscreen, 100, 100), None);
    assert_eq!(d.follow_cursor(&outs, DisplayMode::Fullscreen, -5, 100), None);
    assert_eq!(d.last_frame, Some(5));
    let f = d.follow_cursor(&outs, DisplayMode::Fullscreen, 2000, -50);
    assert_eq!(
        f,
        Some(Follow {
            output: 2,
            move_to: Some(Rect { left: 1920, top: -100, right: 3200, bottom: 924 }),
        })
    );
    assert_eq!(d.active, outs[1]);
    assert_eq!(d.last_frame, None);
    assert_eq!((d.wgpu.tex_w, d.wgpu.tex_h), (1280, 1024));
    assert_eq!((d.wgpu.surface_w, d.wgpu.surface_h), (1280, 1024));
}

#[test]
fn a_docked_panel_stays_where_it_is() {
    let mut d = data();
    let f = d.follow_cursor(&outputs(), TOP, 2000, 0);
    assert_eq!(f, Some(Follow { output: 2, move_to: None }));
    assert_eq!((d.wgpu.tex_w, d.wgpu.tex_h), (1280, 1024));
    assert_eq!((d.wgpu.surface_w, d.wgpu.surface_h), (1920, 1080));
}

#[test]
fn frames_are_uploaded_once() {
    let mut d = data();
    let frame = FrameRef { id: 7, width: 1920, height: 1080 };
    let upload = TextureUpload { bytes_per_row: 7680, width: 1920, height: 1080 };
    assert_eq!(d.offer_frame(None), None);
    assert_eq!(d.offer_frame(Some(frame)), Some(upload));
    assert_eq!(d.offer_frame(Some(frame)), None);
    assert_eq!(d.offer_frame(Some(FrameRef { id: 8, ..frame })), Some(upload));
    assert_eq!(d.offer_frame(Some(FrameRef { id: 9, width: 1, height: 1 })), None);
    assert_eq!(d.last_frame, Some(9));
}

#[test]
fn a_monitor_change_uploads_again() {
    let mut d = data();
    let frame = FrameRef { id: 7, width: 1280, height: 1024 };
    assert_eq!(d.offer_frame(Some(frame)), None);
    d.follow_cursor(&outputs(), DisplayMode::Fullscreen, 2000, 0);
    assert!(d.offer_frame(Some(frame)).is_some());
}

#[test]
fn uniforms_are_written_when_changed() {
    let mut d = data();
    let now = Uniforms { color_mode: 0, interp_mode: 0, cursor_x: 3, cursor_y: 4 };
    assert!(d.note_uniforms(false, now));
    assert!(!d.note_uniforms(false, now));
    assert!(d.note_uniforms(true, now));
    assert!(d.note_uniforms(false, Uniforms { cursor_y: 5, ..now }));
    assert!(d.note_uniforms(false, Uniforms { color_mode: 2, ..now }));
}

#[test]
fn a_lost_surface_gets_the_granted_size_again() {
    let mut d = data();
    let granted = Rect { left: 0, top: 0, right: 250, bottom: 1040 };
    let w = want(true, LEFT, 300);
    assert_eq!(d.finish_transition(&w, Some(granted)), Some(granted));
    let before = d;
    d.recover_surface();
    assert_eq!(d, before);
    assert_eq!((d.wgpu.surface_w, d.wgpu.surface_h), (250, 1040));
    assert_eq!(d.current_dims(&w), (250, 1040));
    d.moved_by_shell(CLAIM);
    d.recover_surface();
    assert_eq!((d.wgpu.surface_w, d.wgpu.surface_h), (1920, 300));
    assert_eq!(d.current_dims(&w), (1920, 300));
}

#[test]
fn a_strip_below_the_minimum_keeps_its_own_size() {
    let mut d = data();
    let granted = Rect { left: 0, top: 0, right: 1920, bottom: 10 };
    let w = want(true, TOP, 300);
    d.finish_transition(&w, Some(granted));
    assert_eq!(d.granted, Some(granted));
    assert_eq!(d.current_dims(&w), (1920, 10));
    assert_eq!((d.wgpu.surface_w, d.wgpu.surface_h), (1920, 16));
    d.recover_surface();
    assert_eq!((d.wgpu.surface_w, d.wgpu.surface_h), (1920, 16));
    d.moved_by_shell(Rect { left: 5, top: 9, right: 5, bottom: 4 });
    assert_eq!(d.current_dims(&w), (0, 0));
}

#[test]
fn a_grant_lasts_as_long_as_the_claim() {
    let mut d = data();
    step(&mut d, want(true, TOP, 300));
    assert_eq!(d.granted, Some(CLAIM));
    d.follow_cursor(&outputs(), TOP, 2000, 0);
    assert_eq!(d.current_dims(&want(true, TOP, 300)), (1920, 300));
    step(&mut d, want(true, DisplayMode::Fullscreen, 300));
    assert_eq!(d.granted, None);
    step(&mut d, want(true, LEFT, 300));
    assert_eq!(d.granted, Some(CLAIM));
    step(&mut d, want(false, LEFT, 300));
    assert_eq!(d.granted, None);
    assert_eq!(d.current_dims(&want(true, LEFT, 70)), (70, 1024));
}

#[test]
fn a_full_window_is_as_large_as_its_monitor() {
    let mut d = data();
    step(&mut d, want(true, DisplayMode::Fullscreen, 300));
    d.follow_cursor(&outputs(), DisplayMode::Fullscreen, 2000, 0);
    assert_eq!(d.current_dims(&want(true, DisplayMode::Fullscreen, 300)), (1280, 1024));
    d.recover_surface();
    assert_eq!((d.wgpu.surface_w, d.wgpu.surface_h), (1280, 1024));
}

#[test]
fn a_tiny_monitor_gets_a_surface_of_the_minimum() {
    let tiny = vec![OutputInfo { idx: 0, left: 0, top: 0, width: 4, height: 20 }];
    let d = WindowData::new(&tiny, CALLBACK);
    assert_eq!((d.wgpu.surface_w, d.wgpu.surface_h), (16, 20));
    assert_eq!((d.wgpu.tex_w, d.wgpu.tex_h), (4, 20));
}

#[test]
fn only_moves_are_reported() {
    let mut d = data();
    let on = want(true, DisplayMode::Fullscreen, 300);
    assert_eq!(d.finish_transition(&on, None), Some(full()));
    assert_eq!(d.finish_transition(&on, None), None);
    assert_eq!(d.finish_transition(&want(false, TOP, 300), None), None);
}

#[test]
fn only_answered_notifications_need_a_fitting_panel() {
    let mut d = data();
    step(&mut d, want(true, TOP, 300));
    d.cur.mode = DisplayMode::Docked(Edge::Bottom);
    d.cur.panel_size = 0x8000_0000;
    assert!(!d.can_redock(ABN_POSCHANGED));
    assert!(d.can_redock(2));
    assert_eq!(d.handle_appbar_callback(2), None);
    d.cur.appbar_active = false;
    assert!(d.can_redock(ABN_POSCHANGED));
}

#[test]
fn settings_lead_to_transitions() {
    let mut s = AppState::default();
    let mut d = data();
    s.apply(Setting::ToggleMagnifier);
    assert_eq!(step(&mut d, s).len(), 3);
    s.apply(Setting::Mode(TOP));
    assert_eq!(step(&mut d, s).len(), 3);
    s.apply(Setting::PanelSize(60));
    assert_eq!(step(&mut d, s).len(), 2);
}

#[test]
fn the_overlay_stays_sound_over_a_long_run() {
    let monitors = outputs();
    let mut d = data();
    let modes = [DisplayMode::Fullscreen, TOP, LEFT];
    for i in 0u32..60 {
        let mode = modes[(i % 3) as usize];
        let w = want(i % 4 != 0, mode, 100 + i);
        step(&mut d, w);
        let x: i32 = if i % 2 == 0 { 2000 } else { 10 };
        if w.enabled {
            d.follow_cursor(&monitors, mode, x, 20);
            assert!(d.active.contains(x, 20));
        }
        d.offer_frame(Some(FrameRef { id: i as u64, width: 1920, height: 1080 }));
        if i % 7 == 0 {
            d.recover_surface();
        }
        let mut granted = CLAIM;
        if i % 5 == 0 && d.cur.appbar_active {
            granted = Rect { left: 0, top: 0, right: 700, bottom: 5 };
            d.moved_by_shell(granted);
        }
        assert!(monitors.contains(&d.active));
        assert_eq!((d.wgpu.tex_w, d.wgpu.tex_h), (d.active.width, d.active.height));
        assert!(d.wgpu.surface_w >= 16 && d.wgpu.surface_h >= 16);
        assert_eq!(d.cur.appbar_active, d.cur.enabled && d.cur.mode != DisplayMode::Fullscreen);
        assert_eq!(d.cur.cursor_hidden, d.cur.enabled && d.cur.mode == DisplayMode::Fullscreen);
        if d.cur.appbar_active {
            let height = (granted.bottom - granted.top).max(16) as u32;
            assert_eq!((d.wgpu.surface_w, d.wgpu.surface_h), (granted.right as u32, height));
        } else if d.cur.enabled {
            assert_eq!((d.wgpu.surface_w, d.wgpu.surface_h), (d.active.width, d.active.height));
        }
    }
}
