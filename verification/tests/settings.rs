use clear_view::settings::{switch_label, Setting};
use clear_view::state::{AppState, ColorFilter, DisplayMode, Edge, Interpolation};

fn after(uses: &[Setting]) -> AppState {
    let mut s = AppState::default();
    for u in uses {
        s.apply(*u);
    }
    s
}

#[test]
fn the_program_starts_with_these_settings() {
    assert_eq!(
        AppState::default(),
        AppState {
            enabled: false,
            zoom: 20,
            smooth_speed: 15,
            interpolation: Interpolation::Bilinear,
            display_mode: DisplayMode::Fullscreen,
            panel_size: 300,
            color_filter: ColorFilter::Unfiltered,
            tts_enabled: false,
            tts_hover_enabled: true,
            tts_volume: 80,
            tts_rate: 0,
        }
    );
    assert_eq!(DisplayMode::default(), DisplayMode::Fullscreen);
    assert_eq!(ColorFilter::default(), ColorFilter::Unfiltered);
}

#[test]
fn shader_codes_are_distinct() {
    assert_eq!(ColorFilter::Unfiltered.as_u32(), 0);
    assert_eq!(ColorFilter::Inverted.as_u32(), 1);
    assert_eq!(ColorFilter::Greyscale.as_u32(), 2);
    assert_eq!(ColorFilter::GreyscaleInverted.as_u32(), 3);
    assert_eq!(Interpolation::Bilinear.as_u32(), 0);
    assert_eq!(Interpolation::Bicubic.as_u32(), 1);
    assert_eq!(Interpolation::Lanczos.as_u32(), 2);
}

#[test]
fn methods_have_names() {
    assert_eq!(Interpolation::Bilinear.to_string(), "Bilinear");
    assert_eq!(Interpolation::Bicubic.to_string(), "Bicubic");
    assert_eq!(Interpolation::Lanczos.to_string(), "Lanczos");
}

#[test]
fn switches_toggle() {
    assert!(after(&[Setting::ToggleMagnifier]).enabled);
    assert_eq!(after(&[Setting::ToggleMagnifier; 2]), AppState::default());
    assert!(after(&[Setting::ToggleTts]).tts_enabled);
    assert_eq!(after(&[Setting::ToggleTts; 2]), AppState::default());
    assert_eq!(switch_label(true), "On");
    assert_eq!(switch_label(false), "Off");
}

#[test]
fn sliders_stop_at_their_ends() {
    assert_eq!(after(&[Setting::Zoom(0)]).zoom, 10);
    assert_eq!(after(&[Setting::Zoom(35)]).zoom, 35);
    assert_eq!(after(&[Setting::Zoom(1000)]).zoom, 100);
    assert_eq!(after(&[Setting::FollowSpeed(0)]).smooth_speed, 1);
    assert_eq!(after(&[Setting::FollowSpeed(101)]).smooth_speed, 100);
    let docked = Setting::Mode(DisplayMode::Docked(Edge::Left));
    assert_eq!(after(&[docked, Setting::PanelSize(1)]).panel_size, 50);
    assert_eq!(after(&[docked, Setting::PanelSize(801)]).panel_size, 800);
    assert_eq!(after(&[docked, Setting::PanelSize(420)]).panel_size, 420);
    assert_eq!(after(&[Setting::ToggleTts, Setting::Volume(101)]).tts_volume, 100);
    assert_eq!(after(&[Setting::ToggleTts, Setting::Volume(0)]).tts_volume, 0);
    assert_eq!(after(&[Setting::ToggleTts, Setting::Rate(-11)]).tts_rate, -10);
    assert_eq!(after(&[Setting::ToggleTts, Setting::Rate(11)]).tts_rate, 10);
    assert_eq!(after(&[Setting::ToggleTts, Setting::Rate(-3)]).tts_rate, -3);
}

#[test]
fn choices_are_taken() {
    assert_eq!(
        after(&[Setting::Filter(ColorFilter::Greyscale)]).color_filter,
        ColorFilter::Greyscale
    );
    assert_eq!(
        after(&[Setting::Method(Interpolation::Bicubic)]).interpolation,
        Interpolation::Bicubic
    );
    assert_eq!(
        after(&[Setting::Mode(DisplayMode::Docked(Edge::Top))]).display_mode,
        DisplayMode::Docked(Edge::Top)
    );
}

#[test]
fn hidden_and_greyed_controls_do_nothing() {
    assert_eq!(after(&[Setting::PanelSize(400)]), AppState::default());
    assert_eq!(after(&[Setting::Method(Interpolation::Lanczos)]), AppState::default());
    assert_eq!(after(&[Setting::HoverEcho(false)]), AppState::default());
    assert_eq!(after(&[Setting::Volume(1)]), AppState::default());
    assert_eq!(after(&[Setting::Rate(1)]), AppState::default());
    assert!(!after(&[Setting::ToggleTts, Setting::HoverEcho(false)]).tts_hover_enabled);
}

#[test]
fn offered_controls_are_known() {
    let s = AppState::default();
    assert!(!s.is_offered(Setting::PanelSize(300)));
    assert!(after(&[Setting::Mode(DisplayMode::Docked(Edge::Top))]).is_offered(Setting::PanelSize(300)));
    assert!(!s.is_offered(Setting::Method(Interpolation::Lanczos)));
    assert!(!Interpolation::Lanczos.is_available());
    assert!(s.is_offered(Setting::Method(Interpolation::Bicubic)));
    assert!(!s.is_offered(Setting::Volume(3)));
    assert!(s.is_offered(Setting::Zoom(3)));
}

#[test]
fn reader_settings_survive_switching_off() {
    let on = after(&[Setting::ToggleTts, Setting::Volume(30), Setting::Rate(5)]);
    let mut s = on;
    s.apply(Setting::ToggleTts);
    s.apply(Setting::Volume(99));
    s.apply(Setting::Rate(-9));
    s.apply(Setting::ToggleTts);
    assert_eq!(s, on);
}
