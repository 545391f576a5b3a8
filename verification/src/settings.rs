//! The settings panel: what its controls show and what using them does to the
//! settings.

use vstd::prelude::*;

use crate::state::{
    AppState, ColorFilter, DisplayMode, Interpolation, PANEL_MAX, PANEL_MIN, RATE_MAX, RATE_MIN,
    SPEED_MAX, SPEED_MIN, VOLUME_MAX, ZOOM_MAX, ZOOM_MIN,
};

verus! {

/// A use of one of the controls.
#[derive(Debug, Clone, Copy, PartialEq, Eq, Structural)]
pub enum Setting {
    /// The button that switches the magnifier, or its hotkey.
    ToggleMagnifier,
    /// The magnification slider, in tenths.
    Zoom(u32),
    /// The follow speed slider, in hundredths.
    FollowSpeed(u32),
    Mode(DisplayMode),
    /// The panel size slider, in pixels. Shown while docked.
    PanelSize(u32),
    Filter(ColorFilter),
    Method(Interpolation),
    /// The button that switches the screen reader.
    ToggleTts,
    /// Usable while the screen reader is on, as are the next two.
    HoverEcho(bool),
    Volume(u32),
    Rate(i32),
}

/// The number of a range that is nearest to `x`.
pub open spec fn within(x: int, min: int, max: int) -> int {
    if x < min {
        min
    } else if x > max {
        max
    } else {
        x
    }
}

/// A value on a slider that ends at `min` and `max`.
fn slide(x: u32, min: u32, max: u32) -> (r: u32)
    ensures
        r == within(x as int, min as int, max as int),
{
    if x < min {
        min
    } else if x > max {
        max
    } else {
        x
    }
}

/// The text of an on/off button.
pub open spec fn switch_text(on: bool) -> Seq<char> {
    if on {
        "On"@
    } else {
        "Off"@
    }
}

/// The text of an on/off button.
pub fn switch_label(on: bool) -> (r: &'static str)
    ensures
        r@ == switch_text(on),
        on ==> r@ == "On"@,
        !on ==> r@ == "Off"@,
{
    if on {
        "On"
    } else {
        "Off"
    }
}

impl AppState {
    /// Whether a control can be used: the panel size is shown only while
    /// docked, the controls of the screen reader are greyed out while it is
    /// off, and so is a method that is not implemented.
    pub open spec fn offers(self, setting: Setting) -> bool {
        match setting {
            Setting::PanelSize(_) => self.display_mode != DisplayMode::Fullscreen,
            Setting::Method(method) => method.available(),
            Setting::HoverEcho(_) | Setting::Volume(_) | Setting::Rate(_) => self.tts_enabled,
            _ => true,
        }
    }

    /// The settings after a control was used. Sliders stop at their ends, and
    /// a control that cannot be used does nothing.
    pub open spec fn with(self, setting: Setting) -> AppState {
        if !self.offers(setting) {
            self
        } else {
            match setting {
                Setting::ToggleMagnifier => AppState { enabled: !self.enabled, ..self },
                Setting::Zoom(x) => AppState {
                    zoom: within(x as int, ZOOM_MIN as int, ZOOM_MAX as int) as u32,
                    ..self
                },
                Setting::FollowSpeed(x) => AppState {
                    smooth_speed: within(x as int, SPEED_MIN as int, SPEED_MAX as int) as u32,
                    ..self
                },
                Setting::Mode(display_mode) => AppState { display_mode, ..self },
                Setting::PanelSize(x) => AppState {
                    panel_size: within(x as int, PANEL_MIN as int, PANEL_MAX as int) as u32,
                    ..self
                },
                Setting::Filter(color_filter) => AppState { color_filter, ..self },
                Setting::Method(interpolation) => AppState { interpolation, ..self },
                Setting::ToggleTts => AppState { tts_enabled: !self.tts_enabled, ..self },
                Setting::HoverEcho(tts_hover_enabled) => AppState { tts_hover_enabled, ..self },
                Setting::Volume(x) => AppState {
                    tts_volume: within(x as int, 0, VOLUME_MAX as int) as u32,
                    ..self
                },
                Setting::Rate(x) => AppState {
                    tts_rate: within(x as int, RATE_MIN as int, RATE_MAX as int) as i32,
                    ..self
                },
            }
        }
    }

    /// Whether a control can be used.
    pub fn is_offered(&self, setting: Setting) -> (r: bool)
        ensures
            r == self.offers(setting),
    {
        match setting {
            Setting::PanelSize(_) => self.display_mode != DisplayMode::Fullscreen,
            Setting::Method(method) => method.is_available(),
            Setting::HoverEcho(_) | Setting::Volume(_) | Setting::Rate(_) => self.tts_enabled,
            _ => true,
        }
    }

    /// Uses a control.
    pub fn apply(&mut self, setting: Setting)
        ensures
            *final(self) == old(self).with(setting),
            old(self).wf() ==> final(self).wf(),
    {
        if !self.is_offered(setting) {
            return;
        }
        match setting {
            Setting::ToggleMagnifier => {
                self.enabled = !self.enabled;
            },
            Setting::Zoom(x) => {
                self.zoom = slide(x, ZOOM_MIN, ZOOM_MAX);
            },
            Setting::FollowSpeed(x) => {
                self.smooth_speed = slide(x, SPEED_MIN, SPEED_MAX);
            },
            Setting::Mode(mode) => {
                self.display_mode = mode;
            },
            Setting::PanelSize(x) => {
                self.panel_size = slide(x, PANEL_MIN, PANEL_MAX);
            },
            Setting::Filter(filter) => {
                self.color_filter = filter;
            },
            Setting::Method(method) => {
                self.interpolation = method;
            },
            Setting::ToggleTts => {
                self.tts_enabled = !self.tts_enabled;
            },
            Setting::HoverEcho(on) => {
                self.tts_hover_enabled = on;
            },
            Setting::Volume(x) => {
                self.tts_volume = slide(x, 0, VOLUME_MAX);
            },
            Setting::Rate(x) => {
                self.tts_rate = if x < RATE_MIN {
                    RATE_MIN
                } else if x > RATE_MAX {
                    RATE_MAX
                } else {
                    x
                };
            },
        }
    }
}

/// The settings after a series of uses.
pub open spec fn with_all(state: AppState, uses: Seq<Setting>) -> AppState
    decreases uses.len(),
{
    if uses.len() == 0 {
        state
    } else {
        with_all(state, uses.drop_last()).with(uses.last())
    }
}

/// However the controls are used, every number stays in the range of its
/// slider.
pub proof fn law_ranges_kept(state: AppState, uses: Seq<Setting>)
    requires
        state.wf(),
    ensures
        with_all(state, uses).wf(),
    decreases uses.len(),
{
    if uses.len() > 0 {
        law_ranges_kept(state, uses.drop_last());
    }
}

/// Switching the magnifier twice, or the screen reader twice, changes nothing.
pub proof fn law_toggles_undo(state: AppState)
    ensures
        state.with(Setting::ToggleMagnifier).with(Setting::ToggleMagnifier) == state,
        state.with(Setting::ToggleTts).with(Setting::ToggleTts) == state,
        state.with(Setting::ToggleMagnifier).enabled == !state.enabled,
        state.with(Setting::ToggleTts).tts_enabled == !state.tts_enabled,
{
}

/// Using a control again in the same way changes nothing more, unless it is
/// one of the two switches.
pub proof fn law_settings_stick(state: AppState, setting: Setting)
    requires
        setting != Setting::ToggleMagnifier,
        setting != Setting::ToggleTts,
    ensures
        state.with(setting).with(setting) == state.with(setting),
{
}

/// Switching the screen reader off and on again brings its settings back, and
/// while it is off they cannot be changed.
pub proof fn law_tts_settings_kept(state: AppState, on: bool, volume: u32, rate: i32)
    requires
        state.tts_enabled,
    ensures
        ({
            let off = state.with(Setting::ToggleTts);
            &&& off.with(Setting::HoverEcho(on)) == off
            &&& off.with(Setting::Volume(volume)) == off
            &&& off.with(Setting::Rate(rate)) == off
            &&& off.with(Setting::ToggleTts) == state
        }),
{
}

/// The controls of the magnifier leave the screen reader alone, and the other
/// way round.
pub proof fn law_settings_independent(state: AppState, setting: Setting)
    ensures
        ({
            let after = state.with(setting);
            match setting {
                Setting::ToggleTts
                | Setting::HoverEcho(_)
                | Setting::Volume(_)
                | Setting::Rate(_) => {
                    &&& after.enabled == state.enabled
                    &&& after.zoom == state.zoom
                    &&& after.smooth_speed == state.smooth_speed
                    &&& after.interpolation == state.interpolation
                    &&& after.display_mode == state.display_mode
                    &&& after.panel_size == state.panel_size
                    &&& after.color_filter == state.color_filter
                },
                _ => {
                    &&& after.tts_enabled == state.tts_enabled
                    &&& after.tts_hover_enabled == state.tts_hover_enabled
                    &&& after.tts_volume == state.tts_volume
                    &&& after.tts_rate == state.tts_rate
                },
            }
        }),
{
}

/// A control can be used exactly where it is shown and not greyed out: the panel
/// size while docked, Lanczos never, the three controls of the screen reader
/// while it is on, and every other control always.
pub proof fn law_offered_controls(
    state: AppState,
    mode: DisplayMode,
    filter: ColorFilter,
    method: Interpolation,
    on: bool,
    x: u32,
    rate: i32,
)
    ensures
        state.offers(Setting::ToggleMagnifier),
        state.offers(Setting::ToggleTts),
        state.offers(Setting::Zoom(x)),
        state.offers(Setting::FollowSpeed(x)),
        state.offers(Setting::Mode(mode)),
        state.offers(Setting::Filter(filter)),
        state.offers(Setting::PanelSize(x)) <==> state.display_mode is Docked,
        state.offers(Setting::Method(method)) <==> method == Interpolation::Bilinear || method
            == Interpolation::Bicubic,
        state.offers(Setting::HoverEcho(on)) <==> state.tts_enabled,
        state.offers(Setting::Volume(x)) <==> state.tts_enabled,
        state.offers(Setting::Rate(rate)) <==> state.tts_enabled,
{
}

/// Whatever the other settings are, a control of the magnifier that can be used
/// sets its own field to the value that was picked and leaves all others alone.
pub proof fn law_magnifier_control_sets_its_field(
    state: AppState,
    mode: DisplayMode,
    filter: ColorFilter,
    method: Interpolation,
    x: u32,
)
    ensures
        10 <= x <= 100 ==> state.with(Setting::Zoom(x)) == (AppState { zoom: x, ..state }),
        1 <= x <= 100 ==> state.with(Setting::FollowSpeed(x)) == (AppState {
            smooth_speed: x,
            ..state
        }),
        state.display_mode is Docked && 50 <= x <= 800 ==> state.with(Setting::PanelSize(x)) == (
        AppState { panel_size: x, ..state }),
        state.with(Setting::Mode(mode)) == (AppState { display_mode: mode, ..state }),
        state.with(Setting::Filter(filter)) == (AppState { color_filter: filter, ..state }),
        method != Interpolation::Lanczos ==> state.with(Setting::Method(method)) == (AppState {
            interpolation: method,
            ..state
        }),
        state.with(Setting::ToggleMagnifier) == (AppState { enabled: !state.enabled, ..state }),
{
}

/// While the screen reader is on, each of its controls sets its own field to the
/// value that was picked and leaves all others alone; its switch always works.
pub proof fn law_reader_control_sets_its_field(state: AppState, on: bool, volume: u32, rate: i32)
    ensures
        state.tts_enabled ==> {
            &&& state.with(Setting::HoverEcho(on)) == (AppState { tts_hover_enabled: on, ..state })
            &&& volume <= 100 ==> state.with(Setting::Volume(volume)) == (AppState {
                tts_volume: volume,
                ..state
            })
            &&& -10 <= rate <= 10 ==> state.with(Setting::Rate(rate)) == (AppState {
                tts_rate: rate,
                ..state
            })
        },
        state.with(Setting::ToggleTts) == (AppState { tts_enabled: !state.tts_enabled, ..state }),
{
}

/// A slider that is pulled beyond an end stays at that end: it does what it does
/// with the value of the end.
pub proof fn law_sliders_stop_at_their_ends(state: AppState, x: u32, rate: i32)
    ensures
        x < 10 ==> state.with(Setting::Zoom(x)) == state.with(Setting::Zoom(10)),
        x > 100 ==> state.with(Setting::Zoom(x)) == state.with(Setting::Zoom(100)),
        x < 1 ==> state.with(Setting::FollowSpeed(x)) == state.with(Setting::FollowSpeed(1)),
        x > 100 ==> state.with(Setting::FollowSpeed(x)) == state.with(Setting::FollowSpeed(100)),
        x < 50 ==> state.with(Setting::PanelSize(x)) == state.with(Setting::PanelSize(50)),
        x > 800 ==> state.with(Setting::PanelSize(x)) == state.with(Setting::PanelSize(800)),
        x > 100 ==> state.with(Setting::Volume(x)) == state.with(Setting::Volume(100)),
        rate < -10 ==> state.with(Setting::Rate(rate)) == state.with(Setting::Rate(RATE_MIN)),
        rate > 10 ==> state.with(Setting::Rate(rate)) == state.with(Setting::Rate(10)),
{
}

/// A control that cannot be used changes nothing.
pub proof fn law_unusable_control_changes_nothing(state: AppState, setting: Setting)
    requires
        !state.offers(setting),
    ensures
        state.with(setting) == state,
{
}

/// Settings are in range exactly where every number is one that its slider can
/// be set to and the method can be picked.
pub proof fn law_ranges(state: AppState)
    ensures
        state.wf() <==> {
            &&& 10 <= state.zoom <= 100
            &&& 1 <= state.smooth_speed <= 100
            &&& 50 <= state.panel_size <= 800
            &&& state.interpolation != Interpolation::Lanczos
            &&& state.tts_volume <= 100
            &&& -10 <= state.tts_rate <= 10
        },
{
}

} // verus!
