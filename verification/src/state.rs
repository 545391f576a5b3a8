//! The settings that every thread of the magnifier shares, and the small types
//! that they are made of.

use vstd::prelude::*;

verus! {

/// The smallest magnification, in tenths.
pub const ZOOM_MIN: u32 = 10;

/// The largest magnification, in tenths.
pub const ZOOM_MAX: u32 = 100;

/// The slowest follow speed, in hundredths.
pub const SPEED_MIN: u32 = 1;

/// The fastest follow speed, in hundredths.
pub const SPEED_MAX: u32 = 100;

/// The thinnest docked panel, in pixels.
pub const PANEL_MIN: u32 = 50;

/// The thickest docked panel, in pixels.
pub const PANEL_MAX: u32 = 800;

/// The loudest voice.
pub const VOLUME_MAX: u32 = 100;

/// The slowest voice.
pub const RATE_MIN: i32 = -10;

/// The fastest voice.
pub const RATE_MAX: i32 = 10;

/// A captured picture of one monitor.
pub struct Frame {
    pub width: u32,
    pub height: u32,
    /// Raw BGRA8 pixel data, row-major, top-down.
    pub data: Vec<u8>,
}

impl Frame {
    /// A frame holds four bytes for each of its pixels.
    pub open spec fn wf(&self) -> bool {
        self.data@.len() == self.width * self.height * 4
    }

    /// The four bytes of the pixel in column `x` of row `y`.
    pub open spec fn pixel(&self, x: int, y: int) -> Seq<u8> {
        self.data@.subrange((y * self.width + x) * 4, (y * self.width + x) * 4 + 4)
    }
}

/// What is done to the colours of the magnified picture.
#[derive(Debug, Clone, Copy, PartialEq, Eq, Structural)]
pub enum ColorFilter {
    /// The colours are left as they are.
    Unfiltered,
    Inverted,
    Greyscale,
    GreyscaleInverted,
}

impl ColorFilter {
    /// The number by which the shader knows this filter.
    pub open spec fn code(self) -> u32 {
        match self {
            ColorFilter::Unfiltered => 0,
            ColorFilter::Inverted => 1,
            ColorFilter::Greyscale => 2,
            ColorFilter::GreyscaleInverted => 3,
        }
    }

    /// The number by which the shader knows this filter.
    pub fn as_u32(self) -> (r: u32)
        ensures
            r == self.code(),
    {
        match self {
            ColorFilter::Unfiltered => 0,
            ColorFilter::Inverted => 1,
            ColorFilter::Greyscale => 2,
            ColorFilter::GreyscaleInverted => 3,
        }
    }
}

impl Default for ColorFilter {
    fn default() -> (r: Self)
        ensures
            r == ColorFilter::Unfiltered,
    {
        ColorFilter::Unfiltered
    }
}

/// How the magnified picture is sampled.
#[derive(Debug, Clone, Copy, PartialEq, Eq, Structural)]
pub enum Interpolation {
    Bilinear,
    Bicubic,
    /// Listed in the settings, but not implemented by the shader.
    Lanczos,
}

impl Interpolation {
    /// The number by which the shader knows this method.
    pub open spec fn code(self) -> u32 {
        match self {
            Interpolation::Bilinear => 0,
            Interpolation::Bicubic => 1,
            Interpolation::Lanczos => 2,
        }
    }

    /// The name that the settings show.
    pub open spec fn name(self) -> Seq<char> {
        match self {
            Interpolation::Bilinear => "Bilinear"@,
            Interpolation::Bicubic => "Bicubic"@,
            Interpolation::Lanczos => "Lanczos"@,
        }
    }

    /// Whether the settings let the user pick this method.
    pub open spec fn available(self) -> bool {
        self != Interpolation::Lanczos
    }

    /// The number by which the shader knows this method.
    pub fn as_u32(self) -> (r: u32)
        ensures
            r == self.code(),
    {
        match self {
            Interpolation::Bilinear => 0,
            Interpolation::Bicubic => 1,
            Interpolation::Lanczos => 2,
        }
    }

    /// The name that the settings show.
    pub fn to_string(&self) -> (r: String)
        ensures
            r@ == self.name(),
    {
        match self {
            Interpolation::Bilinear => "Bilinear".to_owned(),
            Interpolation::Bicubic => "Bicubic".to_owned(),
            Interpolation::Lanczos => "Lanczos".to_owned(),
        }
    }

    /// Whether the settings let the user pick this method.
    pub fn is_available(self) -> (r: bool)
        ensures
            r == self.available(),
    {
        match self {
            Interpolation::Lanczos => false,
            _ => true,
        }
    }
}

/// A side of the screen.
#[derive(Debug, Clone, Copy, PartialEq, Eq, Structural)]
pub enum Edge {
    Top,
    Bottom,
    Left,
    Right,
}

/// Where the magnified picture is shown.
#[derive(Debug, Clone, Copy, PartialEq, Eq, Structural)]
pub enum DisplayMode {
    Fullscreen,
    Docked(Edge),
}

impl Default for DisplayMode {
    fn default() -> (r: Self)
        ensures
            r == DisplayMode::Fullscreen,
    {
        DisplayMode::Fullscreen
    }
}

/// The settings of the magnifier and of the screen reader.
///
/// Both fractions are kept in whole steps of the slider that sets them.
#[derive(Debug, Clone, Copy, PartialEq, Eq, Structural)]
pub struct AppState {
    pub enabled: bool,
    /// Magnification factor in tenths (10-100).
    pub zoom: u32,
    /// Lerp speed per logical 60 Hz tick, in hundredths (1-100).
    pub smooth_speed: u32,
    pub interpolation: Interpolation,
    pub display_mode: DisplayMode,
    /// Panel thickness in pixels (50-800). Ignored in Fullscreen mode.
    pub panel_size: u32,
    pub color_filter: ColorFilter,
    /// Master switch of the screen reader.
    pub tts_enabled: bool,
    /// Whether the element under the cursor is spoken.
    pub tts_hover_enabled: bool,
    /// Loudness of the voice (0-100).
    pub tts_volume: u32,
    /// Pace of the voice (-10 to 10).
    pub tts_rate: i32,
}

/// The settings that the program starts with.
pub open spec fn initial_state() -> AppState {
    AppState {
        enabled: false,
        zoom: 20,
        smooth_speed: 15,
        interpolation: Interpolation::Bilinear,
        display_mode: DisplayMode::Fullscreen,
        panel_size: 300,
        color_filter: ColorFilter::Unfiltered,
        tts_enabled: false,
        tts_hover_enabled: true,
        tts_volume: 80,
        tts_rate: 0,
    }
}

impl AppState {
    /// Every number lies in the range of its slider.
    pub open spec fn wf(&self) -> bool {
        &&& ZOOM_MIN <= self.zoom <= ZOOM_MAX
        &&& SPEED_MIN <= self.smooth_speed <= SPEED_MAX
        &&& PANEL_MIN <= self.panel_size <= PANEL_MAX
        &&& self.interpolation.available()
        &&& self.tts_volume <= VOLUME_MAX
        &&& RATE_MIN <= self.tts_rate <= RATE_MAX
    }
}

impl Default for AppState {
    fn default() -> (r: Self)
        ensures
            r == initial_state(),
            r.wf(),
    {
        AppState {
            enabled: false,
            zoom: 20,
            smooth_speed: 15,
            interpolation: Interpolation::Bilinear,
            display_mode: DisplayMode::Fullscreen,
            panel_size: 300,
            color_filter: ColorFilter::Unfiltered,
            tts_enabled: false,
            tts_hover_enabled: true,
            tts_volume: 80,
            tts_rate: 0,
        }
    }
}

/// The shader's numbers tell the filters and the methods apart, and every method
/// but Lanczos can be picked.
pub proof fn law_shader_numbers(filter: ColorFilter, method: Interpolation)
    ensures
        filter == ColorFilter::Unfiltered <==> filter.code() == 0,
        filter == ColorFilter::Inverted <==> filter.code() == 1,
        filter == ColorFilter::Greyscale <==> filter.code() == 2,
        filter == ColorFilter::GreyscaleInverted <==> filter.code() == 3,
        method == Interpolation::Bilinear <==> method.code() == 0,
        method == Interpolation::Bicubic <==> method.code() == 1,
        method == Interpolation::Lanczos <==> method.code() == 2,
        method.available() <==> method != Interpolation::Lanczos,
{
}

} // verus!
