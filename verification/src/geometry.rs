//! Rectangles in screen coordinates and the sizes that follow from them.

use vstd::prelude::*;

use crate::state::{DisplayMode, Edge};

verus! {

/// The smallest width and height that a drawing surface is given.
pub const SURFACE_MIN: u32 = 16;

/// A rectangle in virtual screen coordinates; `right` and `bottom` are the
/// first column and row outside it.
#[derive(Debug, Clone, Copy, PartialEq, Eq, Structural)]
pub struct Rect {
    pub left: i32,
    pub top: i32,
    pub right: i32,
    pub bottom: i32,
}

impl Rect {
    pub open spec fn width(self) -> int {
        self.right - self.left
    }

    pub open spec fn height(self) -> int {
        self.bottom - self.top
    }

    /// Both sides can be held in an `i32`.
    pub open spec fn measurable(self) -> bool {
        &&& i32::MIN <= self.width() <= i32::MAX
        &&& i32::MIN <= self.height() <= i32::MAX
    }

    /// Whether the pixel at (`x`, `y`) lies in the rectangle.
    pub open spec fn covers(self, x: int, y: int) -> bool {
        self.left <= x < self.right && self.top <= y < self.bottom
    }

    /// Whether both sides can be held in an `i32`.
    pub fn is_measurable(&self) -> (r: bool)
        ensures
            r == self.measurable(),
    {
        let w: i64 = self.right as i64 - self.left as i64;
        let h: i64 = self.bottom as i64 - self.top as i64;
        i32::MIN as i64 <= w && w <= i32::MAX as i64 && i32::MIN as i64 <= h && h <= i32::MAX as i64
    }
}

/// Two's complement reading of the bits of `x`.
pub open spec fn to_signed(x: u32) -> int {
    if x <= i32::MAX {
        x as int
    } else {
        x - 0x1_0000_0000
    }
}

/// Unsigned reading of the bits of `x`.
pub open spec fn to_unsigned(x: i32) -> int {
    if x >= 0 {
        x as int
    } else {
        x + 0x1_0000_0000
    }
}

/// The bits of `x`, read as a signed number.
pub fn signed(x: u32) -> (r: i32)
    ensures
        r == to_signed(x),
{
    assert(x > 0x7fff_ffffu32 ==> (x as i32) == x - 0x1_0000_0000) by (bit_vector);
    x as i32
}

/// The bits of `x`, read as an unsigned number.
pub fn unsigned(x: i32) -> (r: u32)
    ensures
        r == to_unsigned(x),
{
    assert(x < 0i32 ==> (x as u32) == x + 0x1_0000_0000) by (bit_vector);
    x as u32
}

/// The larger of two numbers.
pub open spec fn larger(a: int, b: int) -> int {
    if a < b {
        b
    } else {
        a
    }
}

/// Width and height of a window rectangle, neither below the surface minimum.
pub fn rect_dims(r: Rect) -> (dims: (u32, u32))
    requires
        r.measurable(),
    ensures
        dims.0 == larger(r.width(), SURFACE_MIN as int),
        dims.1 == larger(r.height(), SURFACE_MIN as int),
{
    let w: i32 = r.right - r.left;
    let h: i32 = r.bottom - r.top;
    let min: i32 = SURFACE_MIN as i32;
    (
        if w < min { SURFACE_MIN } else { w as u32 },
        if h < min { SURFACE_MIN } else { h as u32 },
    )
}

/// Width and height of a window rectangle. One that is turned inside out is
/// empty.
pub fn rect_size(r: Rect) -> (size: (u32, u32))
    ensures
        size.0 == larger(r.width(), 0),
        size.1 == larger(r.height(), 0),
{
    let w: i64 = r.right as i64 - r.left as i64;
    let h: i64 = r.bottom as i64 - r.top as i64;
    (if w < 0 { 0 } else { w as u32 }, if h < 0 { 0 } else { h as u32 })
}

/// The window size that belongs to a mode on a screen of `sw` by `sh` pixels.
pub open spec fn window_size(mode: DisplayMode, panel_size: u32, sw: i32, sh: i32) -> (int, int) {
    match mode {
        DisplayMode::Fullscreen => (to_unsigned(sw), to_unsigned(sh)),
        DisplayMode::Docked(Edge::Top) | DisplayMode::Docked(Edge::Bottom) => (
            to_unsigned(sw),
            panel_size as int,
        ),
        DisplayMode::Docked(Edge::Left) | DisplayMode::Docked(Edge::Right) => (
            panel_size as int,
            to_unsigned(sh),
        ),
    }
}

/// The window size that belongs to a mode: the whole screen, or a strip of
/// `panel_size` pixels along one edge.
pub fn window_dims(mode: DisplayMode, panel_size: u32, sw: i32, sh: i32) -> (dims: (u32, u32))
    ensures
        dims.0 == window_size(mode, panel_size, sw, sh).0,
        dims.1 == window_size(mode, panel_size, sw, sh).1,
{
    match mode {
        DisplayMode::Fullscreen => (unsigned(sw), unsigned(sh)),
        DisplayMode::Docked(Edge::Top) | DisplayMode::Docked(Edge::Bottom) => (
            unsigned(sw),
            panel_size,
        ),
        DisplayMode::Docked(Edge::Left) | DisplayMode::Docked(Edge::Right) => (
            panel_size,
            unsigned(sh),
        ),
    }
}

/// The rectangle of `width` by `height` pixels whose top left corner is given.
pub open spec fn rect_at(left: i32, top: i32, width: i32, height: i32) -> Rect {
    Rect {
        left,
        top,
        right: (left + width) as i32,
        bottom: (top + height) as i32,
    }
}

/// Reading bits as signed and back as unsigned, or the other way round, changes
/// nothing.
pub proof fn law_readings_inverse(x: u32, y: i32)
    ensures
        i32::MIN <= to_signed(x) <= i32::MAX,
        to_unsigned(to_signed(x) as i32) == x,
        0 <= to_unsigned(y) <= u32::MAX,
        to_signed(to_unsigned(y) as u32) == y,
{
}

/// A reading keeps the bits: it differs from the number that was read by a
/// multiple of 2^32 and lies in the range of its type, so that a number which
/// both types can hold is read as itself.
pub proof fn law_readings_keep_bits(x: u32, y: i32)
    ensures
        -0x8000_0000 <= to_signed(x) < 0x8000_0000,
        (to_signed(x) - x) % 0x1_0000_0000 == 0,
        x < 0x8000_0000 ==> to_signed(x) == x,
        0 <= to_unsigned(y) < 0x1_0000_0000,
        (to_unsigned(y) - y) % 0x1_0000_0000 == 0,
        y >= 0 ==> to_unsigned(y) == y,
{
}

/// The larger of two numbers is one of them, and neither exceeds it.
pub proof fn law_larger(a: int, b: int)
    ensures
        larger(a, b) >= a,
        larger(a, b) >= b,
        larger(a, b) == a || larger(a, b) == b,
{
}

/// A rectangle covers as many columns and rows as it is wide and high: a pixel
/// lies in it exactly where it is that near to the top left corner. It can be
/// measured exactly where both distances fit into 32 bits with a sign.
pub proof fn law_rect_covers(r: Rect, x: int, y: int)
    ensures
        r.covers(x, y) <==> 0 <= x - r.left < r.width() && 0 <= y - r.top < r.height(),
        r.left + r.width() == r.right,
        r.top + r.height() == r.bottom,
        r.measurable() <==> -0x8000_0000 <= r.right - r.left < 0x8000_0000 && -0x8000_0000
            <= r.bottom - r.top < 0x8000_0000,
{
}

/// A rectangle starts at its corner and reaches as far as its sides.
pub proof fn law_rect_at(left: i32, top: i32, width: i32, height: i32)
    requires
        i32::MIN <= left + width <= i32::MAX,
        i32::MIN <= top + height <= i32::MAX,
    ensures
        rect_at(left, top, width, height).left == left,
        rect_at(left, top, width, height).top == top,
        rect_at(left, top, width, height).right - left == width,
        rect_at(left, top, width, height).bottom - top == height,
{
}

/// Docking replaces one side of the screen by the panel size: the height at the
/// top and at the bottom, the width on the left and on the right. The other side
/// stays as it is with the full screen, which has the sides of the screen.
pub proof fn law_docking_changes_one_side(edge: Edge, panel_size: u32, sw: i32, sh: i32)
    ensures
        ({
            let full = window_size(DisplayMode::Fullscreen, panel_size, sw, sh);
            let docked = window_size(DisplayMode::Docked(edge), panel_size, sw, sh);
            &&& sw >= 0 ==> full.0 == sw
            &&& sh >= 0 ==> full.1 == sh
            &&& full.0 == to_unsigned(sw) && full.1 == to_unsigned(sh)
            &&& edge == Edge::Top || edge == Edge::Bottom ==> docked == (full.0, panel_size as int)
            &&& edge == Edge::Left || edge == Edge::Right ==> docked == (panel_size as int, full.1)
        }),
{
}

} // verus!
