//! The sizes that the graphics state keeps, and the bytes that it is sent.

use vstd::prelude::*;

use crate::geometry::{larger, SURFACE_MIN};

verus! {

/// The part of a frame upload that depends on the frame: its size and the
/// number of bytes in a row.
#[derive(Debug, Clone, Copy, PartialEq, Eq, Structural)]
pub struct TextureUpload {
    pub bytes_per_row: u32,
    pub width: u32,
    pub height: u32,
}

/// The sizes of the drawing surface and of the frame texture.
#[derive(Debug, Clone, Copy, PartialEq, Eq, Structural)]
pub struct WgpuState {
    pub surface_w: u32,
    pub surface_h: u32,
    pub tex_w: u32,
    pub tex_h: u32,
}

/// The position of the first entry that is true.
pub open spec fn first_true(flags: Seq<bool>) -> Option<int>
    decreases flags.len(),
{
    if flags.len() == 0 {
        None
    } else {
        match first_true(flags.drop_last()) {
            Some(i) => Some(i),
            None => if flags.last() {
                Some(flags.len() - 1)
            } else {
                None
            },
        }
    }
}

/// Picks one of the formats that a surface supports: the first that needs no
/// conversion of captured frames, else the first of all.
///
/// `exact` says of each format whether it is that of captured frames.
pub fn pick_format(exact: &Vec<bool>) -> (r: usize)
    requires
        exact@.len() > 0,
    ensures
        r == match first_true(exact@) {
            Some(i) => i,
            None => 0,
        },
        r < exact@.len(),
        exact@[r as int] || forall|i: int| 0 <= i < exact@.len() ==> !(#[trigger] exact@[i]),
        exact@[r as int] || r == 0,
        forall|i: int| 0 <= i < r ==> !(#[trigger] exact@[i]),
{
    let mut i: usize = 0;
    while i < exact.len()
        invariant
            i <= exact@.len(),
            first_true(exact@.take(i as int)) is None,
            forall|j: int| 0 <= j < i ==> !(#[trigger] exact@[j]),
        decreases exact@.len() - i,
    {
        assert(exact@.take(i + 1).drop_last() =~= exact@.take(i as int));
        if exact[i] {
            proof {
                lemma_first_true_prefix(exact@, i + 1);
            }
            return i;
        }
        i = i + 1;
    }
    assert(exact@.take(i as int) =~= exact@);
    0
}

/// The first true entry of a prefix is the first of the whole.
proof fn lemma_first_true_prefix(flags: Seq<bool>, n: int)
    requires
        0 <= n <= flags.len(),
        first_true(flags.take(n)) is Some,
    ensures
        first_true(flags) == first_true(flags.take(n)),
    decreases flags.len(),
{
    if n == flags.len() {
        assert(flags.take(n) =~= flags);
    } else {
        assert(flags.drop_last().take(n) =~= flags.take(n));
        lemma_first_true_prefix(flags.drop_last(), n);
    }
}

/// The words in a row, each with its bytes in order.
pub open spec fn bytes_of(words: Seq<[u8; 4]>) -> Seq<u8> {
    Seq::new(words.len() * 4, |i: int| words[i / 4]@[i % 4])
}

/// A number that is at least `min`.
fn at_least(x: u32, min: u32) -> (r: u32)
    ensures
        r == larger(x as int, min as int),
{
    if x < min {
        min
    } else {
        x
    }
}

impl WgpuState {
    /// The sizes at the start: a surface as large as the window, but not below
    /// the minimum, and a texture as large as the monitor.
    pub fn new(win_w: u32, win_h: u32, tex_w: u32, tex_h: u32) -> (r: WgpuState)
        ensures
            r.surface_w == larger(win_w as int, SURFACE_MIN as int),
            r.surface_h == larger(win_h as int, SURFACE_MIN as int),
            r.tex_w == tex_w,
            r.tex_h == tex_h,
    {
        WgpuState {
            surface_w: at_least(win_w, SURFACE_MIN),
            surface_h: at_least(win_h, SURFACE_MIN),
            tex_w,
            tex_h,
        }
    }

    /// The state with a surface for a window of the given size.
    pub open spec fn resized(self, new_w: int, new_h: int) -> WgpuState {
        WgpuState {
            surface_w: larger(new_w, SURFACE_MIN as int) as u32,
            surface_h: larger(new_h, SURFACE_MIN as int) as u32,
            ..self
        }
    }

    /// Sizes the surface for a window of the given size.
    pub fn resize(&mut self, new_w: u32, new_h: u32)
        ensures
            *final(self) == old(self).resized(new_w as int, new_h as int),
            final(self).surface_w == larger(new_w as int, SURFACE_MIN as int),
            final(self).surface_h == larger(new_h as int, SURFACE_MIN as int),
    {
        self.surface_w = at_least(new_w, SURFACE_MIN);
        self.surface_h = at_least(new_h, SURFACE_MIN);
    }

    /// Sizes the texture for frames of another monitor.
    pub fn recreate_frame_texture(&mut self, w: u32, h: u32)
        ensures
            *final(self) == (WgpuState { tex_w: w, tex_h: h, ..*old(self) }),
    {
        self.tex_w = w;
        self.tex_h = h;
    }

    /// The upload of a frame of `w` by `h` pixels: none where the texture has
    /// another size.
    pub open spec fn upload(self, w: u32, h: u32) -> Option<TextureUpload> {
        if w == self.tex_w && h == self.tex_h {
            Some(TextureUpload { bytes_per_row: (w * 4) as u32, width: w, height: h })
        } else {
            None
        }
    }

    /// A row of such a frame can be counted in bytes.
    pub open spec fn row_countable(self, w: u32, h: u32) -> bool {
        w == self.tex_w && h == self.tex_h ==> w * 4 <= u32::MAX
    }

    /// Whether a row of such a frame can be counted in bytes.
    pub fn is_row_countable(&self, w: u32, h: u32) -> (r: bool)
        ensures
            r == self.row_countable(w, h),
    {
        w != self.tex_w || h != self.tex_h || w as u64 * 4 <= u32::MAX as u64
    }

    /// Describes the upload of a BGRA8 top-down frame. Skips a frame whose
    /// size is not that of the texture.
    pub fn upload_frame(&self, w: u32, h: u32) -> (r: Option<TextureUpload>)
        requires
            self.row_countable(w, h),
        ensures
            r == self.upload(w, h),
            r matches Some(u) ==> u.bytes_per_row == w * 4,
    {
        if w != self.tex_w || h != self.tex_h {
            return None;
        }
        Some(TextureUpload { bytes_per_row: w * 4, width: w, height: h })
    }

    /// The uniform bytes of the crop rectangle: the four numbers in the order
    /// x, y, width, height, each in its memory representation.
    pub fn write_crop(&self, crop: &[[u8; 4]; 4]) -> (r: [u8; 16])
        ensures
            r@ == bytes_of(crop@),
    {
        let r = [
            crop[0][0],
            crop[0][1],
            crop[0][2],
            crop[0][3],
            crop[1][0],
            crop[1][1],
            crop[1][2],
            crop[1][3],
            crop[2][0],
            crop[2][1],
            crop[2][2],
            crop[2][3],
            crop[3][0],
            crop[3][1],
            crop[3][2],
            crop[3][3],
        ];
        assert(r@ =~= bytes_of(crop@));
        r
    }

    /// The uniform bytes of a picture: the crop rectangle, then the colour
    /// mode, the interpolation mode and the cursor position.
    pub fn write_uniforms(&self, crop: &[[u8; 4]; 4], settings: &[[u8; 4]; 4]) -> (r: Vec<u8>)
        ensures
            r@ == bytes_of(crop@ + settings@),
    {
        let head = self.write_crop(crop);
        let tail = self.write_crop(settings);
        let mut bytes: Vec<u8> = Vec::new();
        let mut i: usize = 0;
        while i < 32
            invariant
                i <= 32,
                bytes@ == (head@ + tail@).take(i as int),
            decreases 32 - i,
        {
            bytes.push(if i < 16 { head[i] } else { tail[i - 16] });
            i = i + 1;
            assert(bytes@ =~= (head@ + tail@).take(i as int));
        }
        assert(bytes@ =~= bytes_of(crop@ + settings@));
        bytes
    }
}

/// A surface never gets empty, whatever size it is given.
pub proof fn law_surface_not_empty(state: WgpuState, new_w: u32, new_h: u32)
    ensures
        state.resized(new_w as int, new_h as int).surface_w >= SURFACE_MIN,
        state.resized(new_w as int, new_h as int).surface_h >= SURFACE_MIN,
{
}

/// The bytes of the words follow each other: byte `k` of word `i` is at position
/// `4 * i + k`.
pub proof fn law_bytes_in_order(words: Seq<[u8; 4]>, i: int, k: int)
    requires
        0 <= i < words.len(),
        0 <= k < 4,
    ensures
        bytes_of(words).len() == 4 * words.len(),
        bytes_of(words)[4 * i + k] == words[i]@[k],
{
    assert((4 * i + k) / 4 == i && (4 * i + k) % 4 == k);
}

/// A surface gets the size that is asked for, but 16 where less is asked for;
/// the texture is left alone.
pub proof fn law_surface_as_asked(state: WgpuState, new_w: u32, new_h: u32)
    ensures
        ({
            let after = state.resized(new_w as int, new_h as int);
            &&& after.surface_w >= 16 && after.surface_w >= new_w
            &&& after.surface_w == 16 || after.surface_w == new_w
            &&& after.surface_h >= 16 && after.surface_h >= new_h
            &&& after.surface_h == 16 || after.surface_h == new_h
            &&& after.tex_w == state.tex_w && after.tex_h == state.tex_h
        }),
{
}

/// A frame is uploaded, whole, exactly where it has the size of the texture; its
/// rows have four bytes for each pixel, which has to be countable only then.
pub proof fn law_matching_frames_uploaded(state: WgpuState, w: u32, h: u32)
    ensures
        state.upload(w, h) is Some <==> w == state.tex_w && h == state.tex_h,
        state.upload(w, h) matches Some(u) ==> u.width == w && u.height == h && (w < 0x4000_0000
            ==> u.bytes_per_row == 4 * w),
        state.row_countable(w, h) <==> (state.upload(w, h) is Some ==> w < 0x4000_0000),
{
}

/// The entry that is found is true and no earlier one is; where none is found,
/// none is true.
pub proof fn law_first_true(flags: Seq<bool>)
    ensures
        match first_true(flags) {
            Some(i) => {
                &&& 0 <= i < flags.len()
                &&& flags[i]
                &&& forall|j: int| 0 <= j < i ==> !(#[trigger] flags[j])
            },
            None => forall|j: int| 0 <= j < flags.len() ==> !(#[trigger] flags[j]),
        },
    decreases flags.len(),
{
    if flags.len() > 0 {
        let rest = flags.drop_last();
        law_first_true(rest);
        assert forall|j: int| 0 <= j < rest.len() implies #[trigger] flags[j] == rest[j] by {}
        if let Some(i) = first_true(rest) {
            assert(flags[i] == rest[i]);
        }
    }
}

} // verus!
