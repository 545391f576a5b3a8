//! Capturing a monitor: what becomes of each outcome of the duplication
//! service, and how mapped texture rows become a [`Frame`].

use vstd::arithmetic::div_mod::lemma_fundamental_div_mod_converse;
use vstd::prelude::*;

use crate::state::Frame;

verus! {

/// No new frame arrived in time.
pub const DXGI_ERROR_WAIT_TIMEOUT: i32 = -2005270489;

/// The desktop was switched and the duplication has to be made anew.
pub const DXGI_ERROR_ACCESS_LOST: i32 = -2005270490;

/// The graphics device is gone.
pub const DXGI_ERROR_DEVICE_REMOVED: i32 = -2005270523;

/// The picture of `width` by `height` pixels in `src`, whose rows start
/// `pitch` bytes apart: each row cut to its pixels.
pub open spec fn unpadded(src: Seq<u8>, pitch: int, width: int, height: int) -> Seq<u8> {
    Seq::new(
        (width * height * 4) as nat,
        |i: int| src[(i / (width * 4)) * pitch + i % (width * 4)],
    )
}

/// `src` holds `height` rows of `pitch` bytes, and a row of pixels fits into
/// `pitch` bytes.
pub open spec fn rows_fit(src: Seq<u8>, pitch: int, width: int, height: int) -> bool {
    &&& src.len() == pitch * height
    &&& height > 0 ==> width * 4 <= pitch
}

/// Whether `src` holds `height` rows of `pitch` bytes, and a row of pixels
/// fits into `pitch` bytes.
pub fn rows_are_readable(src: &[u8], row_pitch: u32, width: u32, height: u32) -> (r: bool)
    ensures
        r == rows_fit(src@, row_pitch as int, width as int, height as int),
{
    assert(0 <= row_pitch * height <= u32::MAX * u32::MAX) by (nonlinear_arith)
        requires
            0 <= row_pitch <= u32::MAX,
            0 <= height <= u32::MAX,
    ;
    src.len() as u64 == row_pitch as u64 * height as u64 && (height == 0 || width as u64 * 4
        <= row_pitch as u64)
}

/// Copies a mapped texture into a tightly packed pixel buffer.
pub fn read_staging(src: &[u8], row_pitch: u32, width: u32, height: u32) -> (data: Vec<u8>)
    requires
        rows_fit(src@, row_pitch as int, width as int, height as int),
    ensures
        data@ == unpadded(src@, row_pitch as int, width as int, height as int),
{
    let ghost pitch = row_pitch as int;
    let ghost bw = width * 4;
    let len: usize = src.len();
    let mut data: Vec<u8> = Vec::new();
    let mut row: u32 = 0;
    proof {
        assert(bw * 0 == 0) by (nonlinear_arith);
    }
    while row < height
        invariant
            row <= height,
            pitch == row_pitch,
            bw == width * 4,
            height > 0 ==> bw <= pitch,
            len == src@.len(),
            src@.len() == pitch * height,
            data@.len() == bw * row,
            forall|i: int| 0 <= i < data@.len() ==> #[trigger] data@[i] == src@[(i / bw) * pitch + i % bw],
        decreases height - row,
    {
        assert(pitch * (row + 1) <= pitch * height) by (nonlinear_arith)
            requires
                0 <= pitch,
                row + 1 <= height,
        ;
        assert(pitch * (row + 1) == pitch * row + pitch) by (nonlinear_arith);
        assert(pitch * row >= 0) by (nonlinear_arith)
            requires
                pitch >= 0,
                row >= 0,
        ;
        let start: usize = row_pitch as usize * row as usize;
        let row_bytes: usize = width as usize * 4;
        let mut col: usize = 0;
        while col < row_bytes
            invariant
                col <= row_bytes,
                row < height,
                pitch == row_pitch,
                bw == width * 4,
                row_bytes == bw,
                bw <= pitch,
                start == pitch * row,
                len == src@.len(),
                pitch * row + pitch <= len,
                data@.len() == bw * row + col,
                forall|i: int|
                    0 <= i < data@.len() ==> #[trigger] data@[i] == src@[(i / bw) * pitch + i % bw],
            decreases row_bytes - col,
        {
            proof {
                let n = data@.len() as int;
                assert(row * bw == bw * row) by (nonlinear_arith);
                lemma_fundamental_div_mod_converse(n, bw, row as int, col as int);
                assert((n / bw) * pitch == pitch * row) by (nonlinear_arith)
                    requires
                        n / bw == row,
                ;
            }
            data.push(src[start + col]);
            col = col + 1;
        }
        assert(bw * (row + 1) == bw * row + bw) by (nonlinear_arith);
        row = row + 1;
    }
    assert(width * height * 4 == bw * height) by (nonlinear_arith)
        requires
            bw == width * 4,
    ;
    assert(data@ =~= unpadded(src@, pitch, width as int, height as int));
    data
}

/// A pixel of the copy has the four bytes of that pixel in the source.
pub proof fn law_pixels_kept(frame: Frame, src: Seq<u8>, pitch: int, x: int, y: int)
    requires
        rows_fit(src, pitch, frame.width as int, frame.height as int),
        frame.data@ == unpadded(src, pitch, frame.width as int, frame.height as int),
        0 <= x < frame.width,
        0 <= y < frame.height,
    ensures
        frame.pixel(x, y) == src.subrange(y * pitch + x * 4, y * pitch + x * 4 + 4),
{
    let w = frame.width as int;
    let h = frame.height as int;
    let bw = w * 4;
    let at = (y * w + x) * 4;
    assert(at == bw * y + x * 4) by (nonlinear_arith)
        requires
            at == (y * w + x) * 4,
            bw == w * 4,
    ;
    assert(0 <= bw * y && bw * y + bw <= w * h * 4) by (nonlinear_arith)
        requires
            bw == w * 4,
            0 <= y < h,
            0 < w,
    ;
    assert(0 <= y * pitch && y * pitch + pitch <= pitch * h) by (nonlinear_arith)
        requires
            0 <= y < h,
            0 <= pitch,
    ;
    assert forall|k: int| 0 <= k < 4 implies frame.pixel(x, y)[k] == src.subrange(
        y * pitch + x * 4,
        y * pitch + x * 4 + 4,
    )[k] by {
        assert(y * bw == bw * y) by (nonlinear_arith);
        lemma_fundamental_div_mod_converse(at + k, bw, y, x * 4 + k);
    }
    assert(frame.pixel(x, y) =~= src.subrange(y * pitch + x * 4, y * pitch + x * 4 + 4));
}

/// What came of waiting for a frame.
pub enum Acquisition<'a> {
    /// Waiting for the frame failed with this code.
    Failed(i32),
    /// A frame came, but handling it failed with this code.
    Lost(i32),
    /// A frame came and is mapped: its bytes, with rows `row_pitch` apart.
    Mapped { row_pitch: u32, bytes: &'a [u8] },
}

/// What to do about an outcome of the capture.
#[derive(Debug, Clone, Copy, PartialEq, Eq, Structural)]
pub enum CaptureAction {
    /// Hand the frame to the renderer.
    Publish,
    /// Nothing came; ask again.
    Wait,
    /// Open the device and the duplication anew.
    Reconnect,
}

/// What has to be made anew after an error of the duplication.
#[derive(Debug, Clone, Copy, PartialEq, Eq, Structural)]
pub enum Recovery {
    /// Nothing: ask for the next frame again.
    Retry,
    /// The duplication.
    RecreateDuplication,
    /// The device and all that belongs to it.
    RecreateDevice,
}

/// What has to be made anew after the error `code`.
pub open spec fn recovery_of(code: i32) -> Recovery {
    if code == DXGI_ERROR_WAIT_TIMEOUT {
        Recovery::Retry
    } else if code == DXGI_ERROR_DEVICE_REMOVED {
        Recovery::RecreateDevice
    } else {
        Recovery::RecreateDuplication
    }
}

/// What has to be made anew after the error `code`.
pub fn recovery(code: i32) -> (r: Recovery)
    ensures
        r == recovery_of(code),
        r == Recovery::Retry <==> code == DXGI_ERROR_WAIT_TIMEOUT,
        r == Recovery::RecreateDevice <==> code == DXGI_ERROR_DEVICE_REMOVED,
{
    if code == DXGI_ERROR_WAIT_TIMEOUT {
        Recovery::Retry
    } else if code == DXGI_ERROR_DEVICE_REMOVED {
        Recovery::RecreateDevice
    } else {
        Recovery::RecreateDuplication
    }
}

/// The capture of one monitor: which one, and how large its picture is.
///
/// Opening a device or a duplication is up to the caller, who passes on the
/// size of the picture or the code of the failure.
#[derive(Debug, Clone, Copy, PartialEq, Eq, Structural)]
pub struct Capturer {
    pub width: u32,
    pub height: u32,
    pub output_idx: u32,
}

impl Capturer {
    /// Captures the first monitor.
    pub fn new(opened: Result<(u32, u32), i32>) -> (r: Result<Capturer, i32>)
        ensures
            r == match opened {
                Ok((width, height)) => Ok::<Capturer, i32>(Capturer { width, height, output_idx: 0 }),
                Err(code) => Err(code),
            },
    {
        Self::new_for_output(0, opened)
    }

    /// Captures the monitor with number `output_idx`.
    pub fn new_for_output(output_idx: u32, opened: Result<(u32, u32), i32>) -> (r: Result<
        Capturer,
        i32,
    >)
        ensures
            r == match opened {
                Ok((width, height)) => Ok::<Capturer, i32>(Capturer { width, height, output_idx }),
                Err(code) => Err(code),
            },
    {
        match opened {
            Ok((width, height)) => Ok(Capturer { width, height, output_idx }),
            Err(code) => Err(code),
        }
    }

    /// The mapped bytes, where there are any, hold a picture of this capture's
    /// size.
    pub open spec fn accepts(&self, acquired: Acquisition) -> bool {
        acquired matches Acquisition::Mapped { row_pitch, bytes } ==> rows_fit(
            bytes@,
            row_pitch as int,
            self.width as int,
            self.height as int,
        )
    }

    /// Whether `r` is what comes of `acquired`.
    pub open spec fn yields(&self, acquired: Acquisition, r: Result<Option<Frame>, i32>) -> bool {
        match acquired {
            Acquisition::Failed(code) => if code == DXGI_ERROR_WAIT_TIMEOUT {
                r matches Ok(None)
            } else {
                r matches Err(e) && e == code
            },
            Acquisition::Lost(code) => r matches Err(e) && e == code,
            Acquisition::Mapped { row_pitch, bytes } => {
                &&& r matches Ok(Some(frame))
                &&& frame.width == self.width
                &&& frame.height == self.height
                &&& frame.data@ == unpadded(
                    bytes@,
                    row_pitch as int,
                    self.width as int,
                    self.height as int,
                )
            },
        }
    }

    /// Returns `None` on timeout (no new frame yet), `Err` on device loss.
    pub fn next_frame(&self, acquired: Acquisition) -> (r: Result<Option<Frame>, i32>)
        requires
            self.accepts(acquired),
        ensures
            self.yields(acquired, r),
            match acquired {
                Acquisition::Failed(code) => if code == DXGI_ERROR_WAIT_TIMEOUT {
                    r matches Ok(None)
                } else {
                    r matches Err(e) && e == code
                },
                Acquisition::Lost(code) => r matches Err(e) && e == code,
                Acquisition::Mapped { row_pitch, bytes } => {
                    &&& r matches Ok(Some(frame))
                    &&& frame.wf()
                    &&& frame.width == self.width
                    &&& frame.height == self.height
                    &&& frame.data@ == unpadded(
                        bytes@,
                        row_pitch as int,
                        self.width as int,
                        self.height as int,
                    )
                },
            },
    {
        match acquired {
            Acquisition::Failed(code) => {
                if code == DXGI_ERROR_WAIT_TIMEOUT {
                    Ok(None)
                } else {
                    Err(code)
                }
            },
            Acquisition::Lost(code) => Err(code),
            Acquisition::Mapped { row_pitch, bytes } => {
                let data = read_staging(bytes, row_pitch, self.width, self.height);
                proof {
                    let w = self.width as int;
                    let h = self.height as int;
                    assert(w * h * 4 >= 0) by (nonlinear_arith)
                        requires
                            w >= 0,
                            h >= 0,
                    ;
                }
                Ok(Some(Frame { width: self.width, height: self.height, data }))
            },
        }
    }

    /// The capture after opening the monitor with number `idx` turned out as
    /// `opened`.
    pub open spec fn reopened(self, idx: u32, opened: Result<(u32, u32), i32>) -> Capturer {
        match opened {
            Ok((width, height)) => Capturer { width, height, output_idx: idx },
            Err(_) => self,
        }
    }

    /// Switches to another monitor. Where that fails the capture goes on as it
    /// was.
    pub fn switch_output(&mut self, idx: u32, opened: Result<(u32, u32), i32>) -> (r: Result<
        (),
        i32,
    >)
        ensures
            *final(self) == old(self).reopened(idx, opened),
            match opened {
                Ok((width, height)) => {
                    &&& r == Ok::<(), i32>(())
                    &&& *final(self) == Capturer { width, height, output_idx: idx }
                },
                Err(code) => {
                    &&& r == Err::<(), i32>(code)
                    &&& *final(self) == *old(self)
                },
            },
    {
        match opened {
            Ok((width, height)) => {
                self.width = width;
                self.height = height;
                self.output_idx = idx;
                Ok(())
            },
            Err(code) => Err(code),
        }
    }

    /// Opens the same monitor anew.
    pub fn reconnect(&mut self, opened: Result<(u32, u32), i32>) -> (r: Result<(), i32>)
        ensures
            *final(self) == old(self).reopened(old(self).output_idx, opened),
            final(self).output_idx == old(self).output_idx,
            opened is Ok <==> r is Ok,
            match opened {
                Ok((width, height)) => {
                    &&& r == Ok::<(), i32>(())
                    &&& final(self).width == width
                    &&& final(self).height == height
                },
                Err(code) => {
                    &&& r == Err::<(), i32>(code)
                    &&& *final(self) == *old(self)
                },
            },
    {
        match Self::new_for_output(self.output_idx, opened) {
            Ok(fresh) => {
                *self = fresh;
                Ok(())
            },
            Err(code) => Err(code),
        }
    }

    /// The monitor to switch to where the renderer asks for `wanted`: none if
    /// that one is being captured already.
    pub open spec fn switch_to(self, wanted: u32) -> Option<u32> {
        if wanted != self.output_idx {
            Some(wanted)
        } else {
            None
        }
    }

    /// The monitor to switch to before the next frame, where the renderer asks
    /// for another one than is being captured.
    pub fn switch_wanted(&self, wanted: u32) -> (r: Option<u32>)
        ensures
            r is Some <==> wanted != self.output_idx,
            r is Some ==> r == Some(wanted),
            r == self.switch_to(wanted),
    {
        if wanted != self.output_idx {
            Some(wanted)
        } else {
            None
        }
    }
}

/// After a switch to the monitor that the renderer asked for, no further switch
/// is wanted, and a failed switch is wanted again.
pub proof fn law_switch_settles(capturer: Capturer, wanted: u32, width: u32, height: u32)
    ensures
        (Capturer { width, height, output_idx: wanted }).switch_to(wanted) is None,
        capturer.switch_to(wanted) matches Some(idx) ==> idx == wanted && idx != capturer.output_idx,
{
}

/// What to do about an outcome of the capture.
pub open spec fn action_for(outcome: Result<Option<Frame>, i32>) -> CaptureAction {
    match outcome {
        Ok(Some(_)) => CaptureAction::Publish,
        Ok(None) => CaptureAction::Wait,
        Err(_) => CaptureAction::Reconnect,
    }
}

/// What to do about an outcome of the capture.
pub fn capture_action(outcome: &Result<Option<Frame>, i32>) -> (r: CaptureAction)
    ensures
        r == action_for(*outcome),
        r == match outcome {
            Ok(Some(_)) => CaptureAction::Publish,
            Ok(None) => CaptureAction::Wait,
            Err(_) => CaptureAction::Reconnect,
        },
{
    match outcome {
        Ok(Some(_)) => CaptureAction::Publish,
        Ok(None) => CaptureAction::Wait,
        Err(_) => CaptureAction::Reconnect,
    }
}

/// What the capture thread does next.
#[derive(Debug, Clone, Copy, PartialEq, Eq, Structural)]
pub enum CaptureStep {
    /// Open the first monitor.
    Open,
    /// Switch to the monitor that the renderer asks for, where it is another one.
    Switch,
    /// Wait for a frame and hand it on.
    Acquire,
    /// Open the device and the monitor anew.
    Reconnect,
    Stopped,
}

impl CaptureStep {
    /// The step that follows.
    pub open spec fn after(self, ok: bool, action: CaptureAction) -> CaptureStep {
        match self {
            CaptureStep::Open | CaptureStep::Reconnect => if ok {
                CaptureStep::Switch
            } else {
                CaptureStep::Stopped
            },
            CaptureStep::Switch => CaptureStep::Acquire,
            CaptureStep::Acquire => if action == CaptureAction::Reconnect {
                CaptureStep::Reconnect
            } else {
                CaptureStep::Switch
            },
            CaptureStep::Stopped => CaptureStep::Stopped,
        }
    }

    /// The step that follows. `ok` says whether this step succeeded, and
    /// `action` what to do about the outcome of waiting for a frame. Failing to
    /// switch is no reason to stop.
    pub fn next(self, ok: bool, action: CaptureAction) -> (r: CaptureStep)
        ensures
            r == self.after(ok, action),
    {
        match self {
            CaptureStep::Open | CaptureStep::Reconnect => {
                if ok {
                    CaptureStep::Switch
                } else {
                    CaptureStep::Stopped
                }
            },
            CaptureStep::Switch => CaptureStep::Acquire,
            CaptureStep::Acquire => {
                if action == CaptureAction::Reconnect {
                    CaptureStep::Reconnect
                } else {
                    CaptureStep::Switch
                }
            },
            CaptureStep::Stopped => CaptureStep::Stopped,
        }
    }
}

/// The thread stops exactly where opening or reconnecting fails, it reconnects
/// exactly after an error of waiting for a frame, and before each frame it looks
/// at which monitor is wanted.
pub proof fn law_capture_course(step: CaptureStep, ok: bool, action: CaptureAction)
    requires
        step != CaptureStep::Stopped,
    ensures
        step.after(ok, action) == CaptureStep::Stopped <==> !ok && (step == CaptureStep::Open
            || step == CaptureStep::Reconnect),
        step.after(ok, action) == CaptureStep::Reconnect <==> step == CaptureStep::Acquire && action
            == CaptureAction::Reconnect,
        step.after(ok, action) == CaptureStep::Acquire <==> step == CaptureStep::Switch,
{
}

/// A switch is asked for exactly where another monitor is wanted than is being
/// captured, and it goes to the wanted one: carrying it out makes the wanted
/// monitor the captured one.
pub proof fn law_wanted_monitor_is_switched_to(capturer: Capturer, wanted: u32)
    ensures
        capturer.switch_to(wanted) is None <==> wanted == capturer.output_idx,
        wanted != capturer.output_idx ==> capturer.switch_to(wanted) == Some(wanted),
{
}

/// Each byte of the copy is that byte of that pixel in the source, where rows
/// start `pitch` bytes apart, and the copy holds four bytes per pixel and no
/// more.
pub proof fn law_bytes_kept(
    src: Seq<u8>,
    pitch: int,
    width: int,
    height: int,
    x: int,
    y: int,
    k: int,
)
    requires
        0 <= x < width,
        0 <= y < height,
        0 <= k < 4,
    ensures
        unpadded(src, pitch, width, height).len() == width * height * 4,
        0 <= (y * width + x) * 4 + k < width * height * 4,
        unpadded(src, pitch, width, height)[(y * width + x) * 4 + k] == src[y * pitch + x * 4 + k],
{
    let bw = width * 4;
    let at = (y * width + x) * 4 + k;
    assert(at == bw * y + x * 4 + k) by (nonlinear_arith)
        requires
            at == (y * width + x) * 4 + k,
            bw == width * 4,
    ;
    assert(0 <= bw * y && bw * y + bw <= width * height * 4) by (nonlinear_arith)
        requires
            bw == width * 4,
            0 <= y < height,
            0 < width,
    ;
    assert(y * bw == bw * y) by (nonlinear_arith);
    lemma_fundamental_div_mod_converse(at, bw, y, x * 4 + k);
}

/// An empty picture has no bytes.
pub proof fn law_empty_picture(src: Seq<u8>, pitch: int, width: int, height: int)
    requires
        width == 0 || height == 0,
    ensures
        unpadded(src, pitch, width, height).len() == 0,
{
    assert(width * height * 4 == 0) by (nonlinear_arith)
        requires
            width == 0 || height == 0,
    ;
}

/// Bytes can be read as rows exactly where they are whole rows and a row holds
/// its pixels; a mapped frame is accepted exactly where that holds of the size
/// of the capture, and a failure always.
pub proof fn law_readable_rows(capturer: Capturer, src: Seq<u8>, pitch: int, acquired: Acquisition)
    ensures
        rows_fit(src, pitch, capturer.width as int, capturer.height as int) <==> {
            &&& src.len() == pitch * capturer.height
            &&& capturer.height == 0 || capturer.width * 4 <= pitch
        },
        capturer.accepts(acquired) <==> match acquired {
            Acquisition::Mapped { row_pitch, bytes } => {
                &&& bytes@.len() == row_pitch * capturer.height
                &&& capturer.height == 0 || capturer.width * 4 <= row_pitch
            },
            _ => true,
        },
{
}

/// A frame is well-formed exactly where it holds four bytes per pixel, and a
/// pixel consists of four bytes in a row.
pub proof fn law_frame_layout(frame: Frame, x: int, y: int, k: int)
    requires
        frame.wf(),
        0 <= x < frame.width,
        0 <= y < frame.height,
        0 <= k < 4,
    ensures
        frame.data@.len() == frame.width * frame.height * 4,
        frame.pixel(x, y).len() == 4,
        frame.pixel(x, y)[k] == frame.data@[(y * frame.width + x) * 4 + k],
{
    let w = frame.width as int;
    let h = frame.height as int;
    let at = (y * w + x) * 4;
    assert(0 <= at && at + 4 <= w * h * 4) by (nonlinear_arith)
        requires
            at == (y * w + x) * 4,
            0 <= x < w,
            0 <= y < h,
    ;
}

/// The capture thread never opens twice, and once stopped it stays so; after
/// every other step than one that stops it, reconnects or waits for a frame it
/// looks at which monitor is wanted.
pub proof fn law_capture_loops(step: CaptureStep, ok: bool, action: CaptureAction)
    ensures
        step.after(ok, action) != CaptureStep::Open,
        step == CaptureStep::Stopped ==> step.after(ok, action) == CaptureStep::Stopped,
        step.after(ok, action) == CaptureStep::Switch <==> {
            ||| ok && (step == CaptureStep::Open || step == CaptureStep::Reconnect)
            ||| step == CaptureStep::Acquire && action != CaptureAction::Reconnect
        },
{
}

/// An error is retried exactly after a timeout, and the device is made anew
/// exactly where it is gone; after every other error the duplication is.
pub proof fn law_recovery(code: i32)
    ensures
        recovery_of(code) == Recovery::Retry <==> code == DXGI_ERROR_WAIT_TIMEOUT,
        recovery_of(code) == Recovery::RecreateDevice <==> code == DXGI_ERROR_DEVICE_REMOVED,
{
}

/// From waiting to what is done: a mapped frame is published, whole, a timeout
/// is waited out, and every other failure leads to a reconnection, with its own
/// code.
pub proof fn law_outcomes_are_acted_on(
    capturer: Capturer,
    acquired: Acquisition,
    r: Result<Option<Frame>, i32>,
)
    requires
        capturer.yields(acquired, r),
    ensures
        action_for(r) == CaptureAction::Publish <==> acquired is Mapped,
        action_for(r) == CaptureAction::Wait <==> (acquired matches Acquisition::Failed(code)
            && code == DXGI_ERROR_WAIT_TIMEOUT),
        acquired matches Acquisition::Lost(code) ==> r == Err::<Option<Frame>, i32>(code),
        acquired matches Acquisition::Failed(code) ==> (code != DXGI_ERROR_WAIT_TIMEOUT ==> r
            == Err::<Option<Frame>, i32>(code)),
        acquired matches Acquisition::Mapped { row_pitch, bytes } ==> {
            &&& r matches Ok(Some(frame))
            &&& frame.width == capturer.width
            &&& frame.height == capturer.height
            &&& forall|x: int, y: int, k: int|
                0 <= x < capturer.width && 0 <= y < capturer.height && 0 <= k < 4
                    ==> #[trigger] frame.data@[(y * capturer.width + x) * 4 + k] == bytes@[y
                    * row_pitch + x * 4 + k]
        },
{
    if let Acquisition::Mapped { row_pitch, bytes } = acquired {
        let w = capturer.width as int;
        let h = capturer.height as int;
        let data = unpadded(bytes@, row_pitch as int, w, h);
        assert forall|x: int, y: int, k: int|
            0 <= x < w && 0 <= y < h && 0 <= k < 4 implies #[trigger] data[(y * w + x) * 4 + k]
            == bytes@[y * row_pitch + x * 4 + k] by {
            law_bytes_kept(bytes@, row_pitch as int, w, h, x, y, k);
        }
    }
}

/// Once a monitor was opened it is the captured one, in its own size, and it is
/// not switched to again; where opening it failed everything stays.
pub proof fn law_opened_monitor_is_captured(
    capturer: Capturer,
    idx: u32,
    width: u32,
    height: u32,
    code: i32,
)
    ensures
        ({
            let after = capturer.reopened(idx, Ok((width, height)));
            &&& after.output_idx == idx
            &&& after.width == width
            &&& after.height == height
            &&& after.switch_to(idx) is None
        }),
        capturer.reopened(idx, Err(code)) == capturer,
{
}

} // verus!
