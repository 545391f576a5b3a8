//! The overlay window: what each tick of its timer does to the window, to the
//! docked panel, to the cursor and to the picture.
//!
//! [`WindowData`] remembers what is currently applied. A tick compares it with
//! the settings, performs the [`Action`]s that lead from one to the other, and
//! records the outcome.

use vstd::prelude::*;

use crate::appbar::{
    panel_fits, register, registration, reposition, repositioning, strip_fits, AppBarCall,
    ABN_POSCHANGED,
};
use crate::geometry::{
    larger, rect_dims, rect_size, signed, to_signed, window_dims, window_size, Rect, SURFACE_MIN,
};
use crate::gfx::{TextureUpload, WgpuState};
use crate::outputs::{
    assumed_output, fallback_output, find_output, output_at, OutputInfo,
};
use crate::state::{AppState, DisplayMode};

verus! {

// Window messages.
pub const WM_DESTROY: u32 = 2;

pub const WM_NCHITTEST: u32 = 132;

pub const WM_TIMER: u32 = 275;

/// What a window message means to the overlay.
#[derive(Debug, Clone, Copy, PartialEq, Eq, Structural)]
pub enum WindowEvent {
    /// The shell calls back about the docked panel.
    AppBar,
    /// The window is going away: leave the message loop.
    Destroy,
    /// The mouse is over the window: let it through.
    HitTest,
    /// The timer ticks.
    Timer,
    /// Anything else: up to the system.
    Other,
}

/// What the message `msg` means where the shell calls back by `callback_msg`.
pub open spec fn event_of(msg: u32, callback_msg: u32) -> WindowEvent {
    if msg != 0 && msg == callback_msg {
        WindowEvent::AppBar
    } else if msg == WM_DESTROY {
        WindowEvent::Destroy
    } else if msg == WM_NCHITTEST {
        WindowEvent::HitTest
    } else if msg == WM_TIMER {
        WindowEvent::Timer
    } else {
        WindowEvent::Other
    }
}

/// What the message `msg` means where the shell calls back by `callback_msg`
/// (zero while there is no such message).
pub fn classify_message(msg: u32, callback_msg: u32) -> (r: WindowEvent)
    ensures
        r == event_of(msg, callback_msg),
        r == if msg != 0 && msg == callback_msg {
            WindowEvent::AppBar
        } else if msg == WM_DESTROY {
            WindowEvent::Destroy
        } else if msg == WM_NCHITTEST {
            WindowEvent::HitTest
        } else if msg == WM_TIMER {
            WindowEvent::Timer
        } else {
            WindowEvent::Other
        },
{
    if msg != 0 && msg == callback_msg {
        return WindowEvent::AppBar;
    }
    match msg {
        WM_DESTROY => WindowEvent::Destroy,
        WM_NCHITTEST => WindowEvent::HitTest,
        WM_TIMER => WindowEvent::Timer,
        _ => WindowEvent::Other,
    }
}

/// Whether the cursor is hidden or shown, as wanted, at this count.
pub open spec fn counter_settled(hide: bool, counter: int) -> bool {
    if hide {
        counter < 0
    } else {
        counter >= 0
    }
}

/// Whether the display counter of the cursor has crossed its threshold: below
/// zero the cursor is hidden.
pub fn cursor_settled(hide: bool, counter: i32) -> (r: bool)
    ensures
        r == counter_settled(hide, counter as int),
        r == (hide == (counter < 0)),
{
    if hide {
        counter < 0
    } else {
        counter >= 0
    }
}

/// The part of the settings that is currently applied to the window.
#[derive(Debug, Clone, Copy, PartialEq, Eq, Structural)]
pub struct Applied {
    pub enabled: bool,
    pub mode: DisplayMode,
    pub panel_size: u32,
    /// Whether the window is registered as a toolbar.
    pub appbar_active: bool,
    /// Whether the hardware cursor is hidden.
    pub cursor_hidden: bool,
}

/// Something that is done to the window, the panel or the cursor.
#[derive(Debug, Clone, Copy, PartialEq, Eq, Structural)]
pub enum Action {
    /// Give the claimed screen edge back.
    Unregister,
    /// Claim a screen edge.
    Register(AppBarCall),
    /// Move the claim.
    Reposition(AppBarCall),
    /// Move the window to a rectangle.
    MoveTo(Rect),
    /// Move the window to the rectangle that the shell granted last.
    MoveToClaim,
    HideWindow,
    ShowWindow,
    HideCursor,
    ShowCursor,
}

/// What was last written to the shader besides the crop rectangle.
#[derive(Debug, Clone, Copy, PartialEq, Eq, Structural)]
pub struct Uniforms {
    pub color_mode: u32,
    pub interp_mode: u32,
    pub cursor_x: u32,
    pub cursor_y: u32,
}

/// A frame that the capture has produced. Each has a number of its own.
#[derive(Debug, Clone, Copy, PartialEq, Eq, Structural)]
pub struct FrameRef {
    pub id: u64,
    pub width: u32,
    pub height: u32,
}

/// The consequence of the cursor entering another monitor.
#[derive(Debug, Clone, Copy, PartialEq, Eq, Structural)]
pub struct Follow {
    /// The monitor that is to be captured from now on.
    pub output: u32,
    /// Where the window goes.
    pub move_to: Option<Rect>,
}

/// What the overlay window remembers from tick to tick.
#[derive(Debug, Clone, Copy, PartialEq, Eq, Structural)]
pub struct WindowData {
    pub wgpu: WgpuState,
    /// The monitor that is being magnified.
    pub active: OutputInfo,
    /// The message by which the shell calls back.
    pub callback_msg: u32,
    pub cur: Applied,
    /// The rectangle that the shell granted last, while an edge is claimed.
    pub granted: Option<Rect>,
    /// The frame that is on the graphics device.
    pub last_frame: Option<u64>,
    pub uniforms: Uniforms,
}

/// Nothing is shown and nothing is claimed.
pub open spec fn nothing_applied() -> Applied {
    Applied {
        enabled: false,
        mode: DisplayMode::Fullscreen,
        panel_size: 300,
        appbar_active: false,
        cursor_hidden: false,
    }
}

/// Values that no picture has, so that the first one is written.
pub open spec fn nothing_written() -> Uniforms {
    Uniforms {
        color_mode: u32::MAX,
        interp_mode: u32::MAX,
        cursor_x: u32::MAX,
        cursor_y: u32::MAX,
    }
}

/// The monitor that the overlay starts on.
pub open spec fn first_output(outputs: Seq<OutputInfo>) -> OutputInfo {
    if outputs.len() > 0 {
        outputs[0]
    } else {
        assumed_output()
    }
}

/// Whether the settings ask for something that is not applied.
pub open spec fn needs_transition(cur: Applied, want: AppState) -> bool {
    ||| want.enabled != cur.enabled
    ||| want.enabled && want.display_mode != cur.mode
    ||| want.enabled && want.panel_size != cur.panel_size
}

/// Whether the transition to `want` asks the shell for a rectangle.
pub open spec fn claims_edge(cur: Applied, want: AppState) -> bool {
    needs_transition(cur, want) && want.enabled && want.display_mode is Docked
}

/// Whether the window or its mode changes, rather than the panel size alone.
pub open spec fn switches(cur: Applied, want: AppState) -> bool {
    want.enabled != cur.enabled || want.enabled && want.display_mode != cur.mode
}

/// Gives back what is claimed.
pub open spec fn release(cur: Applied) -> Seq<Action> {
    if cur.appbar_active {
        seq![Action::Unregister]
    } else {
        seq![]
    }
}

/// Brings the window where its mode wants it.
pub open spec fn place(want: AppState, active: OutputInfo, callback_msg: u32) -> Seq<Action> {
    match want.display_mode {
        DisplayMode::Fullscreen => seq![Action::MoveTo(active.area())],
        DisplayMode::Docked(edge) => seq![
            Action::Register(
                registration(
                    edge,
                    to_signed(want.panel_size),
                    to_signed(active.width),
                    to_signed(active.height),
                    callback_msg,
                ),
            ),
            Action::MoveToClaim,
        ],
    }
}

/// Hides the cursor, unless it is hidden.
pub open spec fn hide_cursor(cur: Applied) -> Seq<Action> {
    if cur.cursor_hidden {
        seq![]
    } else {
        seq![Action::HideCursor]
    }
}

/// Shows the cursor again, where it is hidden.
pub open spec fn show_cursor(cur: Applied) -> Seq<Action> {
    if cur.cursor_hidden {
        seq![Action::ShowCursor]
    } else {
        seq![]
    }
}

/// The actions that lead from what is applied to what is wanted, in order.
pub open spec fn transition(
    cur: Applied,
    want: AppState,
    active: OutputInfo,
    callback_msg: u32,
) -> Seq<Action> {
    if want.enabled != cur.enabled {
        if want.enabled {
            release(cur) + place(want, active, callback_msg) + seq![Action::ShowWindow] + if want.display_mode
                == DisplayMode::Fullscreen {
                hide_cursor(cur)
            } else {
                seq![]
            }
        } else {
            release(cur) + seq![Action::HideWindow] + show_cursor(cur)
        }
    } else if want.enabled && want.display_mode != cur.mode {
        release(cur) + place(want, active, callback_msg) + if want.display_mode
            == DisplayMode::Fullscreen {
            hide_cursor(cur)
        } else {
            show_cursor(cur)
        }
    } else if want.enabled && want.panel_size != cur.panel_size {
        match want.display_mode {
            DisplayMode::Fullscreen => seq![],
            DisplayMode::Docked(edge) => seq![
                Action::Reposition(
                    repositioning(
                        edge,
                        to_signed(want.panel_size),
                        to_signed(active.width),
                        to_signed(active.height),
                    ),
                ),
                Action::MoveToClaim,
            ],
        }
    } else {
        seq![]
    }
}

/// What is applied once the actions are done.
pub open spec fn settled(cur: Applied, want: AppState) -> Applied {
    if !needs_transition(cur, want) {
        cur
    } else {
        Applied {
            enabled: want.enabled,
            mode: want.display_mode,
            panel_size: want.panel_size,
            appbar_active: if switches(cur, want) {
                want.enabled && want.display_mode is Docked
            } else {
                cur.appbar_active
            },
            cursor_hidden: if !switches(cur, want) {
                cur.cursor_hidden
            } else if !want.enabled {
                false
            } else if want.display_mode == DisplayMode::Fullscreen {
                true
            } else if !cur.enabled {
                cur.cursor_hidden
            } else {
                false
            },
        }
    }
}

/// The rectangle that a transition moves the window to, where it moves it.
pub open spec fn destination(
    cur: Applied,
    want: AppState,
    active: OutputInfo,
    claimed: Option<Rect>,
) -> Option<Rect> {
    if !want.enabled || !needs_transition(cur, want) {
        None
    } else if want.display_mode is Docked {
        claimed
    } else if switches(cur, want) {
        Some(active.area())
    } else {
        None
    }
}

/// The rectangle that is granted once the actions are done.
pub open spec fn holds_claim(
    cur: Applied,
    want: AppState,
    granted: Option<Rect>,
    claimed: Option<Rect>,
) -> Option<Rect> {
    if claims_edge(cur, want) {
        claimed
    } else if switches(cur, want) {
        None
    } else {
        granted
    }
}

/// The graphics state after the window has been moved to `to`.
pub open spec fn surface_for(wgpu: WgpuState, to: Option<Rect>) -> WgpuState {
    match to {
        Some(r) => wgpu.resized(
            larger(r.width(), SURFACE_MIN as int),
            larger(r.height(), SURFACE_MIN as int),
        ),
        None => wgpu,
    }
}

impl WindowData {
    /// The monitor's far corner can be held in an `i32`.
    pub open spec fn wf(self) -> bool {
        self.active.wf()
    }

    /// The strip that the transition claims can be described.
    pub open spec fn placeable(self, want: AppState) -> bool {
        claims_edge(self.cur, want) ==> strip_fits(
            want.display_mode->0,
            to_signed(want.panel_size),
            to_signed(self.active.width),
            to_signed(self.active.height),
        )
    }

    /// The state that the overlay starts in: hidden, on the first monitor.
    pub open spec fn initial(outputs: Seq<OutputInfo>, callback_msg: u32) -> WindowData {
        let active = first_output(outputs);
        WindowData {
            wgpu: WgpuState {
                surface_w: larger(active.width as int, SURFACE_MIN as int) as u32,
                surface_h: larger(active.height as int, SURFACE_MIN as int) as u32,
                tex_w: active.width,
                tex_h: active.height,
            },
            active,
            callback_msg,
            cur: nothing_applied(),
            granted: None,
            last_frame: None,
            uniforms: nothing_written(),
        }
    }

    /// Starts hidden, on the first monitor.
    pub fn new(outputs: &Vec<OutputInfo>, callback_msg: u32) -> (r: WindowData)
        requires
            forall|i: int| 0 <= i < outputs@.len() ==> (#[trigger] outputs@[i]).wf(),
        ensures
            r == WindowData::initial(outputs@, callback_msg),
            r.wf(),
    {
        let primary = primary_output(outputs);
        WindowData {
            wgpu: WgpuState::new(primary.width, primary.height, primary.width, primary.height),
            active: primary,
            callback_msg,
            cur: Applied {
                enabled: false,
                mode: DisplayMode::Fullscreen,
                panel_size: 300,
                appbar_active: false,
                cursor_hidden: false,
            },
            granted: None,
            last_frame: None,
            uniforms: Uniforms {
                color_mode: u32::MAX,
                interp_mode: u32::MAX,
                cursor_x: u32::MAX,
                cursor_y: u32::MAX,
            },
        }
    }

    /// Whether the strip that the transition claims can be described.
    pub fn can_place(&self, want: &AppState) -> (r: bool)
        ensures
            r == self.placeable(*want),
    {
        if !self.wants_transition(want) || !want.enabled {
            return true;
        }
        match want.display_mode {
            DisplayMode::Fullscreen => true,
            DisplayMode::Docked(edge) => panel_fits(
                edge,
                signed(want.panel_size),
                signed(self.active.width),
                signed(self.active.height),
            ),
        }
    }

    /// Whether the settings ask for something that is not applied.
    pub fn wants_transition(&self, want: &AppState) -> (r: bool)
        ensures
            r == needs_transition(self.cur, *want),
    {
        want.enabled != self.cur.enabled || (want.enabled && want.display_mode != self.cur.mode)
            || (want.enabled && want.panel_size != self.cur.panel_size)
    }

    /// Adds what brings the window where its mode wants it.
    fn push_place(&self, want: &AppState, actions: &mut Vec<Action>)
        requires
            self.wf(),
            want.display_mode matches DisplayMode::Docked(edge) ==> strip_fits(
                edge,
                to_signed(want.panel_size),
                to_signed(self.active.width),
                to_signed(self.active.height),
            ),
        ensures
            final(actions)@ == old(actions)@ + place(*want, self.active, self.callback_msg),
    {
        match want.display_mode {
            DisplayMode::Fullscreen => {
                actions.push(Action::MoveTo(self.active.rect()));
            },
            DisplayMode::Docked(edge) => {
                let call = register(
                    edge,
                    signed(want.panel_size),
                    signed(self.active.width),
                    signed(self.active.height),
                    self.callback_msg,
                );
                actions.push(Action::Register(call));
                actions.push(Action::MoveToClaim);
            },
        }
        assert(actions@ =~= old(actions)@ + place(*want, self.active, self.callback_msg));
    }

    /// The actions that lead from what is applied to what is wanted, in order.
    pub fn begin_transition(&self, want: &AppState) -> (r: Vec<Action>)
        requires
            self.wf(),
            self.placeable(*want),
        ensures
            r@ == transition(self.cur, *want, self.active, self.callback_msg),
    {
        let mut actions: Vec<Action> = Vec::new();
        let enabled_changed: bool = want.enabled != self.cur.enabled;
        let mode_changed: bool = want.display_mode != self.cur.mode;
        if enabled_changed || (want.enabled && mode_changed) {
            if self.cur.appbar_active {
                actions.push(Action::Unregister);
            }
            assert(actions@ =~= release(self.cur));
            if want.enabled {
                self.push_place(want, &mut actions);
                if enabled_changed {
                    actions.push(Action::ShowWindow);
                }
                if want.display_mode == DisplayMode::Fullscreen {
                    if !self.cur.cursor_hidden {
                        actions.push(Action::HideCursor);
                    }
                } else if !enabled_changed && self.cur.cursor_hidden {
                    actions.push(Action::ShowCursor);
                }
            } else {
                actions.push(Action::HideWindow);
                if self.cur.cursor_hidden {
                    actions.push(Action::ShowCursor);
                }
            }
        } else if want.enabled && want.panel_size != self.cur.panel_size {
            if let DisplayMode::Docked(edge) = want.display_mode {
                let call = reposition(
                    edge,
                    signed(want.panel_size),
                    signed(self.active.width),
                    signed(self.active.height),
                );
                actions.push(Action::Reposition(call));
                actions.push(Action::MoveToClaim);
            }
        }
        assert(actions@ =~= transition(self.cur, *want, self.active, self.callback_msg));
        actions
    }

    /// What is remembered once the actions are done, where the shell granted
    /// the rectangle `claimed`.
    pub open spec fn transitioned(self, want: AppState, claimed: Option<Rect>) -> WindowData {
        WindowData {
            cur: settled(self.cur, want),
            granted: holds_claim(self.cur, want, self.granted, claimed),
            wgpu: surface_for(self.wgpu, destination(self.cur, want, self.active, claimed)),
            ..self
        }
    }

    /// Records that the actions are done. `claimed` is the rectangle that the
    /// shell granted, where it was asked for one. Returns where the window was
    /// moved, if it was.
    pub fn finish_transition(&mut self, want: &AppState, claimed: Option<Rect>) -> (r: Option<Rect>)
        requires
            old(self).wf(),
            claims_edge(old(self).cur, *want) ==> claimed is Some && claimed->0.measurable(),
        ensures
            *final(self) == old(self).transitioned(*want, claimed),
            r == destination(old(self).cur, *want, old(self).active, claimed),
    {
        if !self.wants_transition(want) {
            return None;
        }
        let switching: bool = want.enabled != self.cur.enabled || (want.enabled
            && want.display_mode != self.cur.mode);
        let moved: Option<Rect> = if !want.enabled {
            None
        } else {
            match want.display_mode {
                DisplayMode::Docked(_) => claimed,
                DisplayMode::Fullscreen => if switching {
                    Some(self.active.rect())
                } else {
                    None
                },
            }
        };
        if want.enabled && want.display_mode != DisplayMode::Fullscreen {
            self.granted = claimed;
        } else if switching {
            self.granted = None;
        }
        if switching {
            self.cur.appbar_active = want.enabled && want.display_mode != DisplayMode::Fullscreen;
            if !want.enabled {
                self.cur.cursor_hidden = false;
            } else if want.display_mode == DisplayMode::Fullscreen {
                self.cur.cursor_hidden = true;
            } else if self.cur.enabled {
                self.cur.cursor_hidden = false;
            }
        }
        self.cur.enabled = want.enabled;
        self.cur.mode = want.display_mode;
        self.cur.panel_size = want.panel_size;
        if let Some(rect) = moved {
            let (w, h) = rect_dims(rect);
            self.wgpu.resize(w, h);
        }
        moved
    }

    /// The call by which the panel answers a notification of the shell: where
    /// something moved while the panel is docked, it asks for its edge again.
    pub open spec fn callback_answer(self, wparam: usize) -> Option<AppBarCall> {
        if wparam == ABN_POSCHANGED && self.cur.appbar_active {
            match self.cur.mode {
                DisplayMode::Docked(edge) => Some(
                    repositioning(
                        edge,
                        to_signed(self.cur.panel_size),
                        to_signed(self.active.width),
                        to_signed(self.active.height),
                    ),
                ),
                DisplayMode::Fullscreen => None,
            }
        } else {
            None
        }
    }

    /// Where the notification is answered, the strip of the docked panel can be
    /// described.
    pub open spec fn redockable(self, wparam: usize) -> bool {
        wparam == ABN_POSCHANGED && self.cur.appbar_active && self.cur.mode is Docked ==> strip_fits(
            self.cur.mode->0,
            to_signed(self.cur.panel_size),
            to_signed(self.active.width),
            to_signed(self.active.height),
        )
    }

    /// Whether the strip of the docked panel can be described, where the
    /// notification is answered.
    pub fn can_redock(&self, wparam: usize) -> (r: bool)
        ensures
            r == self.redockable(wparam),
    {
        if wparam != ABN_POSCHANGED || !self.cur.appbar_active {
            return true;
        }
        match self.cur.mode {
            DisplayMode::Docked(edge) => panel_fits(
                edge,
                signed(self.cur.panel_size),
                signed(self.active.width),
                signed(self.active.height),
            ),
            DisplayMode::Fullscreen => true,
        }
    }

    /// Answers a notification of the shell.
    pub fn handle_appbar_callback(&self, wparam: usize) -> (r: Option<AppBarCall>)
        requires
            self.redockable(wparam),
        ensures
            r == self.callback_answer(wparam),
    {
        if wparam != ABN_POSCHANGED || !self.cur.appbar_active {
            return None;
        }
        match self.cur.mode {
            DisplayMode::Docked(edge) => Some(
                reposition(
                    edge,
                    signed(self.cur.panel_size),
                    signed(self.active.width),
                    signed(self.active.height),
                ),
            ),
            DisplayMode::Fullscreen => None,
        }
    }

    /// What is remembered after the shell granted `rect` and the window was moved
    /// there.
    pub open spec fn moved(self, rect: Rect) -> WindowData {
        WindowData { wgpu: surface_for(self.wgpu, Some(rect)), granted: Some(rect), ..self }
    }

    /// Records that the window was moved to the rectangle that the shell
    /// granted after a notification.
    pub fn moved_by_shell(&mut self, rect: Rect)
        requires
            rect.measurable(),
        ensures
            *final(self) == old(self).moved(rect),
    {
        self.granted = Some(rect);
        let (w, h) = rect_dims(rect);
        self.wgpu.resize(w, h);
    }

    /// What is left to do when the message loop ends.
    pub fn close(&self) -> (r: Vec<Action>)
        ensures
            r@ == release(self.cur),
    {
        let mut actions: Vec<Action> = Vec::new();
        if self.cur.appbar_active {
            actions.push(Action::Unregister);
        }
        assert(actions@ =~= release(self.cur));
        actions
    }

    /// The monitor that the cursor has moved to, where it is not the active
    /// one.
    pub open spec fn entered(self, outputs: Seq<OutputInfo>, x: int, y: int) -> Option<OutputInfo> {
        match output_at(outputs, x, y) {
            Some(i) => if outputs[i].idx == self.active.idx {
                None
            } else {
                Some(outputs[i])
            },
            None => None,
        }
    }

    /// What is remembered after the cursor was seen at (`x`, `y`).
    pub open spec fn followed(
        self,
        outputs: Seq<OutputInfo>,
        mode: DisplayMode,
        x: int,
        y: int,
    ) -> WindowData {
        match self.entered(outputs, x, y) {
            None => self,
            Some(o) => {
                let textured = WgpuState { tex_w: o.width, tex_h: o.height, ..self.wgpu };
                WindowData {
                    active: o,
                    last_frame: None,
                    wgpu: if mode == DisplayMode::Fullscreen {
                        textured.resized(o.width as int, o.height as int)
                    } else {
                        textured
                    },
                    ..self
                }
            },
        }
    }

    /// What follows from the cursor being at (`x`, `y`).
    pub open spec fn follow_up(
        self,
        outputs: Seq<OutputInfo>,
        mode: DisplayMode,
        x: int,
        y: int,
    ) -> Option<Follow> {
        match self.entered(outputs, x, y) {
            None => None,
            Some(o) => Some(
                Follow {
                    output: o.idx,
                    move_to: if mode == DisplayMode::Fullscreen {
                        Some(o.area())
                    } else {
                        None
                    },
                },
            ),
        }
    }

    /// Follows the cursor to the monitor it is on. In fullscreen mode the
    /// window goes along; a docked panel stays where it is.
    pub fn follow_cursor(
        &mut self,
        outputs: &Vec<OutputInfo>,
        mode: DisplayMode,
        x: i32,
        y: i32,
    ) -> (r: Option<Follow>)
        requires
            old(self).wf(),
            forall|i: int| 0 <= i < outputs@.len() ==> (#[trigger] outputs@[i]).wf(),
        ensures
            *final(self) == old(self).followed(outputs@, mode, x as int, y as int),
            r == old(self).follow_up(outputs@, mode, x as int, y as int),
            final(self).wf(),
    {
        proof {
            crate::outputs::law_output_at(outputs@, x as int, y as int);
        }
        let target = match find_output(outputs, x, y) {
            Some(target) => target,
            None => {
                return None;
            },
        };
        if target.idx == self.active.idx {
            return None;
        }
        self.active = target;
        self.wgpu.recreate_frame_texture(target.width, target.height);
        self.last_frame = None;
        if mode == DisplayMode::Fullscreen {
            self.wgpu.resize(target.width, target.height);
            Some(Follow { output: target.idx, move_to: Some(target.rect()) })
        } else {
            Some(Follow { output: target.idx, move_to: None })
        }
    }

    /// The upload that a frame needs: none where it is on the device already
    /// or has another size than the texture.
    pub open spec fn upload_of(self, frame: Option<FrameRef>) -> Option<TextureUpload> {
        match frame {
            Some(f) => if self.last_frame == Some(f.id) {
                None
            } else {
                self.wgpu.upload(f.width, f.height)
            },
            None => None,
        }
    }

    /// What is remembered after a frame was offered.
    pub open spec fn offered(self, frame: Option<FrameRef>) -> WindowData {
        match frame {
            Some(f) => WindowData { last_frame: Some(f.id), ..self },
            None => self,
        }
    }

    /// Takes the latest frame of the capture and describes its upload, where
    /// it has not been seen before.
    pub fn offer_frame(&mut self, frame: Option<FrameRef>) -> (r: Option<TextureUpload>)
        requires
            frame matches Some(f) ==> old(self).wgpu.row_countable(f.width, f.height),
        ensures
            r == old(self).upload_of(frame),
            *final(self) == old(self).offered(frame),
    {
        match frame {
            Some(f) => {
                let seen: bool = match self.last_frame {
                    Some(id) => id == f.id,
                    None => false,
                };
                if seen {
                    None
                } else {
                    self.last_frame = Some(f.id);
                    self.wgpu.upload_frame(f.width, f.height)
                }
            },
            None => None,
        }
    }

    /// What is remembered after a picture was drawn with `now`.
    pub open spec fn noted(self, now: Uniforms) -> WindowData {
        WindowData { uniforms: now, ..self }
    }

    /// Notes what the next picture is drawn with and tells whether the shader
    /// has to be told: where the crop rectangle or anything else has changed.
    pub fn note_uniforms(&mut self, crop_changed: bool, now: Uniforms) -> (r: bool)
        ensures
            r == (crop_changed || now != old(self).uniforms),
            *final(self) == old(self).noted(now),
    {
        let changed: bool = crop_changed || now != self.uniforms;
        if changed {
            self.uniforms = now;
        }
        changed
    }

    /// The size of the window: while an edge is claimed, that of the rectangle
    /// that the shell granted, else the one that belongs to the mode.
    pub open spec fn dims(self, want: AppState) -> (int, int) {
        match (want.display_mode, self.granted) {
            (DisplayMode::Docked(_), Some(r)) => (larger(r.width(), 0), larger(r.height(), 0)),
            _ => window_size(
                want.display_mode,
                want.panel_size,
                to_signed(self.active.width) as i32,
                to_signed(self.active.height) as i32,
            ),
        }
    }

    /// The size of the window in pixels, once the settings are applied.
    pub fn current_dims(&self, want: &AppState) -> (dims: (u32, u32))
        ensures
            dims.0 == self.dims(*want).0,
            dims.1 == self.dims(*want).1,
    {
        match (want.display_mode, self.granted) {
            (DisplayMode::Docked(_), Some(r)) => rect_size(r),
            _ => window_dims(
                want.display_mode,
                want.panel_size,
                signed(self.active.width),
                signed(self.active.height),
            ),
        }
    }

    /// What is remembered after the surface was sized anew.
    pub open spec fn recovered(self) -> WindowData {
        WindowData {
            wgpu: self.wgpu.resized(self.wgpu.surface_w as int, self.wgpu.surface_h as int),
            ..self
        }
    }

    /// Sizes the surface anew after it was lost: as it was, which while docked
    /// is the size of the rectangle that the shell granted, but not below the
    /// minimum.
    pub fn recover_surface(&mut self)
        ensures
            *final(self) == old(self).recovered(),
    {
        let (w, h) = (self.wgpu.surface_w, self.wgpu.surface_h);
        self.wgpu.resize(w, h);
    }
}

/// The monitor that the overlay starts on: the first of the list, or the
/// assumed one where the list is empty.
pub fn primary_output(outputs: &Vec<OutputInfo>) -> (r: OutputInfo)
    ensures
        r == first_output(outputs@),
{
    if outputs.len() > 0 {
        outputs[0]
    } else {
        fallback_output()
    }
}

} // verus!
