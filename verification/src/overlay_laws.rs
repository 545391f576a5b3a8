//! What holds of the overlay over many ticks.

use vstd::prelude::*;

use crate::appbar::{registration, repositioning, strip, strip_fits};
use crate::geometry::{larger, to_signed, window_size, Rect, SURFACE_MIN};
use crate::gfx::WgpuState;
use crate::outputs::{
    assumed_output, distinct, law_found_where_it_lies, law_output_at, lies_on, output_at, OutputInfo,
};
use crate::overlay::{
    claims_edge, counter_settled, destination, event_of, hide_cursor, needs_transition, nothing_applied, nothing_written, place,
    release, settled, show_cursor, surface_for, switches, transition, Action, Applied, FrameRef, Uniforms,
    WindowData, WindowEvent,
};
use crate::state::{AppState, DisplayMode, Edge};

verus! {

/// The panel is claimed exactly while the magnifier is on and docked, and the
/// cursor is hidden exactly while it is on and fills the screen.
pub open spec fn consistent(cur: Applied) -> bool {
    &&& cur.appbar_active == (cur.enabled && cur.mode is Docked)
    &&& cur.cursor_hidden == (cur.enabled && cur.mode == DisplayMode::Fullscreen)
}

/// The state of the desktop, as far as the overlay changes it.
pub ghost struct Desktop {
    pub registered: bool,
    pub visible: bool,
    pub cursor_hidden: bool,
}

/// The desktop that goes with what is applied.
pub open spec fn desktop_of(cur: Applied) -> Desktop {
    Desktop {
        registered: cur.appbar_active,
        visible: cur.enabled,
        cursor_hidden: cur.cursor_hidden,
    }
}

/// The desktop after an action; nothing where the action is out of place, such
/// as a second registration or a removal without one.
pub open spec fn perform(d: Option<Desktop>, action: Action) -> Option<Desktop> {
    match d {
        None => None,
        Some(d) => match action {
            Action::Unregister => if d.registered {
                Some(Desktop { registered: false, ..d })
            } else {
                None
            },
            Action::Register(_) => if d.registered {
                None
            } else {
                Some(Desktop { registered: true, ..d })
            },
            Action::Reposition(_) => if d.registered {
                Some(d)
            } else {
                None
            },
            Action::MoveTo(_) => Some(d),
            Action::MoveToClaim => if d.registered {
                Some(d)
            } else {
                None
            },
            Action::HideWindow => if d.visible {
                Some(Desktop { visible: false, ..d })
            } else {
                None
            },
            Action::ShowWindow => if d.visible {
                None
            } else {
                Some(Desktop { visible: true, ..d })
            },
            Action::HideCursor => if d.cursor_hidden {
                None
            } else {
                Some(Desktop { cursor_hidden: true, ..d })
            },
            Action::ShowCursor => if d.cursor_hidden {
                Some(Desktop { cursor_hidden: false, ..d })
            } else {
                None
            },
        },
    }
}

/// The desktop after a series of actions.
pub open spec fn perform_all(d: Option<Desktop>, actions: Seq<Action>) -> Option<Desktop>
    decreases actions.len(),
{
    if actions.len() == 0 {
        d
    } else {
        perform(perform_all(d, actions.drop_last()), actions.last())
    }
}

/// One tick: the settings that were found and the monitor that was active.
pub ghost struct Tick {
    pub want: AppState,
    pub active: OutputInfo,
}

/// What is applied after a series of ticks.
pub open spec fn history(ticks: Seq<Tick>) -> Applied
    decreases ticks.len(),
{
    if ticks.len() == 0 {
        nothing_applied()
    } else {
        settled(history(ticks.drop_last()), ticks.last().want)
    }
}

/// All actions of a series of ticks.
pub open spec fn all_actions(ticks: Seq<Tick>, callback_msg: u32) -> Seq<Action>
    decreases ticks.len(),
{
    if ticks.len() == 0 {
        seq![]
    } else {
        let before = ticks.drop_last();
        all_actions(before, callback_msg) + transition(
            history(before),
            ticks.last().want,
            ticks.last().active,
            callback_msg,
        )
    }
}

proof fn lemma_perform_concat(d: Option<Desktop>, a: Seq<Action>, b: Seq<Action>)
    ensures
        perform_all(d, a + b) == perform_all(perform_all(d, a), b),
    decreases b.len(),
{
    if b.len() == 0 {
        assert(a + b =~= a);
    } else {
        assert((a + b).drop_last() =~= a + b.drop_last());
        lemma_perform_concat(d, a, b.drop_last());
    }
}

proof fn lemma_perform_short(d: Option<Desktop>, a: Action, b: Action)
    ensures
        perform_all(d, seq![]) == d,
        perform_all(d, seq![a]) == perform(d, a),
        perform_all(d, seq![a, b]) == perform(perform(d, a), b),
{
    assert(seq![a, b].drop_last() =~= seq![a]);
    assert(seq![a].drop_last() =~= Seq::<Action>::empty());
    reveal_with_fuel(perform_all, 3);
}

proof fn lemma_perform_place(d: Desktop, want: AppState, active: OutputInfo, callback_msg: u32)
    requires
        !d.registered,
    ensures
        perform_all(Some(d), place(want, active, callback_msg)) == Some(
            Desktop { registered: want.display_mode is Docked, ..d },
        ),
{
    match want.display_mode {
        DisplayMode::Fullscreen => {
            lemma_perform_short(Some(d), Action::MoveTo(active.area()), Action::MoveToClaim);
        },
        DisplayMode::Docked(edge) => {
            let call = registration(
                edge,
                to_signed(want.panel_size),
                to_signed(active.width),
                to_signed(active.height),
                callback_msg,
            );
            lemma_perform_short(Some(d), Action::Register(call), Action::MoveToClaim);
        },
    }
}

/// Whatever the settings change to, the panel is claimed exactly while the
/// magnifier is on and docked, and the cursor is hidden exactly while it is on
/// and fills the screen.
pub proof fn law_stays_consistent(cur: Applied, want: AppState)
    requires
        consistent(cur),
    ensures
        consistent(settled(cur, want)),
        consistent(nothing_applied()),
{
}

/// A transition brings the desktop from the state that goes with what was
/// applied to the state that goes with what is applied afterwards, and no
/// action is out of place.
pub proof fn law_transition_performs(
    cur: Applied,
    want: AppState,
    active: OutputInfo,
    callback_msg: u32,
)
    requires
        consistent(cur),
    ensures
        perform_all(Some(desktop_of(cur)), transition(cur, want, active, callback_msg)) == Some(
            desktop_of(settled(cur, want)),
        ),
{
    let d0 = desktop_of(cur);
    let d1 = Desktop { registered: false, ..d0 };
    lemma_perform_short(Some(d0), Action::Unregister, Action::Unregister);
    if want.enabled != cur.enabled || want.enabled && want.display_mode != cur.mode {
        assert(perform_all(Some(d0), release(cur)) == Some(d1));
        if want.enabled {
            let placed = release(cur) + place(want, active, callback_msg);
            let d2 = Desktop { registered: want.display_mode is Docked, ..d1 };
            lemma_perform_concat(Some(d0), release(cur), place(want, active, callback_msg));
            lemma_perform_place(d1, want, active, callback_msg);
            assert(perform_all(Some(d0), placed) == Some(d2));
            let d3 = Desktop { visible: true, ..d2 };
            let tail = if want.display_mode == DisplayMode::Fullscreen {
                hide_cursor(cur)
            } else if want.enabled != cur.enabled {
                seq![]
            } else {
                show_cursor(cur)
            };
            lemma_perform_short(Some(d2), Action::ShowWindow, Action::ShowWindow);
            lemma_perform_short(Some(d3), Action::HideCursor, Action::HideCursor);
            lemma_perform_short(Some(d3), Action::ShowCursor, Action::ShowCursor);
            if want.enabled != cur.enabled {
                let shown = placed + seq![Action::ShowWindow];
                lemma_perform_concat(Some(d0), placed, seq![Action::ShowWindow]);
                lemma_perform_concat(Some(d0), shown, tail);
            } else {
                lemma_perform_concat(Some(d0), placed, tail);
            }
        } else {
            let hidden = release(cur) + seq![Action::HideWindow];
            let d2 = Desktop { visible: false, ..d1 };
            lemma_perform_short(Some(d1), Action::HideWindow, Action::HideWindow);
            lemma_perform_short(Some(d2), Action::ShowCursor, Action::ShowCursor);
            lemma_perform_concat(Some(d0), release(cur), seq![Action::HideWindow]);
            lemma_perform_concat(Some(d0), hidden, show_cursor(cur));
        }
    } else if want.enabled && want.panel_size != cur.panel_size {
        if let DisplayMode::Docked(edge) = want.display_mode {
            let call = repositioning(
                edge,
                to_signed(want.panel_size),
                to_signed(active.width),
                to_signed(active.height),
            );
            lemma_perform_short(Some(d0), Action::Reposition(call), Action::MoveToClaim);
        }
    }
}

/// Over any series of ticks no action is out of place, and at the end the
/// panel is claimed exactly while the magnifier is on and docked, the window is
/// visible exactly while it is on, and the cursor is hidden exactly while it is
/// on and fills the screen.
pub proof fn law_history(ticks: Seq<Tick>, callback_msg: u32)
    ensures
        consistent(history(ticks)),
        perform_all(Some(desktop_of(nothing_applied())), all_actions(ticks, callback_msg)) == Some(
            desktop_of(history(ticks)),
        ),
    decreases ticks.len(),
{
    if ticks.len() > 0 {
        let before = ticks.drop_last();
        let last = ticks.last();
        law_history(before, callback_msg);
        law_transition_performs(history(before), last.want, last.active, callback_msg);
        lemma_perform_concat(
            Some(desktop_of(nothing_applied())),
            all_actions(before, callback_msg),
            transition(history(before), last.want, last.active, callback_msg),
        );
    }
}

/// Whenever the message loop ends, what is done then leaves no edge of the
/// screen claimed.
pub proof fn law_close_releases(ticks: Seq<Tick>, callback_msg: u32)
    ensures
        perform_all(
            Some(desktop_of(nothing_applied())),
            all_actions(ticks, callback_msg) + release(history(ticks)),
        ) == Some(Desktop { registered: false, ..desktop_of(history(ticks)) }),
{
    let d = Some(desktop_of(history(ticks)));
    law_history(ticks, callback_msg);
    lemma_perform_concat(
        Some(desktop_of(nothing_applied())),
        all_actions(ticks, callback_msg),
        release(history(ticks)),
    );
    lemma_perform_short(d, Action::Unregister, Action::Unregister);
}

/// What is applied is what was wanted: a second tick with the same settings
/// does nothing.
pub proof fn law_settles_at_once(
    cur: Applied,
    want: AppState,
    active: OutputInfo,
    callback_msg: u32,
)
    ensures
        !needs_transition(settled(cur, want), want),
        transition(settled(cur, want), want, active, callback_msg) == Seq::<Action>::empty(),
        settled(settled(cur, want), want) == settled(cur, want),
{
}

/// The transition table: what is done in each change of the settings.
pub proof fn law_transition_table(
    cur: Applied,
    want: AppState,
    active: OutputInfo,
    callback_msg: u32,
)
    requires
        consistent(cur),
    ensures
        ({
            let actions = transition(cur, want, active, callback_msg);
            let full = Action::MoveTo(active.area());
            let claim = |edge: Edge|
                Action::Register(
                    registration(
                        edge,
                        to_signed(want.panel_size),
                        to_signed(active.width),
                        to_signed(active.height),
                        callback_msg,
                    ),
                );
            let shift = |edge: Edge|
                Action::Reposition(
                    repositioning(
                        edge,
                        to_signed(want.panel_size),
                        to_signed(active.width),
                        to_signed(active.height),
                    ),
                );
            match (cur.enabled, cur.mode, want.enabled, want.display_mode) {
                (false, _, false, _) => actions == Seq::<Action>::empty(),
                (false, _, true, DisplayMode::Fullscreen) => actions == seq![
                    full,
                    Action::ShowWindow,
                    Action::HideCursor,
                ],
                (false, _, true, DisplayMode::Docked(e)) => actions == seq![
                    claim(e),
                    Action::MoveToClaim,
                    Action::ShowWindow,
                ],
                (true, DisplayMode::Fullscreen, true, DisplayMode::Docked(e)) => actions == seq![
                    claim(e),
                    Action::MoveToClaim,
                    Action::ShowCursor,
                ],
                (true, DisplayMode::Docked(a), true, DisplayMode::Docked(b)) => if a != b {
                    actions == seq![Action::Unregister, claim(b), Action::MoveToClaim]
                } else if want.panel_size != cur.panel_size {
                    actions == seq![shift(b), Action::MoveToClaim]
                } else {
                    actions == Seq::<Action>::empty()
                },
                (true, DisplayMode::Docked(_), true, DisplayMode::Fullscreen) => actions == seq![
                    Action::Unregister,
                    full,
                    Action::HideCursor,
                ],
                (true, DisplayMode::Fullscreen, true, DisplayMode::Fullscreen) => actions == Seq::<
                    Action,
                >::empty(),
                (true, DisplayMode::Docked(_), false, _) => actions == seq![
                    Action::Unregister,
                    Action::HideWindow,
                ],
                (true, DisplayMode::Fullscreen, false, _) => actions == seq![
                    Action::HideWindow,
                    Action::ShowCursor,
                ],
            }
        }),
{
}

/// Switching the magnifier off leaves the window where it is and its surface
/// as it is; only what was claimed is given back.
pub proof fn law_disabling_does_not_move(
    data: WindowData,
    want: AppState,
    claimed: Option<Rect>,
)
    requires
        !want.enabled,
    ensures
        forall|i: int|
            0 <= i < transition(data.cur, want, data.active, data.callback_msg).len() ==> {
                let a = #[trigger] transition(data.cur, want, data.active, data.callback_msg)[i];
                a == Action::Unregister || a == Action::HideWindow || a == Action::ShowCursor
            },
        destination(data.cur, want, data.active, claimed) is None,
        surface_for(data.wgpu, destination(data.cur, want, data.active, claimed)) == data.wgpu,
{
}

/// The surface that a transition leaves behind is never below the minimum.
pub proof fn law_moved_surface_not_empty(
    data: WindowData,
    want: AppState,
    claimed: Option<Rect>,
)
    requires
        data.wf(),
        claims_edge(data.cur, want) ==> claimed is Some && claimed->0.measurable(),
        data.wgpu.surface_w >= SURFACE_MIN,
        data.wgpu.surface_h >= SURFACE_MIN,
    ensures
        ({
            let to = destination(data.cur, want, data.active, claimed);
            let after = surface_for(data.wgpu, to);
            after.surface_w >= SURFACE_MIN && after.surface_h >= SURFACE_MIN
        }),
{
}

/// After the cursor was followed, the active monitor is the one that the
/// cursor is on, as long as the cursor is on a listed monitor, no number is
/// listed twice and the active monitor is one of the list.
pub proof fn law_follow_reaches_cursor(
    data: WindowData,
    outputs: Seq<OutputInfo>,
    mode: DisplayMode,
    x: int,
    y: int,
)
    requires
        output_at(outputs, x, y) is Some,
        outputs.contains(data.active),
        distinct(outputs),
    ensures
        data.followed(outputs, mode, x, y).active.shows(x, y),
        outputs.contains(data.followed(outputs, mode, x, y).active),
        data.followed(outputs, mode, x, y).followed(outputs, mode, x, y) == data.followed(
            outputs,
            mode,
            x,
            y,
        ),
{
    law_output_at(outputs, x, y);
    let i = output_at(outputs, x, y)->0;
    let k = choose|k: int| 0 <= k < outputs.len() && outputs[k] == data.active;
    assert(outputs.contains(outputs[i]));
    if outputs[i].idx == data.active.idx {
        assert(i == k) by {
            if i < k {
                assert(outputs[i].idx != outputs[k].idx);
            } else if k < i {
                assert(outputs[k].idx != outputs[i].idx);
            }
        }
    }
}

/// Where the window follows the cursor to another monitor, it covers exactly
/// that monitor, the cursor included; a docked panel does not move.
pub proof fn law_follow_covers_cursor(
    data: WindowData,
    outputs: Seq<OutputInfo>,
    mode: DisplayMode,
    x: int,
    y: int,
)
    requires
        forall|i: int| 0 <= i < outputs.len() ==> (#[trigger] outputs[i]).wf(),
    ensures
        data.follow_up(outputs, mode, x, y) matches Some(f) ==> {
            let after = data.followed(outputs, mode, x, y);
            &&& f.output == after.active.idx
            &&& f.output != data.active.idx
            &&& after.wgpu.tex_w == after.active.width
            &&& after.wgpu.tex_h == after.active.height
            &&& f.move_to is Some <==> mode == DisplayMode::Fullscreen
            &&& f.move_to matches Some(r) ==> r == after.active.area() && r.covers(x, y)
        },
        data.follow_up(outputs, mode, x, y) is None ==> data.followed(outputs, mode, x, y) == data,
{
    law_output_at(outputs, x, y);
}

/// Something that happens to the overlay.
pub ghost enum Event {
    /// A tick finds the settings `want`, and the shell grants `claimed` where
    /// it is asked for a rectangle.
    Tick { want: AppState, claimed: Option<Rect> },
    /// The shell grants a rectangle after a notification.
    Redocked(Rect),
    /// The cursor is seen at a point.
    Cursor { mode: DisplayMode, x: int, y: int },
    /// The capture has a frame, or none yet.
    Offered(Option<FrameRef>),
    /// A picture is drawn.
    Drawn(Uniforms),
    /// The surface is lost.
    SurfaceLost,
}

/// Whatever the shell grants can be measured, it grants something when asked,
/// and it is asked only while the window is docked. The cursor is looked at only
/// while the magnifier is on, after the settings have been applied.
pub open spec fn possible(data: WindowData, event: Event) -> bool {
    match event {
        Event::Tick { want, claimed } => claims_edge(data.cur, want) ==> claimed is Some
            && claimed->0.measurable(),
        Event::Redocked(rect) => data.cur.appbar_active && rect.measurable(),
        Event::Cursor { mode, .. } => data.cur.enabled && mode == data.cur.mode,
        _ => true,
    }
}

/// What is remembered after something has happened.
pub open spec fn after_event(
    data: WindowData,
    outputs: Seq<OutputInfo>,
    event: Event,
) -> WindowData {
    match event {
        Event::Tick { want, claimed } => data.transitioned(want, claimed),
        Event::Redocked(rect) => data.moved(rect),
        Event::Cursor { mode, x, y } => data.followed(outputs, mode, x, y),
        Event::Offered(frame) => data.offered(frame),
        Event::Drawn(uniforms) => data.noted(uniforms),
        Event::SurfaceLost => data.recovered(),
    }
}

/// What is remembered after a series of events.
pub open spec fn after_events(
    data: WindowData,
    outputs: Seq<OutputInfo>,
    events: Seq<Event>,
) -> WindowData
    decreases events.len(),
{
    if events.len() == 0 {
        data
    } else {
        after_event(after_events(data, outputs, events.drop_last()), outputs, events.last())
    }
}

/// Every event of the series is possible when it happens.
pub open spec fn all_possible(
    data: WindowData,
    outputs: Seq<OutputInfo>,
    events: Seq<Event>,
) -> bool
    decreases events.len(),
{
    events.len() > 0 ==> {
        &&& all_possible(data, outputs, events.drop_last())
        &&& possible(after_events(data, outputs, events.drop_last()), events.last())
    }
}

/// What holds of the overlay at all times: what is applied is consistent, a
/// rectangle is granted exactly while the panel is claimed, the
/// active monitor is one of the list, the texture has its size, and the surface
/// is not below the minimum.
pub open spec fn sound(data: WindowData, outputs: Seq<OutputInfo>) -> bool {
    &&& data.wf()
    &&& consistent(data.cur)
    &&& data.granted is Some <==> data.cur.appbar_active
    &&& if outputs.len() > 0 {
        outputs.contains(data.active)
    } else {
        data.active == assumed_output()
    }
    &&& data.wgpu.tex_w == data.active.width
    &&& data.wgpu.tex_h == data.active.height
    &&& data.wgpu.surface_w >= SURFACE_MIN
    &&& data.wgpu.surface_h >= SURFACE_MIN
}

/// Whatever happens, and in whatever order, the overlay stays sound.
pub proof fn law_always_sound(outputs: Seq<OutputInfo>, callback_msg: u32, events: Seq<Event>)
    requires
        forall|i: int| 0 <= i < outputs.len() ==> (#[trigger] outputs[i]).wf(),
        all_possible(WindowData::initial(outputs, callback_msg), outputs, events),
    ensures
        sound(
            after_events(WindowData::initial(outputs, callback_msg), outputs, events),
            outputs,
        ),
    decreases events.len(),
{
    if events.len() == 0 {
        if outputs.len() > 0 {
            assert(outputs.contains(outputs[0]));
        }
    } else {
        law_always_sound(outputs, callback_msg, events.drop_last());
        if let Event::Cursor { x, y, .. } = events.last() {
            law_output_at(outputs, x, y);
            if let Some(i) = output_at(outputs, x, y) {
                assert(outputs.contains(outputs[i]));
            }
        }
    }
}

/// Whatever has happened before, once the cursor is seen on a listed monitor
/// while the magnifier is on, that monitor is the active one, as long as no number is listed twice.
pub proof fn law_monitor_follows(
    outputs: Seq<OutputInfo>,
    callback_msg: u32,
    events: Seq<Event>,
    mode: DisplayMode,
    x: int,
    y: int,
)
    requires
        forall|i: int| 0 <= i < outputs.len() ==> (#[trigger] outputs[i]).wf(),
        distinct(outputs),
        all_possible(WindowData::initial(outputs, callback_msg), outputs, events),
        ({
            let now = after_events(WindowData::initial(outputs, callback_msg), outputs, events);
            now.cur.enabled && now.cur.mode == mode
        }),
        output_at(outputs, x, y) is Some,
    ensures
        after_events(
            WindowData::initial(outputs, callback_msg),
            outputs,
            events.push(Event::Cursor { mode, x, y }),
        ).active.shows(x, y),
{
    let start = WindowData::initial(outputs, callback_msg);
    let event = Event::Cursor { mode, x, y };
    law_always_sound(outputs, callback_msg, events);
    assert(events.push(event).drop_last() =~= events);
    law_output_at(outputs, x, y);
    law_follow_reaches_cursor(after_events(start, outputs, events), outputs, mode, x, y);
}

/// The rectangle that the shell granted last.
pub open spec fn granted_last(
    data: WindowData,
    outputs: Seq<OutputInfo>,
    events: Seq<Event>,
) -> Option<Rect>
    decreases events.len(),
{
    if events.len() == 0 {
        None
    } else {
        let before = events.drop_last();
        match events.last() {
            Event::Tick { want, claimed } => if claims_edge(
                after_events(data, outputs, before).cur,
                want,
            ) {
                claimed
            } else {
                granted_last(data, outputs, before)
            },
            Event::Redocked(rect) => Some(rect),
            _ => granted_last(data, outputs, before),
        }
    }
}

/// While docked, the picture has exactly the size that the shell granted last,
/// whatever size was asked for. The surface has that size too, but not below
/// the minimum, and a lost surface gets it again.
pub proof fn law_docked_surface_as_granted(
    outputs: Seq<OutputInfo>,
    callback_msg: u32,
    events: Seq<Event>,
)
    requires
        forall|i: int| 0 <= i < outputs.len() ==> (#[trigger] outputs[i]).wf(),
        all_possible(WindowData::initial(outputs, callback_msg), outputs, events),
    ensures
        ({
            let start = WindowData::initial(outputs, callback_msg);
            let now = after_events(start, outputs, events);
            &&& now.recovered() == now
            &&& now.cur.enabled && now.cur.mode is Docked ==> {
                &&& granted_last(start, outputs, events) matches Some(r)
                &&& now.granted == Some(r)
                &&& now.wgpu.surface_w == larger(r.width(), SURFACE_MIN as int)
                &&& now.wgpu.surface_h == larger(r.height(), SURFACE_MIN as int)
                &&& forall|want: AppState|
                    want.display_mode == now.cur.mode ==> #[trigger] now.dims(want) == (
                        larger(r.width(), 0),
                        larger(r.height(), 0),
                    )
            }
        }),
    decreases events.len(),
{
    law_always_sound(outputs, callback_msg, events);
    if events.len() > 0 {
        law_always_sound(outputs, callback_msg, events.drop_last());
        law_docked_surface_as_granted(outputs, callback_msg, events.drop_last());
    }
}

/// While the magnifier fills the screen, the picture has the size of the active
/// monitor, and the surface too, but not below the minimum, as long as no
/// monitor is too large for signed coordinates.
pub proof fn law_full_surface_as_monitor(
    outputs: Seq<OutputInfo>,
    callback_msg: u32,
    events: Seq<Event>,
)
    requires
        forall|i: int|
            0 <= i < outputs.len() ==> {
                let o = #[trigger] outputs[i];
                o.wf() && o.width <= i32::MAX && o.height <= i32::MAX
            },
        all_possible(WindowData::initial(outputs, callback_msg), outputs, events),
    ensures
        ({
            let now = after_events(WindowData::initial(outputs, callback_msg), outputs, events);
            now.cur.enabled && now.cur.mode == DisplayMode::Fullscreen ==> {
                &&& now.wgpu.surface_w == larger(now.active.width as int, SURFACE_MIN as int)
                &&& now.wgpu.surface_h == larger(now.active.height as int, SURFACE_MIN as int)
                &&& forall|want: AppState|
                    want.display_mode == now.cur.mode ==> #[trigger] now.dims(want) == (
                        now.active.width as int,
                        now.active.height as int,
                    )
            }
        }),
    decreases events.len(),
{
    if events.len() > 0 {
        law_always_sound(outputs, callback_msg, events.drop_last());
        law_full_surface_as_monitor(outputs, callback_msg, events.drop_last());
    }
}

/// A frame is uploaded at most once: offered again, it is skipped.
pub proof fn law_frame_uploaded_once(data: WindowData, frame: FrameRef)
    ensures
        data.offered(Some(frame)).upload_of(Some(frame)) is None,
        data.offered(Some(frame)).offered(Some(frame)) == data.offered(Some(frame)),
{
}

/// After the active monitor has changed, every frame of the new monitor's size
/// is uploaded, also one that was seen before.
pub proof fn law_monitor_change_uploads_again(
    data: WindowData,
    outputs: Seq<OutputInfo>,
    mode: DisplayMode,
    x: int,
    y: int,
    frame: FrameRef,
)
    requires
        data.entered(outputs, x, y) is Some,
    ensures
        ({
            let after = data.followed(outputs, mode, x, y);
            after.upload_of(Some(frame)) is Some <==> {
                &&& frame.width == after.active.width
                &&& frame.height == after.active.height
            }
        }),
{
}

/// The strip that a docked panel asks for has the size of a window in that
/// mode, and a window that fills the screen has the size of the monitor.
pub proof fn law_sizes_agree(edge: Edge, panel_size: u32, active: OutputInfo)
    requires
        panel_size <= i32::MAX,
        active.width <= i32::MAX,
        active.height <= i32::MAX,
        active.wf(),
    ensures
        ({
            let sw = to_signed(active.width) as i32;
            let sh = to_signed(active.height) as i32;
            let (left, top, right, bottom) = strip(
                edge,
                to_signed(panel_size),
                sw as int,
                sh as int,
            );
            &&& window_size(DisplayMode::Docked(edge), panel_size, sw, sh) == (
                right - left,
                bottom - top,
            )
            &&& window_size(DisplayMode::Fullscreen, panel_size, sw, sh) == (
                active.area().width(),
                active.area().height(),
            )
        }),
{
}

/// The first picture is always written to the shader: no settings have the
/// values that the overlay starts with.
pub proof fn law_first_write_forced(want: AppState, cursor_x: u32, cursor_y: u32)
    ensures
        nothing_written() != (Uniforms {
            color_mode: want.color_filter.code(),
            interp_mode: want.interpolation.code(),
            cursor_x,
            cursor_y,
        }),
{
}

/// An action that is taken under a condition.
pub open spec fn taken_if(condition: bool, action: Action) -> Seq<Action> {
    if condition {
        seq![action]
    } else {
        seq![]
    }
}

/// When each action is taken, whatever is applied, and in which order: the edge
/// is given back, then claimed, then the window is moved, then shown or hidden,
/// then the cursor.
///
/// The edge is given back on every switch of the magnifier or its mode while it
/// is claimed. It is claimed on a switch to a docked mode, and the claim moved
/// when only the panel size changes. The window moves on every switch that
/// leaves it on, and with its claim. It is shown or hidden when the magnifier is
/// switched on or off. The cursor is hidden on a switch to the full screen, and
/// shown when the magnifier is switched off or docks while it is on.
pub proof fn law_when_actions_are_taken(
    cur: Applied,
    want: AppState,
    active: OutputInfo,
    callback_msg: u32,
)
    ensures
        ({
            let turned = want.enabled != cur.enabled;
            let switched = turned || want.enabled && want.display_mode != cur.mode;
            let docked = want.enabled && want.display_mode is Docked;
            let full = want.enabled && want.display_mode is Fullscreen;
            let resized = docked && !switched && want.panel_size != cur.panel_size;
            let edge = want.display_mode->0;
            let thickness = to_signed(want.panel_size);
            let sw = to_signed(active.width);
            let sh = to_signed(active.height);
            transition(cur, want, active, callback_msg) == taken_if(
                switched && cur.appbar_active,
                Action::Unregister,
            ) + taken_if(
                docked && switched,
                Action::Register(registration(edge, thickness, sw, sh, callback_msg)),
            ) + taken_if(resized, Action::Reposition(repositioning(edge, thickness, sw, sh)))
                + taken_if(full && switched, Action::MoveTo(active.area())) + taken_if(
                docked && switched || resized,
                Action::MoveToClaim,
            ) + taken_if(turned && want.enabled, Action::ShowWindow) + taken_if(
                turned && !want.enabled,
                Action::HideWindow,
            ) + taken_if(full && switched && !cur.cursor_hidden, Action::HideCursor) + taken_if(
                cur.cursor_hidden && (turned && !want.enabled || docked && switched && cur.enabled),
                Action::ShowCursor,
            )
        }),
{
}

/// What a transition leaves behind, field by field, whatever is applied: it
/// happens exactly where the settings ask for the magnifier to be switched, or
/// for another mode or panel size while it is on; then the settings are applied.
/// Otherwise everything stays.
pub proof fn law_settings_are_applied(cur: Applied, want: AppState)
    ensures
        ({
            let turned = want.enabled != cur.enabled;
            let switched = turned || want.enabled && want.display_mode != cur.mode;
            let needed = switched || want.enabled && want.panel_size != cur.panel_size;
            let after = settled(cur, want);
            &&& needs_transition(cur, want) <==> needed
            &&& switches(cur, want) <==> switched
            &&& claims_edge(cur, want) <==> needed && want.enabled && want.display_mode is Docked
            &&& !needed ==> after == cur
            &&& needed ==> after.enabled == want.enabled && after.mode == want.display_mode
                && after.panel_size == want.panel_size
            &&& !switched ==> after.appbar_active == cur.appbar_active && after.cursor_hidden
                == cur.cursor_hidden
            &&& switched ==> after.appbar_active == (want.enabled && want.display_mode is Docked)
            &&& switched && !want.enabled ==> !after.cursor_hidden
            &&& switched && want.enabled && want.display_mode is Fullscreen ==> after.cursor_hidden
            &&& switched && want.enabled && want.display_mode is Docked ==> after.cursor_hidden == (
            cur.cursor_hidden && !cur.enabled)
        }),
{
}

/// The surface has the sides of a rectangle, but 16 where a side is less; the
/// texture is left as it was.
pub open spec fn fits_surface(before: WgpuState, after: WgpuState, width: int, height: int) -> bool {
    &&& after.surface_w == if width < 16 {
        16
    } else {
        width
    }
    &&& after.surface_h == if height < 16 {
        16
    } else {
        height
    }
    &&& after.tex_w == before.tex_w
    &&& after.tex_h == before.tex_h
}

/// Where the window goes in a transition, and what is remembered of it: docked,
/// to the rectangle that the shell granted; to the full screen, on a switch, to
/// the area of the monitor; otherwise nowhere. The surface gets the size of where
/// it goes. The grant is kept while the edge is claimed and forgotten on any
/// other switch. Nothing else changes.
pub proof fn law_transition_moves_the_window(
    data: WindowData,
    want: AppState,
    claimed: Option<Rect>,
)
    requires
        data.wf(),
        claims_edge(data.cur, want) ==> claimed is Some && claimed->0.measurable(),
    ensures
        ({
            let switched = want.enabled != data.cur.enabled || want.enabled && want.display_mode
                != data.cur.mode;
            let claims = want.enabled && want.display_mode is Docked && (switched || want.panel_size
                != data.cur.panel_size);
            let fills = want.enabled && want.display_mode is Fullscreen && switched;
            let to = destination(data.cur, want, data.active, claimed);
            let after = data.transitioned(want, claimed);
            &&& claims ==> to == claimed && after.granted == claimed
            &&& fills ==> to == Some(data.active.area())
            &&& !claims && !fills ==> to is None && after.wgpu == data.wgpu
            &&& !claims && switched ==> after.granted is None
            &&& !claims && !switched ==> after.granted == data.granted
            &&& to matches Some(r) ==> fits_surface(
                data.wgpu,
                after.wgpu,
                r.right - r.left,
                r.bottom - r.top,
            )
            &&& after.cur == settled(data.cur, want)
            &&& after.active == data.active
            &&& after.callback_msg == data.callback_msg
            &&& after.last_frame == data.last_frame
            &&& after.uniforms == data.uniforms
        }),
{
}

/// The overlay starts hidden, with nothing claimed, uploaded or written, on the
/// first monitor of the list, with a texture of that monitor's size and a surface
/// of at least 16 pixels each way. Without a list it assumes a monitor of 1920
/// by 1080 pixels.
pub proof fn law_start(outputs: Seq<OutputInfo>, callback_msg: u32)
    ensures
        ({
            let start = WindowData::initial(outputs, callback_msg);
            &&& outputs.len() > 0 ==> start.active == outputs[0]
            &&& outputs.len() == 0 ==> start.active == (OutputInfo {
                idx: 0,
                left: 0,
                top: 0,
                width: 1920,
                height: 1080,
            })
            &&& start.wgpu.tex_w == start.active.width
            &&& start.wgpu.tex_h == start.active.height
            &&& fits_surface(
                start.wgpu,
                start.wgpu,
                start.active.width as int,
                start.active.height as int,
            )
            &&& start.callback_msg == callback_msg
            &&& !start.cur.enabled && !start.cur.appbar_active && !start.cur.cursor_hidden
            &&& start.cur.mode is Fullscreen && start.cur.panel_size == 300
            &&& start.granted is None
            &&& start.last_frame is None
            &&& start.uniforms.color_mode == u32::MAX && start.uniforms.interp_mode == u32::MAX
            &&& start.uniforms.cursor_x == u32::MAX && start.uniforms.cursor_y == u32::MAX
        }),
{
}

/// A notification of the shell is answered exactly where it says that something
/// moved, its number is 1, and the panel is docked and claimed; the panel then
/// asks for its own edge again, in its own size.
pub proof fn law_shell_is_answered(data: WindowData, wparam: usize)
    ensures
        ({
            let asked = wparam == 1 && data.cur.appbar_active && data.cur.mode is Docked;
            let edge = data.cur.mode->0;
            let thickness = to_signed(data.cur.panel_size);
            let sw = to_signed(data.active.width);
            let sh = to_signed(data.active.height);
            &&& data.callback_answer(wparam) is Some <==> asked
            &&& asked ==> data.callback_answer(wparam) == Some(
                repositioning(edge, thickness, sw, sh),
            )
            &&& data.redockable(wparam) <==> (asked ==> strip_fits(edge, thickness, sw, sh))
        }),
{
}

/// The strip has to be describable exactly where the transition claims one.
pub proof fn law_placeable(data: WindowData, want: AppState)
    ensures
        data.wf() <==> data.active.wf(),
        ({
            let switched = want.enabled != data.cur.enabled || want.enabled && want.display_mode
                != data.cur.mode;
            let claims = want.enabled && want.display_mode is Docked && (switched || want.panel_size
                != data.cur.panel_size);
            data.placeable(want) <==> (claims ==> strip_fits(
                want.display_mode->0,
                to_signed(want.panel_size),
                to_signed(data.active.width),
                to_signed(data.active.height),
            ))
        }),
{
}

/// Wherever on the virtual screen the cursor is: where it lies on a listed
/// monitor with another number than the active one, the first such monitor in
/// the list becomes the active one and is captured, its size becomes that of the
/// texture, the frame on the device is forgotten, and a window that fills the
/// screen moves onto that monitor. Otherwise nothing happens.
pub proof fn law_cursor_is_followed(
    data: WindowData,
    outputs: Seq<OutputInfo>,
    mode: DisplayMode,
    x: int,
    y: int,
    i: int,
)
    requires
        0 <= i < outputs.len(),
        lies_on(outputs[i], x, y),
        forall|j: int| 0 <= j < i ==> !lies_on(#[trigger] outputs[j], x, y),
        outputs[i].wf(),
    ensures
        ({
            let o = outputs[i];
            let after = data.followed(outputs, mode, x, y);
            let full = mode is Fullscreen;
            if o.idx == data.active.idx {
                after == data && data.follow_up(outputs, mode, x, y) is None
            } else {
                &&& data.follow_up(outputs, mode, x, y) matches Some(f) && {
                    &&& f.output == o.idx
                    &&& f.move_to is Some <==> full
                    &&& f.move_to matches Some(r) ==> {
                        &&& r.left == o.left && r.top == o.top
                        &&& r.right == o.left + to_signed(o.width)
                        &&& r.bottom == o.top + to_signed(o.height)
                        &&& r.left <= x < r.right && r.top <= y < r.bottom
                    }
                }
                &&& after.active == o
                &&& after.wgpu.tex_w == o.width && after.wgpu.tex_h == o.height
                &&& after.last_frame is None
                &&& full ==> fits_surface(after.wgpu, after.wgpu, o.width as int, o.height as int)
                &&& !full ==> after.wgpu.surface_w == data.wgpu.surface_w && after.wgpu.surface_h
                    == data.wgpu.surface_h
                &&& after.cur == data.cur
                &&& after.callback_msg == data.callback_msg
                &&& after.granted == data.granted
                &&& after.uniforms == data.uniforms
            }
        }),
{
    law_found_where_it_lies(outputs, x, y);
    let k = output_at(outputs, x, y)->0;
    assert(output_at(outputs, x, y) is Some);
    assert(k == i);
}

/// Where the cursor lies on no listed monitor nothing happens.
pub proof fn law_cursor_off_all_monitors(
    data: WindowData,
    outputs: Seq<OutputInfo>,
    mode: DisplayMode,
    x: int,
    y: int,
)
    requires
        forall|j: int| 0 <= j < outputs.len() ==> !lies_on(#[trigger] outputs[j], x, y),
    ensures
        data.followed(outputs, mode, x, y) == data,
        data.follow_up(outputs, mode, x, y) is None,
{
    law_found_where_it_lies(outputs, x, y);
}

/// A frame is uploaded exactly where it has the size of the texture and another
/// number than the one that is remembered; it is remembered in any case, and
/// without a frame nothing happens. Nothing else changes.
pub proof fn law_new_frames_are_uploaded(data: WindowData, frame: FrameRef)
    ensures
        ({
            let new = data.last_frame != Some(frame.id);
            let fits = frame.width == data.wgpu.tex_w && frame.height == data.wgpu.tex_h;
            let upload = data.upload_of(Some(frame));
            &&& upload is Some <==> new && fits
            &&& upload matches Some(u) ==> u.width == frame.width && u.height == frame.height && (
            frame.width < 0x4000_0000 ==> u.bytes_per_row == 4 * frame.width)
            &&& data.offered(Some(frame)).last_frame == Some(frame.id)
            &&& (WindowData { last_frame: data.last_frame, ..data.offered(Some(frame)) }) == data
            &&& data.upload_of(None) is None
            &&& data.offered(None) == data
        }),
{
}

/// What is noted is what the picture was drawn with, and nothing else changes.
pub proof fn law_uniforms_are_noted(data: WindowData, now: Uniforms)
    ensures
        data.noted(now).uniforms == now,
        (WindowData { uniforms: data.uniforms, ..data.noted(now) }) == data,
{
}

/// After the shell has granted a rectangle, the window has its size, and so has
/// the surface, but 16 where a side is less; nothing else changes.
pub proof fn law_granted_rectangle_is_taken(data: WindowData, rect: Rect)
    requires
        rect.measurable(),
    ensures
        ({
            let after = data.moved(rect);
            &&& after.granted == Some(rect)
            &&& fits_surface(
                data.wgpu,
                after.wgpu,
                rect.right - rect.left,
                rect.bottom - rect.top,
            )
            &&& (WindowData { granted: data.granted, wgpu: data.wgpu, ..after }) == data
        }),
{
}

/// The picture is as large as the window: while docked as the rectangle that the
/// shell granted, where a side that is turned inside out counts for nothing, and
/// else as large as the mode asks for.
pub proof fn law_picture_is_as_large_as_the_window(data: WindowData, want: AppState)
    requires
        data.active.width <= i32::MAX,
        data.active.height <= i32::MAX,
    ensures
        ({
            let dims = data.dims(want);
            let upright = want.display_mode == DisplayMode::Docked(Edge::Left) || want.display_mode
                == DisplayMode::Docked(Edge::Right);
            match data.granted {
                Some(r) if want.display_mode is Docked => {
                    &&& r.left <= r.right ==> dims.0 == r.right - r.left
                    &&& r.left > r.right ==> dims.0 == 0
                    &&& r.top <= r.bottom ==> dims.1 == r.bottom - r.top
                    &&& r.top > r.bottom ==> dims.1 == 0
                },
                _ => {
                    &&& dims.0 == if upright {
                        want.panel_size
                    } else {
                        data.active.width
                    }
                    &&& dims.1 == if upright || want.display_mode is Fullscreen {
                        data.active.height
                    } else {
                        want.panel_size
                    }
                },
            }
        }),
{
}

/// A lost surface is sized anew as it was, at least 16 pixels each way; nothing
/// else changes.
pub proof fn law_recovery_keeps_the_size(data: WindowData)
    ensures
        fits_surface(
            data.wgpu,
            data.recovered().wgpu,
            data.wgpu.surface_w as int,
            data.wgpu.surface_h as int,
        ),
        (WindowData { wgpu: data.wgpu, ..data.recovered() }) == data,
{
}

/// What each kind of message is: the shell's own message whatever its number,
/// unless there is none; else the messages 2, 132 and 275.
pub proof fn law_messages(msg: u32, callback_msg: u32)
    ensures
        ({
            let event = event_of(msg, callback_msg);
            let shell = msg == callback_msg && msg != 0;
            &&& event == WindowEvent::AppBar <==> shell
            &&& event == WindowEvent::Destroy <==> msg == 2 && !shell
            &&& event == WindowEvent::HitTest <==> msg == 132 && !shell
            &&& event == WindowEvent::Timer <==> msg == 275 && !shell
        }),
{
}

/// At every count the cursor is either hidden or shown. Counting down ends with
/// it hidden, at the latest one below zero, and counting up ends with it shown,
/// at the latest at zero.
pub proof fn law_cursor_counter(counter: int)
    ensures
        counter_settled(true, counter) != counter_settled(false, counter),
        counter_settled(true, counter) <==> counter <= -1,
        counter_settled(false, counter) <==> counter >= 0,
{
}

/// What is given back is the claimed edge, once, and nothing where none is
/// claimed.
pub proof fn law_claimed_edge_is_given_back(cur: Applied)
    ensures
        release(cur).len() == if cur.appbar_active {
            1nat
        } else {
            0nat
        },
        cur.appbar_active ==> release(cur)[0] == Action::Unregister,
{
}

} // verus!
