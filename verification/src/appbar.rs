//! The docked panel as an application desktop toolbar ("appbar"): which
//! messages the shell is sent, with what data, and in which order.
//!
//! The shell may change the data of each message it is sent, its rectangle above
//! all. An [`AppBarCall`] says what to send next and is told what came back.

use vstd::prelude::*;

use crate::geometry::Rect;
use crate::state::Edge;

verus! {

// Message codes of the shell.
pub const ABM_NEW: u32 = 0;

pub const ABM_REMOVE: u32 = 1;

pub const ABM_QUERYPOS: u32 = 2;

pub const ABM_SETPOS: u32 = 3;

pub const ABM_WINDOWPOSCHANGED: u32 = 9;

// Edge codes of the shell.
pub const ABE_LEFT: u32 = 0;

pub const ABE_TOP: u32 = 1;

pub const ABE_RIGHT: u32 = 2;

pub const ABE_BOTTOM: u32 = 3;

/// The notification that another toolbar or the taskbar has moved.
pub const ABN_POSCHANGED: usize = 1;

/// The shell's number for an edge.
pub open spec fn edge_code(edge: Edge) -> u32 {
    match edge {
        Edge::Left => ABE_LEFT,
        Edge::Top => ABE_TOP,
        Edge::Right => ABE_RIGHT,
        Edge::Bottom => ABE_BOTTOM,
    }
}

/// The shell's number for an edge.
pub fn edge_to_abe(edge: Edge) -> (r: u32)
    ensures
        r == edge_code(edge),
{
    match edge {
        Edge::Left => ABE_LEFT,
        Edge::Top => ABE_TOP,
        Edge::Right => ABE_RIGHT,
        Edge::Bottom => ABE_BOTTOM,
    }
}

/// The strip `thickness` pixels thick along `edge` of a screen of `sw` by `sh`
/// pixels.
pub open spec fn strip(edge: Edge, thickness: int, sw: int, sh: int) -> (int, int, int, int) {
    match edge {
        Edge::Top => (0, 0, sw, thickness),
        Edge::Bottom => (0, sh - thickness, sw, sh),
        Edge::Left => (0, 0, thickness, sh),
        Edge::Right => (sw - thickness, 0, sw, sh),
    }
}

/// The strip as a rectangle.
pub open spec fn strip_rect(edge: Edge, thickness: int, sw: int, sh: int) -> Rect {
    let (left, top, right, bottom) = strip(edge, thickness, sw, sh);
    Rect { left: left as i32, top: top as i32, right: right as i32, bottom: bottom as i32 }
}

/// The four sides of `r`, in the order left, top, right, bottom.
pub open spec fn sides(r: Rect) -> (int, int, int, int) {
    (r.left as int, r.top as int, r.right as int, r.bottom as int)
}

/// The inner side of the strip can be held in an `i32`.
pub open spec fn strip_fits(edge: Edge, thickness: int, sw: int, sh: int) -> bool {
    match edge {
        Edge::Bottom => i32::MIN <= sh - thickness <= i32::MAX,
        Edge::Right => i32::MIN <= sw - thickness <= i32::MAX,
        _ => true,
    }
}

/// Whether the inner side of the strip can be held in an `i32`.
pub fn panel_fits(edge: Edge, thickness: i32, sw: i32, sh: i32) -> (r: bool)
    ensures
        r == strip_fits(edge, thickness as int, sw as int, sh as int),
{
    match edge {
        Edge::Bottom => sh.checked_sub(thickness).is_some(),
        Edge::Right => sw.checked_sub(thickness).is_some(),
        _ => true,
    }
}

/// Ideal panel rectangle, before the shell adjusts it.
pub fn panel_rect(edge: Edge, thickness: i32, sw: i32, sh: i32) -> (r: Rect)
    requires
        strip_fits(edge, thickness as int, sw as int, sh as int),
    ensures
        sides(r) == strip(edge, thickness as int, sw as int, sh as int),
        r == strip_rect(edge, thickness as int, sw as int, sh as int),
{
    match edge {
        Edge::Top => Rect { left: 0, top: 0, right: sw, bottom: thickness },
        Edge::Bottom => Rect { left: 0, top: sh - thickness, right: sw, bottom: sh },
        Edge::Left => Rect { left: 0, top: 0, right: thickness, bottom: sh },
        Edge::Right => Rect { left: sw - thickness, top: 0, right: sw, bottom: sh },
    }
}

/// What goes along with a message to the shell.
#[derive(Debug, Clone, Copy, PartialEq, Eq, Structural)]
pub struct AppBarData {
    /// The window message by which the shell calls back.
    pub callback_msg: u32,
    pub edge: u32,
    pub rc: Rect,
}

impl AppBarData {
    /// The data of a message for which only the window counts.
    pub open spec fn blank() -> AppBarData {
        AppBarData { callback_msg: 0, edge: 0, rc: Rect { left: 0, top: 0, right: 0, bottom: 0 } }
    }
}

/// How far a call has come.
#[derive(Debug, Clone, Copy, PartialEq, Eq, Structural)]
pub enum AppBarStep {
    /// Announce the window as a new toolbar.
    Announce,
    /// Let the shell adjust the rectangle.
    Query,
    /// Claim the rectangle.
    Claim,
    /// Tell the shell that the window has moved.
    Moved,
    /// Give the claimed space back.
    Remove,
    /// Nothing is left to send.
    Done,
}

/// An exchange of messages with the shell.
#[derive(Debug, Clone, Copy, PartialEq, Eq, Structural)]
pub struct AppBarCall {
    pub step: AppBarStep,
    /// What goes along with the next message.
    pub data: AppBarData,
    /// The edge that the exchange asks for.
    pub edge: u32,
    /// The rectangle that the exchange asks for.
    pub ideal: Rect,
}

/// The call that registers a toolbar on `edge`.
pub open spec fn registration(
    edge: Edge,
    thickness: int,
    sw: int,
    sh: int,
    callback_msg: u32,
) -> AppBarCall {
    let ideal = strip_rect(edge, thickness, sw, sh);
    AppBarCall {
        step: AppBarStep::Announce,
        data: AppBarData { callback_msg, edge: edge_code(edge), rc: ideal },
        edge: edge_code(edge),
        ideal,
    }
}

/// The call that moves a registered toolbar to `edge`.
pub open spec fn repositioning(edge: Edge, thickness: int, sw: int, sh: int) -> AppBarCall {
    let ideal = strip_rect(edge, thickness, sw, sh);
    AppBarCall {
        step: AppBarStep::Query,
        data: AppBarData { callback_msg: 0, edge: edge_code(edge), rc: ideal },
        edge: edge_code(edge),
        ideal,
    }
}

/// The data of a message that asks for a strip along `edge`.
fn make_abd(callback_msg: u32, edge: Edge, rc: Rect) -> (r: AppBarData)
    ensures
        r == (AppBarData { callback_msg, edge: edge_code(edge), rc }),
{
    AppBarData { callback_msg, edge: edge_to_abe(edge), rc }
}

/// Starts to register a new toolbar and to claim space on `edge`.
pub fn register(edge: Edge, thickness: i32, sw: i32, sh: i32, callback_msg: u32) -> (r: AppBarCall)
    requires
        strip_fits(edge, thickness as int, sw as int, sh as int),
    ensures
        r == registration(edge, thickness as int, sw as int, sh as int, callback_msg),
        sides(r.ideal) == strip(edge, thickness as int, sw as int, sh as int),
{
    let rc = panel_rect(edge, thickness, sw, sh);
    AppBarCall {
        step: AppBarStep::Announce,
        data: make_abd(callback_msg, edge, rc),
        edge: edge_to_abe(edge),
        ideal: rc,
    }
}

/// Starts to move a registered toolbar to the same or another edge.
pub fn reposition(edge: Edge, thickness: i32, sw: i32, sh: i32) -> (r: AppBarCall)
    requires
        strip_fits(edge, thickness as int, sw as int, sh as int),
    ensures
        r == repositioning(edge, thickness as int, sw as int, sh as int),
        sides(r.ideal) == strip(edge, thickness as int, sw as int, sh as int),
{
    let rc = panel_rect(edge, thickness, sw, sh);
    AppBarCall {
        step: AppBarStep::Query,
        data: make_abd(0, edge, rc),
        edge: edge_to_abe(edge),
        ideal: rc,
    }
}

/// Tells the shell that the window has been moved.
pub fn notify_moved() -> (r: AppBarCall)
    ensures
        r.step == AppBarStep::Moved,
        r.data == AppBarData::blank(),
        r.edge == r.data.edge,
        r.ideal == r.data.rc,
{
    let rc = Rect { left: 0, top: 0, right: 0, bottom: 0 };
    AppBarCall {
        step: AppBarStep::Moved,
        data: AppBarData { callback_msg: 0, edge: 0, rc },
        edge: 0,
        ideal: rc,
    }
}

/// Unregisters the toolbar and releases the reserved work area.
pub fn unregister() -> (r: AppBarCall)
    ensures
        r.step == AppBarStep::Remove,
        r.data == AppBarData::blank(),
        r.edge == r.data.edge,
        r.ideal == r.data.rc,
{
    let rc = Rect { left: 0, top: 0, right: 0, bottom: 0 };
    AppBarCall {
        step: AppBarStep::Remove,
        data: AppBarData { callback_msg: 0, edge: 0, rc },
        edge: 0,
        ideal: rc,
    }
}

impl AppBarCall {
    /// The message to send next, while there is one.
    pub open spec fn next_message(self) -> Option<u32> {
        match self.step {
            AppBarStep::Announce => Some(ABM_NEW),
            AppBarStep::Query => Some(ABM_QUERYPOS),
            AppBarStep::Claim => Some(ABM_SETPOS),
            AppBarStep::Moved => Some(ABM_WINDOWPOSCHANGED),
            AppBarStep::Remove => Some(ABM_REMOVE),
            AppBarStep::Done => None,
        }
    }

    /// The call after the shell has left `reply` of what it was sent.
    ///
    /// What the shell makes of edge and rectangle of the announcement is
    /// discarded: the query asks for the ideal ones again. What it makes of the
    /// query is claimed, and what it makes of the claim is the outcome.
    pub open spec fn answered(self, reply: AppBarData) -> AppBarCall {
        match self.step {
            AppBarStep::Announce => AppBarCall {
                step: AppBarStep::Query,
                data: AppBarData { edge: self.edge, rc: self.ideal, ..reply },
                ..self
            },
            AppBarStep::Query => AppBarCall { step: AppBarStep::Claim, data: reply, ..self },
            AppBarStep::Done => self,
            _ => AppBarCall { step: AppBarStep::Done, data: reply, ..self },
        }
    }

    /// The message to send next, while there is one.
    pub fn message(&self) -> (r: Option<u32>)
        ensures
            r == self.next_message(),
    {
        match self.step {
            AppBarStep::Announce => Some(ABM_NEW),
            AppBarStep::Query => Some(ABM_QUERYPOS),
            AppBarStep::Claim => Some(ABM_SETPOS),
            AppBarStep::Moved => Some(ABM_WINDOWPOSCHANGED),
            AppBarStep::Remove => Some(ABM_REMOVE),
            AppBarStep::Done => None,
        }
    }

    /// Takes what the shell left of what it was sent.
    pub fn answer(&mut self, reply: AppBarData)
        ensures
            *final(self) == old(self).answered(reply),
    {
        match self.step {
            AppBarStep::Announce => {
                self.data = reply;
                self.data.rc = self.ideal;
                self.data.edge = self.edge;
                self.step = AppBarStep::Query;
            },
            AppBarStep::Query => {
                self.data = reply;
                self.step = AppBarStep::Claim;
            },
            AppBarStep::Done => {},
            _ => {
                self.data = reply;
                self.step = AppBarStep::Done;
            },
        }
    }
}

/// The call after the shell has left each of `replies` in turn.
pub open spec fn exchange(call: AppBarCall, replies: Seq<AppBarData>) -> AppBarCall
    decreases replies.len(),
{
    if replies.len() == 0 {
        call
    } else {
        exchange(call, replies.drop_last()).answered(replies.last())
    }
}

/// A registration sends exactly three messages, in the order announce, query,
/// claim. The first two ask for the ideal rectangle on the same edge, the third
/// for what the shell made of the second, and the outcome is what it made of the
/// third.
pub proof fn law_registration(
    call: AppBarCall,
    after_new: AppBarData,
    after_query: AppBarData,
    after_set: AppBarData,
)
    requires
        call.step == AppBarStep::Announce,
        call.data.rc == call.ideal,
        call.data.edge == call.edge,
    ensures
        ({
            let queried = exchange(call, seq![after_new]);
            let claimed = exchange(call, seq![after_new, after_query]);
            let done = exchange(call, seq![after_new, after_query, after_set]);
            &&& call.next_message() == Some(ABM_NEW)
            &&& queried.next_message() == Some(ABM_QUERYPOS)
            &&& queried.data.rc == call.data.rc
            &&& queried.data.edge == call.data.edge
            &&& queried.data.callback_msg == after_new.callback_msg
            &&& claimed.next_message() == Some(ABM_SETPOS)
            &&& claimed.data == after_query
            &&& done.next_message() is None
            &&& done.data == after_set
        }),
{
    let s1 = seq![after_new];
    let s2 = seq![after_new, after_query];
    let s3 = seq![after_new, after_query, after_set];
    assert(s3.drop_last() =~= s2);
    assert(s2.drop_last() =~= s1);
    assert(s1.drop_last() =~= Seq::<AppBarData>::empty());
    reveal_with_fuel(exchange, 4);
}

/// Moving a registered toolbar never announces it again: it sends a query and
/// a claim, and no other message.
pub proof fn law_repositioning(call: AppBarCall, after_query: AppBarData, after_set: AppBarData)
    requires
        call.step == AppBarStep::Query,
    ensures
        ({
            let claimed = exchange(call, seq![after_query]);
            let done = exchange(call, seq![after_query, after_set]);
            &&& call.next_message() == Some(ABM_QUERYPOS)
            &&& claimed.next_message() == Some(ABM_SETPOS)
            &&& claimed.data == after_query
            &&& done.next_message() is None
            &&& done.data == after_set
        }),
{
    let s1 = seq![after_query];
    let s2 = seq![after_query, after_set];
    assert(s2.drop_last() =~= s1);
    assert(s1.drop_last() =~= Seq::<AppBarData>::empty());
    reveal_with_fuel(exchange, 3);
}

/// Every exchange ends after at most three answers, whatever the shell answers.
pub proof fn law_exchange_ends(call: AppBarCall, replies: Seq<AppBarData>)
    requires
        replies.len() >= 3,
    ensures
        exchange(call, replies).next_message() is None,
    decreases replies.len(),
{
    if replies.len() > 3 {
        law_exchange_ends(call, replies.drop_last());
    } else {
        reveal_with_fuel(exchange, 4);
        assert(replies.drop_last().drop_last().drop_last().len() == 0);
    }
}

/// The panel touches its edge, spans the screen along it, and is as thick as
/// asked for.
pub proof fn law_panel_hugs_edge(edge: Edge, thickness: int, sw: int, sh: int)
    ensures
        ({
            let (left, top, right, bottom) = strip(edge, thickness, sw, sh);
            match edge {
                Edge::Top => top == 0 && bottom - top == thickness && left == 0 && right == sw,
                Edge::Bottom => bottom == sh && bottom - top == thickness && left == 0 && right
                    == sw,
                Edge::Left => left == 0 && right - left == thickness && top == 0 && bottom == sh,
                Edge::Right => right == sw && right - left == thickness && top == 0 && bottom == sh,
            }
        }),
{
}

/// The shell's numbers go round the screen: left, top, right, bottom.
pub proof fn law_edge_numbers(edge: Edge)
    ensures
        edge == Edge::Left <==> edge_code(edge) == 0,
        edge == Edge::Top <==> edge_code(edge) == 1,
        edge == Edge::Right <==> edge_code(edge) == 2,
        edge == Edge::Bottom <==> edge_code(edge) == 3,
{
}

/// The strip is as thick as asked for across its edge and as long as the screen
/// along it, and it starts or ends where the screen does.
pub proof fn law_strip_rect(edge: Edge, thickness: i32, sw: i32, sh: i32)
    requires
        edge == Edge::Bottom ==> i32::MIN <= sh - thickness <= i32::MAX,
        edge == Edge::Right ==> i32::MIN <= sw - thickness <= i32::MAX,
    ensures
        ({
            let r = strip_rect(edge, thickness as int, sw as int, sh as int);
            let upright = edge == Edge::Left || edge == Edge::Right;
            &&& r.right - r.left == if upright {
                thickness
            } else {
                sw
            }
            &&& r.bottom - r.top == if upright {
                sh
            } else {
                thickness
            }
            &&& edge == Edge::Right ==> r.right == sw
            &&& edge != Edge::Right ==> r.left == 0
            &&& edge == Edge::Bottom ==> r.bottom == sh
            &&& edge != Edge::Bottom ==> r.top == 0
            &&& sides(r) == (r.left as int, r.top as int, r.right as int, r.bottom as int)
            &&& sides(r) == strip(edge, thickness as int, sw as int, sh as int)
        }),
{
}

/// The panel consists of the pixels of the screen that are nearer to its edge
/// than the panel is thick.
pub proof fn law_panel_pixels(edge: Edge, thickness: i32, sw: i32, sh: i32, x: int, y: int)
    requires
        0 <= thickness,
        0 <= sw,
        0 <= sh,
        edge == Edge::Left || edge == Edge::Right ==> thickness <= sw,
        edge == Edge::Top || edge == Edge::Bottom ==> thickness <= sh,
    ensures
        ({
            let r = strip_rect(edge, thickness as int, sw as int, sh as int);
            let distance = match edge {
                Edge::Left => x,
                Edge::Top => y,
                Edge::Right => sw - 1 - x,
                Edge::Bottom => sh - 1 - y,
            };
            r.left <= x < r.right && r.top <= y < r.bottom <==> 0 <= x < sw && 0 <= y < sh
                && distance < thickness
        }),
{
}

/// A strip can be described exactly where all its sides fit into 32 bits with a
/// sign.
pub proof fn law_strip_fits(edge: Edge, thickness: i32, sw: i32, sh: i32)
    ensures
        strip_fits(edge, thickness as int, sw as int, sh as int) <==> {
            let (left, top, right, bottom) = strip(edge, thickness as int, sw as int, sh as int);
            &&& i32::MIN <= left <= i32::MAX
            &&& i32::MIN <= top <= i32::MAX
            &&& i32::MIN <= right <= i32::MAX
            &&& i32::MIN <= bottom <= i32::MAX
        },
{
}

/// Whatever the shell makes of the announcement, the query asks for the strip
/// along the edge that was asked for, by the shell's number of that edge; what
/// the shell makes of the query is claimed, and what it makes of the claim is
/// the outcome. The messages are 0, 2 and 3, and there are no more.
pub proof fn law_registration_asks_for_edge(
    edge: Edge,
    thickness: int,
    sw: int,
    sh: int,
    callback_msg: u32,
    after_new: AppBarData,
    after_query: AppBarData,
    after_set: AppBarData,
)
    ensures
        ({
            let announced = registration(edge, thickness, sw, sh, callback_msg);
            let queried = announced.answered(after_new);
            let claimed = queried.answered(after_query);
            let done = claimed.answered(after_set);
            let ideal = strip_rect(edge, thickness, sw, sh);
            &&& announced.next_message() == Some(0u32)
            &&& announced.data.callback_msg == callback_msg
            &&& announced.data.edge == edge_code(edge)
            &&& announced.data.rc == ideal
            &&& announced.edge == edge_code(edge)
            &&& announced.ideal == ideal
            &&& queried.next_message() == Some(2u32)
            &&& queried.data.callback_msg == after_new.callback_msg
            &&& queried.data.edge == edge_code(edge)
            &&& queried.data.rc == ideal
            &&& claimed.next_message() == Some(3u32)
            &&& claimed.data == after_query
            &&& done.next_message() is None
            &&& done.data == after_set
            &&& done.answered(after_new) == done
            &&& exchange(announced, seq![after_new]) == queried
            &&& exchange(announced, seq![after_new, after_query]) == claimed
            &&& exchange(announced, seq![after_new, after_query, after_set]) == done
        }),
{
    let announced = registration(edge, thickness, sw, sh, callback_msg);
    let s1 = seq![after_new];
    let s2 = seq![after_new, after_query];
    let s3 = seq![after_new, after_query, after_set];
    assert(s3.drop_last() =~= s2);
    assert(s2.drop_last() =~= s1);
    assert(s1.drop_last() =~= Seq::<AppBarData>::empty());
    reveal_with_fuel(exchange, 4);
}

/// Moving a claim asks for the strip along the edge that was asked for, without
/// a callback message, and then claims what the shell makes of it: the same as
/// a registration from its query on.
pub proof fn law_repositioning_asks_for_edge(
    edge: Edge,
    thickness: int,
    sw: int,
    sh: int,
    after_query: AppBarData,
    after_set: AppBarData,
)
    ensures
        ({
            let queried = repositioning(edge, thickness, sw, sh);
            let claimed = queried.answered(after_query);
            let done = claimed.answered(after_set);
            &&& queried.next_message() == Some(2u32)
            &&& queried.data.callback_msg == 0
            &&& queried.data.edge == edge_code(edge)
            &&& queried.data.rc == strip_rect(edge, thickness, sw, sh)
            &&& queried.edge == edge_code(edge)
            &&& queried.ideal == strip_rect(edge, thickness, sw, sh)
            &&& claimed.next_message() == Some(3u32)
            &&& claimed.data == after_query
            &&& done.next_message() is None
            &&& done.data == after_set
            &&& registration(edge, thickness, sw, sh, 0).answered(queried.data) == queried
        }),
{
}

/// Telling of a move and giving the edge back take one message each, 9 and 1,
/// with nothing in it but the window.
pub proof fn law_single_messages(call: AppBarCall, reply: AppBarData)
    requires
        call.step == AppBarStep::Moved || call.step == AppBarStep::Remove,
    ensures
        call.step == AppBarStep::Moved ==> call.next_message() == Some(9u32),
        call.step == AppBarStep::Remove ==> call.next_message() == Some(1u32),
        call.answered(reply).next_message() is None,
        call.answered(reply).data == reply,
        ({
            let blank = AppBarData::blank();
            &&& blank.callback_msg == 0 && blank.edge == 0
            &&& blank.rc.left == 0 && blank.rc.top == 0
            &&& blank.rc.right == 0 && blank.rc.bottom == 0
        }),
{
}

} // verus!
