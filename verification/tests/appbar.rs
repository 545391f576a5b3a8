use clear_view::appbar::{
    edge_to_abe, notify_moved, panel_fits, panel_rect, register, reposition, unregister,
    AppBarCall, AppBarData, AppBarStep, ABM_NEW, ABM_QUERYPOS, ABM_REMOVE, ABM_SETPOS,
    ABM_WINDOWPOSCHANGED,
};
use clear_view::geometry::Rect;
use clear_view::state::Edge;

fn rect(left: i32, top: i32, right: i32, bottom: i32) -> Rect {
    Rect { left, top, right, bottom }
}

/// Sends every message and answers with what the shell leaves.
fn exchanged(
    mut call: AppBarCall,
    replies: &[AppBarData],
) -> (Vec<(u32, AppBarData)>, AppBarCall) {
    let mut sent = Vec::new();
    for reply in replies {
        match call.message() {
            Some(m) => sent.push((m, call.data)),
            None => break,
        }
        call.answer(*reply);
    }
    (sent, call)
}

/// Sends every message; the shell changes the rectangles only.
fn run(call: AppBarCall, replies: &[Rect]) -> (Vec<(u32, AppBarData)>, AppBarCall) {
    let replies: Vec<AppBarData> =
        replies.iter().map(|rc| AppBarData { rc: *rc, ..call.data }).collect();
    exchanged(call, &replies)
}

#[test]
fn edges_have_the_shells_numbers() {
    assert_eq!(edge_to_abe(Edge::Left), 0);
    assert_eq!(edge_to_abe(Edge::Top), 1);
    assert_eq!(edge_to_abe(Edge::Right), 2);
    assert_eq!(edge_to_abe(Edge::Bottom), 3);
}

#[test]
fn panel_lies_along_its_edge() {
    assert_eq!(panel_rect(Edge::Top, 300, 1920, 1080), rect(0, 0, 1920, 300));
    assert_eq!(panel_rect(Edge::Bottom, 300, 1920, 1080), rect(0, 780, 1920, 1080));
    assert_eq!(panel_rect(Edge::Left, 300, 1920, 1080), rect(0, 0, 300, 1080));
    assert_eq!(panel_rect(Edge::Right, 300, 1920, 1080), rect(1620, 0, 1920, 1080));
}

#[test]
fn panel_that_overflows_is_recognised() {
    assert!(panel_fits(Edge::Bottom, 300, 1920, 1080));
    assert!(!panel_fits(Edge::Bottom, i32::MIN, 1920, 1080));
    assert!(!panel_fits(Edge::Right, i32::MIN, 1, 1080));
    assert!(panel_fits(Edge::Left, i32::MIN, 1920, 1080));
}

#[test]
fn registration_announces_queries_and_claims() {
    let ideal = rect(0, 0, 1920, 300);
    let a = rect(1, 1, 1, 1);
    let b = rect(0, 40, 1920, 340);
    let c = rect(0, 40, 1920, 339);
    let (sent, done) = run(register(Edge::Top, 300, 1920, 1080, 4711), &[a, b, c, a]);
    let data = AppBarData { callback_msg: 4711, edge: 1, rc: ideal };
    assert_eq!(
        sent,
        vec![
            (ABM_NEW, data),
            (ABM_QUERYPOS, data),
            (ABM_SETPOS, AppBarData { rc: b, ..data }),
        ]
    );
    assert_eq!(done.message(), None);
    assert_eq!(done.step, AppBarStep::Done);
    assert_eq!(done.data.rc, c);
}

#[test]
fn repositioning_does_not_announce() {
    let ideal = rect(1620, 0, 1920, 1080);
    let b = rect(1600, 0, 1900, 1080);
    let c = rect(1600, 0, 1900, 1040);
    let (sent, done) = run(reposition(Edge::Right, 300, 1920, 1080), &[b, c]);
    let data = AppBarData { callback_msg: 0, edge: 2, rc: ideal };
    assert_eq!(sent, vec![(ABM_QUERYPOS, data), (ABM_SETPOS, AppBarData { rc: b, ..data })]);
    assert_eq!(done.message(), None);
    assert_eq!(done.data.rc, c);
}

#[test]
fn moving_and_removing_take_one_message() {
    let zero = rect(0, 0, 0, 0);
    let blank = AppBarData { callback_msg: 0, edge: 0, rc: zero };
    let (sent, done) = run(notify_moved(), &[zero, zero]);
    assert_eq!(sent, vec![(ABM_WINDOWPOSCHANGED, blank)]);
    assert_eq!(done.message(), None);
    let (sent, done) = run(unregister(), &[zero, zero]);
    assert_eq!(sent, vec![(ABM_REMOVE, blank)]);
    assert_eq!(done.message(), None);
}

#[test]
fn what_the_shell_leaves_is_passed_on() {
    let ideal = rect(0, 0, 1920, 300);
    let after_new = AppBarData { callback_msg: 5, edge: 3, rc: rect(9, 9, 9, 9) };
    let after_query = AppBarData { callback_msg: 6, edge: 2, rc: rect(0, 1, 2, 3) };
    let after_set = AppBarData { callback_msg: 7, edge: 0, rc: rect(4, 5, 6, 7) };
    let call = register(Edge::Top, 300, 1920, 1080, 4711);
    let (sent, done) = exchanged(call, &[after_new, after_query, after_set]);
    assert_eq!(sent[1], (ABM_QUERYPOS, AppBarData { callback_msg: 5, edge: 1, rc: ideal }));
    assert_eq!(sent[2], (ABM_SETPOS, after_query));
    assert_eq!(done.data, after_set);
    let (sent, done) = exchanged(reposition(Edge::Top, 300, 1920, 1080), &[after_query, after_set]);
    assert_eq!(sent[1], (ABM_SETPOS, after_query));
    assert_eq!(done.data, after_set);
}
