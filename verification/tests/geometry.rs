use clear_view::geometry::{rect_dims, rect_size, signed, unsigned, window_dims, Rect};
use clear_view::state::{DisplayMode, Edge};

#[test]
fn window_size_follows_the_mode() {
    assert_eq!(window_dims(DisplayMode::Fullscreen, 300, 1920, 1080), (1920, 1080));
    assert_eq!(window_dims(DisplayMode::Docked(Edge::Top), 300, 1920, 1080), (1920, 300));
    assert_eq!(window_dims(DisplayMode::Docked(Edge::Bottom), 250, 1920, 1080), (1920, 250));
    assert_eq!(window_dims(DisplayMode::Docked(Edge::Left), 300, 1920, 1080), (300, 1080));
    assert_eq!(window_dims(DisplayMode::Docked(Edge::Right), 50, 1920, 1080), (50, 1080));
}

#[test]
fn window_size_wraps_negative_screens() {
    assert_eq!(window_dims(DisplayMode::Fullscreen, 300, -1, -2), (u32::MAX, u32::MAX - 1));
}

#[test]
fn rect_size_has_a_floor() {
    let r = Rect { left: 10, top: -20, right: 110, bottom: 30 };
    assert_eq!(rect_dims(r), (100, 50));
    let thin = Rect { left: 0, top: 0, right: 15, bottom: 16 };
    assert_eq!(rect_dims(thin), (16, 16));
    let inside_out = Rect { left: 100, top: 100, right: 0, bottom: 0 };
    assert_eq!(rect_dims(inside_out), (16, 16));
}

#[test]
fn huge_rects_are_not_measurable() {
    let huge = Rect { left: i32::MIN, top: 0, right: i32::MAX, bottom: 1 };
    assert!(!huge.is_measurable());
    let fine = Rect { left: -1920, top: 0, right: 1920, bottom: 1080 };
    assert!(fine.is_measurable());
}

#[test]
fn signed_and_unsigned_readings_are_inverse() {
    for x in [0u32, 1, 800, i32::MAX as u32, i32::MAX as u32 + 1, u32::MAX] {
        assert_eq!(signed(x), x as i32);
        assert_eq!(unsigned(signed(x)), x);
    }
    assert_eq!(signed(u32::MAX), -1);
    assert_eq!(unsigned(i32::MIN), 0x8000_0000);
}

#[test]
fn a_rectangle_has_its_own_size() {
    assert_eq!(rect_size(Rect { left: 0, top: 40, right: 1920, bottom: 50 }), (1920, 10));
    assert_eq!(rect_size(Rect { left: 7, top: 0, right: 3, bottom: 0 }), (0, 0));
    assert_eq!(
        rect_size(Rect { left: i32::MIN, top: i32::MAX, right: i32::MAX, bottom: i32::MIN }),
        (u32::MAX, 0)
    );
}
