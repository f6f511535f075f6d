use ruwindowman::screens::get_window_rect;
use ruwindowman::screens::normalize_screens;
use ruwindowman::screens::Position;
use ruwindowman::screens::Rect;
use ruwindowman::screens::Screen;

fn display(width: i32, height: i32) -> Rect {
    Rect::new(0, 0, width, height)
}

#[test]
fn rect_new_stores_its_fields() {
    let r = Rect::new(1, 2, 3, 4);
    assert_eq!(r.x, 1);
    assert_eq!(r.y, 2);
    assert_eq!(r.width, 3);
    assert_eq!(r.height, 4);
}

#[test]
fn plans_left_and_right_halves() {
    let d = display(1920, 1080);
    assert_eq!(get_window_rect(Position::Left, d), Rect::new(0, 0, 960, 1080));
    assert_eq!(get_window_rect(Position::Right, d), Rect::new(960, 0, 960, 1080));
}

#[test]
fn plans_the_four_corners() {
    let d = display(1920, 1080);
    assert_eq!(get_window_rect(Position::TopLeft, d), Rect::new(0, 0, 960, 540));
    assert_eq!(get_window_rect(Position::TopRight, d), Rect::new(960, 0, 960, 540));
    assert_eq!(get_window_rect(Position::BottomLeft, d), Rect::new(0, 540, 960, 540));
    assert_eq!(get_window_rect(Position::BottomRight, d), Rect::new(960, 540, 960, 540));
}

#[test]
fn plans_max_and_min() {
    let d = display(1920, 1080);
    assert_eq!(get_window_rect(Position::Max, d), Rect::new(0, 0, 1920, 1080));
    assert_eq!(get_window_rect(Position::Min, d), Rect::new(480, 270, 960, 540));
}

#[test]
fn odd_dimensions_truncate_toward_zero() {
    // The right/bottom halves come out one pixel narrower; this is accepted.
    let d = display(1921, 1081);
    let left = get_window_rect(Position::Left, d);
    let right = get_window_rect(Position::Right, d);
    assert_eq!(left.width, 960);
    assert_eq!(right.x, 960);
    assert_eq!(right.width, 960);
    assert_eq!(left.width + right.width, 2 * (1921 / 2));
    assert_eq!(get_window_rect(Position::BottomRight, d), Rect::new(960, 540, 960, 540));
}

#[test]
fn secondary_visible_frame_y_is_flipped() {
    // Primary panel height 1000; a secondary visible frame at bottom-left
    // y 50, height 900 lands at top-left y 1000 - 900 - 50 = 50.
    let primary = Screen {
        index: 0,
        visible_frame: Rect::new(0, 0, 1600, 975),
        frame: Rect::new(0, 0, 1600, 1000),
    };
    let secondary = Screen {
        index: 1,
        visible_frame: Rect::new(0, 50, 800, 900),
        frame: Rect::new(1600, 0, 800, 1000),
    };
    let normalized = normalize_screens(vec![primary, secondary]);
    assert_eq!(normalized.len(), 2);
    assert_eq!(normalized[0], primary);
    assert_eq!(normalized[1].visible_frame, Rect::new(0, 50, 800, 900));
    assert_eq!(normalized[1].frame, secondary.frame);
    assert_eq!(normalized[1].index, 1);
}

#[test]
fn primary_display_is_never_flipped() {
    let primary = Screen {
        index: 0,
        visible_frame: Rect::new(0, 25, 1600, 975),
        frame: Rect::new(0, 0, 1600, 1000),
    };
    let normalized = normalize_screens(vec![primary]);
    assert_eq!(normalized.len(), 1);
    assert_eq!(normalized[0], primary);
}

#[test]
fn empty_layout_stays_empty() {
    let normalized = normalize_screens(Vec::new());
    assert!(normalized.is_empty());
}
