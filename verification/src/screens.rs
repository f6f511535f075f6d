//! Display geometry: rectangles, placement intents, and the planner that maps
//! an intent plus a display's bounds to an absolute target rectangle.

use vstd::prelude::*;

verus! {

/// A rectangle in the top-left-origin, y-downward coordinate space used for
/// window placement.
#[derive(Debug, Clone, Copy, PartialEq, Eq, Structural)]
pub struct Rect {
    pub x: i32,
    pub y: i32,
    pub width: i32,
    pub height: i32,
}

/// A placement intent: the abstract screen region a window should be pushed
/// to, prior to resolving concrete pixel coordinates.
#[derive(Debug, Clone, Copy, PartialEq, Eq, Structural)]
pub enum Position {
    Left,
    BottomLeft,
    TopLeft,
    Right,
    BottomRight,
    TopRight,
    /// Maximize: the whole display.
    Max,
    /// Minimize: a centered half-size rectangle.
    Min,
}

impl Rect {
    pub fn new(x: i32, y: i32, width: i32, height: i32) -> (r: Self)
        ensures
            r.x == x,
            r.y == y,
            r.width == width,
            r.height == height,
    {
        Rect { x, y, width, height }
    }
}

/// One physical display: its ordinal in enumeration order, its full panel
/// bounds, and its usable bounds excluding system-reserved chrome. Display 0
/// is the primary display. The platform reports frames in bottom-left-origin,
/// y-upward coordinates; `normalize_screens` flips every non-primary visible
/// frame into the top-left-origin placement space.
#[derive(Debug, Clone, Copy, PartialEq, Eq, Structural)]
pub struct Screen {
    pub index: u64,
    pub visible_frame: Rect,
    pub frame: Rect,
}

/// The flipped y-coordinate of a secondary display's visible frame. The
/// primary display's full panel height is the global reference that
/// reconciles the bottom-left-origin platform convention with the
/// top-left-origin placement convention.
pub open spec fn spec_flipped_y(primary_frame_height: int, visible: Rect) -> int {
    primary_frame_height - visible.height - visible.y
}

/// Normalize an enumerated display layout into the top-left-origin space:
/// the primary display (index 0 of the sequence) is kept as reported, and
/// every other display has only its visible frame's y-coordinate replaced by
/// the flip against the primary panel height. An empty layout stays empty;
/// callers treat it as "no placement possible this tick".
pub fn normalize_screens(screens: Vec<Screen>) -> (r: Vec<Screen>)
    requires
        forall|i: int|
            1 <= i < screens@.len() ==> i32::MIN <= #[trigger] spec_flipped_y(
                screens@[0].frame.height as int,
                screens@[i].visible_frame,
            ) <= i32::MAX,
    ensures
        r@.len() == screens@.len(),
        screens@.len() > 0 ==> r@[0] == screens@[0],
        forall|i: int|
            1 <= i < screens@.len() ==> ({
                let o = #[trigger] screens@[i];
                let n = r@[i];
                n.index == o.index && n.frame == o.frame && n.visible_frame.x == o.visible_frame.x
                    && n.visible_frame.width == o.visible_frame.width && n.visible_frame.height
                    == o.visible_frame.height && n.visible_frame.y as int == spec_flipped_y(
                    screens@[0].frame.height as int,
                    o.visible_frame,
                )
            }),
{
    let mut r: Vec<Screen> = Vec::new();
    if screens.len() == 0 {
        return r;
    }
    let primary_height = screens[0].frame.height;
    let mut i: usize = 0;
    while i < screens.len()
        invariant
            0 < screens@.len(),
            0 <= i <= screens@.len(),
            r@.len() == i,
            primary_height == screens@[0].frame.height,
            i > 0 ==> r@[0] == screens@[0],
            forall|j: int|
                1 <= j < screens@.len() ==> i32::MIN <= #[trigger] spec_flipped_y(
                    screens@[0].frame.height as int,
                    screens@[j].visible_frame,
                ) <= i32::MAX,
            forall|j: int|
                1 <= j < i ==> ({
                    let o = #[trigger] screens@[j];
                    let n = r@[j];
                    n.index == o.index && n.frame == o.frame && n.visible_frame.x
                        == o.visible_frame.x && n.visible_frame.width == o.visible_frame.width
                        && n.visible_frame.height == o.visible_frame.height && n.visible_frame.y
                        as int == spec_flipped_y(screens@[0].frame.height as int, o.visible_frame)
                }),
        decreases screens@.len() - i,
    {
        let s = screens[i];
        if i == 0 {
            r.push(s);
        } else {
            let flipped: i64 = primary_height as i64 - s.visible_frame.height as i64
                - s.visible_frame.y as i64;
            proof {
                assert(flipped == spec_flipped_y(
                    screens@[0].frame.height as int,
                    screens@[i as int].visible_frame,
                ));
            }
            let y: i32 = flipped as i32;
            r.push(
                Screen {
                    index: s.index,
                    visible_frame: Rect {
                        x: s.visible_frame.x,
                        y,
                        width: s.visible_frame.width,
                        height: s.visible_frame.height,
                    },
                    frame: s.frame,
                },
            );
        }
        i += 1;
    }
    r
}

/// The placement table: given a display of width `w` and height `h`, the
/// `(x, y, width, height)` of the rectangle for each intent. Division
/// truncates, so on odd dimensions the right/bottom half is one pixel
/// narrower than the left/top half.
pub open spec fn spec_window_rect(position: Position, w: int, h: int) -> (int, int, int, int) {
    let half_w = w / 2;
    let half_h = h / 2;
    match position {
        Position::Left => (0, 0, half_w, h),
        Position::Right => (half_w, 0, half_w, h),
        Position::TopLeft => (0, 0, half_w, half_h),
        Position::TopRight => (half_w, 0, half_w, half_h),
        Position::BottomLeft => (0, half_h, half_w, half_h),
        Position::BottomRight => (half_w, half_h, half_w, half_h),
        Position::Max => (0, 0, w, h),
        Position::Min => (w / 4, h / 4, half_w, half_h),
    }
}

/// Plan the absolute target rectangle for `position` on a display whose
/// bounds are `rect` (only the display's size is read; a display never has a
/// negative size).
pub fn get_window_rect(position: Position, rect: Rect) -> (r: Rect)
    requires
        rect.width >= 0,
        rect.height >= 0,
    ensures
        (r.x as int, r.y as int, r.width as int, r.height as int)
            == spec_window_rect(position, rect.width as int, rect.height as int),
{
    let screen_width = rect.width;
    let screen_height = rect.height;
    let half_width = screen_width / 2;
    let half_height = screen_height / 2;

    match position {
        Position::Left => Rect { x: 0, y: 0, width: half_width, height: screen_height },
        Position::Right => Rect { x: half_width, y: 0, width: half_width, height: screen_height },
        Position::TopLeft => Rect { x: 0, y: 0, width: half_width, height: half_height },
        Position::TopRight => Rect { x: half_width, y: 0, width: half_width, height: half_height },
        Position::BottomLeft => Rect { x: 0, y: half_height, width: half_width, height: half_height },
        Position::BottomRight => Rect {
            x: half_width,
            y: half_height,
            width: half_width,
            height: half_height,
        },
        Position::Max => Rect { x: 0, y: 0, width: screen_width, height: screen_height },
        Position::Min => Rect {
            x: screen_width / 4,
            y: screen_height / 4,
            width: half_width,
            height: half_height,
        },
    }
}

/// Law: on any display, the `Left` and `Right` rectangles are disjoint (the
/// left one ends exactly where the right one begins), the sum of their widths
/// is `2 * (w / 2)`, and the `Max` rectangle is the whole display.
pub proof fn lemma_halves_tile_display(w: int, h: int)
    requires
        w >= 0,
        h >= 0,
    ensures
        ({
            let l = spec_window_rect(Position::Left, w, h);
            let r = spec_window_rect(Position::Right, w, h);
            l.0 + l.2 == r.0 && l.2 + r.2 == 2 * (w / 2) && spec_window_rect(
                Position::Max,
                w,
                h,
            ) == (0int, 0int, w, h)
        }),
{
}

} // verus!
