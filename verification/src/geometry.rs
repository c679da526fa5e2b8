//! Rectangles on the screen.

use vstd::prelude::*;

verus! {

/// A rectangle: where its top left corner is, and how wide and how tall it is.
#[derive(Clone, Copy, Debug, PartialEq, Eq, Structural)]
pub struct Rect {
    pub left: i32,
    pub top: i32,
    /// The width.
    pub right: i32,
    /// The height.
    pub bottom: i32,
}

impl Default for Rect {
    fn default() -> (rect: Self)
        ensures
            rect == zero_rect(),
    {
        Rect { left: 0, top: 0, right: 0, bottom: 0 }
    }
}

/// The rectangle at the origin that covers nothing.
pub open spec fn zero_rect() -> Rect {
    Rect { left: 0, top: 0, right: 0, bottom: 0 }
}

/// The area that a rectangle covers.
pub open spec fn area(rect: Rect) -> int {
    rect.right * rect.bottom
}

/// `n`, or the nearest number that fits a screen coordinate.
pub open spec fn clamped(n: int) -> i32 {
    if n < i32::MIN {
        i32::MIN
    } else if n > i32::MAX {
        i32::MAX
    } else {
        n as i32
    }
}

/// `n`, or the nearest number that fits a screen coordinate.
pub fn clamp(n: i64) -> (coordinate: i32)
    ensures
        coordinate == clamped(n as int),
{
    if n < i32::MIN as i64 {
        i32::MIN
    } else if n > i32::MAX as i64 {
        i32::MAX
    } else {
        n as i32
    }
}

/// One rectangle lies within another, edges included.
pub open spec fn lies_within(inner: Rect, outer: Rect) -> bool {
    &&& outer.left <= inner.left
    &&& outer.top <= inner.top
    &&& inner.left + inner.right <= outer.left + outer.right
    &&& inner.top + inner.bottom <= outer.top + outer.bottom
}

impl Rect {
    /// Whether another rectangle lies within this one.
    pub fn contains(&self, other: &Rect) -> (within: bool)
        ensures
            within == lies_within(*other, *self),
    {
        self.left <= other.left && self.top <= other.top && other.left as i64 + other.right as i64
            <= self.left as i64 + self.right as i64 && other.top as i64 + other.bottom as i64
            <= self.top as i64 + self.bottom as i64
    }
}

/// `a / b` as screen arithmetic rounds it: towards zero.
pub open spec fn quotient(a: int, b: int) -> int {
    if a >= 0 {
        if b >= 0 {
            a / b
        } else {
            -(a / (-b))
        }
    } else {
        if b >= 0 {
            -((-a) / b)
        } else {
            (-a) / (-b)
        }
    }
}

/// Which bottom corner of the screen hidden windows are parked beside.
#[derive(Clone, Copy, Debug, PartialEq, Eq, Structural)]
pub enum WindowHidingPosition {
    BottomLeft,
    BottomRight,
}

/// Where hidden windows are parked where nothing else is asked for.
pub const DEFAULT_HIDING_POSITION: WindowHidingPosition = WindowHidingPosition::BottomLeft;

/// How much of a parked window stays on the screen, in points.
pub const VISIBLE_SLIVER: i32 = 1;

/// How far down a window of the size of `window` is parked: beside the screen rather than
/// below it, with its lower edge level with that of the screen. One that is taller than the
/// screen starts at its top.
pub open spec fn parked_top(screen: Rect, window: Rect) -> int {
    if window.bottom <= screen.bottom {
        screen.top + screen.bottom - window.bottom
    } else {
        screen.top as int
    }
}

/// Where a window of the size of `window` is parked to the left of the bottom left corner of
/// `screen`: all of it but a sliver is off the screen.
pub open spec fn parked_bottom_left(screen: Rect, window: Rect) -> Rect {
    Rect {
        left: clamped(screen.left - (window.right - VISIBLE_SLIVER)),
        top: clamped(parked_top(screen, window)),
        right: window.right,
        bottom: window.bottom,
    }
}

/// Where a window of the size of `window` is parked to the right of the bottom right corner of
/// `screen`: all of it but a sliver is off the screen.
pub open spec fn parked_bottom_right(screen: Rect, window: Rect) -> Rect {
    Rect {
        left: clamped(screen.left + screen.right - VISIBLE_SLIVER),
        top: clamped(parked_top(screen, window)),
        right: window.right,
        bottom: window.bottom,
    }
}

/// Where a hidden window is parked.
pub open spec fn parked(position: WindowHidingPosition, screen: Rect, window: Rect) -> Rect {
    match position {
        WindowHidingPosition::BottomLeft => parked_bottom_left(screen, window),
        WindowHidingPosition::BottomRight => parked_bottom_right(screen, window),
    }
}

fn hidden_top(screen_frame: Rect, window: Rect) -> (top: i32)
    ensures
        top == clamped(parked_top(screen_frame, window)),
{
    if window.bottom <= screen_frame.bottom {
        clamp(screen_frame.top as i64 + screen_frame.bottom as i64 - window.bottom as i64)
    } else {
        screen_frame.top
    }
}

/// Where a window is parked beside the bottom left corner of the screen.
pub fn hidden_frame_bottom_left(screen_frame: Rect, window: Rect) -> (frame: Rect)
    ensures
        frame == parked_bottom_left(screen_frame, window),
{
    Rect {
        left: clamp(screen_frame.left as i64 - (window.right as i64 - VISIBLE_SLIVER as i64)),
        top: hidden_top(screen_frame, window),
        right: window.right,
        bottom: window.bottom,
    }
}

/// Where a window is parked beside the bottom right corner of the screen.
pub fn hidden_frame_bottom_right(screen_frame: Rect, window: Rect) -> (frame: Rect)
    ensures
        frame == parked_bottom_right(screen_frame, window),
{
    Rect {
        left: clamp(
            screen_frame.left as i64 + screen_frame.right as i64 - VISIBLE_SLIVER as i64,
        ),
        top: hidden_top(screen_frame, window),
        right: window.right,
        bottom: window.bottom,
    }
}

/// Where a hidden window is parked.
pub fn hidden_frame(
    position: WindowHidingPosition,
    screen_frame: Rect,
    window: Rect,
) -> (frame: Rect)
    ensures
        frame == parked(position, screen_frame, window),
{
    match position {
        WindowHidingPosition::BottomLeft => hidden_frame_bottom_left(screen_frame, window),
        WindowHidingPosition::BottomRight => hidden_frame_bottom_right(screen_frame, window),
    }
}

/// Parking a window never changes its size, whichever corner it is parked beside.
pub proof fn law_parking_keeps_the_size(
    position: WindowHidingPosition,
    screen: Rect,
    window: Rect,
)
    ensures
        parked(position, screen, window).right == window.right,
        parked(position, screen, window).bottom == window.bottom,
{
}

/// A rectangle whose edges are all coordinates of the screen arithmetic.
pub open spec fn has_edges(rect: Rect) -> bool {
    &&& i32::MIN <= rect.left + rect.right <= i32::MAX
    &&& i32::MIN <= rect.top + rect.bottom <= i32::MAX
}

/// A hidden window is parked beside the screen rather than below it: a window that is no
/// taller than the screen stays between its upper and its lower edge, and only a sliver of it
/// reaches over the left or the right one.
pub proof fn law_a_window_is_parked_beside_the_screen(
    position: WindowHidingPosition,
    screen: Rect,
    window: Rect,
)
    requires
        has_edges(screen),
        0 < screen.right,
        0 < window.right,
        0 <= window.bottom <= screen.bottom,
        i32::MIN <= screen.left - (window.right - VISIBLE_SLIVER),
    ensures
        ({
            let frame = parked(position, screen, window);
            &&& screen.top <= frame.top
            &&& frame.top + frame.bottom <= screen.top + screen.bottom
            &&& match position {
                WindowHidingPosition::BottomLeft => frame.left + frame.right == screen.left
                    + VISIBLE_SLIVER,
                WindowHidingPosition::BottomRight => frame.left == screen.left + screen.right
                    - VISIBLE_SLIVER,
            }
        }),
{
}

} // verus!
