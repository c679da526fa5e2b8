use komorebi::geometry::clamp;
use komorebi::geometry::hidden_frame;
use komorebi::geometry::hidden_frame_bottom_left;
use komorebi::geometry::hidden_frame_bottom_right;
use komorebi::geometry::Rect;
use komorebi::geometry::WindowHidingPosition;
use komorebi::macos_api::MacosApi;
use komorebi::placement::center;
use komorebi::placement::moved_to_area;
use komorebi::placement::target_size;
use komorebi::placement::AspectRatio;
use komorebi::placement::PredefinedAspectRatio;

fn rect(left: i32, top: i32, right: i32, bottom: i32) -> Rect {
    Rect { left, top, right, bottom }
}

#[test]
fn a_parked_window_keeps_its_size() {
    let screen = rect(0, 0, 1920, 1080);
    let frame = rect(10, 20, 300, 400);
    let hidden = hidden_frame(WindowHidingPosition::BottomRight, screen, frame);
    assert_eq!(hidden, rect(1919, 680, 300, 400));
    let hidden = hidden_frame(WindowHidingPosition::BottomLeft, screen, frame);
    assert_eq!(hidden, rect(-299, 680, 300, 400));
}

#[test]
fn both_corners_agree_with_the_general_form() {
    let screen = rect(-1920, 30, 1920, 1050);
    let frame = rect(10, 20, 300, 400);
    assert_eq!(
        hidden_frame(WindowHidingPosition::BottomLeft, screen, frame),
        hidden_frame_bottom_left(screen, frame)
    );
    assert_eq!(
        hidden_frame(WindowHidingPosition::BottomRight, screen, frame),
        hidden_frame_bottom_right(screen, frame)
    );
}

#[test]
fn coordinates_are_clamped() {
    assert_eq!(clamp(5_000_000_000), i32::MAX);
    assert_eq!(clamp(-5_000_000_000), i32::MIN);
    assert_eq!(clamp(-7), -7);
}

#[test]
fn the_cursor_goes_to_the_middle() {
    assert_eq!(MacosApi::center_cursor_in_rect(&rect(100, 200, 801, 600)), (500, 500));
    assert_eq!(MacosApi::center_cursor_in_rect(&rect(-100, 0, 50, 50)), (-75, 25));
}

#[test]
fn a_centred_window_stays_inside() {
    assert_eq!(center(&rect(0, 25, 1000, 800), 400, 300), rect(300, 275, 400, 300));
}

#[test]
fn floating_windows_follow_the_aspect_ratio() {
    let area = rect(0, 0, 1920, 1000);
    assert_eq!(
        target_size(&area, AspectRatio::Predefined(PredefinedAspectRatio::Standard)),
        (666, 500)
    );
    assert_eq!(
        target_size(&area, AspectRatio::Predefined(PredefinedAspectRatio::Widescreen)),
        (888, 500)
    );
    assert_eq!(
        target_size(&area, AspectRatio::Predefined(PredefinedAspectRatio::Ultrawide)),
        (1166, 500)
    );
    assert_eq!(target_size(&area, AspectRatio::Custom(1, 1)), (500, 500));
}

#[test]
fn a_window_moves_to_another_area() {
    let moved = moved_to_area(
        &rect(0, 0, 1000, 1000),
        &rect(1000, 50, 1000, 1000),
        (10, 20),
        (300, 400),
    );
    assert_eq!((moved.right, moved.bottom), (300, 400));
    assert_eq!((moved.left, moved.top), (1010, 70));
}

#[test]
fn a_window_is_parked_beside_the_screen() {
    let screen = rect(100, 30, 1440, 900);
    for position in [WindowHidingPosition::BottomLeft, WindowHidingPosition::BottomRight] {
        for height in [1, 400, 900] {
            let hidden = hidden_frame(position, screen, rect(500, 500, 800, height));
            assert!(hidden.top >= screen.top);
            assert_eq!(hidden.top + hidden.bottom, screen.top + screen.bottom);
        }
        let tall = hidden_frame(position, screen, rect(500, 500, 800, 2000));
        assert_eq!(tall.top, screen.top);
    }
    let left = hidden_frame_bottom_left(screen, rect(500, 500, 800, 600));
    assert_eq!(left.left + left.right, screen.left + 1);
    let right = hidden_frame_bottom_right(screen, rect(500, 500, 800, 600));
    assert_eq!(right.left, screen.left + screen.right - 1);
}
