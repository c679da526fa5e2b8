use komorebi::events::AccessibilityNotification;
use komorebi::geometry::Rect;
use komorebi::geometry::WindowHidingPosition;
use komorebi::min_size;
use komorebi::min_size::AcceptedSizes;
use komorebi::placement::effective_rect;
use komorebi::placement::element_to_focus;
use komorebi::placement::finish_placement;
use komorebi::placement::is_worth_reading_back;
use komorebi::placement::keeps_tabs;
use komorebi::placement::known_cursor_target;
use komorebi::placement::movement_animation;
use komorebi::placement::start_hiding;
use komorebi::placement::start_hiding_unmanaged;
use komorebi::placement::start_placement;
use komorebi::placement::start_restoring;
use komorebi::placement::FocusElement;
use komorebi::placement::HideStep;
use komorebi::placement::PlacementStep;
use komorebi::placement::RestoreStep;
use komorebi::settings::AnimationPrefix;
use komorebi::settings::AnimationSetting;
use komorebi::settings::AnimationSettings;
use komorebi::settings::AnimationStyle;
use komorebi::window::absorb_self_move_echo;
use komorebi::window::expect_self_move_echoes;
use komorebi::window::forget_window;
use komorebi::window::note_window_report;
use komorebi::window::WindowMemory;
use komorebi::window_info::AdhocWindow;

fn rect(left: i32, top: i32, right: i32, bottom: i32) -> Rect {
    Rect { left, top, right, bottom }
}

fn animation() -> AnimationSettings {
    AnimationSettings {
        enabled: AnimationSetting { global: false, movement: None, transparency: None },
        duration: AnimationSetting { global: 250, movement: Some(80), transparency: None },
        style: AnimationSetting {
            global: AnimationStyle { index: 0 },
            movement: None,
            transparency: None,
        },
        fps: 60,
    }
}

#[test]
fn an_unknown_window_is_moved_and_resized() {
    let mut memory = WindowMemory::new();
    let target = rect(0, 0, 800, 600);
    let step = start_placement(&mut memory, &animation(), 1, target, None);
    assert_eq!(step, PlacementStep::Move { rect: target, resize: true, animated: false });
    assert!(absorb_self_move_echo(&mut memory, 1));
    assert!(absorb_self_move_echo(&mut memory, 1));
    assert!(!absorb_self_move_echo(&mut memory, 1));
}

#[test]
fn a_window_of_the_right_size_is_only_moved() {
    let mut memory = WindowMemory::new();
    let target = rect(0, 0, 800, 600);
    let step =
        start_placement(&mut memory, &animation(), 1, target, Some(rect(5, 5, 800, 600)));
    assert_eq!(step, PlacementStep::Move { rect: target, resize: false, animated: false });
    assert!(absorb_self_move_echo(&mut memory, 1));
    assert!(!absorb_self_move_echo(&mut memory, 1));
}

#[test]
fn a_placed_window_is_left_alone() {
    let mut memory = WindowMemory::new();
    let mut sizes = min_size::load(None);
    let mut accepted = AcceptedSizes::new();
    let target = rect(0, 0, 800, 600);
    start_placement(&mut memory, &animation(), 1, target, None);
    let learned = finish_placement(
        &mut memory,
        &mut sizes,
        &mut accepted,
        1,
        Some("Notes"),
        target,
        true,
        Some(target),
    );
    assert!(!learned);
    assert_eq!(memory.known_position(1), Some(target));
    assert_eq!(
        start_placement(&mut memory, &animation(), 1, target, None),
        PlacementStep::InPlace
    );
}

#[test]
fn a_reported_frame_is_not_trusted() {
    let mut memory = WindowMemory::new();
    let target = rect(0, 0, 800, 600);
    let step = start_placement(&mut memory, &animation(), 1, target, Some(target));
    assert_eq!(step, PlacementStep::Move { rect: target, resize: false, animated: false });
}

#[test]
fn a_refusal_is_respected_next_time() {
    let mut memory = WindowMemory::new();
    let mut sizes = min_size::load(None);
    let mut accepted = AcceptedSizes::new();
    let target = rect(0, 0, 400, 600);
    assert!(is_worth_reading_back(&accepted, Some("Xcode"), target));
    let learned = finish_placement(
        &mut memory,
        &mut sizes,
        &mut accepted,
        1,
        Some("Xcode"),
        target,
        true,
        Some(rect(0, 0, 700, 600)),
    );
    assert!(learned);
    assert_eq!(memory.known_position(1), Some(rect(0, 0, 700, 600)));
    assert_eq!(
        effective_rect(&sizes, Some("Xcode"), rect(3, 4, 400, 500)),
        rect(3, 4, 700, 500)
    );
    assert_eq!(effective_rect(&sizes, None, rect(3, 4, 400, 500)), rect(3, 4, 400, 500));
}

#[test]
fn a_size_that_was_accepted_is_not_read_back() {
    let mut memory = WindowMemory::new();
    let mut sizes = min_size::load(None);
    let mut accepted = AcceptedSizes::new();
    let target = rect(0, 0, 400, 600);
    finish_placement(
        &mut memory,
        &mut sizes,
        &mut accepted,
        1,
        Some("Notes"),
        target,
        true,
        Some(target),
    );
    assert!(!is_worth_reading_back(&accepted, Some("Notes"), target));
    assert!(is_worth_reading_back(&accepted, Some("Notes"), rect(0, 0, 399, 600)));
    assert!(is_worth_reading_back(&accepted, None, target));
}

#[test]
fn a_failed_placement_teaches_nothing() {
    let mut memory = WindowMemory::new();
    let mut sizes = min_size::load(None);
    let mut accepted = AcceptedSizes::new();
    let learned = finish_placement(
        &mut memory,
        &mut sizes,
        &mut accepted,
        1,
        Some("Notes"),
        rect(0, 0, 400, 600),
        false,
        Some(rect(0, 0, 900, 900)),
    );
    assert!(!learned);
    assert_eq!(memory.known_position(1), None);
}

#[test]
fn hiding_parks_a_window_and_restoring_brings_it_back() {
    let mut memory = WindowMemory::new();
    let at = rect(100, 100, 800, 600);
    let display = rect(0, 0, 1920, 1080);
    let parked = rect(1919, 480, 800, 600);
    let step =
        start_hiding(&mut memory, 1, WindowHidingPosition::BottomRight, at, Some(display));
    assert_eq!(step, Some(HideStep { frame: parked, resize: false }));
    memory.confirm_position(1, parked);
    let again =
        start_hiding(&mut memory, 1, WindowHidingPosition::BottomRight, parked, Some(display));
    assert_eq!(again, None);
    assert_eq!(memory.restore_point(1), Some(at));
    assert_eq!(
        start_restoring(&memory, 1, Some(parked)),
        Some(RestoreStep { rect: at, move_point: true, resize: false })
    );
    assert_eq!(
        start_restoring(&memory, 1, None),
        Some(RestoreStep { rect: at, move_point: true, resize: true })
    );
    memory.drop_restore_point(1);
    assert_eq!(start_restoring(&memory, 1, None), None);
}

#[test]
fn a_window_on_no_display_is_not_parked() {
    let mut memory = WindowMemory::new();
    let at = rect(100, 100, 800, 600);
    assert_eq!(start_hiding(&mut memory, 1, WindowHidingPosition::BottomLeft, at, None), None);
    assert_eq!(memory.restore_point(1), Some(at));
    assert_eq!(
        start_hiding_unmanaged(&mut memory, 2, WindowHidingPosition::BottomLeft, at, None),
        None
    );
    assert_eq!(memory.restore_point(2), None);
}

#[test]
fn unmanaged_windows_come_back() {
    let mut memory = WindowMemory::new();
    let at = rect(100, 100, 800, 600);
    let display = rect(0, 0, 1920, 1080);
    let parked = start_hiding_unmanaged(
        &mut memory,
        1,
        WindowHidingPosition::BottomLeft,
        at,
        Some(display),
    );
    assert_eq!(parked, Some(rect(-799, 480, 800, 600)));
    let again = start_hiding_unmanaged(
        &mut memory,
        1,
        WindowHidingPosition::BottomLeft,
        rect(-799, 480, 800, 600),
        Some(display),
    );
    assert_eq!(again, None);
    assert_eq!(AdhocWindow::restore(&memory, 1), Some(at));
    assert_eq!(AdhocWindow::restore(&memory, 2), None);
}

#[test]
fn echoes_are_set_and_absorbed() {
    let mut memory = WindowMemory::new();
    expect_self_move_echoes(&mut memory, 1, 2);
    expect_self_move_echoes(&mut memory, 1, 1);
    assert!(absorb_self_move_echo(&mut memory, 1));
    assert!(!absorb_self_move_echo(&mut memory, 1));
    assert!(!absorb_self_move_echo(&mut memory, 2));
}

#[test]
fn forgetting_is_complete_and_local() {
    let mut memory = WindowMemory::new();
    let at = rect(0, 0, 10, 10);
    for id in [1, 2] {
        memory.confirm_position(id, at);
        memory.note_title(id, &Some("notes".to_string()));
        expect_self_move_echoes(&mut memory, id, 1);
    }
    forget_window(&mut memory, 1);
    assert_eq!(memory.known_position(1), None);
    assert_eq!(memory.known_title(1), None);
    assert!(!absorb_self_move_echo(&mut memory, 1));
    assert_eq!(memory.known_position(2), Some(at));
    assert_eq!(memory.known_title(2), Some("notes".to_string()));
    assert!(absorb_self_move_echo(&mut memory, 2));
}

#[test]
fn only_real_titles_are_remembered() {
    let mut memory = WindowMemory::new();
    memory.note_title(1, &Some(String::new()));
    memory.note_title(1, &None);
    assert_eq!(memory.known_title(1), None);
    memory.note_title(1, &Some("notes".to_string()));
    assert_eq!(memory.known_title(1), Some("notes".to_string()));
}

#[test]
fn a_changed_title_is_forgotten() {
    let mut memory = WindowMemory::new();
    memory.note_title(1, &Some("notes".to_string()));
    let moved = Some(AccessibilityNotification::AXWindowMoved);
    let renamed = Some(AccessibilityNotification::AXTitleChanged);
    assert!(note_window_report(&mut memory, moved, Some("notes"), Some(1)));
    assert!(!note_window_report(&mut memory, renamed, Some(""), Some(1)));
    assert!(!note_window_report(&mut memory, renamed, None, Some(1)));
    assert!(!note_window_report(&mut memory, None, Some("notes"), Some(1)));
    assert_eq!(memory.known_title(1), Some("notes".to_string()));
    assert!(note_window_report(&mut memory, renamed, Some("notes"), Some(1)));
    assert_eq!(memory.known_title(1), None);
}

#[test]
fn a_tabbed_application_may_lose_its_element() {
    assert_eq!(element_to_focus(true, false, true), FocusElement::MainWindow);
    assert_eq!(element_to_focus(true, true, true), FocusElement::Stored);
    assert_eq!(element_to_focus(true, false, false), FocusElement::Stored);
    assert_eq!(element_to_focus(false, false, true), FocusElement::Stored);
    let tabbed = vec!["Ghostty".to_string()];
    assert!(keeps_tabs(&tabbed, &Some("Ghostty".to_string())));
    assert!(!keeps_tabs(&tabbed, &Some("Notes".to_string())));
    assert!(!keeps_tabs(&tabbed, &None));
}

#[test]
fn the_cursor_goes_where_the_window_is_known_to_be() {
    let mut memory = WindowMemory::new();
    memory.confirm_position(1, rect(0, 0, 10, 10));
    assert_eq!(known_cursor_target(&memory, 1, false), Some(rect(0, 0, 10, 10)));
    assert_eq!(known_cursor_target(&memory, 1, true), None);
    assert_eq!(known_cursor_target(&memory, 2, false), None);
}

#[test]
fn animation_settings_apply_by_kind() {
    let settings = animation();
    assert_eq!(settings.duration.value(AnimationPrefix::Movement), 80);
    assert_eq!(settings.duration.value(AnimationPrefix::Transparency), 250);
    let set = settings.duration.set(10, Some(AnimationPrefix::Transparency));
    assert_eq!(set.value(AnimationPrefix::Transparency), 10);
    assert_eq!(set.value(AnimationPrefix::Movement), 80);
    let run = movement_animation(&settings, rect(0, 0, 1, 1), rect(0, 0, 2, 2));
    assert_eq!(run, Some((AnimationStyle { index: 0 }, 80)));
    assert_eq!(movement_animation(&settings, rect(0, 0, 1, 1), rect(0, 0, 1, 1)), None);
}

#[test]
fn refusals_of_one_dimension_each_add_up() {
    let mut memory = WindowMemory::new();
    let mut sizes = min_size::load(None);
    let mut accepted = AcceptedSizes::new();
    let target = rect(0, 0, 400, 500);
    for actual in [rect(0, 0, 400, 600), rect(0, 0, 757, 500)] {
        let learned = finish_placement(
            &mut memory,
            &mut sizes,
            &mut accepted,
            1,
            Some("Mail"),
            target,
            true,
            Some(actual),
        );
        assert!(learned);
    }
    assert_eq!(effective_rect(&sizes, Some("Mail"), target), rect(0, 0, 757, 600));
}
