use komorebi::border_manager::BorderSettings;
use komorebi::border_manager::Notification;
use komorebi::border_manager::Rgb;
use komorebi::border_manager::border::Border;
use komorebi::border_manager::border::Borders;
use komorebi::border_manager::border::Frame;
use komorebi::border_manager::border::Framed;
use komorebi::border_manager::border::Keep;
use komorebi::border_manager::border_radius_for;
use komorebi::border_manager::destroy_all_borders;
use komorebi::border_manager::drawing::Attention;
use komorebi::border_manager::drawing::BorderStep;
use komorebi::border_manager::drawing::plan_monitor;
use komorebi::border_manager::drawing::skip_refused;
use komorebi::border_manager::flash_style;
use komorebi::border_manager::note_window_appeared;
use komorebi::border_manager::ns_window::FlashStyle;
use komorebi::border_manager::ns_window::flash_easing;
use komorebi::border_manager::ns_window::set_flash_easing;
use komorebi::border_manager::set_border_radius_rules;
use komorebi::border_manager::set_flash_style;
use komorebi::border_manager::watch::BorderVerdict;
use komorebi::border_manager::watch::BorderWatch;
use komorebi::border_manager::watch::WatchSight;
use komorebi::border_manager::window_appeared_recently;
use komorebi::border_manager::window_border;
use komorebi::border_manager::window_kind_colour;
use komorebi::focus_follows_mouse::Follower;
use komorebi::geometry::Rect;
use komorebi::geometry::WindowHidingPosition;
use komorebi::names::NameMap;
use komorebi::rule_book::RuleBook;
use komorebi::settings::AnimationSetting;
use komorebi::settings::AnimationSettings;
use komorebi::settings::AnimationStyle;
use komorebi::settings::DefaultLayout;
use komorebi::settings::MonocleFocusBehaviour;
use komorebi::settings::MoveBehaviour;
use komorebi::settings::OperationBehaviour;
use komorebi::settings::Placement;
use komorebi::settings::WindowContainerBehaviour;
use komorebi::settings::WindowKind;
use komorebi::settings::WindowManagementBehaviour;
use komorebi::settings::WorkspaceLayer;
use komorebi::subscriptions::Subscriptions;
use komorebi::window::WindowMemory;
use komorebi::window_manager::Container;
use komorebi::window_manager::Monitor;
use komorebi::window_manager::Window;
use komorebi::window_manager::WindowManager;
use komorebi::window_manager::Workspace;
use std::collections::HashMap;

fn rect(left: i32, top: i32, right: i32, bottom: i32) -> Rect {
    Rect { left, top, right, bottom }
}

fn window(id: u32, application: &str) -> Window {
    Window { id, process_id: 100, application: Some(application.to_string()) }
}

fn container(name: &str, ids: &[u32]) -> Container {
    Container {
        id: name.to_string(),
        windows: ids.iter().map(|id| window(*id, "Notes")).collect(),
        focused_window: 0,
        locked: false,
    }
}

fn workspace(containers: Vec<Container>) -> Workspace {
    Workspace {
        name: None,
        containers,
        focused_container: 0,
        monocle_container: None,
        monocle_container_restore_idx: None,
        maximized_window: None,
        floating_windows: Vec::new(),
        focused_floating_window: 0,
        layout: DefaultLayout::BSP,
        layout_options: None,
        layer: WorkspaceLayer::Tiling,
        tile: true,
        preselected_container_idx: None,
        float_override: None,
        window_container_behaviour: None,
        apply_window_based_work_area_offset: true,
        work_area_offset: None,
        work_area: rect(0, 25, 1920, 1055),
        window_hiding_position: WindowHidingPosition::BottomRight,
        latest_layout: Vec::new(),
        resize_dimensions: Vec::new(),
        workspace_rules: Vec::new(),
        initial_workspace_rules: Vec::new(),
    }
}

fn monitor(id: u32, serial: &str, workspaces: Vec<Workspace>) -> Monitor {
    Monitor {
        id,
        device: "display".to_string(),
        serial_number_id: serial.to_string(),
        size: rect(0, 0, 1920, 1080),
        work_area_size: rect(0, 25, 1920, 1055),
        work_area_offset: None,
        window_based_work_area_offset: None,
        window_based_work_area_offset_limit: 1,
        workspaces,
        focused_workspace: 0,
        last_focused_workspace: None,
        container_padding: None,
        workspace_padding: None,
        wallpaper: None,
        floating_layer_behaviour: None,
        window_hiding_position: WindowHidingPosition::BottomRight,
    }
}

fn behaviour() -> WindowManagementBehaviour {
    WindowManagementBehaviour {
        current_behaviour: WindowContainerBehaviour::Create,
        float_override: false,
        floating_layer_override: false,
        floating_layer_placement: Placement::Center,
        float_override_placement: Placement::Unchanged,
        float_rule_placement: Placement::Unchanged,
    }
}

fn manager(monitors: Vec<Monitor>) -> WindowManager {
    WindowManager {
        monitors,
        focused_monitor: 0,
        monitor_usr_idx_map: HashMap::new(),
        display_index_preferences: Vec::new(),
        is_paused: false,
        space_id: Some(1),
        mouse_follows_focus: true,
        follower: Follower::default(),
        resize_delta: 50,
        work_area_offset: None,
        window_management_behaviour: behaviour(),
        cross_monitor_move_behaviour: MoveBehaviour::Swap,
        monocle_focus_behaviour: MonocleFocusBehaviour::Cycle,
        unmanaged_window_operation_behaviour: OperationBehaviour::Op,
        known_window_ids: HashMap::new(),
        already_moved_window_ids: Vec::new(),
        unmanaged_window_ids: Vec::new(),
        minimized_windows: HashMap::new(),
        pending_move_op: None,
        pending_resize_op: None,
        pending_session: None,
        rules: RuleBook::new(),
        subscriptions: Subscriptions::new(),
        borders: BorderSettings::default(),
        animation: AnimationSettings {
            enabled: AnimationSetting { global: true, movement: None, transparency: None },
            duration: AnimationSetting { global: 250, movement: None, transparency: None },
            style: AnimationSetting {
                global: AnimationStyle { index: 0 },
                movement: None,
                transparency: None,
            },
            fps: 60,
        },
        memory: WindowMemory::new(),
    }
}

fn frame(id: &str, window_id: u32, kind: WindowKind) -> Frame {
    Frame {
        monitor_idx: 0,
        id: id.to_string(),
        window_id,
        process_id: 100,
        kind,
        refocus: false,
        floating: None,
    }
}

fn frames(steps: &Vec<BorderStep>) -> Vec<(String, u32, WindowKind, bool)> {
    let mut found = Vec::new();
    for step in steps {
        if let BorderStep::Frame(frame) = step {
            found.push((frame.id.clone(), frame.window_id, frame.kind, frame.refocus));
        }
    }
    found
}

fn sight(now: u64, foreground_window: u32) -> WatchSight {
    WatchSight { now, foreground_window, monitors_unchanged: true }
}

fn two_containers() -> WindowManager {
    manager(vec![monitor(
        1,
        "S1",
        vec![workspace(vec![container("a", &[1]), container("b", &[2, 3])])],
    )])
}

#[test]
fn a_window_in_front_wears_the_border() {
    let wm = two_containers();
    let attention =
        Attention { focused_monitor: 0, foreground_window: 1, foreground_lost: false };
    let steps = plan_monitor(&wm.monitors[0], 0, attention);
    assert_eq!(
        frames(&steps),
        vec![
            ("a".to_string(), 1, WindowKind::Single, false),
            ("b".to_string(), 2, WindowKind::Unfocused, false),
        ]
    );
    match &steps[2] {
        BorderStep::Clear(0, keep) => assert_eq!(keep.ids, vec!["a", "b"]),
        _ => panic!("the other borders are cleared last"),
    }
}

#[test]
fn no_border_shows_while_another_window_is_in_front() {
    let wm = two_containers();
    let attention =
        Attention { focused_monitor: 0, foreground_window: 9, foreground_lost: false };
    for (_, _, kind, _) in frames(&plan_monitor(&wm.monitors[0], 0, attention)) {
        assert_eq!(kind, WindowKind::Unfocused);
    }
}

#[test]
fn a_stack_is_told_apart_and_locks_show() {
    let mut wm = two_containers();
    wm.monitors[0].workspaces[0].focused_container = 1;
    wm.monitors[0].workspaces[0].containers[0].locked = true;
    let attention =
        Attention { focused_monitor: 0, foreground_window: 2, foreground_lost: false };
    let kinds: Vec<WindowKind> = frames(&plan_monitor(&wm.monitors[0], 0, attention))
        .iter()
        .map(|frame| frame.2)
        .collect();
    assert_eq!(kinds, vec![WindowKind::UnfocusedLocked, WindowKind::Stack]);
}

#[test]
fn focus_goes_back_to_the_framed_window() {
    let wm = two_containers();
    let attention = Attention { focused_monitor: 0, foreground_window: 0, foreground_lost: true };
    let steps = frames(&plan_monitor(&wm.monitors[0], 0, attention));
    assert_eq!(steps[0], ("a".to_string(), 1, WindowKind::Single, true));
    assert!(!steps[1].3);
}

#[test]
fn another_monitor_shows_no_border() {
    let wm = two_containers();
    let attention =
        Attention { focused_monitor: 1, foreground_window: 1, foreground_lost: false };
    for (_, _, kind, _) in frames(&plan_monitor(&wm.monitors[0], 0, attention)) {
        assert_eq!(kind, WindowKind::Unfocused);
    }
}

#[test]
fn a_workspace_that_does_not_tile_has_no_borders() {
    let mut wm = two_containers();
    wm.monitors[0].workspaces[0].tile = false;
    let attention =
        Attention { focused_monitor: 0, foreground_window: 1, foreground_lost: false };
    let steps = plan_monitor(&wm.monitors[0], 0, attention);
    assert_eq!(steps.len(), 1);
    assert!(matches!(&steps[0], BorderStep::Clear(0, keep) if keep.ids.is_empty()));
}

#[test]
fn monocle_mode_has_one_border() {
    let mut wm = two_containers();
    wm.monitors[0].workspaces[0].monocle_container = Some(container("m", &[7]));
    let attention =
        Attention { focused_monitor: 0, foreground_window: 7, foreground_lost: false };
    let steps = plan_monitor(&wm.monitors[0], 0, attention);
    assert_eq!(frames(&steps), vec![("m".to_string(), 7, WindowKind::Monocle, false)]);
    assert!(matches!(&steps[1], BorderStep::Clear(0, keep) if keep.ids == vec!["m"]));
}

#[test]
fn floating_windows_go_by_their_id() {
    let mut wm = manager(vec![monitor(1, "S1", vec![workspace(vec![container("a", &[1])])])]);
    wm.monitors[0].workspaces[0].floating_windows = vec![window(40, "Notes"), window(41, "Notes")];
    let attention =
        Attention { focused_monitor: 0, foreground_window: 40, foreground_lost: false };
    let steps = plan_monitor(&wm.monitors[0], 0, attention);
    assert_eq!(
        frames(&steps),
        vec![
            ("a".to_string(), 1, WindowKind::Unfocused, false),
            ("40".to_string(), 40, WindowKind::Floating, false),
            ("41".to_string(), 41, WindowKind::Unfocused, false),
        ]
    );
    assert_eq!(skip_refused(&steps, 0), steps.len());
    assert_eq!(skip_refused(&steps, 1), 3);
    assert_eq!(skip_refused(&steps, 3), 4);
}

#[test]
fn a_border_is_made_once_and_follows_its_container() {
    let mut borders = Borders::new();
    assert_eq!(borders.frame(&frame("a", 1, WindowKind::Single), None), Framed::Refused);
    assert_eq!(
        borders.frame(&frame("a", 1, WindowKind::Single), Some("Notes".to_string())),
        Framed::Redraw { retrack: false }
    );
    let info = window_border(&borders, 1).unwrap();
    assert_eq!((info.border_id.as_str(), info.window_kind), ("a", WindowKind::Single));
    assert_eq!(
        borders.frame(&frame("a", 2, WindowKind::Stack), None),
        Framed::Redraw { retrack: true }
    );
    assert!(window_border(&borders, 1).is_none());
    assert_eq!(window_border(&borders, 2).unwrap().window_kind, WindowKind::Stack);
}

#[test]
fn borders_that_do_not_stay_are_removed() {
    let mut borders = Borders::new();
    for (id, window_id) in [("a", 1), ("b", 2), ("c", 3)] {
        borders.frame(&frame(id, window_id, WindowKind::Single), Some("Notes".to_string()));
    }
    let keep = Keep { ids: vec!["a".to_string()], windows: vec![3] };
    assert_eq!(borders.remove_borders(0, &keep), vec!["b"]);
    assert!(window_border(&borders, 2).is_none());
    assert!(window_border(&borders, 1).is_some());
    assert!(window_border(&borders, 3).is_some());
    let none = Keep { ids: Vec::new(), windows: Vec::new() };
    assert!(borders.remove_borders(1, &none).is_empty());
}

#[test]
fn destroying_all_borders_leaves_none() {
    let mut borders = Borders::new();
    borders.frame(&frame("a", 1, WindowKind::Single), Some("Notes".to_string()));
    borders.frame(&frame("b", 2, WindowKind::Single), Some("Notes".to_string()));
    assert_eq!(destroy_all_borders(&mut borders).len(), 2);
    assert!(borders.state.is_empty());
    assert!(window_border(&borders, 1).is_none());
}

#[test]
fn only_the_focused_window_has_a_look() {
    let mut settings = BorderSettings::default();
    settings.set_colour(WindowKind::Single, Rgb { r: 1, g: 2, b: 3 });
    settings.width = 9;
    let mut border = Border {
        tracking_window_id: 1,
        process_id: 100,
        monitor_idx: Some(0),
        window_kind: WindowKind::Single,
        application_name: "Notes".to_string(),
    };
    let look = border.update(&settings).unwrap();
    assert_eq!(look.colour, Rgb { r: 1, g: 2, b: 3 });
    assert_eq!(look.width, 9);
    border.window_kind = WindowKind::UnfocusedLocked;
    assert!(border.update(&settings).is_none());
}

#[test]
fn colours_are_kept_apart() {
    let mut settings = BorderSettings::default();
    let stack = window_kind_colour(&settings, WindowKind::Stack);
    settings.set_colour(WindowKind::Monocle, Rgb { r: 9, g: 9, b: 9 });
    assert_eq!(window_kind_colour(&settings, WindowKind::Monocle), Rgb { r: 9, g: 9, b: 9 });
    assert_eq!(window_kind_colour(&settings, WindowKind::Stack), stack);
}

#[test]
fn applications_may_have_a_radius_of_their_own() {
    let mut settings = BorderSettings::default();
    settings.radius = 10;
    let mut rules = NameMap::new();
    rules.insert("Notes".to_string(), 4);
    set_border_radius_rules(&mut settings, rules);
    assert_eq!(border_radius_for(&settings, "Notes"), 4);
    assert_eq!(border_radius_for(&settings, "Mail"), 10);
}

#[test]
fn flash_styles_are_read_in_any_case() {
    assert_eq!(FlashStyle::from_str("WIDTH"), Ok(FlashStyle::Width));
    assert_eq!(FlashStyle::from_str("None"), Ok(FlashStyle::Still));
    assert!(FlashStyle::from_str("glow").is_err());
    assert!(FlashStyle::from_lowercase("WIDTH").is_err());
    let mut settings = BorderSettings::default();
    set_flash_style(&mut settings, FlashStyle::Still);
    assert_eq!(flash_style(&settings), FlashStyle::Still);
    assert!(settings.flash.played(8, true).is_none());
    set_flash_easing(&mut settings.flash, "EaseOutQuad");
    assert_eq!(flash_easing(&settings.flash), "EaseOutQuad");
}

#[test]
fn a_new_window_keeps_the_focus_for_a_while() {
    let mut settings = BorderSettings::default();
    note_window_appeared(&mut settings, 10_000);
    assert!(window_appeared_recently(&settings, 11_499));
    assert!(!window_appeared_recently(&settings, 11_500));
}

#[test]
fn borders_are_drawn_when_something_changes() {
    let wm = two_containers();
    let mut watch = BorderWatch::new();
    let borders = Borders::new();
    let update = Some(Notification::Update(Some(1), false));
    assert!(watch.is_worth_looking(update, &borders, 1));
    let verdict = watch.look(&wm, &borders, update, sight(5_000, 1));
    assert_eq!(
        verdict,
        BorderVerdict::Draw(Attention {
            focused_monitor: 0,
            foreground_window: 1,
            foreground_lost: false
        })
    );
    assert_eq!(watch.look(&wm, &borders, None, sight(5_001, 1)), BorderVerdict::Skip);
    assert!(!watch.is_worth_looking(None, &borders, 1));
}

#[test]
fn borders_are_hidden_from_other_windows() {
    let wm = two_containers();
    let mut watch = BorderWatch::new();
    let mut borders = Borders::new();
    borders.frame(&frame("a", 1, WindowKind::Single), Some("Notes".to_string()));
    assert_eq!(watch.look(&wm, &borders, None, sight(5_000, 99)), BorderVerdict::HideAll);
    assert_eq!(watch.look(&wm, &borders, None, sight(5_200, 99)), BorderVerdict::Skip);
    assert!(matches!(
        watch.look(&wm, &borders, None, sight(5_400, 1)),
        BorderVerdict::Draw(_)
    ));
}

#[test]
fn pausing_destroys_the_borders() {
    let mut wm = two_containers();
    wm.is_paused = true;
    let mut watch = BorderWatch::new();
    let verdict =
        watch.look(&wm, &Borders::new(), Some(Notification::ForceUpdate), sight(5_000, 1));
    assert_eq!(verdict, BorderVerdict::DestroyAll);
}

#[test]
fn lost_focus_is_noticed_after_a_grace_period() {
    let wm = two_containers();
    let mut watch = BorderWatch::new();
    let borders = Borders::new();
    let force = Some(Notification::ForceUpdate);
    let lost = |verdict: BorderVerdict| match verdict {
        BorderVerdict::Draw(attention) => attention.foreground_lost,
        _ => false,
    };
    assert!(!lost(watch.look(&wm, &borders, force, sight(5_000, 0))));
    assert!(!lost(watch.look(&wm, &borders, force, sight(5_399, 0))));
    assert!(lost(watch.look(&wm, &borders, force, sight(5_400, 0))));
}
