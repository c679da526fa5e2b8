use komorebi::border_manager::BorderSettings;
use komorebi::focus_follows_mouse::Follower;
use komorebi::geometry::Rect;
use komorebi::geometry::WindowHidingPosition;
use komorebi::rule_book::RuleBook;
use komorebi::session::SessionState;
use komorebi::session::SessionWindow;
use komorebi::session;
use komorebi::settings::AnimationSetting;
use komorebi::settings::AnimationSettings;
use komorebi::settings::AnimationStyle;
use komorebi::settings::DefaultLayout;
use komorebi::settings::MonocleFocusBehaviour;
use komorebi::settings::MoveBehaviour;
use komorebi::settings::OperationBehaviour;
use komorebi::settings::Placement;
use komorebi::settings::WindowAttributes;
use komorebi::settings::WindowContainerBehaviour;
use komorebi::settings::WindowManagementBehaviour;
use komorebi::settings::WorkspaceLayer;
use komorebi::subscriptions::Subscriptions;
use komorebi::window::WindowMemory;
use komorebi::window_manager::Container;
use komorebi::window_manager::Monitor;
use komorebi::window_manager::Window;
use komorebi::window_manager::WindowManager;
use komorebi::window_manager::Workspace;
use std::collections::HashMap;

fn rect(left: i32, top: i32, right: i32, bottom: i32) -> Rect {
    Rect { left, top, right, bottom }
}

fn window(id: u32, application: &str) -> Window {
    Window { id, process_id: 100, application: Some(application.to_string()) }
}

fn container(name: &str, ids: &[u32]) -> Container {
    Container {
        id: name.to_string(),
        windows: ids.iter().map(|id| window(*id, "Notes")).collect(),
        focused_window: 0,
        locked: false,
    }
}

fn workspace(containers: Vec<Container>) -> Workspace {
    Workspace {
        name: None,
        containers,
        focused_container: 0,
        monocle_container: None,
        monocle_container_restore_idx: None,
        maximized_window: None,
        floating_windows: Vec::new(),
        focused_floating_window: 0,
        layout: DefaultLayout::BSP,
        layout_options: None,
        layer: WorkspaceLayer::Tiling,
        tile: true,
        preselected_container_idx: None,
        float_override: None,
        window_container_behaviour: None,
        apply_window_based_work_area_offset: true,
        work_area_offset: None,
        work_area: rect(0, 25, 1920, 1055),
        window_hiding_position: WindowHidingPosition::BottomRight,
        latest_layout: Vec::new(),
        resize_dimensions: Vec::new(),
        workspace_rules: Vec::new(),
        initial_workspace_rules: Vec::new(),
    }
}

fn monitor(id: u32, serial: &str, workspaces: Vec<Workspace>) -> Monitor {
    Monitor {
        id,
        device: "display".to_string(),
        serial_number_id: serial.to_string(),
        size: rect(0, 0, 1920, 1080),
        work_area_size: rect(0, 25, 1920, 1055),
        work_area_offset: None,
        window_based_work_area_offset: None,
        window_based_work_area_offset_limit: 1,
        workspaces,
        focused_workspace: 0,
        last_focused_workspace: None,
        container_padding: None,
        workspace_padding: None,
        wallpaper: None,
        floating_layer_behaviour: None,
        window_hiding_position: WindowHidingPosition::BottomRight,
    }
}

fn behaviour() -> WindowManagementBehaviour {
    WindowManagementBehaviour {
        current_behaviour: WindowContainerBehaviour::Create,
        float_override: false,
        floating_layer_override: false,
        floating_layer_placement: Placement::Center,
        float_override_placement: Placement::Unchanged,
        float_rule_placement: Placement::Unchanged,
    }
}

fn manager(monitors: Vec<Monitor>) -> WindowManager {
    WindowManager {
        monitors,
        focused_monitor: 0,
        monitor_usr_idx_map: HashMap::new(),
        display_index_preferences: Vec::new(),
        is_paused: false,
        space_id: Some(1),
        mouse_follows_focus: true,
        follower: Follower::default(),
        resize_delta: 50,
        work_area_offset: None,
        window_management_behaviour: behaviour(),
        cross_monitor_move_behaviour: MoveBehaviour::Swap,
        monocle_focus_behaviour: MonocleFocusBehaviour::Cycle,
        unmanaged_window_operation_behaviour: OperationBehaviour::Op,
        known_window_ids: HashMap::new(),
        already_moved_window_ids: Vec::new(),
        unmanaged_window_ids: Vec::new(),
        minimized_windows: HashMap::new(),
        pending_move_op: None,
        pending_resize_op: None,
        pending_session: None,
        rules: RuleBook::new(),
        subscriptions: Subscriptions::new(),
        borders: BorderSettings::default(),
        animation: AnimationSettings {
            enabled: AnimationSetting { global: true, movement: None, transparency: None },
            duration: AnimationSetting { global: 250, movement: None, transparency: None },
            style: AnimationSetting {
                global: AnimationStyle { index: 0 },
                movement: None,
                transparency: None,
            },
            fps: 60,
        },
        memory: WindowMemory::new(),
    }
}

fn entry(window_id: u32, exe: &str, title: &str, index: usize) -> SessionWindow {
    SessionWindow {
        window_id,
        exe: exe.to_string(),
        title: title.to_string(),
        monitor: 0,
        workspace: 1,
        index,
    }
}

fn written(windows: Vec<SessionWindow>) -> SessionState {
    SessionState { boot_uuid: "BOOT".to_string(), windows, ids_are_current: true }
}

fn attributes(title: &str, exe: &str) -> WindowAttributes {
    WindowAttributes {
        title: Some(title.to_string()),
        exe: Some(exe.to_string()),
        role: None,
        subrole: None,
        path: None,
    }
}

#[test]
fn a_window_is_matched_by_id_first() {
    let mut session =
        written(vec![entry(1, "Notes", "same", 4), entry(2, "Notes", "same", 5)]);
    assert_eq!(session.take_match(2, "Notes", "same"), Some((0, 1, 5)));
    assert_eq!(session.take_match(9, "Notes", "same"), Some((0, 1, 4)));
    assert!(session.is_spent());
}

#[test]
fn an_entry_is_claimed_once() {
    let mut session = written(vec![entry(1, "Notes", "a", 0)]);
    assert!(session.take_match(1, "Notes", "a").is_some());
    assert!(session.take_match(1, "Notes", "a").is_none());
}

#[test]
fn claims_stay_within_the_application() {
    let mut session = written(vec![entry(1, "Notes", "a", 0)]);
    assert!(session.take_match(1, "Mail", "a").is_none());
    assert!(!session.is_spent());
}

#[test]
fn an_untitled_window_claims_nothing_by_title() {
    let mut session = written(vec![entry(1, "Notes", "", 0)]);
    assert!(session.take_match(2, "Notes", "").is_none());
    assert!(session.take_match(1, "Notes", "").is_some());
}

#[test]
fn a_reboot_switches_the_ids_off() {
    let session = session::load(written(vec![entry(1, "Notes", "a", 0)]), Some("BOOT"));
    assert!(session.ids_are_current);
    let mut session = session::load(written(vec![entry(1, "Notes", "a", 0)]), Some("OTHER"));
    assert!(!session.ids_are_current);
    assert!(session.take_match(1, "Notes", "renamed").is_none());
    assert_eq!(session.take_match(7, "Notes", "a"), Some((0, 1, 0)));
    assert!(!session::load(written(Vec::new()), None).ids_are_current);
}

#[test]
fn every_window_is_written_down() {
    let mut second = workspace(vec![container("b", &[3])]);
    second.floating_windows.push(window(4, "Notes"));
    let wm = manager(vec![monitor(
        1,
        "S1",
        vec![workspace(vec![container("a", &[1, 2])]), second],
    )]);
    let seen: Vec<(u32, WindowAttributes)> =
        (1..5).map(|id| (id, attributes("title", "Notes"))).collect();
    let session = session::build(&wm, &seen, &Some("BOOT".to_string()));
    assert_eq!(session.boot_uuid, "BOOT");
    let places: Vec<(u32, usize, usize, usize)> = session
        .windows
        .iter()
        .map(|w| (w.window_id, w.monitor, w.workspace, w.index))
        .collect();
    assert_eq!(places, vec![(1, 0, 0, 0), (2, 0, 0, 0), (3, 0, 1, 0), (4, 0, 1, 0)]);
}

#[test]
fn a_restart_puts_windows_back() {
    let wm = manager(vec![monitor(
        1,
        "S1",
        vec![workspace(vec![container("a", &[1]), container("b", &[2])])],
    )]);
    let seen = vec![(1, attributes("one", "Notes")), (2, attributes("two", "Notes"))];
    let built = session::build(&wm, &seen, &Some("BOOT".to_string()));
    let mut session = session::load(built, Some("BOOT"));
    assert_eq!(session.take_match(2, "Notes", "renamed"), Some((0, 0, 1)));
    assert_eq!(session.take_match(1, "Notes", "one"), Some((0, 0, 0)));
}

#[test]
fn an_unchanged_session_is_not_written_again() {
    assert!(session::needs_writing("{}", None));
    assert!(!session::needs_writing("{}", Some("{}")));
    assert!(session::needs_writing("{1}", Some("{}")));
    assert_eq!(session::text_or_empty(&None), "");
    assert_eq!(session::text_or_empty(&Some("a".to_string())), "a");
}

#[test]
fn a_restart_puts_windows_without_a_slot_back() {
    let mut first = workspace(vec![container("a", &[1])]);
    first.floating_windows.push(window(2, "Notes"));
    let mut second = workspace(vec![container("b", &[3])]);
    second.monocle_container = Some(container("m", &[4, 5]));
    second.monocle_container_restore_idx = Some(2);
    let mut third = workspace(Vec::new());
    third.monocle_container = Some(container("n", &[6]));
    third.maximized_window = Some(window(7, "Notes"));
    let wm = manager(vec![
        monitor(1, "S1", vec![first]),
        monitor(2, "S2", vec![second, third]),
    ]);
    let seen: Vec<(u32, WindowAttributes)> =
        (1..8).map(|id| (id, attributes("title", "Notes"))).collect();
    let built = session::build(&wm, &seen, &Some("BOOT".to_string()));
    assert_eq!(built.windows.len(), 7);
    let mut session = session::load(built, Some("BOOT"));
    assert_eq!(session.take_match(2, "Notes", ""), Some((0, 0, 0)));
    assert_eq!(session.take_match(5, "Notes", ""), Some((1, 0, 2)));
    assert_eq!(session.take_match(4, "Notes", ""), Some((1, 0, 2)));
    assert_eq!(session.take_match(6, "Notes", ""), Some((1, 1, 0)));
    assert_eq!(session.take_match(7, "Notes", ""), Some((1, 1, 0)));
    assert_eq!(session.take_match(3, "Notes", ""), Some((1, 0, 0)));
    assert_eq!(session.take_match(1, "Notes", ""), Some((0, 0, 0)));
    assert!(session.is_spent());
}

#[test]
fn a_reboot_puts_titled_windows_back() {
    let mut here = workspace(vec![container("a", &[1]), container("b", &[2])]);
    here.monocle_container = Some(container("m", &[3]));
    let wm = manager(vec![monitor(1, "S1", vec![here])]);
    let seen = vec![
        (1, attributes("one", "Notes")),
        (2, attributes("two", "Notes")),
        (3, attributes("three", "Notes")),
    ];
    let built = session::build(&wm, &seen, &Some("BOOT".to_string()));
    let mut session = session::load(built, Some("OTHER"));
    assert_eq!(session.take_match(1, "Notes", "two"), Some((0, 0, 1)));
    assert_eq!(session.take_match(90, "Notes", "three"), Some((0, 0, 0)));
    assert_eq!(session.take_match(2, "Notes", "elsewhere"), None);
    assert_eq!(session.take_match(91, "Notes", "one"), Some((0, 0, 0)));
}
