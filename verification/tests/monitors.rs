use komorebi::border_manager::BorderSettings;
use komorebi::focus_follows_mouse::Follower;
use komorebi::geometry::Rect;
use komorebi::geometry::WindowHidingPosition;
use komorebi::macos_api::Attached;
use komorebi::macos_api::Display;
use komorebi::macos_api::MacosApi;
use komorebi::macos_api::MonitorInfo;
use komorebi::macos_api::Screen;
use komorebi::macos_api::windows::FoundWindow;
use komorebi::monitor_reconciliator::MonitorCache;
use komorebi::monitor_reconciliator::insert_in_monitor_cache;
use komorebi::process_command::plan::CommandPlan;
use komorebi::rule_book::RuleBook;
use komorebi::rules::ApplicationIdentifier;
use komorebi::session::SessionState;
use komorebi::session::SessionWindow;
use komorebi::session;
use komorebi::settings::AnimationSetting;
use komorebi::settings::AnimationSettings;
use komorebi::settings::AnimationStyle;
use komorebi::settings::DefaultLayout;
use komorebi::settings::MonocleFocusBehaviour;
use komorebi::settings::MoveBehaviour;
use komorebi::settings::OperationBehaviour;
use komorebi::settings::Placement;
use komorebi::settings::WindowAttributes;
use komorebi::settings::WindowContainerBehaviour;
use komorebi::settings::WindowManagementBehaviour;
use komorebi::settings::WorkspaceLayer;
use komorebi::subscriptions::Subscriptions;
use komorebi::window::WindowMemory;
use komorebi::window_manager::CommandError;
use komorebi::window_manager::Container;
use komorebi::window_manager::Monitor;
use komorebi::window_manager::Window;
use komorebi::window_manager::WindowManager;
use komorebi::window_manager::Workspace;
use std::collections::HashMap;

fn rect(left: i32, top: i32, right: i32, bottom: i32) -> Rect {
    Rect { left, top, right, bottom }
}

fn window(id: u32, application: &str) -> Window {
    Window { id, process_id: 100, application: Some(application.to_string()) }
}

fn container(name: &str, ids: &[u32]) -> Container {
    Container {
        id: name.to_string(),
        windows: ids.iter().map(|id| window(*id, "Notes")).collect(),
        focused_window: 0,
        locked: false,
    }
}

fn workspace(containers: Vec<Container>) -> Workspace {
    Workspace {
        name: None,
        containers,
        focused_container: 0,
        monocle_container: None,
        monocle_container_restore_idx: None,
        maximized_window: None,
        floating_windows: Vec::new(),
        focused_floating_window: 0,
        layout: DefaultLayout::BSP,
        layout_options: None,
        layer: WorkspaceLayer::Tiling,
        tile: true,
        preselected_container_idx: None,
        float_override: None,
        window_container_behaviour: None,
        apply_window_based_work_area_offset: true,
        work_area_offset: None,
        work_area: rect(0, 25, 1920, 1055),
        window_hiding_position: WindowHidingPosition::BottomRight,
        latest_layout: Vec::new(),
        resize_dimensions: Vec::new(),
        workspace_rules: Vec::new(),
        initial_workspace_rules: Vec::new(),
    }
}

fn monitor(id: u32, serial: &str, workspaces: Vec<Workspace>) -> Monitor {
    Monitor {
        id,
        device: "display".to_string(),
        serial_number_id: serial.to_string(),
        size: rect(0, 0, 1920, 1080),
        work_area_size: rect(0, 25, 1920, 1055),
        work_area_offset: None,
        window_based_work_area_offset: None,
        window_based_work_area_offset_limit: 1,
        workspaces,
        focused_workspace: 0,
        last_focused_workspace: None,
        container_padding: None,
        workspace_padding: None,
        wallpaper: None,
        floating_layer_behaviour: None,
        window_hiding_position: WindowHidingPosition::BottomRight,
    }
}

fn behaviour() -> WindowManagementBehaviour {
    WindowManagementBehaviour {
        current_behaviour: WindowContainerBehaviour::Create,
        float_override: false,
        floating_layer_override: false,
        floating_layer_placement: Placement::Center,
        float_override_placement: Placement::Unchanged,
        float_rule_placement: Placement::Unchanged,
    }
}

fn manager(monitors: Vec<Monitor>) -> WindowManager {
    WindowManager {
        monitors,
        focused_monitor: 0,
        monitor_usr_idx_map: HashMap::new(),
        display_index_preferences: Vec::new(),
        is_paused: false,
        space_id: Some(1),
        mouse_follows_focus: true,
        follower: Follower::default(),
        resize_delta: 50,
        work_area_offset: None,
        window_management_behaviour: behaviour(),
        cross_monitor_move_behaviour: MoveBehaviour::Swap,
        monocle_focus_behaviour: MonocleFocusBehaviour::Cycle,
        unmanaged_window_operation_behaviour: OperationBehaviour::Op,
        known_window_ids: HashMap::new(),
        already_moved_window_ids: Vec::new(),
        unmanaged_window_ids: Vec::new(),
        minimized_windows: HashMap::new(),
        pending_move_op: None,
        pending_resize_op: None,
        pending_session: None,
        rules: RuleBook::new(),
        subscriptions: Subscriptions::new(),
        borders: BorderSettings::default(),
        animation: AnimationSettings {
            enabled: AnimationSetting { global: true, movement: None, transparency: None },
            duration: AnimationSetting { global: 250, movement: None, transparency: None },
            style: AnimationSetting {
                global: AnimationStyle { index: 0 },
                movement: None,
                transparency: None,
            },
            fps: 60,
        },
        memory: WindowMemory::new(),
    }
}

fn attached(id: u32, serial: &str) -> Attached {
    Attached {
        id,
        device: "display".to_string(),
        serial_number_id: serial.to_string(),
        size: rect(0, 0, 2560, 1440),
        work_area_size: rect(0, 25, 2560, 1415),
    }
}

fn found_attributes(exe: &str) -> WindowAttributes {
    WindowAttributes {
        title: Some("title".to_string()),
        exe: Some(exe.to_string()),
        role: Some("AXWindow".to_string()),
        subrole: Some("AXStandardWindow".to_string()),
        path: Some("/Applications".to_string()),
    }
}

fn found(id: u32, exe: &str, left: i32) -> FoundWindow {
    FoundWindow {
        window: window(id, exe),
        attributes: found_attributes(exe),
        is_valid: true,
        rect: rect(left, 100, 800, 600),
        container_id: format!("container-{}", id),
    }
}

fn operations(plan: &CommandPlan) -> Vec<String> {
    assert_eq!(plan.failure, None);
    plan.operations.iter().map(|op| format!("{:?}", op)).collect()
}

fn serials(wm: &WindowManager) -> Vec<&str> {
    wm.monitors.iter().map(|m| m.serial_number_id.as_str()).collect()
}

fn two_monitors() -> WindowManager {
    manager(vec![
        monitor(1, "S1", vec![workspace(vec![container("a", &[1])])]),
        monitor(2, "S2", vec![workspace(vec![container("b", &[2]), container("c", &[3])])]),
    ])
}

#[test]
fn displays_are_taken_in_order() {
    let mut wm = manager(Vec::new());
    let devices =
        vec![monitor(1, "S1", Vec::new()), monitor(2, "S2", Vec::new()), monitor(3, "S1", Vec::new())];
    MacosApi::load_monitor_information(&mut wm, &devices);
    assert_eq!(serials(&wm), vec!["S1", "S2"]);
    assert_eq!(wm.monitor_usr_idx_map.get(&0), Some(&0));
    assert_eq!(wm.monitor_usr_idx_map.get(&1), Some(&1));
}

#[test]
fn preferred_indices_are_honoured() {
    let mut wm = manager(Vec::new());
    wm.display_index_preferences = vec![(0, "S2".to_string())];
    let devices = vec![monitor(1, "S1", Vec::new()), monitor(2, "S2", Vec::new())];
    MacosApi::load_monitor_information(&mut wm, &devices);
    assert_eq!(serials(&wm), vec!["S2", "S1"]);
    assert_eq!(wm.monitor_usr_idx_map.get(&0), Some(&0));
    assert_eq!(wm.monitor_usr_idx_map.get(&1), Some(&1));
}

#[test]
fn an_index_that_is_far_out_leaves_no_gap() {
    let mut wm = manager(Vec::new());
    wm.display_index_preferences = vec![(3, "S2".to_string())];
    let devices = vec![monitor(1, "S1", Vec::new()), monitor(2, "S2", Vec::new())];
    MacosApi::load_monitor_information(&mut wm, &devices);
    assert_eq!(serials(&wm), vec!["S1", "S2"]);
    assert_eq!(wm.monitor_usr_idx_map.get(&3), Some(&1));
    assert_eq!(wm.monitor_usr_idx_map.get(&0), Some(&0));
    assert_eq!(wm.monitor_usr_idx_map.len(), 2);
}

#[test]
fn the_hardware_names_displays() {
    let displays = vec![
        Display { id: 7, serial_number: 99, bounds: rect(0, 0, 2560, 1440) },
        Display { id: 8, serial_number: 0, bounds: rect(0, 0, 1440, 900) },
    ];
    let screens = vec![
        Screen { display_id: Some(8), name: "Built-in".to_string(), visible_frame: rect(0, 25, 1440, 875) },
        Screen { display_id: Some(7), name: "External".to_string(), visible_frame: rect(0, 25, 2560, 1415) },
    ];
    let infos = vec![MonitorInfo {
        serial_number: 99,
        alphanumeric_serial_number: "ABC".to_string(),
        product_name: "Studio".to_string(),
    }];
    let found = MacosApi::latest_monitor_information(&displays, &screens, &infos);
    assert_eq!(found.len(), 2);
    assert_eq!(found[0].id, 7);
    assert_eq!(found[0].device, "Studio");
    assert_eq!(found[0].serial_number_id, "ABC");
    assert_eq!(found[1].id, 8);
    assert_eq!(found[1].device, "Built-in");
}

#[test]
fn windows_go_to_the_workspace_that_is_showing() {
    let mut wm = two_monitors();
    wm.monitors[1].size = rect(1920, 0, 1920, 1080);
    let found = vec![
        found(10, "Notes", 2000),
        found(11, "Spotlight", 100),
        found(12, "Mail", 1120),
        found(13, "Mail", 1121),
        found(14, "Mail", -1),
    ];
    let chosen = MacosApi::windows_to_manage(&wm, &found);
    assert_eq!(chosen, vec![(1, 0), (0, 2)]);
    MacosApi::load_workspace_information(&mut wm, &mut None, &found, &chosen);
    assert_eq!(wm.monitors[1].workspaces[0].containers[2].id, "container-10");
    assert_eq!(wm.monitors[0].workspaces[0].containers[1].windows[0].id, 12);
}

#[test]
fn windows_go_back_to_their_place_in_the_session() {
    let mut wm = two_monitors();
    let found = vec![found(10, "Notes", 0)];
    let entry = |monitor| SessionWindow {
        window_id: 10,
        exe: "Notes".to_string(),
        title: "title".to_string(),
        monitor,
        workspace: 0,
        index: 0,
    };
    let written = |monitor| {
        Some(SessionState {
            boot_uuid: "BOOT".to_string(),
            windows: vec![entry(monitor)],
            ids_are_current: true,
        })
    };
    let mut session = written(1);
    MacosApi::load_workspace_information(&mut wm, &mut session, &found, &vec![(0, 0)]);
    assert_eq!(wm.monitors[1].workspaces[0].containers.len(), 3);
    assert_eq!(wm.monitors[1].workspaces[0].containers[0].id, "container-10");
    assert!(session.unwrap().is_spent());
    let mut session = written(9);
    MacosApi::load_workspace_information(&mut wm, &mut session, &found, &vec![(0, 0)]);
    assert_eq!(wm.monitors[0].workspaces[0].containers.len(), 2);
}

#[test]
fn work_areas_follow_the_display() {
    let mut wm = two_monitors();
    let operation = MacosApi::update_monitor_work_areas(&mut wm, &attached(2, "S2"));
    assert_eq!(wm.monitors[1].work_area_size, rect(0, 25, 2560, 1415));
    assert_eq!(wm.monitors[0].work_area_size, rect(0, 25, 1920, 1055));
    assert_eq!(format!("{:?}", operation), "UpdateFocusedWorkspace(true, true)");
}

#[test]
fn an_unplugged_monitor_is_kept() {
    let mut wm = two_monitors();
    wm.focused_monitor = 1;
    wm.known_window_ids.insert(1, (0, 0));
    wm.known_window_ids.insert(2, (1, 0));
    wm.rules.add_workspace_rule(ApplicationIdentifier::Exe, "Notes".to_string(), 1, 0, false);
    wm.rules.add_workspace_rule(ApplicationIdentifier::Exe, "Mail".to_string(), 0, 0, false);
    let mut cache = MonitorCache::new();
    let detached = wm.detach_monitors(&mut cache, &vec![attached(7, "S1")]).unwrap();
    assert_eq!(detached.initial_count, 2);
    assert_eq!(detached.serial_ids, vec!["S1"]);
    assert_eq!(operations(&detached.plan), vec!["UpdateMonitorFocusedWorkspace(0)"]);
    assert_eq!(serials(&wm), vec!["S1"]);
    assert_eq!(wm.monitors[0].id, 7);
    assert_eq!(wm.focused_monitor, 0);
    assert_eq!(wm.known_window_ids.len(), 1);
    assert_eq!(wm.rules.workspace_matching_rules.len(), 1);
    let kept = cache.monitors.get("S2").unwrap();
    assert_eq!(kept.workspaces[0].containers.len(), 2);
}

#[test]
fn the_same_number_of_displays_changes_nothing() {
    let mut wm = two_monitors();
    let mut cache = MonitorCache::new();
    let same = vec![attached(1, "S1"), attached(2, "S9")];
    assert!(wm.detach_monitors(&mut cache, &same).is_none());
    assert_eq!(wm.monitors[0].size, rect(0, 0, 2560, 1440));
    assert_eq!(serials(&wm), vec!["S1", "S2"]);
    assert!(wm.detach_monitors(&mut cache, &Vec::new()).is_none());
}

#[test]
fn the_last_monitor_cannot_be_focused_once_it_is_gone() {
    let mut wm = two_monitors();
    let mut cache = MonitorCache::new();
    let detached = wm.detach_monitors(&mut cache, &vec![attached(3, "S3")]).unwrap();
    assert_eq!(detached.plan.failure, Some(CommandError::NotAMonitorIndex));
    assert_eq!(cache.monitors.len(), 2);
}

#[test]
fn a_monitor_comes_back_as_it_was() {
    let mut wm = two_monitors();
    let mut cache = MonitorCache::new();
    let detached = wm.detach_monitors(&mut cache, &vec![attached(1, "S1")]).unwrap();
    wm.monitors.push(monitor(9, "S2", vec![workspace(Vec::new())]));
    let mut attachment = wm.start_attaching(detached.serial_ids, detached.initial_count).unwrap();
    let alive = vec![1, 2, 3];
    let (plan, done) = wm.attach_monitors(&mut cache, &mut attachment, &alive);
    assert!(!done);
    assert_eq!(wm.monitors[1].id, 9);
    assert_eq!(wm.monitors[1].workspaces[0].containers.len(), 2);
    assert_eq!(
        operations(&plan),
        vec!["LoadFocusedWorkspace(1, true)", "UpdateMonitorFocusedWorkspace(1)"]
    );
    let (plan, done) = wm.attach_monitors(&mut cache, &mut attachment, &alive);
    assert!(done);
    assert!(cache.monitors.is_empty());
    assert_eq!(
        operations(&plan),
        vec![
            "FocusMonitor(0)",
            "FocusWorkspace(0)",
            "RetileAll(true)",
            "NotifySubscribers",
            "UpdateBorders"
        ]
    );
}

#[test]
fn windows_that_have_gone_do_not_come_back() {
    let mut wm = two_monitors();
    let mut cache = MonitorCache::new();
    let detached = wm.detach_monitors(&mut cache, &vec![attached(1, "S1")]).unwrap();
    wm.monitors.push(monitor(9, "S2", vec![workspace(Vec::new())]));
    wm.known_window_ids.insert(3, (0, 0));
    let mut attachment = wm.start_attaching(detached.serial_ids, 2).unwrap();
    let (plan, _) = wm.attach_monitors(&mut cache, &mut attachment, &vec![1, 3]);
    let ids: Vec<usize> =
        wm.monitors[1].workspaces[0].containers.iter().map(|c| c.windows.len()).collect();
    assert_eq!(ids, vec![0, 0]);
    assert_eq!(
        operations(&plan)[..2].to_vec(),
        vec!["RemoveContainerByIdx(1, 0, 1)", "RemoveContainer(1, 0, 0)"]
    );
}

#[test]
fn kept_monitors_go_by_their_serial_number() {
    let mut cache = MonitorCache::new();
    let preferences = vec![(0, "S5".to_string())];
    insert_in_monitor_cache(&mut cache, &preferences, "S5", monitor(1, "REAL", Vec::new()));
    insert_in_monitor_cache(&mut cache, &preferences, "S6", monitor(2, "REAL", Vec::new()));
    assert!(cache.monitors.contains_key("REAL"));
    assert!(cache.monitors.contains_key("S6"));
    assert!(!cache.monitors.contains_key("S5"));
    cache.drop_entry("S6");
    assert!(!cache.monitors.contains_key("S6"));
}

#[test]
fn every_monitor_has_one_index() {
    let mut wm = manager(Vec::new());
    wm.display_index_preferences =
        vec![(4, "S3".to_string()), (1, "S1".to_string()), (0, "AWAY".to_string())];
    let devices: Vec<Monitor> =
        (1..5).map(|id| monitor(id, &format!("S{id}"), Vec::new())).collect();
    MacosApi::load_monitor_information(&mut wm, &devices);
    let mut named: Vec<usize> = wm.monitor_usr_idx_map.values().copied().collect();
    named.sort_unstable();
    assert_eq!(named, (0..wm.monitors.len()).collect::<Vec<usize>>());
    assert_eq!(wm.monitors[wm.monitor_usr_idx_map[&4]].serial_number_id, "S3");
    assert_eq!(wm.monitors[wm.monitor_usr_idx_map[&1]].serial_number_id, "S1");
}

#[test]
fn a_failed_load_leaves_the_rest_alone() {
    let mut wm = manager(vec![
        monitor(1, "S1", vec![workspace(Vec::new())]),
        monitor(2, "S2", vec![workspace(vec![container("b", &[2])])]),
        monitor(3, "S3", vec![workspace(vec![container("c", &[3])])]),
    ]);
    let mut cache = MonitorCache::new();
    let detached = wm.detach_monitors(&mut cache, &vec![attached(1, "S1")]).unwrap();
    wm.monitors.push(monitor(2, "S2", vec![workspace(Vec::new())]));
    wm.monitors.push(monitor(3, "S3", vec![workspace(Vec::new())]));
    let mut attachment = wm.start_attaching(detached.serial_ids, 3).unwrap();
    let alive = vec![2, 3];
    assert!(!wm.attach_monitors(&mut cache, &mut attachment, &alive).1);
    assert_eq!(wm.monitors[1].workspaces[0].containers.len(), 1);
    assert_eq!(wm.monitors[2].workspaces[0].containers.len(), 0);
    assert!(cache.monitors.contains_key("S2"));
    assert!(cache.monitors.contains_key("S3"));
    assert!(!wm.attach_monitors(&mut cache, &mut attachment, &alive).1);
    assert_eq!(wm.monitors[2].workspaces[0].containers.len(), 1);
    assert!(!cache.monitors.contains_key("S2"));
    assert!(cache.monitors.contains_key("S3"));
    assert!(wm.attach_monitors(&mut cache, &mut attachment, &alive).1);
    assert!(cache.monitors.is_empty());
}

#[test]
fn attaching_needs_a_focused_monitor() {
    let mut wm = manager(vec![monitor(1, "S1", vec![workspace(Vec::new())])]);
    wm.focused_monitor = 4;
    assert_eq!(wm.start_attaching(Vec::new(), 0).unwrap_err(), CommandError::NoMonitor);
    let mut attachment = wm.start_attaching(vec!["S1".to_string()], 1).unwrap();
    let (plan, done) =
        wm.attach_monitors(&mut MonitorCache::new(), &mut attachment, &Vec::new());
    assert!(done);
    assert_eq!(operations(&plan), vec!["NotifySubscribers", "UpdateBorders"]);
}

#[test]
fn a_restart_puts_every_window_back_in_its_slot() {
    let first = workspace(vec![container("a", &[1]), container("b", &[2]), container("c", &[3])]);
    let mut second = workspace(vec![container("d", &[4]), container("e", &[5])]);
    second.floating_windows.push(window(6, "Notes"));
    let before = manager(vec![
        monitor(1, "S1", vec![first]),
        monitor(2, "S2", vec![workspace(Vec::new()), second]),
    ]);
    let found: Vec<FoundWindow> =
        [3, 5, 2, 9, 6, 1, 4].iter().map(|id| found(*id, "Notes", 0)).collect();
    let seen: Vec<(u32, WindowAttributes)> = (1..7)
        .map(|id| {
            let mut attributes = found_attributes("Notes");
            attributes.title = Some(format!("window {id}"));
            (id, attributes)
        })
        .collect();
    let written = session::build(&before, &seen, &Some("BOOT".to_string()));
    let mut wm = manager(vec![
        monitor(1, "S1", vec![workspace(Vec::new())]),
        monitor(2, "S2", vec![workspace(Vec::new()), workspace(Vec::new())]),
    ]);
    let mut session = Some(session::load(written, Some("BOOT")));
    let chosen: Vec<(usize, usize)> = (0..found.len()).map(|i| (0, i)).collect();
    MacosApi::load_workspace_information(&mut wm, &mut session, &found, &chosen);
    let ids = |m: usize, w: usize| -> Vec<u32> {
        wm.monitors[m].workspaces[w].containers.iter().map(|c| c.windows[0].id).collect()
    };
    assert_eq!(ids(0, 0), vec![1, 2, 3, 9]);
    assert_eq!(ids(1, 0), Vec::<u32>::new());
    assert_eq!(ids(1, 1), vec![4, 5, 6]);
    assert!(session.unwrap().is_spent());
}

#[test]
fn a_reboot_puts_every_titled_window_back() {
    let before = manager(vec![monitor(
        1,
        "S1",
        vec![workspace(vec![container("a", &[1])]), workspace(vec![container("b", &[2])])],
    )]);
    let titled = |title: &str| {
        let mut attributes = found_attributes("Notes");
        attributes.title = Some(title.to_string());
        attributes
    };
    let seen = vec![(1, titled("one")), (2, titled("two"))];
    let written = session::build(&before, &seen, &Some("BOOT".to_string()));
    let mut session = Some(session::load(written, Some("OTHER")));
    let mut wm = manager(vec![monitor(
        1,
        "S1",
        vec![workspace(Vec::new()), workspace(Vec::new())],
    )]);
    let mut found = vec![found(1, "Notes", 0), found(70, "Notes", 0)];
    found[0].attributes = titled("two");
    found[1].attributes = titled("one");
    MacosApi::load_workspace_information(&mut wm, &mut session, &found, &vec![(0, 0), (0, 1)]);
    assert!(wm.monitors[0].workspaces[1].contains_window(1));
    assert!(wm.monitors[0].workspaces[0].contains_window(70));
}

#[test]
fn a_container_takes_its_slot() {
    let mut here = workspace(vec![container("a", &[1]), container("b", &[2])]);
    here.focused_container = 1;
    here.resize_dimensions = vec![None, Some(rect(1, 2, 3, 4))];
    here.insert_container(Some(1), container("c", &[3]));
    let names: Vec<&str> = here.containers.iter().map(|c| c.id.as_str()).collect();
    assert_eq!(names, vec!["a", "c", "b"]);
    assert_eq!(here.focused_container, 2);
    assert_eq!(here.resize_dimensions, vec![None, None, Some(rect(1, 2, 3, 4))]);
    here.insert_container(Some(9), container("d", &[4]));
    here.insert_container(None, container("e", &[5]));
    assert_eq!(here.containers[3].id, "d");
    assert_eq!(here.containers[4].id, "e");
    assert_eq!(here.focused_container, 2);
}
