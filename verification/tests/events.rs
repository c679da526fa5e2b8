use komorebi::border_manager::BorderSettings;
use komorebi::eligibility::RuleDebug;
use komorebi::events::AccessibilityNotification;
use komorebi::events::ManualNotification;
use komorebi::events::SystemNotification;
use komorebi::events::WindowManagerEvent;
use komorebi::focus_follows_mouse::Follower;
use komorebi::geometry::Rect;
use komorebi::geometry::WindowHidingPosition;
use komorebi::operation::EventStage;
use komorebi::process_command::plan::CommandPlan;
use komorebi::process_event::ApplicationSight;
use komorebi::process_event::EventSight;
use komorebi::process_event::MainWindowSight;
use komorebi::process_event::handling::Frame;
use komorebi::process_event::handling::HandlingSight;
use komorebi::process_event::handling::VisibleWindow;
use komorebi::rule_book::RuleBook;
use komorebi::session::SessionState;
use komorebi::session::SessionWindow;
use komorebi::settings::AnimationSetting;
use komorebi::settings::AnimationSettings;
use komorebi::settings::AnimationStyle;
use komorebi::settings::DefaultLayout;
use komorebi::settings::MonocleFocusBehaviour;
use komorebi::settings::MoveBehaviour;
use komorebi::settings::OperationBehaviour;
use komorebi::settings::Placement;
use komorebi::settings::WindowAttributes;
use komorebi::settings::WindowContainerBehaviour;
use komorebi::settings::WindowManagementBehaviour;
use komorebi::settings::WorkspaceLayer;
use komorebi::subscriptions::Subscriptions;
use komorebi::window::WindowMemory;
use komorebi::window_manager::CommandError;
use komorebi::window_manager::Container;
use komorebi::window_manager::Monitor;
use komorebi::window_manager::Window;
use komorebi::window_manager::WindowManager;
use komorebi::window_manager::Workspace;
use std::collections::HashMap;

fn rect(left: i32, top: i32, right: i32, bottom: i32) -> Rect {
    Rect { left, top, right, bottom }
}

fn window(id: u32, application: &str) -> Window {
    Window { id, process_id: 100, application: Some(application.to_string()) }
}

fn container(name: &str, ids: &[u32]) -> Container {
    Container {
        id: name.to_string(),
        windows: ids.iter().map(|id| window(*id, "Notes")).collect(),
        focused_window: 0,
        locked: false,
    }
}

fn workspace(containers: Vec<Container>) -> Workspace {
    Workspace {
        name: None,
        containers,
        focused_container: 0,
        monocle_container: None,
        monocle_container_restore_idx: None,
        maximized_window: None,
        floating_windows: Vec::new(),
        focused_floating_window: 0,
        layout: DefaultLayout::BSP,
        layout_options: None,
        layer: WorkspaceLayer::Tiling,
        tile: true,
        preselected_container_idx: None,
        float_override: None,
        window_container_behaviour: None,
        apply_window_based_work_area_offset: true,
        work_area_offset: None,
        work_area: rect(0, 25, 1920, 1055),
        window_hiding_position: WindowHidingPosition::BottomRight,
        latest_layout: Vec::new(),
        resize_dimensions: Vec::new(),
        workspace_rules: Vec::new(),
        initial_workspace_rules: Vec::new(),
    }
}

fn monitor(id: u32, serial: &str, workspaces: Vec<Workspace>) -> Monitor {
    Monitor {
        id,
        device: "display".to_string(),
        serial_number_id: serial.to_string(),
        size: rect(0, 0, 1920, 1080),
        work_area_size: rect(0, 25, 1920, 1055),
        work_area_offset: None,
        window_based_work_area_offset: None,
        window_based_work_area_offset_limit: 1,
        workspaces,
        focused_workspace: 0,
        last_focused_workspace: None,
        container_padding: None,
        workspace_padding: None,
        wallpaper: None,
        floating_layer_behaviour: None,
        window_hiding_position: WindowHidingPosition::BottomRight,
    }
}

fn behaviour() -> WindowManagementBehaviour {
    WindowManagementBehaviour {
        current_behaviour: WindowContainerBehaviour::Create,
        float_override: false,
        floating_layer_override: false,
        floating_layer_placement: Placement::Center,
        float_override_placement: Placement::Unchanged,
        float_rule_placement: Placement::Unchanged,
    }
}

fn manager(monitors: Vec<Monitor>) -> WindowManager {
    WindowManager {
        monitors,
        focused_monitor: 0,
        monitor_usr_idx_map: HashMap::new(),
        display_index_preferences: Vec::new(),
        is_paused: false,
        space_id: Some(1),
        mouse_follows_focus: true,
        follower: Follower::default(),
        resize_delta: 50,
        work_area_offset: None,
        window_management_behaviour: behaviour(),
        cross_monitor_move_behaviour: MoveBehaviour::Swap,
        monocle_focus_behaviour: MonocleFocusBehaviour::Cycle,
        unmanaged_window_operation_behaviour: OperationBehaviour::Op,
        known_window_ids: HashMap::new(),
        already_moved_window_ids: Vec::new(),
        unmanaged_window_ids: Vec::new(),
        minimized_windows: HashMap::new(),
        pending_move_op: None,
        pending_resize_op: None,
        pending_session: None,
        rules: RuleBook::new(),
        subscriptions: Subscriptions::new(),
        borders: BorderSettings::default(),
        animation: AnimationSettings {
            enabled: AnimationSetting { global: true, movement: None, transparency: None },
            duration: AnimationSetting { global: 250, movement: None, transparency: None },
            style: AnimationSetting {
                global: AnimationStyle { index: 0 },
                movement: None,
                transparency: None,
            },
            fps: 60,
        },
        memory: WindowMemory::new(),
    }
}

fn attributes(title: &str, exe: &str) -> WindowAttributes {
    WindowAttributes {
        title: Some(title.to_string()),
        exe: Some(exe.to_string()),
        role: Some("AXWindow".to_string()),
        subrole: Some("AXStandardWindow".to_string()),
        path: Some("/Applications".to_string()),
    }
}

fn accessibility(notification: AccessibilityNotification) -> SystemNotification {
    SystemNotification::Accessibility(notification)
}

fn created() -> WindowManagerEvent {
    WindowManagerEvent::Show(accessibility(AccessibilityNotification::AXWindowCreated), 100)
}

fn sight() -> HandlingSight {
    HandlingSight {
        now: 9_000,
        border_window_id: Some(5),
        application_found: true,
        application_name: Some("Notes".to_string()),
        window_ids: Vec::new(),
        main_window_id: None,
        frames: Vec::new(),
        reported_ids: Vec::new(),
        behaviour: behaviour(),
        cursor_monitor_idx: None,
        cursor_container_idx: None,
        target_container_idx: None,
        focus_was_ours: false,
        visible_windows: Vec::new(),
        shown_is_valid: true,
        shown: attributes("notes", "Notes"),
        shown_window: window(5, "Notes"),
        window_count: 1,
        container_id: "new".to_string(),
    }
}

fn event_sight(application: Option<&str>) -> EventSight {
    EventSight {
        current_space_id: Some(1),
        application: application
            .map(|name| ApplicationSight { name: Some(name.to_string()), main_window: None }),
    }
}

fn desk() -> WindowManager {
    manager(vec![
        monitor(
            1,
            "S1",
            vec![
                workspace(vec![container("a", &[1]), container("b", &[2, 3])]),
                workspace(vec![container("c", &[4])]),
            ],
        ),
        monitor(2, "S2", vec![workspace(Vec::new())]),
    ])
}

const FOLLOW_UP: [&str; 4] =
    ["UpdateKnownWindowIds", "NotifySubscribers", "UpdateBordersFor(Some(5))", "SaveSession"];

fn operations(plan: &CommandPlan) -> Vec<String> {
    plan.operations.iter().map(|op| format!("{:?}", op)).collect()
}

/// What an event that was handled in full does, without what follows every event.
fn done(plan: &CommandPlan) -> Vec<String> {
    assert_eq!(plan.failure, None);
    let all = operations(plan);
    let n = all.len() - 4;
    assert_eq!(&all[n..], FOLLOW_UP.as_slice());
    all[..n].to_vec()
}

fn debug() -> RuleDebug {
    RuleDebug::default()
}

#[test]
fn events_are_let_in() {
    let mut wm = desk();
    let plan = wm.process_event(created(), &event_sight(Some("Notes")), &mut debug());
    assert_eq!(operations(&plan), vec!["EnforceWorkspaceRules", "HandleEvent"]);
}

#[test]
fn pausing_silences_events() {
    let mut wm = desk();
    wm.is_paused = true;
    let plan = wm.process_event(created(), &event_sight(Some("Notes")), &mut debug());
    assert!(plan.operations.is_empty());
    assert_eq!(plan.failure, None);
}

#[test]
fn an_event_needs_its_application() {
    let mut wm = desk();
    let plan = wm.process_event(created(), &event_sight(None), &mut debug());
    assert_eq!(plan.failure, Some(CommandError::NoApplication));
}

#[test]
fn a_main_window_that_is_not_managed_drops_the_event() {
    let mut wm = desk();
    wm.unmanaged_window_ids.push(7);
    let mut seen = event_sight(Some("Notes"));
    let main = MainWindowSight { id: 7, is_valid: true, attributes: attributes("n", "Notes") };
    seen.application.as_mut().unwrap().main_window = Some(main);
    let mut found = debug();
    let plan = wm.process_event(created(), &seen, &mut found);
    assert!(plan.operations.is_empty());
    assert!(found.is_window);
    wm.unmanaged_window_ids.clear();
    let plan = wm.process_event(created(), &seen, &mut debug());
    assert_eq!(plan.operations.len(), 2);
}

#[test]
fn unlocking_undoes_locking() {
    let mut wm = desk();
    let lock = WindowManagerEvent::ScreenLock(SystemNotification::Workspace, 9);
    let unlock = WindowManagerEvent::ScreenUnlock(SystemNotification::Workspace, 9);
    wm.process_event(lock, &event_sight(Some("Notes")), &mut debug());
    assert!(!wm.is_paused);
    wm.process_event(lock, &event_sight(Some("loginwindow")), &mut debug());
    assert!(wm.is_paused);
    wm.process_event(unlock, &event_sight(Some("loginwindow")), &mut debug());
    assert!(!wm.is_paused);
}

#[test]
fn changing_spaces_only_touches_the_borders() {
    let mut wm = desk();
    let change = WindowManagerEvent::SpaceChange(SystemNotification::Workspace, 9);
    let mut seen = event_sight(Some("Notes"));
    let plan = wm.process_event(change, &seen, &mut debug());
    assert_eq!(operations(&plan), vec!["UpdateBorders"]);
    seen.current_space_id = Some(2);
    let plan = wm.process_event(change, &seen, &mut debug());
    assert_eq!(operations(&plan), vec!["DestroyAllBorders"]);
    let plan = wm.process_event(created(), &seen, &mut debug());
    assert_eq!(operations(&plan), vec!["DestroyAllBorders"]);
}

#[test]
fn only_announced_moves_are_believed() {
    let mut wm = desk();
    let at = rect(0, 0, 10, 10);
    let report = WindowManagerEvent::MoveEnd(
        accessibility(AccessibilityNotification::AXWindowMoved),
        100,
        1,
    );
    wm.memory.confirm_position(1, at);
    komorebi::window::expect_self_move_echoes(&mut wm.memory, 1, 1);
    wm.process_event(report, &event_sight(Some("Notes")), &mut debug());
    assert_eq!(wm.memory.known_position(1), Some(at));
    wm.process_event(report, &event_sight(Some("Notes")), &mut debug());
    assert_eq!(wm.memory.known_position(1), None);

    wm.memory.confirm_position(1, at);
    komorebi::window::expect_self_move_echoes(&mut wm.memory, 1, 1);
    let by_hand = WindowManagerEvent::MoveEnd(
        SystemNotification::Manual(ManualNotification::MouseMove),
        100,
        1,
    );
    wm.process_event(by_hand, &event_sight(Some("Notes")), &mut debug());
    assert_eq!(wm.memory.known_position(1), None);
}

#[test]
fn a_new_window_is_observed_and_placed() {
    let mut wm = desk();
    let mut seen = sight();
    seen.window_ids = vec![1, 5];
    let plan = wm.handle_event(created(), &seen, &mut debug());
    assert_eq!(operations(&plan), vec!["ObserveWindow(5)", "ResumeEvent(Place(5))"]);
    assert_eq!(wm.borders.last_window_appeared, 9_000);
    let plan = wm.resume_event(created(), EventStage::Place(5), &seen);
    assert_eq!(
        operations(&plan),
        vec![
            "NoteWindowOpened(5)".to_string(),
            format!("NewContainerForWindow({:?})", window(5, "Notes")),
            "SetWorkspaceLayer(Tiling)".to_string(),
            "UpdateFocusedWorkspace(false, false)".to_string(),
            "ResumeEvent(Placed { window: 5, tiled: true, was_there: false, monocle: None })"
                .to_string(),
        ]
    );
}

#[test]
fn a_window_that_is_here_is_not_placed_again() {
    let mut wm = desk();
    let mut seen = sight();
    seen.window_ids = vec![1];
    assert!(done(&wm.handle_event(created(), &seen, &mut debug())).is_empty());
    assert_eq!(wm.window_that_appeared(&vec![1, 2], Some(9)), Some(9));
    assert_eq!(wm.window_that_appeared(&vec![1, 2], Some(2)), Some(1));
    assert_eq!(wm.window_that_appeared(&Vec::new(), None), None);
}

#[test]
fn a_window_that_belongs_elsewhere_is_hidden() {
    let mut wm = desk();
    wm.known_window_ids.insert(5, (0, 1));
    let mut seen = sight();
    seen.window_ids = vec![5];
    assert_eq!(
        done(&wm.handle_event(created(), &seen, &mut debug())),
        vec!["HideUnmanagedWindow(5, BottomLeft)"]
    );
}

#[test]
fn a_window_that_is_not_managed_is_left_alone() {
    let mut wm = desk();
    let mut seen = sight();
    seen.window_ids = vec![5];
    seen.shown.subrole = Some("AXDialog".to_string());
    let mut found = debug();
    assert!(done(&wm.handle_event(created(), &seen, &mut found)).is_empty());
    assert_eq!(found.matches_permaignore_class, Some("AXDialog".to_string()));
}

#[test]
fn a_tab_is_not_placed() {
    let mut wm = desk();
    wm.rules.tabbed_applications.push("Notes".to_string());
    let mut seen = sight();
    seen.window_ids = vec![5];
    seen.visible_windows =
        vec![VisibleWindow { id: 5, application: Some("Notes".to_string()) }];
    seen.frames = vec![(5, Frame::At(rect(0, 0, 10, 10)))];
    assert!(done(&wm.handle_event(created(), &seen, &mut debug())).is_empty());
    seen.frames.clear();
    let plan = wm.handle_event(created(), &seen, &mut debug());
    assert_eq!(plan.failure, Some(CommandError::UnreadableFrame));
}

#[test]
fn a_window_goes_back_to_its_place_in_the_session() {
    let mut wm = desk();
    wm.pending_session = Some(SessionState {
        boot_uuid: "BOOT".to_string(),
        windows: vec![SessionWindow {
            window_id: 5,
            exe: "Notes".to_string(),
            title: "notes".to_string(),
            monitor: 0,
            workspace: 1,
            index: 0,
        }],
        ids_are_current: true,
    });
    let plan = wm.resume_event(created(), EventStage::Place(5), &sight());
    assert_eq!(
        operations(&plan),
        vec![
            "EnsureWorkspace(0, 1)",
            "ResumeEvent(PutBack { monitor: 0, workspace: 1, slot: 0 })"
        ]
    );
    let stage = EventStage::PutBack { monitor: 0, workspace: 1, slot: 0 };
    let plan = wm.resume_event(created(), stage, &sight());
    assert_eq!(done(&plan), vec!["HideWindow(5, BottomRight)", "SaveSession", "UpdateBorders"]);
    let containers = &wm.monitors[0].workspaces[1].containers;
    assert_eq!(containers.len(), 2);
    assert_eq!(containers[0].id, "new");
    assert_eq!(containers[0].windows.len(), 1);
    assert_eq!(containers[0].windows[0].id, 5);
    assert!(wm.pending_session.is_none());
}

#[test]
fn a_window_floats_where_that_is_asked_for() {
    let mut wm = desk();
    let mut seen = sight();
    seen.behaviour.floating_layer_override = true;
    seen.behaviour.floating_layer_placement = Placement::CenterAndResize;
    let plan = wm.resume_event(created(), EventStage::Place(5), &seen);
    assert_eq!(
        operations(&plan),
        vec![
            "CenterWindow(5, true)",
            "UpdateFocusedWorkspace(false, false)",
            "ResumeEvent(Placed { window: 5, tiled: false, was_there: false, monocle: None })"
        ]
    );
    assert_eq!(wm.monitors[0].workspaces[0].floating_windows.len(), 1);
    assert_eq!(wm.monitors[0].workspaces[0].layer, WorkspaceLayer::Floating);
}

#[test]
fn appending_needs_a_focused_container() {
    let mut wm = manager(vec![monitor(1, "S1", vec![workspace(Vec::new())])]);
    let mut seen = sight();
    seen.behaviour.current_behaviour = WindowContainerBehaviour::Append;
    let plan = wm.resume_event(created(), EventStage::Place(5), &seen);
    assert_eq!(plan.failure, Some(CommandError::NoFocusedContainer));
    assert_eq!(operations(&plan), vec!["NoteWindowOpened(5)"]);
}

#[test]
fn the_only_window_is_focused_once_placed() {
    let mut wm = manager(vec![monitor(1, "S1", vec![workspace(vec![container("a", &[5])])])]);
    let stage = EventStage::Placed { window: 5, tiled: true, was_there: false, monocle: None };
    assert_eq!(
        done(&wm.resume_event(created(), stage, &sight())),
        vec!["FocusWindow(5, true)"]
    );
    let behind = EventStage::Placed {
        window: 5,
        tiled: false,
        was_there: true,
        monocle: Some(Some(6)),
    };
    assert_eq!(
        done(&wm.resume_event(created(), behind, &sight())),
        vec!["HideWindow(5, BottomRight)"]
    );
}

#[test]
fn windows_that_have_gone_are_reaped() {
    let mut wm = desk();
    let gone = WindowManagerEvent::Destroy(
        accessibility(AccessibilityNotification::AXUIElementDestroyed),
        100,
    );
    let plan = wm.handle_event(gone, &sight(), &mut debug());
    assert_eq!(operations(&plan), vec!["ReapInvalidWindows(100)", "ResumeEvent(Reaped)"]);
    let hidden = WindowManagerEvent::Destroy(
        accessibility(AccessibilityNotification::AXApplicationHidden),
        100,
    );
    let plan = wm.handle_event(hidden, &sight(), &mut debug());
    assert_eq!(operations(&plan), vec!["ForceReapInvalidWindows(100)", "ResumeEvent(Reaped)"]);
    assert_eq!(
        done(&wm.resume_event(gone, EventStage::Reaped, &sight())),
        vec!["UpdateFocusedWorkspace(false, false)"]
    );
    wm.monitors[0].workspaces[0].containers.clear();
    assert_eq!(
        done(&wm.resume_event(gone, EventStage::Reaped, &sight())),
        vec!["ActivateFinder", "UpdateFocusedWorkspace(false, false)"]
    );
}

#[test]
fn unmanaged_windows_go_to_the_middle() {
    let mut wm = desk();
    let unmanage = WindowManagerEvent::Unmanage(
        SystemNotification::Manual(ManualNotification::Command),
        100,
        1,
    );
    assert_eq!(
        done(&wm.handle_event(unmanage, &sight(), &mut debug())),
        vec![
            "RemoveWindowFromFocusedWorkspace(1)",
            "CenterWindow(1, false)",
            "AddUnmanagedWindow(1)",
            "UpdateFocusedWorkspace(false, false)"
        ]
    );
}

#[test]
fn minimized_windows_come_back() {
    let mut wm = desk();
    let minimize = WindowManagerEvent::Minimize(
        accessibility(AccessibilityNotification::AXWindowMiniaturized),
        100,
        1,
    );
    assert_eq!(
        done(&wm.handle_event(minimize, &sight(), &mut debug())),
        vec!["ExtractMinimizedWindow(1)", "UpdateFocusedWorkspace(false, false)"]
    );
    let restore = WindowManagerEvent::Restore(
        accessibility(AccessibilityNotification::AXWindowDeminiaturized),
        100,
        8,
    );
    assert!(done(&wm.handle_event(restore, &sight(), &mut debug())).is_empty());
    wm.minimized_windows.insert(8, window(8, "Notes"));
    assert_eq!(
        done(&wm.handle_event(restore, &sight(), &mut debug())),
        vec![
            format!("NewContainerForWindow({:?})", window(8, "Notes")),
            "UpdateFocusedWorkspace(false, false)".to_string()
        ]
    );
    assert!(wm.minimized_windows.is_empty());
}

#[test]
fn a_window_dropped_on_another_trades_places() {
    let mut wm = desk();
    wm.monitors[0].workspaces[0].latest_layout =
        vec![rect(0, 0, 400, 400), rect(400, 0, 400, 400)];
    assert!(done(&wm.handle_move_start(1, &sight())).is_empty());
    assert_eq!(wm.pending_move_op, Some((0, 0, 1)));
    wm.handle_move_start(2, &sight());
    assert_eq!(wm.pending_move_op, Some((0, 0, 1)));

    let mut seen = sight();
    seen.cursor_monitor_idx = Some(0);
    seen.cursor_container_idx = Some(1);
    seen.frames = vec![(1, Frame::At(rect(390, 5, 400, 400)))];
    assert_eq!(
        done(&wm.handle_move_end(1, &seen)),
        vec!["SwapContainers(0, 1)", "UpdateFocusedWorkspace(false, false)"]
    );
    assert_eq!(wm.pending_move_op, None);
    assert!(done(&wm.handle_move_end(1, &seen)).is_empty());
}

#[test]
fn a_window_dropped_on_nothing_goes_back() {
    let mut wm = desk();
    wm.monitors[0].workspaces[0].latest_layout = vec![rect(0, 0, 400, 400)];
    wm.pending_move_op = Some((0, 0, 1));
    let mut seen = sight();
    seen.cursor_monitor_idx = Some(0);
    seen.frames = vec![(1, Frame::At(rect(390, 5, 400, 400)))];
    assert_eq!(
        done(&wm.handle_move_end(1, &seen)),
        vec!["UpdateFocusedWorkspace(true, false)"]
    );
}

#[test]
fn a_window_dropped_on_another_monitor_goes_over() {
    let mut wm = desk();
    wm.pending_move_op = Some((0, 0, 1));
    let mut seen = sight();
    seen.cursor_monitor_idx = Some(1);
    seen.frames = vec![(1, Frame::At(rect(2000, 5, 400, 400)))];
    assert_eq!(
        done(&wm.handle_move_end(1, &seen)),
        vec![
            "TransferWindow((0, 0, 1), (1, 0, 0))",
            "FocusMonitor(0)",
            "FocusMonitorWorkspace(0, 0)",
            "UpdateFocusedWorkspace(false, false)",
            "FocusMonitor(1)",
            "FocusMonitorWorkspace(1, 0)",
            "UpdateFocusedWorkspace(false, false)",
            "FocusWindow(1, true)"
        ]
    );
}

#[test]
fn moves_that_do_not_match_are_refused() {
    let mut wm = desk();
    wm.pending_move_op = Some((0, 0, 2));
    let plan = wm.handle_move_end(1, &sight());
    assert_eq!(plan.failure, Some(CommandError::MoveOfAnotherWindow(2, 1)));
    assert_eq!(wm.pending_move_op, None);
    wm.pending_move_op = Some((0, 0, 1));
    let plan = wm.handle_move_end(1, &sight());
    assert_eq!(plan.failure, Some(CommandError::NoMonitorAtCursor));
    let mut nothing = manager(Vec::new());
    let plan = nothing.handle_move_start(1, &sight());
    assert_eq!(plan.failure, Some(CommandError::NoMonitorWithIndex));
}

#[test]
fn resizing_moves_the_edges_twice_as_far() {
    let mut wm = desk();
    wm.monitors[0].workspaces[0].latest_layout = vec![rect(100, 100, 400, 400)];
    let mut seen = sight();
    seen.frames = vec![(1, Frame::At(rect(90, 100, 410, 430)))];
    assert!(done(&wm.handle_resize_start(1, &seen)).is_empty());
    assert_eq!(wm.pending_resize_op, Some((1, Some(rect(90, 100, 410, 430)))));
    assert_eq!(
        done(&wm.handle_resize_end(1, &seen)),
        vec![
            "ResizeWindow(Left, Increase, 20, true)",
            "ResizeWindow(Down, Increase, 60, true)",
            "UpdateFocusedWorkspace(false, false)"
        ]
    );
    assert_eq!(wm.pending_resize_op, None);
    wm.pending_resize_op = Some((2, Some(rect(0, 0, 1, 1))));
    let plan = wm.handle_resize_end(1, &seen);
    assert_eq!(plan.failure, Some(CommandError::ResizeOfAnotherWindow(2, 1)));
}

#[test]
fn a_focus_change_needs_its_application() {
    let mut wm = desk();
    let mut seen = sight();
    seen.application_found = false;
    let change = WindowManagerEvent::FocusChange(
        accessibility(AccessibilityNotification::AXFocusedWindowChanged),
        100,
        None,
    );
    let plan = wm.handle_event(change, &seen, &mut debug());
    assert_eq!(plan.failure, Some(CommandError::NoApplication));
}

#[test]
fn events_know_what_they_are_about() {
    let change = WindowManagerEvent::FocusChange(
        accessibility(AccessibilityNotification::AXFocusedWindowChanged),
        77,
        Some(5),
    );
    assert_eq!(change.process_id(), 77);
    assert_eq!(change.window_id(), Some(5));
    assert!(!change.is_creation());
    assert!(created().is_creation());
    assert_eq!(created().window_id(), None);
}

#[test]
fn reaping_comes_before_following_up() {
    let change = WindowManagerEvent::FocusChange(
        accessibility(AccessibilityNotification::AXFocusedWindowChanged),
        100,
        None,
    );
    let mut wm = manager(vec![monitor(1, "S1", vec![workspace(vec![container("a", &[1])])])]);
    wm.rules.tabbed_applications.push("Notes".to_string());
    let mut seen = sight();
    seen.main_window_id = Some(9);
    seen.frames = vec![(9, Frame::At(rect(0, 0, 10, 10))), (1, Frame::Gone)];
    let plan = wm.handle_event(change, &seen, &mut debug());
    assert_eq!(plan.failure, None);
    assert_eq!(
        operations(&plan),
        vec![
            "SendManualEvent(ShowOnFocusChangeFirstTabDestroyed, 100, 9)",
            "ReapInvalidWindows(100)",
            "ResumeEvent(FocusReaped(9))"
        ]
    );
    let plan = wm.resume_event(change, EventStage::FocusReaped(9), &seen);
    assert_eq!(
        operations(&plan),
        vec!["UpdateFocusedWorkspace(true, false)", "ResumeEvent(FocusSettled(9))"]
    );
    wm.monitors[0].workspaces[0].containers.clear();
    let plan = wm.resume_event(change, EventStage::FocusReaped(9), &seen);
    assert_eq!(operations(&plan), vec!["ResumeEvent(FocusSettled(9))"]);
    wm.monitors[0].workspaces.clear();
    let plan = wm.resume_event(change, EventStage::FocusReaped(9), &seen);
    assert_eq!(plan.failure, Some(CommandError::NoWorkspace));
}

#[test]
fn a_focus_change_is_followed_up_at_once_where_nothing_has_gone() {
    let change = WindowManagerEvent::FocusChange(
        accessibility(AccessibilityNotification::AXFocusedWindowChanged),
        100,
        None,
    );
    let mut wm = desk();
    let mut seen = sight();
    seen.main_window_id = Some(1);
    let plan = wm.handle_event(change, &seen, &mut debug());
    assert_eq!(
        operations(&plan),
        vec!["UpdateFocusedWorkspace(true, false)", "ResumeEvent(FocusSettled(1))"]
    );
}

#[test]
fn a_mismatch_names_both_windows() {
    assert_eq!(
        CommandError::MoveOfAnotherWindow(12, 340).message(),
        "window handles for move operation don't match: 12 != 340"
    );
    assert_eq!(
        CommandError::ResizeOfAnotherWindow(0, 4294967295).message(),
        "window handles for resize operation don't match: 0 != 4294967295"
    );
}

#[test]
fn a_window_of_a_monitor_that_is_gone_is_only_claimed() {
    let mut wm = desk();
    wm.pending_session = Some(SessionState {
        boot_uuid: "BOOT".to_string(),
        windows: vec![SessionWindow {
            window_id: 5,
            exe: "Notes".to_string(),
            title: "notes".to_string(),
            monitor: 7,
            workspace: 0,
            index: 0,
        }],
        ids_are_current: true,
    });
    let plan = wm.resume_event(created(), EventStage::Place(5), &sight());
    assert_eq!(done(&plan), vec!["SaveSession", "UpdateBorders"]);
    assert!(wm.pending_session.is_none());
}
