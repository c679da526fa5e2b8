use komorebi::border_manager::BorderSettings;
use komorebi::border_manager::Rgb;
use komorebi::focus_follows_mouse::Follower;
use komorebi::focus_follows_mouse::is_enabled;
use komorebi::geometry::Rect;
use komorebi::geometry::WindowHidingPosition;
use komorebi::message::Reception;
use komorebi::message::SocketMessage;
use komorebi::message::receive_command;
use komorebi::process_command::is_on_another_space;
use komorebi::process_command::plan::CommandPlan;
use komorebi::process_command::plan::CommandSight;
use komorebi::rule_book::RuleBook;
use komorebi::rules::ApplicationIdentifier;
use komorebi::settings::AnimationPrefix;
use komorebi::settings::AnimationSetting;
use komorebi::settings::AnimationSettings;
use komorebi::settings::AnimationStyle;
use komorebi::settings::Axis;
use komorebi::settings::CycleDirection;
use komorebi::settings::DefaultLayout;
use komorebi::settings::MonocleFocusBehaviour;
use komorebi::settings::MoveBehaviour;
use komorebi::settings::OperationBehaviour;
use komorebi::settings::OperationDirection;
use komorebi::settings::Placement;
use komorebi::settings::Sizing;
use komorebi::settings::StateQuery;
use komorebi::settings::SubscribeOptions;
use komorebi::settings::WindowAttributes;
use komorebi::settings::WindowContainerBehaviour;
use komorebi::settings::WindowKind;
use komorebi::settings::WindowManagementBehaviour;
use komorebi::settings::WorkspaceLayer;
use komorebi::settings::WorkspaceWindowLocation;
use komorebi::subscriptions::Subscriptions;
use komorebi::window::WindowMemory;
use komorebi::window_manager::CommandError;
use komorebi::window_manager::Container;
use komorebi::window_manager::Monitor;
use komorebi::window_manager::Window;
use komorebi::window_manager::WindowManager;
use komorebi::window_manager::Workspace;
use std::collections::HashMap;

fn rect(left: i32, top: i32, right: i32, bottom: i32) -> Rect {
    Rect { left, top, right, bottom }
}

fn window(id: u32, application: &str) -> Window {
    Window { id, process_id: 100, application: Some(application.to_string()) }
}

fn container(name: &str, ids: &[u32]) -> Container {
    Container {
        id: name.to_string(),
        windows: ids.iter().map(|id| window(*id, "Notes")).collect(),
        focused_window: 0,
        locked: false,
    }
}

fn workspace(containers: Vec<Container>) -> Workspace {
    Workspace {
        name: None,
        containers,
        focused_container: 0,
        monocle_container: None,
        monocle_container_restore_idx: None,
        maximized_window: None,
        floating_windows: Vec::new(),
        focused_floating_window: 0,
        layout: DefaultLayout::BSP,
        layout_options: None,
        layer: WorkspaceLayer::Tiling,
        tile: true,
        preselected_container_idx: None,
        float_override: None,
        window_container_behaviour: None,
        apply_window_based_work_area_offset: true,
        work_area_offset: None,
        work_area: rect(0, 25, 1920, 1055),
        window_hiding_position: WindowHidingPosition::BottomRight,
        latest_layout: Vec::new(),
        resize_dimensions: Vec::new(),
        workspace_rules: Vec::new(),
        initial_workspace_rules: Vec::new(),
    }
}

fn monitor(id: u32, serial: &str, workspaces: Vec<Workspace>) -> Monitor {
    Monitor {
        id,
        device: "display".to_string(),
        serial_number_id: serial.to_string(),
        size: rect(0, 0, 1920, 1080),
        work_area_size: rect(0, 25, 1920, 1055),
        work_area_offset: None,
        window_based_work_area_offset: None,
        window_based_work_area_offset_limit: 1,
        workspaces,
        focused_workspace: 0,
        last_focused_workspace: None,
        container_padding: None,
        workspace_padding: None,
        wallpaper: None,
        floating_layer_behaviour: None,
        window_hiding_position: WindowHidingPosition::BottomRight,
    }
}

fn behaviour() -> WindowManagementBehaviour {
    WindowManagementBehaviour {
        current_behaviour: WindowContainerBehaviour::Create,
        float_override: false,
        floating_layer_override: false,
        floating_layer_placement: Placement::Center,
        float_override_placement: Placement::Unchanged,
        float_rule_placement: Placement::Unchanged,
    }
}

fn manager(monitors: Vec<Monitor>) -> WindowManager {
    WindowManager {
        monitors,
        focused_monitor: 0,
        monitor_usr_idx_map: HashMap::new(),
        display_index_preferences: Vec::new(),
        is_paused: false,
        space_id: Some(1),
        mouse_follows_focus: true,
        follower: Follower::default(),
        resize_delta: 50,
        work_area_offset: None,
        window_management_behaviour: behaviour(),
        cross_monitor_move_behaviour: MoveBehaviour::Swap,
        monocle_focus_behaviour: MonocleFocusBehaviour::Cycle,
        unmanaged_window_operation_behaviour: OperationBehaviour::Op,
        known_window_ids: HashMap::new(),
        already_moved_window_ids: Vec::new(),
        unmanaged_window_ids: Vec::new(),
        minimized_windows: HashMap::new(),
        pending_move_op: None,
        pending_resize_op: None,
        pending_session: None,
        rules: RuleBook::new(),
        subscriptions: Subscriptions::new(),
        borders: BorderSettings::default(),
        animation: AnimationSettings {
            enabled: AnimationSetting { global: true, movement: None, transparency: None },
            duration: AnimationSetting { global: 250, movement: None, transparency: None },
            style: AnimationSetting {
                global: AnimationStyle { index: 0 },
                movement: None,
                transparency: None,
            },
            fps: 60,
        },
        memory: WindowMemory::new(),
    }
}

fn sight() -> CommandSight {
    CommandSight {
        current_space_id: Some(1),
        unmanaged_window_in_front: false,
        cursor_monitor_idx: None,
        foreground: None,
        exe_locations: Vec::new(),
        floating_rects: Vec::new(),
        attributes: Vec::new(),
        configuration_is_valid: true,
        version: "0.1.0".to_string(),
    }
}

fn attributes(title: &str, exe: &str) -> WindowAttributes {
    WindowAttributes {
        title: Some(title.to_string()),
        exe: Some(exe.to_string()),
        role: Some("AXWindow".to_string()),
        subrole: Some("AXStandardWindow".to_string()),
        path: Some("/Applications".to_string()),
    }
}

fn named(name: &str, containers: Vec<Container>) -> Workspace {
    let mut named = workspace(containers);
    named.name = Some(name.to_string());
    named
}

/// Two monitors: the first has three workspaces, of which the second is empty.
fn desk() -> WindowManager {
    manager(vec![
        monitor(
            1,
            "S1",
            vec![
                workspace(vec![container("a", &[1]), container("b", &[2, 3])]),
                workspace(Vec::new()),
                named("mail", vec![container("c", &[4])]),
            ],
        ),
        monitor(2, "S2", vec![workspace(Vec::new()), named("music", Vec::new())]),
    ])
}

const FOLLOW_UP: [&str; 3] = ["UpdateKnownWindowIds", "NotifySubscribers", "UpdateBorders"];

/// What a command that succeeds does, without what follows every command.
fn done(plan: &CommandPlan) -> Vec<String> {
    assert_eq!(plan.failure, None);
    let all: Vec<String> = plan.operations.iter().map(|op| format!("{:?}", op)).collect();
    let n = all.len() - 3;
    assert_eq!(&all[n..], FOLLOW_UP.as_slice());
    all[..n].to_vec()
}

fn failure(plan: &CommandPlan) -> CommandError {
    assert!(plan.operations.is_empty());
    plan.failure.unwrap()
}

#[test]
fn other_spaces_are_left_alone() {
    let mut wm = desk();
    let mut elsewhere = sight();
    elsewhere.current_space_id = Some(2);
    let plan = wm.process_command(SocketMessage::TogglePause, &elsewhere);
    assert!(plan.operations.is_empty());
    assert_eq!(plan.failure, None);
    assert!(!wm.is_paused);
    assert!(is_on_another_space(Some(1), Some(2)));
    assert!(!is_on_another_space(None, Some(2)));
    assert!(!is_on_another_space(Some(1), None));
}

#[test]
fn commands_are_refused_in_front_of_unmanaged_windows() {
    let mut wm = desk();
    let mut unmanaged = sight();
    unmanaged.unmanaged_window_in_front = true;
    let plan = wm.process_command(SocketMessage::TogglePause, &unmanaged);
    assert_eq!(failure(&plan), CommandError::UnmanagedWindow);
    assert!(!wm.is_paused);
}

#[test]
fn toggling_the_pause_twice_changes_nothing() {
    let mut wm = desk();
    assert!(done(&wm.process_command(SocketMessage::TogglePause, &sight())).is_empty());
    assert!(wm.is_paused);
    wm.process_command(SocketMessage::TogglePause, &sight());
    assert!(!wm.is_paused);
}

#[test]
fn windows_are_focused_on_the_layer_that_is_up() {
    let mut wm = desk();
    let left = || SocketMessage::FocusWindow(OperationDirection::Left);
    assert_eq!(
        done(&wm.process_command(left(), &sight())),
        vec!["FocusContainerInDirection(Left)"]
    );
    wm.monitors[0].workspaces[0].layer = WorkspaceLayer::Floating;
    assert_eq!(
        done(&wm.process_command(left(), &sight())),
        vec!["FocusFloatingWindowInDirection(Left)"]
    );
}

#[test]
fn a_window_is_promoted_after_it_is_focused() {
    let mut wm = desk();
    assert_eq!(
        done(&wm.process_command(
            SocketMessage::PromoteWindow(OperationDirection::Up),
            &sight()
        )),
        vec!["FocusContainerInDirection(Up)", "PromoteContainerToFront"]
    );
}

#[test]
fn stacking_happens_without_animation() {
    let mut wm = desk();
    let plan =
        wm.process_command(SocketMessage::StackWindow(OperationDirection::Right), &sight());
    assert_eq!(done(&plan), vec!["AddWindowToContainer(Right)", "SetGlobalAnimation(true)"]);
    assert!(!wm.animation.enabled.global);
}

#[test]
fn unstacking_destroys_the_borders() {
    let mut wm = desk();
    let plan = wm.process_command(SocketMessage::UnstackAll, &sight());
    assert_eq!(
        done(&plan),
        vec!["UnstackAll(true)", "DestroyAllBorders", "SetGlobalAnimation(true)"]
    );
}

#[test]
fn containers_are_locked_by_place() {
    let mut wm = desk();
    let lock = |m, w, c| SocketMessage::LockMonitorWorkspaceContainer(m, w, c);
    done(&wm.process_command(lock(0, 0, 1), &sight()));
    assert!(wm.monitors[0].workspaces[0].containers[1].locked);
    done(&wm.process_command(lock(0, 0, 7), &sight()));
    assert_eq!(
        failure(&wm.process_command(lock(9, 0, 0), &sight())),
        CommandError::NoMonitorAtIndex
    );
    assert_eq!(
        failure(&wm.process_command(lock(0, 9, 0), &sight())),
        CommandError::NoWorkspaceAtIndex
    );
    done(&wm.process_command(
        SocketMessage::UnlockMonitorWorkspaceContainer(0, 0, 1),
        &sight(),
    ));
    assert!(!wm.monitors[0].workspaces[0].containers[1].locked);
}

#[test]
fn an_axis_is_resized_from_both_sides() {
    let mut wm = desk();
    let plan = wm.process_command(
        SocketMessage::ResizeWindowAxis(Axis::Vertical, Sizing::Increase),
        &sight(),
    );
    assert_eq!(
        done(&plan),
        vec![
            "ResizeWindow(Up, Increase, 50, false)",
            "ResizeWindow(Down, Increase, 50, false)",
            "UpdateFocusedWorkspace(false, false)"
        ]
    );
    let plan = wm.process_command(
        SocketMessage::ResizeWindowEdge(OperationDirection::Left, Sizing::Decrease),
        &sight(),
    );
    assert_eq!(done(&plan), vec!["ResizeWindow(Left, Decrease, 50, true)"]);
}

#[test]
fn nothing_is_minimized_without_a_window_in_front() {
    let mut wm = desk();
    assert_eq!(
        failure(&wm.process_command(SocketMessage::Minimize, &sight())),
        CommandError::NoForegroundWindow
    );
    let mut seen = sight();
    seen.foreground = Some(attributes("notes", "Notes"));
    assert_eq!(
        done(&wm.process_command(SocketMessage::Close, &seen)),
        vec!["CloseForegroundWindow"]
    );
}

#[test]
fn an_application_is_focused_wherever_it_is() {
    let mut wm = desk();
    let mut seen = sight();
    seen.exe_locations = vec![
        vec![None, None, Some(WorkspaceWindowLocation::Container(0, 0))],
        vec![None, None],
    ];
    let plan = wm.process_command(SocketMessage::EagerFocus("Mail".to_string()), &seen);
    assert_eq!(
        done(&plan),
        vec![
            "FocusMonitorWorkspace(0, 2)",
            "FocusContainerWindow(0)",
            "LoadFocusedWorkspace(0, true)"
        ]
    );
    assert_eq!(wm.monitors[0].last_focused_workspace, Some(0));
    let mut wm = desk();
    let plan = wm.process_command(SocketMessage::EagerFocus("Maps".to_string()), &sight());
    assert!(done(&plan).is_empty());
}

#[test]
fn a_direction_is_preselected_once() {
    let mut wm = desk();
    let preselect = || SocketMessage::PreselectDirection(OperationDirection::Down);
    assert_eq!(
        done(&wm.process_command(preselect(), &sight())),
        vec!["PreselectContainerInDirection(Down)", "UpdateWorkspace"]
    );
    wm.monitors[0].workspaces[0].preselected_container_idx = Some(1);
    assert!(done(&wm.process_command(preselect(), &sight())).is_empty());
    assert_eq!(
        done(&wm.process_command(SocketMessage::CancelPreselect, &sight())),
        vec!["CancelPreselect", "UpdateWorkspace"]
    );
}

#[test]
fn monitors_are_cycled_through() {
    let mut wm = desk();
    let next = || SocketMessage::CycleFocusMonitor(CycleDirection::Next);
    assert_eq!(
        done(&wm.process_command(next(), &sight())),
        vec!["UpdateFocusedWorkspace(true, true)"]
    );
    assert_eq!(wm.focused_monitor, 1);
    wm.process_command(next(), &sight());
    assert_eq!(wm.focused_monitor, 0);
    let mut nothing = manager(Vec::new());
    assert_eq!(
        failure(&nothing.process_command(next(), &sight())),
        CommandError::AtLeastOneMonitor
    );
    assert_eq!(
        failure(&wm.process_command(SocketMessage::FocusMonitorNumber(7), &sight())),
        CommandError::NotAMonitorIndex
    );
}

#[test]
fn workspaces_are_cycled_through_where_the_cursor_is() {
    let mut wm = desk();
    let previous = || SocketMessage::CycleFocusWorkspace(CycleDirection::Previous);
    assert_eq!(
        done(&wm.process_command(previous(), &sight())),
        vec!["FocusWorkspace(2)"]
    );
    let mut there = sight();
    there.cursor_monitor_idx = Some(1);
    assert_eq!(
        done(&wm.process_command(previous(), &there)),
        vec!["FocusWorkspace(1)"]
    );
    assert_eq!(wm.focused_monitor, 1);
    let mut empty = manager(vec![monitor(1, "S1", Vec::new())]);
    assert_eq!(
        failure(&empty.process_command(previous(), &sight())),
        CommandError::AtLeastOneWorkspace
    );
    let mut nothing = manager(Vec::new());
    assert_eq!(
        failure(&nothing.process_command(previous(), &sight())),
        CommandError::NoMonitor
    );
}

#[test]
fn the_nearest_empty_workspace_is_focused() {
    let mut wm = desk();
    let empty = |direction| SocketMessage::CycleFocusEmptyWorkspace(direction);
    assert_eq!(
        done(&wm.process_command(empty(CycleDirection::Next), &sight())),
        vec!["FocusWorkspace(1)"]
    );
    assert_eq!(
        done(&wm.process_command(empty(CycleDirection::Previous), &sight())),
        vec!["FocusWorkspace(1)"]
    );
    wm.monitors[0].workspaces[1].containers.push(container("x", &[9]));
    assert!(done(&wm.process_command(empty(CycleDirection::Next), &sight())).is_empty());
}

#[test]
fn the_last_workspace_is_gone_back_to() {
    let mut wm = desk();
    assert_eq!(
        done(&wm.process_command(SocketMessage::FocusLastWorkspace, &sight())),
        vec!["SetLastFocusedWorkspace(0)"]
    );
    wm.monitors[0].last_focused_workspace = Some(2);
    assert_eq!(
        done(&wm.process_command(SocketMessage::FocusLastWorkspace, &sight())),
        vec!["FocusWorkspace(2)", "SetLastFocusedWorkspace(0)"]
    );
}

#[test]
fn workspaces_are_focused_by_number_and_name() {
    let mut wm = desk();
    assert!(done(&wm.process_command(SocketMessage::FocusWorkspaceNumber(0), &sight()))
        .is_empty());
    assert_eq!(
        done(&wm.process_command(SocketMessage::FocusWorkspaceNumbers(1), &sight())),
        vec!["FocusMonitorWorkspace(1, 1)", "LoadFocusedWorkspace(1, false)", "FocusWorkspace(1)"]
    );
    assert_eq!(
        done(&wm.process_command(
            SocketMessage::FocusNamedWorkspace("music".to_string()),
            &sight()
        )),
        vec!["FocusWorkspace(1)"]
    );
    assert_eq!(wm.focused_monitor, 1);
    assert!(done(&wm.process_command(
        SocketMessage::FocusNamedWorkspace("games".to_string()),
        &sight()
    ))
    .is_empty());
}

#[test]
fn only_an_empty_unnamed_workspace_is_closed() {
    let mut wm = desk();
    assert!(done(&wm.process_command(SocketMessage::CloseWorkspace, &sight())).is_empty());
    wm.monitors[0].focused_workspace = 1;
    assert_eq!(
        done(&wm.process_command(SocketMessage::CloseWorkspace, &sight())),
        vec!["FocusWorkspace(0)"]
    );
    assert_eq!(wm.monitors[0].workspaces.len(), 2);
    wm.focused_monitor = 1;
    wm.monitors[1].focused_workspace = 1;
    assert!(done(&wm.process_command(SocketMessage::CloseWorkspace, &sight())).is_empty());
    assert_eq!(wm.monitors[1].workspaces.len(), 2);
}

#[test]
fn containers_are_moved_and_sent() {
    let mut wm = desk();
    assert_eq!(
        done(&wm.process_command(SocketMessage::MoveContainerToWorkspaceNumber(2), &sight())),
        vec!["MoveContainerToWorkspace(2, true)"]
    );
    assert_eq!(
        done(&wm.process_command(
            SocketMessage::SendContainerToNamedWorkspace("music".to_string()),
            &sight()
        )),
        vec!["MoveContainerToMonitor(1, Some(1), false)"]
    );
    assert_eq!(
        done(&wm.process_command(
            SocketMessage::CycleMoveContainerToMonitor(CycleDirection::Next),
            &sight()
        )),
        vec!["MoveContainerToMonitor(1, None, true)"]
    );
    assert_eq!(
        done(&wm.process_command(
            SocketMessage::CycleMoveWorkspaceToMonitor(CycleDirection::Previous),
            &sight()
        )),
        vec!["MoveWorkspaceToMonitor(1)"]
    );
    wm.monitors[0].last_focused_workspace = Some(1);
    assert_eq!(
        done(&wm.process_command(SocketMessage::SendContainerToLastWorkspace, &sight())),
        vec!["MoveContainerToWorkspace(1, false)", "SetLastFocusedWorkspace(0)"]
    );
}

#[test]
fn behaviours_toggle_back_and_forth() {
    let mut wm = desk();
    wm.process_command(SocketMessage::ToggleMouseFollowsFocus, &sight());
    assert!(!wm.mouse_follows_focus);
    wm.process_command(SocketMessage::ToggleCrossMonitorMoveBehaviour, &sight());
    assert_eq!(wm.cross_monitor_move_behaviour, MoveBehaviour::Insert);
    wm.process_command(SocketMessage::ToggleCrossMonitorMoveBehaviour, &sight());
    assert_eq!(wm.cross_monitor_move_behaviour, MoveBehaviour::Swap);
    wm.process_command(SocketMessage::ToggleMonocleFocusBehaviour, &sight());
    assert_eq!(wm.monocle_focus_behaviour, MonocleFocusBehaviour::NoOp);
    wm.process_command(SocketMessage::ToggleWindowContainerBehaviour, &sight());
    assert_eq!(
        wm.window_management_behaviour.current_behaviour,
        WindowContainerBehaviour::Append
    );
    wm.process_command(SocketMessage::ToggleFloatOverride, &sight());
    assert!(wm.window_management_behaviour.float_override);
    wm.process_command(SocketMessage::ToggleWorkspaceFloatOverride, &sight());
    assert_eq!(wm.monitors[0].workspaces[0].float_override, Some(false));
    wm.process_command(SocketMessage::ResizeDelta(75), &sight());
    assert_eq!(wm.resize_delta, 75);
}

#[test]
fn workspace_rules_are_added_by_place_and_name() {
    let mut wm = desk();
    let rule = SocketMessage::WorkspaceRule(
        ApplicationIdentifier::Exe,
        "Notes".to_string(),
        1,
        0,
    );
    assert!(done(&wm.process_command(rule, &sight())).is_empty());
    assert_eq!(wm.rules.workspace_matching_rules.len(), 1);
    assert!(!wm.rules.workspace_matching_rules[0].initial_only);
    let rule = SocketMessage::InitialNamedWorkspaceRule(
        ApplicationIdentifier::Exe,
        "Mail".to_string(),
        "mail".to_string(),
    );
    wm.process_command(rule, &sight());
    assert_eq!(wm.rules.workspace_matching_rules[1].workspace_index, 2);
    assert!(wm.rules.workspace_matching_rules[1].initial_only);
    wm.process_command(SocketMessage::ClearAllWorkspaceRules, &sight());
    assert!(wm.rules.workspace_matching_rules.is_empty());
}

#[test]
fn the_window_in_front_floats_for_the_session() {
    let mut wm = desk();
    assert_eq!(
        failure(&wm.process_command(SocketMessage::SessionFloatRule, &sight())),
        CommandError::NoForegroundWindow
    );
    let mut seen = sight();
    seen.foreground = Some(attributes("notes", "Notes"));
    wm.process_command(SocketMessage::SessionFloatRule, &seen);
    assert_eq!(wm.rules.session_floating_applications.len(), 1);
    wm.process_command(SocketMessage::ClearSessionFloatRules, &seen);
    assert!(wm.rules.session_floating_applications.is_empty());
}

#[test]
fn questions_are_answered() {
    let mut wm = desk();
    wm.monitors[0].focused_workspace = 2;
    let mut ask = |query| {
        let plan = wm.process_command(SocketMessage::Query(query), &sight());
        assert_eq!(plan.failure, None);
        plan.reply.unwrap()
    };
    assert_eq!(ask(StateQuery::FocusedMonitorIndex), "0");
    assert_eq!(ask(StateQuery::FocusedWorkspaceIndex), "2");
    assert_eq!(ask(StateQuery::FocusedContainerIndex), "0");
    assert_eq!(ask(StateQuery::FocusedWindowIndex), "0");
    assert_eq!(ask(StateQuery::FocusedWorkspaceName), "mail");
    assert_eq!(ask(StateQuery::FocusedWorkspaceLayout), "BSP");
    assert_eq!(ask(StateQuery::FocusedContainerKind), "Single");
    assert!(ask(StateQuery::Version).contains("0.1.0"));
}

#[test]
fn subscribers_come_and_go() {
    let mut wm = desk();
    wm.process_command(SocketMessage::AddSubscriberSocket("bar".to_string()), &sight());
    wm.process_command(
        SocketMessage::AddSubscriberSocketWithOptions(
            "log".to_string(),
            SubscribeOptions { filter_state_changes: true },
        ),
        &sight(),
    );
    assert!(komorebi::subscriptions::any_subscribers(&wm.subscriptions));
    assert!(komorebi::subscriptions::any_subscriber_filters_state_changes(&wm.subscriptions));
    for name in ["bar", "log"] {
        wm.process_command(SocketMessage::RemoveSubscriberSocket(name.to_string()), &sight());
    }
    assert!(!komorebi::subscriptions::any_subscribers(&wm.subscriptions));
}

#[test]
fn looks_are_changed() {
    let mut wm = desk();
    wm.process_command(
        SocketMessage::BorderColour(WindowKind::Single, 1, 2, 3),
        &sight(),
    );
    assert_eq!(wm.borders.focused, Rgb { r: 1, g: 2, b: 3 });
    wm.process_command(SocketMessage::BorderWidth(4), &sight());
    assert_eq!(wm.borders.width, 4);
    wm.process_command(
        SocketMessage::AnimationDuration(90, Some(AnimationPrefix::Movement)),
        &sight(),
    );
    assert_eq!(wm.animation.duration.movement, Some(90));
    wm.process_command(SocketMessage::Animation(false, None), &sight());
    assert!(!wm.animation.enabled.global);
    wm.process_command(SocketMessage::AnimationFps(30), &sight());
    assert_eq!(wm.animation.fps, 30);
}

#[test]
fn the_layer_toggles_back_and_forth() {
    let mut wm = desk();
    wm.monitors[0].workspaces[0].floating_windows = vec![window(7, "Notes"), window(8, "Notes")];
    let mut seen = sight();
    seen.floating_rects = vec![rect(0, 0, 10, 10), rect(0, 0, 20, 20)];
    let plan = wm.process_command(SocketMessage::ToggleWorkspaceLayer, &seen);
    assert_eq!(
        done(&plan),
        vec![
            "RestoreWindow(8)",
            "RaiseWindow(8)",
            "RestoreWindow(7)",
            "RaiseWindow(7)",
            "FocusWindow(7, true)"
        ]
    );
    assert_eq!(wm.monitors[0].workspaces[0].layer, WorkspaceLayer::Floating);
    let plan = wm.process_command(SocketMessage::ToggleWorkspaceLayer, &seen);
    assert_eq!(
        done(&plan),
        vec![
            "RaiseWindow(1)",
            "RaiseWindow(2)",
            "HideWindow(7, BottomRight)",
            "HideWindow(8, BottomRight)",
            "FocusWindow(1, true)"
        ]
    );
    assert_eq!(wm.monitors[0].workspaces[0].layer, WorkspaceLayer::Tiling);
}

#[test]
fn only_some_commands_are_heard_while_paused() {
    assert_eq!(receive_command(&SocketMessage::Retile, false), Reception::CarryOutAndSave);
    assert_eq!(receive_command(&SocketMessage::Retile, true), Reception::DropAndClose);
    assert_eq!(receive_command(&SocketMessage::TogglePause, true), Reception::CarryOutAndClose);
    assert_eq!(receive_command(&SocketMessage::State, true), Reception::CarryOutAndClose);
}

#[test]
fn failures_say_what_is_wrong() {
    assert_eq!(CommandError::NoMonitor.message(), "there is no monitor");
    assert_eq!(CommandError::NoForegroundWindow.message(), "there is no foreground window");
    assert_eq!(
        CommandError::NoMonitorAtIndex.message(),
        "no monitor at the given index"
    );
}

#[test]
fn the_workspace_that_had_the_focus_is_remembered() {
    let mut wm = desk();
    assert_eq!(wm.set_last_focused_workspace(2), Ok(()));
    assert_eq!(wm.monitors[0].last_focused_workspace, Some(2));
    let mut nothing = manager(Vec::new());
    assert_eq!(nothing.set_last_focused_workspace(2), Err(CommandError::NoMonitor));
}

#[test]
fn following_the_cursor_is_switched() {
    let mut wm = desk();
    wm.follower.last_window = Some(7);
    assert!(is_enabled(&wm.follower));
    let plan = wm.process_command(SocketMessage::FocusFollowsMouse(false), &sight());
    assert!(done(&plan).is_empty());
    assert!(!is_enabled(&wm.follower));
    wm.process_command(SocketMessage::FocusFollowsMouse(true), &sight());
    assert!(is_enabled(&wm.follower));
    wm.process_command(SocketMessage::ToggleFocusFollowsMouse, &sight());
    assert!(!is_enabled(&wm.follower));
    wm.process_command(SocketMessage::ToggleFocusFollowsMouse, &sight());
    assert!(is_enabled(&wm.follower));
    assert_eq!(wm.follower.last_window, Some(7));
}

#[test]
fn an_ignored_window_is_taken_out_once() {
    let mut wm = desk();
    let id = wm.monitors[0].workspaces[0].containers[0].windows[0].id;
    let mut seen = sight();
    let mut both = attributes("title", "Notes");
    both.role = Some("AXPanel".to_string());
    both.subrole = Some("AXPanel".to_string());
    seen.attributes = vec![(id, both)];
    let plan = wm.process_command(
        SocketMessage::IgnoreRule(ApplicationIdentifier::Class, "AXPanel".to_string()),
        &seen,
    );
    assert_eq!(
        done(&plan),
        vec![format!("RemoveWindow(0, {id})"), "UpdateMonitorFocusedWorkspace(0)".to_string()]
    );
}
