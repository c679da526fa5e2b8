use komorebi::accessibility::private::EnhancedUi;
use komorebi::accessibility::private::forget_enhanced_ui;
use komorebi::accessibility::private::hold_enhanced_ui_off;
use komorebi::accessibility::private::release_enhanced_ui;
use komorebi::application::ListedWindow;
use komorebi::application::ObserveStep;
use komorebi::application::after_observing;
use komorebi::application::passes_on;
use komorebi::application::window_by_id;
use komorebi::application::window_by_title;
use komorebi::border_manager::BorderSettings;
use komorebi::events::AccessibilityNotification;
use komorebi::events::SystemNotification;
use komorebi::events::WindowManagerEvent;
use komorebi::focus_follows_mouse::Follower;
use komorebi::focus_follows_mouse::foreground_is_ours;
use komorebi::focus_follows_mouse::is_enabled;
use komorebi::focus_follows_mouse::set_enabled;
use komorebi::focus_follows_mouse::window_under_cursor;
use komorebi::geometry::Rect;
use komorebi::geometry::WindowHidingPosition;
use komorebi::message::SocketMessage;
use komorebi::notification::NotificationEvent;
use komorebi::operation::Operation;
use komorebi::permissions::PermissionVerdict;
use komorebi::permissions::check_permissions;
use komorebi::permissions::exit_status;
use komorebi::qos::QosClass;
use komorebi::reaper::FailedWindow;
use komorebi::reaper::ReaperNotification;
use komorebi::reaper::Screen;
use komorebi::reaper::note_screen_covered;
use komorebi::reaper::note_screen_returned;
use komorebi::reaper::notify_on_error;
use komorebi::reaper::screen_is_covered;
use komorebi::rule_book::RuleBook;
use komorebi::settings::AnimationSetting;
use komorebi::settings::AnimationSettings;
use komorebi::settings::AnimationStyle;
use komorebi::settings::DefaultLayout;
use komorebi::settings::MonocleFocusBehaviour;
use komorebi::settings::MoveBehaviour;
use komorebi::settings::OperationBehaviour;
use komorebi::settings::Placement;
use komorebi::settings::SubscribeOptions;
use komorebi::settings::WindowAttributes;
use komorebi::settings::WindowContainerBehaviour;
use komorebi::settings::WindowManagementBehaviour;
use komorebi::settings::WorkspaceLayer;
use komorebi::skylight::FrozenDepth;
use komorebi::skylight::hold_screen_still;
use komorebi::subscriptions::Subscriptions;
use komorebi::subscriptions::notify_subscribers;
use komorebi::window::WindowMemory;
use komorebi::window::application_name;
use komorebi::window::forget_application;
use komorebi::window::forget_window;
use komorebi::window_info::AdhocWindow;
use komorebi::window_info::WindowDetails;
use komorebi::window_info::WindowInfo;
use komorebi::window_info::describe;
use komorebi::window_info::icon_path;
use komorebi::window_info::window_owner_name;
use komorebi::window_manager::Container;
use komorebi::window_manager::Monitor;
use komorebi::window_manager::Window;
use komorebi::window_manager::WindowManager;
use komorebi::window_manager::Workspace;
use std::collections::HashMap;

fn rect(left: i32, top: i32, right: i32, bottom: i32) -> Rect {
    Rect { left, top, right, bottom }
}

fn window(id: u32, application: &str) -> Window {
    Window { id, process_id: 100, application: Some(application.to_string()) }
}

fn container(name: &str, ids: &[u32]) -> Container {
    Container {
        id: name.to_string(),
        windows: ids.iter().map(|id| window(*id, "Notes")).collect(),
        focused_window: 0,
        locked: false,
    }
}

fn workspace(containers: Vec<Container>) -> Workspace {
    Workspace {
        name: None,
        containers,
        focused_container: 0,
        monocle_container: None,
        monocle_container_restore_idx: None,
        maximized_window: None,
        floating_windows: Vec::new(),
        focused_floating_window: 0,
        layout: DefaultLayout::BSP,
        layout_options: None,
        layer: WorkspaceLayer::Tiling,
        tile: true,
        preselected_container_idx: None,
        float_override: None,
        window_container_behaviour: None,
        apply_window_based_work_area_offset: true,
        work_area_offset: None,
        work_area: rect(0, 25, 1920, 1055),
        window_hiding_position: WindowHidingPosition::BottomRight,
        latest_layout: Vec::new(),
        resize_dimensions: Vec::new(),
        workspace_rules: Vec::new(),
        initial_workspace_rules: Vec::new(),
    }
}

fn monitor(id: u32, serial: &str, workspaces: Vec<Workspace>) -> Monitor {
    Monitor {
        id,
        device: "display".to_string(),
        serial_number_id: serial.to_string(),
        size: rect(0, 0, 1920, 1080),
        work_area_size: rect(0, 25, 1920, 1055),
        work_area_offset: None,
        window_based_work_area_offset: None,
        window_based_work_area_offset_limit: 1,
        workspaces,
        focused_workspace: 0,
        last_focused_workspace: None,
        container_padding: None,
        workspace_padding: None,
        wallpaper: None,
        floating_layer_behaviour: None,
        window_hiding_position: WindowHidingPosition::BottomRight,
    }
}

fn behaviour() -> WindowManagementBehaviour {
    WindowManagementBehaviour {
        current_behaviour: WindowContainerBehaviour::Create,
        float_override: false,
        floating_layer_override: false,
        floating_layer_placement: Placement::Center,
        float_override_placement: Placement::Unchanged,
        float_rule_placement: Placement::Unchanged,
    }
}

fn manager(monitors: Vec<Monitor>) -> WindowManager {
    WindowManager {
        monitors,
        focused_monitor: 0,
        monitor_usr_idx_map: HashMap::new(),
        display_index_preferences: Vec::new(),
        is_paused: false,
        space_id: Some(1),
        mouse_follows_focus: true,
        follower: Follower::default(),
        resize_delta: 50,
        work_area_offset: None,
        window_management_behaviour: behaviour(),
        cross_monitor_move_behaviour: MoveBehaviour::Swap,
        monocle_focus_behaviour: MonocleFocusBehaviour::Cycle,
        unmanaged_window_operation_behaviour: OperationBehaviour::Op,
        known_window_ids: HashMap::new(),
        already_moved_window_ids: Vec::new(),
        unmanaged_window_ids: Vec::new(),
        minimized_windows: HashMap::new(),
        pending_move_op: None,
        pending_resize_op: None,
        pending_session: None,
        rules: RuleBook::new(),
        subscriptions: Subscriptions::new(),
        borders: BorderSettings::default(),
        animation: AnimationSettings {
            enabled: AnimationSetting { global: true, movement: None, transparency: None },
            duration: AnimationSetting { global: 250, movement: None, transparency: None },
            style: AnimationSetting {
                global: AnimationStyle { index: 0 },
                movement: None,
                transparency: None,
            },
            fps: 60,
        },
        memory: WindowMemory::new(),
    }
}

fn laid_out() -> WindowManager {
    let mut first = workspace(vec![container("a", &[1]), container("b", &[2])]);
    first.latest_layout = vec![rect(0, 0, 100, 100), rect(100, 0, 100, 100)];
    manager(vec![monitor(1, "S1", vec![first])])
}

fn texts(operations: &Vec<Operation>) -> Vec<String> {
    operations.iter().map(|op| format!("{:?}", op)).collect()
}

#[test]
fn the_window_under_the_cursor_is_found() {
    let mut wm = laid_out();
    let at = |wm: &WindowManager, x, y| window_under_cursor(wm, x, y).map(|f| (f.0, f.1, f.2.id));
    assert_eq!(at(&wm, 99, 99), Some((0, 0, 1)));
    assert_eq!(at(&wm, 100, 0), Some((0, 1, 2)));
    assert_eq!(at(&wm, 100, 100), None);
    wm.monitors[0].workspaces[0].monocle_container = Some(container("m", &[3]));
    assert_eq!(at(&wm, 50, 50), None);
}

#[test]
fn a_window_is_entered_once() {
    let wm = laid_out();
    let mut follower = Follower::default();
    set_enabled(&mut follower, true);
    assert!(is_enabled(&follower));
    assert!(follower.sample(&wm, (10, 10)).is_none());
    let entered = follower.sample(&wm, (150, 10)).unwrap();
    assert_eq!(entered.2.id, 2);
    assert!(follower.sample(&wm, (151, 10)).is_none());
    assert!(follower.sample(&wm, (151, 10)).is_none());
    set_enabled(&mut follower, false);
    assert!(follower.sample(&wm, (10, 10)).is_none());
    assert_eq!(follower.last_point, None);
}

#[test]
fn following_never_moves_the_cursor() {
    let mut wm = laid_out();
    let operations = wm.enter_window(1, 0, 1, 2);
    assert_eq!(texts(&operations), vec!["FocusContainer(1)", "FocusWindow(2, false)"]);
    assert!(wm.enter_window(99, 0, 1, 2).is_empty());
    assert!(foreground_is_ours(&wm, 1));
    assert!(!foreground_is_ours(&wm, 99));
}

#[test]
fn a_covered_screen_keeps_every_window() {
    let mut screen = Screen { covered: false };
    note_screen_covered(&mut screen);
    assert!(screen_is_covered(&screen));
    let mut wm = laid_out();
    let gone = ReaperNotification::InvalidWindow(1);
    assert!(wm.handle_reaper_notification(&screen, gone).operations.is_empty());
    assert!(wm.manages_window(1));
    assert!(note_screen_returned(&mut screen));
    assert!(!note_screen_returned(&mut screen));
    let plan = wm.handle_reaper_notification(&screen, gone);
    assert_eq!(
        texts(&plan.operations),
        vec!["UpdateFocusedWorkspace(false, false)", "UpdateBordersAfterReaping(1)"]
    );
    assert!(!wm.manages_window(1));
    assert!(wm.manages_window(2));
    assert!(wm.handle_reaper_notification(&screen, gone).operations.is_empty());
    let plan = wm.handle_reaper_notification(&screen, ReaperNotification::MouseUpKeyUp);
    assert_eq!(texts(&plan.operations), vec!["UpdateFocusedWorkspace(false, false)"]);
}

#[test]
fn only_windows_that_have_gone_are_reaped() {
    let screen = Screen { covered: false };
    let failed = |is_valid, is_fullscreen| FailedWindow { id: 4, is_valid, is_fullscreen };
    assert_eq!(
        notify_on_error(&screen, failed(false, None), true),
        Some(ReaperNotification::InvalidWindow(4))
    );
    assert_eq!(notify_on_error(&screen, failed(false, None), false), None);
    assert_eq!(notify_on_error(&screen, failed(true, None), true), None);
    assert_eq!(notify_on_error(&screen, failed(false, Some(true)), true), None);
    assert_eq!(
        notify_on_error(&Screen { covered: true }, failed(false, None), true),
        None
    );
}

#[test]
fn only_the_outermost_hold_counts() {
    let mut frozen = FrozenDepth { depth: 0 };
    let (outer, freeze) = hold_screen_still(&mut frozen, 3);
    assert!(freeze);
    let (inner, again) = hold_screen_still(&mut frozen, 3);
    assert!(!again);
    assert_eq!(inner.release(&mut frozen), None);
    assert_eq!(outer.release(&mut frozen), Some(3));
    assert_eq!(frozen.depth, 0);
}

#[test]
fn enhanced_interfaces_come_back() {
    let mut ui = EnhancedUi::new();
    assert!(hold_enhanced_ui_off(&mut ui, 5, true));
    assert!(!hold_enhanced_ui_off(&mut ui, 5, false));
    assert!(!release_enhanced_ui(&mut ui, 5));
    assert!(release_enhanced_ui(&mut ui, 5));
    assert!(!hold_enhanced_ui_off(&mut ui, 6, false));
    assert!(!release_enhanced_ui(&mut ui, 6));
    forget_enhanced_ui(&mut ui, 5);
    assert!(ui.get(5).is_none());
}

#[test]
fn threads_have_a_class() {
    assert_eq!(QosClass::UserInteractive.number(), 0x21);
    assert_eq!(QosClass::UserInitiated.number(), 0x19);
    assert_eq!(QosClass::Utility.number(), 0x11);
}

#[test]
fn asking_for_permissions_ends() {
    assert_eq!(check_permissions(0, true, true), PermissionVerdict::Granted);
    assert_eq!(check_permissions(0, false, false), PermissionVerdict::Retry);
    assert_ne!(check_permissions(10, false, false), PermissionVerdict::Retry);
    assert_ne!(check_permissions(10, false, true), PermissionVerdict::Retry);
}

#[test]
fn windows_of_an_application_are_found() {
    let listed = |id, title: &str| ListedWindow {
        id: Some(id),
        is_reachable: true,
        title: Some(title.to_string()),
    };
    let windows = vec![listed(1, "one"), listed(2, "two")];
    assert_eq!(window_by_id(&windows, 2), Some(1));
    assert_eq!(window_by_id(&windows, 3), None);
    assert_eq!(window_by_title(&windows, "one"), Some(0));
    assert_eq!(window_by_title(&windows, "three"), None);
}

#[test]
fn beginnings_and_ends_are_passed_on() {
    assert!(passes_on(Some(AccessibilityNotification::AXUIElementDestroyed), None));
    assert!(passes_on(Some(AccessibilityNotification::AXWindowCreated), None));
    assert!(!passes_on(Some(AccessibilityNotification::AXWindowMoved), None));
    assert!(passes_on(Some(AccessibilityNotification::AXWindowMoved), Some("notes")));
    assert!(!passes_on(None, Some("notes")));
    assert_eq!(after_observing(1, true), ObserveStep::Observed);
    assert_eq!(after_observing(1, false), ObserveStep::Retry);
    assert_eq!(after_observing(5, false), ObserveStep::GiveUp);
}

#[test]
fn windows_on_the_screen_are_validated() {
    let info = |name: Option<&str>| WindowInfo {
        name: name.map(|name| name.to_string()),
        owner_pid: 9,
        owner_name: "Notes".to_string(),
        window_id: Some(4),
        is_transparent: false,
        is_at_top: false,
        is_flat: false,
    };
    assert_eq!(info(Some("notes")).validated().unwrap().window_id, 4);
    assert!(info(None).validated().is_none());
    let mut flat = info(Some("notes"));
    flat.is_transparent = true;
    assert!(flat.validated().is_none());
    assert_eq!(
        window_owner_name(&vec![info(None)], 4),
        Some("Notes".to_string())
    );
    assert_eq!(window_owner_name(&vec![info(None)], 5), None);
}

#[test]
fn windows_are_described() {
    let attributes = WindowAttributes {
        title: Some("notes".to_string()),
        exe: Some("Notes".to_string()),
        role: None,
        subrole: None,
        path: None,
    };
    let text = describe(&window(4, "Notes"), &attributes);
    assert!(text.contains("4") && text.contains("Notes"));
    let details = WindowDetails::of(&attributes, &Some("/icon".to_string()));
    assert_eq!(details.title, "notes");
    assert_eq!(details.exe, "Notes");
    assert_eq!(details.role, "");
    assert_eq!(details.icon_path, "/icon");
    assert_eq!(
        icon_path("/Applications/Notes.app", "AppIcon"),
        "/Applications/Notes.app/Contents/Resources/AppIcon.icns"
    );
    assert_eq!(AdhocWindow::process_id(0), None);
    assert_eq!(AdhocWindow::process_id(7), Some(7));
}

#[test]
fn changes_reach_every_subscriber() {
    let mut subscriptions = Subscriptions::new();
    subscriptions.add("bar".to_string(), None);
    subscriptions.add("log".to_string(), Some(SubscribeOptions { filter_state_changes: true }));
    let mut told = notify_subscribers(&subscriptions, false, true);
    told.sort();
    assert_eq!(told, vec!["bar", "log"]);
    assert_eq!(notify_subscribers(&subscriptions, false, false), vec!["bar"]);
    assert_eq!(notify_subscribers(&subscriptions, true, false).len(), 2);
    subscriptions.remove_stale(&vec!["bar".to_string()]);
    assert_eq!(notify_subscribers(&subscriptions, true, false), vec!["log"]);
}

#[test]
fn some_notifications_reach_everyone() {
    let mut subscriptions = Subscriptions::new();
    subscriptions.add("log".to_string(), Some(SubscribeOptions { filter_state_changes: true }));
    let theme = NotificationEvent::Socket(SocketMessage::Theme);
    assert!(theme.is_override_event());
    assert_eq!(theme.audience(&subscriptions, false), vec!["log"]);
    let retile = NotificationEvent::Socket(SocketMessage::Retile);
    assert!(!retile.is_override_event());
    assert!(retile.audience(&subscriptions, false).is_empty());
    let lock = NotificationEvent::WindowManager(WindowManagerEvent::ScreenLock(
        SystemNotification::Workspace,
        1,
    ));
    assert_eq!(lock.audience(&subscriptions, true), vec!["log"]);
}

#[test]
fn a_check_of_the_permissions_says_whether_both_are_there() {
    assert_eq!(exit_status(true, true), 0);
    assert_eq!(exit_status(false, true), 1);
    assert_eq!(exit_status(true, false), 1);
    assert_eq!(exit_status(false, false), 1);
}

#[test]
fn application_names_are_asked_for_once() {
    let mut memory = WindowMemory::new();
    let name = |name: &str| Some(name.to_string());
    assert_eq!(memory.known_application_name(100), None);
    assert_eq!(application_name(&mut memory, 100, None), None);
    assert_eq!(application_name(&mut memory, 100, name("Notes")), name("Notes"));
    assert_eq!(application_name(&mut memory, 101, name("")), name(""));
    assert_eq!(application_name(&mut memory, 100, name("Mail")), name("Notes"));
    assert_eq!(application_name(&mut memory, 101, name("Mail")), name(""));
    forget_window(&mut memory, 100);
    assert_eq!(memory.known_application_name(100), name("Notes"));
    memory.note_application_name(100, &None);
    assert_eq!(application_name(&mut memory, 100, None), name("Notes"));
    forget_application(&mut memory, 100);
    assert_eq!(memory.known_application_name(100), None);
    assert_eq!(memory.known_application_name(101), name(""));
}
