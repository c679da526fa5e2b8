//! What becomes of windows that appear, go and take the focus.

use crate::eligibility::RuleDebugView;
use crate::eligibility;
use crate::events::AccessibilityNotification;
use crate::events::ManualNotification;
use crate::events::SystemNotification;
use crate::events::WindowManagerEvent;
use crate::matching;
use crate::operation::EventStage;
use crate::operation::Operation;
use crate::process_command::acting;
use crate::process_event::dragging;
use crate::process_event::handling::HandlingSightView;
use crate::process_event;
use crate::rules::WindowText;
use crate::rules;
use crate::session::SessionStateView;
use crate::session::SessionWindowView;
use crate::settings::DefaultLayout;
use crate::settings::Placement;
use crate::settings::WindowAttributesView;
use crate::settings::WindowContainerBehaviour;
use crate::settings::WorkspaceLayer;
use crate::window_manager::CommandError;
use crate::window_manager::WindowManagerView;
use crate::window_manager::WorkspaceView;
use vstd::prelude::*;

verus! {

/// The focus is reconciled with some workspace.
pub open spec fn reconciles(operations: Seq<Operation>) -> bool {
    exists|i: int| 0 <= i < operations.len() && (#[trigger] operations[i]) is Reconcile
}

/// The focus of a window that is not on the focused workspace and is known to be elsewhere is
/// reconciled with that place if the focus change was not caused from here; if it was, and
/// wherever the window is here or nobody knows of it, nothing is reconciled.
pub proof fn law_a_focus_from_outside_is_reconciled(
    wm: WindowManagerView,
    event: WindowManagerEvent,
    window_id: u32,
    workspace: WorkspaceView,
    sight: HandlingSightView,
)
    requires
        acting::is_in_focus(wm, workspace),
    ensures
        ({
            let (after, plan) = process_event::stage_effect(
                wm,
                event,
                EventStage::FocusSettled(window_id),
                sight,
            );
            let elsewhere = !dragging::is_on(workspace, window_id)
                && wm.known_window_ids.contains_key(window_id);
            &&& after == wm
            &&& plan.failure is None
            &&& elsewhere && !sight.focus_was_ours ==> {
                let (m, w) = wm.known_window_ids[window_id];
                &&& plan.operations.contains(Operation::Reconcile(m, w))
                &&& forall|i: int|
                    0 <= i < plan.operations.len() && (#[trigger] plan.operations[i]) is Reconcile
                        ==> plan.operations[i] == Operation::Reconcile(m, w)
            }
            &&& !elsewhere || sight.focus_was_ours ==> !reconciles(plan.operations)
        }),
{
    dragging::lemma_on(workspace, window_id);
    let plan = process_event::stage_effect(
        wm,
        event,
        EventStage::FocusSettled(window_id),
        sight,
    ).1;
    if !workspace.shows(window_id) && wm.known_window_ids.contains_key(window_id)
        && !sight.focus_was_ours {
        let (m, w) = wm.known_window_ids[window_id];
        let follow = process_event::focus_change::follow_tiled(
            wm,
            workspace,
            window_id,
            crate::events::process_of(event),
            sight,
        );
        assert(plan.operations[follow.len() as int] == Operation::Reconcile(m, w));
    }
}

/// The focus is followed to a window: to the floating layer for a floating one, to the tiling
/// layer and its container for one in the layout, and to the window in front in monocle mode
/// for any that does not float.
pub proof fn law_the_focus_is_followed_to_its_layer(
    wm: WindowManagerView,
    event: WindowManagerEvent,
    window_id: u32,
    workspace: WorkspaceView,
    sight: HandlingSightView,
)
    requires
        acting::is_in_focus(wm, workspace),
    ensures
        ({
            let operations = process_event::stage_effect(
                wm,
                event,
                EventStage::FocusSettled(window_id),
                sight,
            ).1.operations;
            let to_floating = Operation::SetWorkspaceLayer(WorkspaceLayer::Floating);
            let to_tiling = Operation::SetWorkspaceLayer(WorkspaceLayer::Tiling);
            let floats = dragging::is_among(workspace.floating_windows, window_id);
            &&& floats ==> operations[0] == to_floating && !operations.contains(to_tiling)
            &&& !floats ==> !operations.contains(to_floating)
            &&& !floats && workspace.monocle_container is None && dragging::is_tiled_on(
                workspace,
                window_id,
            ) ==> operations[0] == Operation::FocusContainerByWindow(window_id) && operations[1]
                == to_tiling
            &&& !floats && workspace.monocle_container is Some ==> {
                let monocle = workspace.monocle_container->0;
                if monocle.focused_window < monocle.windows.len() {
                    operations[0] == Operation::FocusWindow(
                        monocle.windows[monocle.focused_window as int].id,
                        false,
                    ) && operations[1] == to_tiling
                } else {
                    operations[0] == to_tiling
                }
            }
        }),
{
    dragging::lemma_on(workspace, window_id);
    let operations = process_event::stage_effect(
        wm,
        event,
        EventStage::FocusSettled(window_id),
        sight,
    ).1.operations;
    assert(dragging::is_among(workspace.floating_windows, window_id)
        == crate::window_manager::has_id(workspace.floating_windows, window_id));
}

/// A rule that says which workspace an application belongs on names it.
pub open spec fn is_ruled(wm: WindowManagerView, sight: HandlingSightView) -> bool {
    process_event::focus_change::has_workspace_rule(
        wm.rules.workspace_matching_rules,
        if sight.application_name is Some {
            sight.application_name->0
        } else {
            Seq::empty()
        },
    )
}

/// The focus of a window that nobody knows of makes it noticed, unless a rule says which
/// workspace its application belongs on or a container is in monocle mode; of any other window
/// it does not.
pub proof fn law_an_unknown_window_is_noticed_by_its_focus(
    wm: WindowManagerView,
    event: WindowManagerEvent,
    window_id: u32,
    workspace: WorkspaceView,
    sight: HandlingSightView,
)
    requires
        acting::is_in_focus(wm, workspace),
    ensures
        ({
            let operations = process_event::stage_effect(
                wm,
                event,
                EventStage::FocusSettled(window_id),
                sight,
            ).1.operations;
            let notice = Operation::SendManualEvent(
                ManualNotification::ShowOnFocusChangeWindowlessAppRestored,
                crate::events::process_of(event),
                window_id,
            );
            let unknown = !dragging::is_on(workspace, window_id)
                && !wm.known_window_ids.contains_key(window_id) && workspace.monocle_container
                is None && !is_ruled(wm, sight);
            &&& unknown ==> operations[0] == notice && !operations.contains(
                Operation::SetWorkspaceLayer(WorkspaceLayer::Tiling),
            )
            &&& !unknown ==> forall|i: int|
                0 <= i < operations.len() ==> !((#[trigger] operations[i]) is SendManualEvent)
        }),
{
    dragging::lemma_on(workspace, window_id);
    assert(dragging::is_among(workspace.floating_windows, window_id)
        == crate::window_manager::has_id(workspace.floating_windows, window_id));
}

/// Once the main window of an application has changed, windows that have gone are reaped and the
/// workspace is updated, unless the focus is reconciled; no other focus change has windows
/// reaped.
pub proof fn law_a_new_main_window_has_windows_reaped(
    wm: WindowManagerView,
    notification: SystemNotification,
    process_id: i32,
    named: Option<u32>,
    window_id: u32,
    workspace: WorkspaceView,
    sight: HandlingSightView,
)
    requires
        acting::is_in_focus(wm, workspace),
    ensures
        ({
            let operations = process_event::stage_effect(
                wm,
                WindowManagerEvent::FocusChange(notification, process_id, named),
                EventStage::FocusSettled(window_id),
                sight,
            ).1.operations;
            let n = operations.len() - 4;
            &&& n >= 0
            &&& operations[n] == Operation::UpdateKnownWindowIds
            &&& operations[n + 1] == Operation::NotifySubscribers
            &&& operations[n + 2] == Operation::UpdateBordersFor(sight.border_window_id)
            &&& operations[n + 3] == Operation::SaveSession
            &&& if notification == SystemNotification::Accessibility(
                AccessibilityNotification::AXMainWindowChanged,
            ) && !reconciles(operations) {
                &&& n >= 2
                &&& operations[n - 2] == Operation::ReapInvalidWindows(process_id)
                &&& operations[n - 1] == Operation::UpdateFocusedWorkspace(false, false)
            } else {
                forall|i: int|
                    0 <= i < operations.len() ==> !((
                    #[trigger] operations[i]) is ReapInvalidWindows)
            }
        }),
{
    law_a_focus_from_outside_is_reconciled(
        wm,
        WindowManagerEvent::FocusChange(notification, process_id, named),
        window_id,
        workspace,
        sight,
    );
    dragging::lemma_on(workspace, window_id);
    let operations = process_event::stage_effect(
        wm,
        WindowManagerEvent::FocusChange(notification, process_id, named),
        EventStage::FocusSettled(window_id),
        sight,
    ).1.operations;
    if !workspace.shows(window_id) && wm.known_window_ids.contains_key(window_id)
        && !sight.focus_was_ours {
        let (m, w) = wm.known_window_ids[window_id];
        let i = choose|i: int|
            0 <= i < operations.len() && operations[i] == Operation::Reconcile(m, w);
        assert(operations[i] is Reconcile);
        assert(reconciles(operations));
    }
}

/// The name that an application goes by is that of one whose windows are tabs.
pub open spec fn keeps_tabs(wm: WindowManagerView, sight: HandlingSightView) -> bool {
    wm.rules.tabbed_applications.contains(
        if sight.application_name is Some {
            sight.application_name->0
        } else {
            Seq::empty()
        },
    )
}

/// A focus change in an application without tabs leaves the state alone. It updates the
/// workspace, with the cursor where the mouse follows the focus, unless its layout scrolls or
/// nothing is tiled there, and goes on with the window that has the focus.
pub proof fn law_a_focus_change_goes_on_with_its_window(
    wm: WindowManagerView,
    notification: SystemNotification,
    process_id: i32,
    named: Option<u32>,
    workspace: WorkspaceView,
    sight: HandlingSightView,
    debug: RuleDebugView,
)
    requires
        acting::is_in_focus(wm, workspace),
        !keeps_tabs(wm, sight),
    ensures
        ({
            let (after, plan) = process_event::handling_effect(
                wm,
                WindowManagerEvent::FocusChange(notification, process_id, named),
                sight,
                debug,
            );
            &&& after.monitors =~= wm.monitors
            &&& after == (WindowManagerView { monitors: after.monitors, ..wm })
            &&& if !sight.application_found {
                dragging::fails(plan, CommandError::NoApplication)
            } else if sight.main_window_id is None {
                dragging::does(
                    plan,
                    if notification == SystemNotification::Accessibility(
                        AccessibilityNotification::AXMainWindowChanged,
                    ) {
                        seq![
                            Operation::ReapInvalidWindows(process_id),
                            Operation::UpdateFocusedWorkspace(false, false),
                        ]
                    } else {
                        Seq::empty()
                    },
                    sight.border_window_id,
                )
            } else {
                let go_on = Operation::ResumeEvent(
                    EventStage::FocusSettled(sight.main_window_id->0),
                );
                &&& plan.failure is None
                &&& plan.reply is None
                &&& plan.operations =~= if workspace.layout != DefaultLayout::Scrolling
                    && workspace.containers.len() > 0 {
                    seq![
                        Operation::UpdateFocusedWorkspace(wm.mouse_follows_focus, false),
                        go_on,
                    ]
                } else {
                    seq![go_on]
                }
            }
        }),
{
    let m = wm.focused_monitor as int;
    let w = wm.monitors[m].focused_workspace as int;
    assert(wm.monitors[m].workspaces.update(w, workspace) =~= wm.monitors[m].workspaces);
    assert(wm.monitors.update(m, wm.monitors[m]) =~= wm.monitors);
}

/// Windows that have gone are reaped, and the event goes on once they are. An application that
/// hides itself has windows reaped though they are there if it has exactly one.
pub proof fn law_gone_windows_are_reaped(
    wm: WindowManagerView,
    notification: SystemNotification,
    process_id: i32,
    workspace: WorkspaceView,
    sight: HandlingSightView,
    debug: RuleDebugView,
)
    requires
        acting::is_in_focus(wm, workspace),
    ensures
        ({
            let (after, plan) = process_event::handling_effect(
                wm,
                WindowManagerEvent::Destroy(notification, process_id),
                sight,
                debug,
            );
            let hides = notification == SystemNotification::Accessibility(
                AccessibilityNotification::AXApplicationHidden,
            );
            &&& after == wm
            &&& if hides && !sight.application_found {
                dragging::fails(plan, CommandError::NoApplication)
            } else {
                &&& plan.failure is None
                &&& plan.reply is None
                &&& plan.operations =~= seq![
                    if hides && sight.window_count == 1 {
                        Operation::ForceReapInvalidWindows(process_id)
                    } else {
                        Operation::ReapInvalidWindows(process_id)
                    },
                    Operation::ResumeEvent(EventStage::Reaped),
                ]
            }
        }),
        ({
            let (after, plan) = process_event::stage_effect(
                wm,
                WindowManagerEvent::Destroy(notification, process_id),
                EventStage::Reaped,
                sight,
            );
            &&& after == wm
            &&& dragging::does(
                plan,
                if workspace.containers.len() == 0 {
                    seq![
                        Operation::ActivateFinder,
                        Operation::UpdateFocusedWorkspace(false, false),
                    ]
                } else {
                    seq![Operation::UpdateFocusedWorkspace(false, false)]
                },
                sight.border_window_id,
            )
        }),
{
}

/// Where floating windows go that appear without being toggled: to the middle at a new size only
/// if that is asked for.
pub open spec fn is_resized(sight: HandlingSightView) -> bool {
    (if sight.behaviour.floating_layer_override {
        sight.behaviour.floating_layer_placement
    } else if sight.behaviour.float_override {
        sight.behaviour.float_override_placement
    } else {
        sight.behaviour.float_rule_placement
    }) == Placement::CenterAndResize
}

/// A window that is no longer to be managed leaves the workspace before it is noted down, and a
/// window that is minimized is taken out; the workspace is updated each time.
pub proof fn law_windows_leave_the_layout(
    wm: WindowManagerView,
    notification: SystemNotification,
    process_id: i32,
    window_id: u32,
    workspace: WorkspaceView,
    sight: HandlingSightView,
    debug: RuleDebugView,
)
    requires
        acting::is_in_focus(wm, workspace),
    ensures
        ({
            let (after, plan) = process_event::handling_effect(
                wm,
                WindowManagerEvent::Unmanage(notification, process_id, window_id),
                sight,
                debug,
            );
            &&& after == wm
            &&& dragging::does(
                plan,
                seq![
                    Operation::RemoveWindowFromFocusedWorkspace(window_id),
                    Operation::CenterWindow(window_id, is_resized(sight)),
                    Operation::AddUnmanagedWindow(window_id),
                    Operation::UpdateFocusedWorkspace(false, false),
                ],
                sight.border_window_id,
            )
        }),
        ({
            let (after, plan) = process_event::handling_effect(
                wm,
                WindowManagerEvent::Minimize(notification, process_id, window_id),
                sight,
                debug,
            );
            &&& after == wm
            &&& dragging::does(
                plan,
                seq![
                    Operation::ExtractMinimizedWindow(window_id),
                    Operation::UpdateFocusedWorkspace(false, false),
                ],
                sight.border_window_id,
            )
        }),
{
}

/// A window that comes back from being minimized is forgotten among those that are, no other is,
/// and it gets a container of its own; a window that was not minimized is left alone.
pub proof fn law_a_restored_window_gets_a_container(
    wm: WindowManagerView,
    notification: SystemNotification,
    process_id: i32,
    window_id: u32,
    workspace: WorkspaceView,
    sight: HandlingSightView,
    debug: RuleDebugView,
)
    requires
        acting::is_in_focus(wm, workspace),
    ensures
        ({
            let (after, plan) = process_event::handling_effect(
                wm,
                WindowManagerEvent::Restore(notification, process_id, window_id),
                sight,
                debug,
            );
            &&& after == (WindowManagerView { minimized_windows: after.minimized_windows, ..wm })
            &&& !after.minimized_windows.contains_key(window_id)
            &&& forall|id: u32|
                id != window_id && wm.minimized_windows.contains_key(id)
                    ==> #[trigger] after.minimized_windows.contains_key(id)
                    && after.minimized_windows[id] == wm.minimized_windows[id]
            &&& dragging::does(
                plan,
                if wm.minimized_windows.contains_key(window_id) {
                    seq![
                        Operation::NewContainerForWindow(wm.minimized_windows[window_id]),
                        Operation::UpdateFocusedWorkspace(false, false),
                    ]
                } else {
                    Seq::empty()
                },
                sight.border_window_id,
            )
        }),
{
}

/// An entry of an earlier session is one that a window may claim: under its id and application
/// while ids are those of the session, or under its application and title, if it has one.
pub open spec fn may_claim(
    session: SessionStateView,
    entry: SessionWindowView,
    window_id: u32,
    window: WindowAttributesView,
) -> bool {
    let exe: Seq<char> = if window.exe is Some {
        window.exe->0
    } else {
        Seq::empty()
    };
    &&& entry.exe == exe
    &&& session.ids_are_current && entry.window_id == window_id || window.title is Some
        && window.title->0.len() > 0 && entry.title == window.title->0
}

/// A window had no place in an earlier session.
pub open spec fn is_placeless(
    wm: WindowManagerView,
    window_id: u32,
    window: WindowAttributesView,
) -> bool {
    match wm.pending_session {
        Some(session) => forall|i: int|
            0 <= i < session.windows.len() ==> !may_claim(
                session,
                #[trigger] session.windows[i],
                window_id,
                window,
            ),
        None => true,
    }
}

proof fn lemma_no_entry_by_id(
    windows: Seq<SessionWindowView>,
    window_id: u32,
    exe: Seq<char>,
    from: int,
)
    requires
        0 <= from,
        forall|i: int|
            0 <= i < windows.len() ==> !((#[trigger] windows[i]).exe == exe && windows[i].window_id
                == window_id),
    ensures
        crate::session::first_by_id(windows, window_id, exe, from) is None,
    decreases windows.len() - from,
{
    if from < windows.len() {
        lemma_no_entry_by_id(windows, window_id, exe, from + 1);
    }
}

proof fn lemma_no_entry_by_title(
    windows: Seq<SessionWindowView>,
    exe: Seq<char>,
    title: Seq<char>,
    from: int,
)
    requires
        0 <= from,
        forall|i: int|
            0 <= i < windows.len() ==> !((#[trigger] windows[i]).exe == exe && windows[i].title
                == title),
    ensures
        crate::session::first_by_title(windows, exe, title, from) is None,
    decreases windows.len() - from,
{
    if from < windows.len() {
        lemma_no_entry_by_title(windows, exe, title, from + 1);
    }
}

proof fn lemma_placeless(wm: WindowManagerView, window_id: u32, window: WindowAttributesView)
    requires
        is_placeless(wm, window_id, window),
    ensures
        process_event::show::session_place(wm.pending_session, window_id, window) is None,
        process_event::show::session_left(wm.pending_session, window_id, window)
            == wm.pending_session,
{
    if let Some(session) = wm.pending_session {
        let exe: Seq<char> = if window.exe is Some {
            window.exe->0
        } else {
            Seq::empty()
        };
        if session.ids_are_current {
            assert forall|i: int| 0 <= i < session.windows.len() implies !((
            #[trigger] session.windows[i]).exe == exe && session.windows[i].window_id
                == window_id) by {
                assert(!may_claim(session, session.windows[i], window_id, window));
            }
            lemma_no_entry_by_id(session.windows, window_id, exe, 0);
        }
        if window.title is Some && window.title->0.len() > 0 {
            assert forall|i: int| 0 <= i < session.windows.len() implies !((
            #[trigger] session.windows[i]).exe == exe && session.windows[i].title
                == window.title->0) by {
                assert(!may_claim(session, session.windows[i], window_id, window));
            }
            lemma_no_entry_by_title(session.windows, exe, window.title->0, 0);
        }
    }
}

/// Some rule that makes windows float matches a window, which says everything about itself.
pub open spec fn is_to_float(wm: WindowManagerView, window: WindowAttributesView) -> bool {
    &&& window.title is Some
    &&& window.exe is Some
    &&& window.role is Some
    &&& window.subrole is Some
    &&& window.path is Some
    &&& exists|i: int|
        0 <= i < wm.rules.floating_applications.len() && rules::rule_accepts(
            #[trigger] wm.rules.floating_applications[i],
            (WindowText {
                title: window.title->0,
                exe_name: window.exe->0,
                classes: seq![window.role->0, window.subrole->0],
                path: window.path->0,
            }),
            wm.rules.regex_identifiers,
        )
}

proof fn lemma_to_float(wm: WindowManagerView, window: WindowAttributesView)
    ensures
        is_to_float(wm, window) == eligibility::asked_for(
            wm.rules.floating_applications,
            wm.rules,
            window,
        ),
{
    if let (Some(title), Some(exe_name), Some(role), Some(subrole), Some(path)) = (
        window.title,
        window.exe,
        window.role,
        window.subrole,
        window.path,
    ) {
        matching::law_the_last_rule_that_passes_is_found(
            wm.rules.floating_applications,
            WindowText { title, exe_name, classes: seq![role, subrole], path },
            wm.rules.regex_identifiers,
        );
    }
}

/// An operation gives a window a place in the layout.
pub open spec fn tiles(operation: Operation) -> bool {
    operation is NewContainerForWindow || operation is AddWindowToFocusedContainer
}

/// A window without a place in an earlier session that some rule makes float is among the
/// floating windows of the focused workspace once it has been placed, and the floating layer is
/// up, and no operation gives it a container; so is any window while an override makes windows
/// float. A window that was asked to be managed is tiled all the same unless an override says
/// otherwise, and so is one that no rule makes float.
pub proof fn law_rules_make_windows_float_unless_asked_to_manage(
    wm: WindowManagerView,
    event: WindowManagerEvent,
    placed: u32,
    workspace: WorkspaceView,
    sight: HandlingSightView,
)
    requires
        acting::is_in_focus(wm, workspace),
        is_placeless(wm, sight.shown_window.id, sight.shown),
    ensures
        ({
            let (after, plan) = process_event::stage_effect(
                wm,
                event,
                EventStage::Place(placed),
                sight,
            );
            let window = sight.shown_window;
            let m = wm.focused_monitor as int;
            let w = wm.monitors[m].focused_workspace as int;
            let now = after.monitors[m].workspaces[w];
            let overridden = sight.behaviour.float_override
                || sight.behaviour.floating_layer_override;
            &&& overridden || is_to_float(wm, sight.shown) && !(event is Manage) ==> {
                &&& plan.failure is None
                &&& now.floating_windows =~= workspace.floating_windows.push(window)
                &&& now.layer == WorkspaceLayer::Floating
                &&& now.containers == workspace.containers
                &&& forall|i: int|
                    0 <= i < plan.operations.len() ==> !tiles(#[trigger] plan.operations[i])
            }
            &&& !overridden && (!is_to_float(wm, sight.shown) || event is Manage) ==> {
                &&& after == wm
                &&& sight.behaviour.current_behaviour == WindowContainerBehaviour::Create ==> {
                    &&& plan.failure is None
                    &&& plan.operations.contains(Operation::NewContainerForWindow(window))
                }
                &&& sight.behaviour.current_behaviour == WindowContainerBehaviour::Append ==> {
                    if workspace.focused_container < workspace.containers.len() {
                        &&& plan.failure is None
                        &&& plan.operations.contains(
                            Operation::AddWindowToFocusedContainer(
                                window,
                                workspace.window_hiding_position,
                            ),
                        )
                    } else {
                        plan.failure == Some(CommandError::NoFocusedContainer)
                    }
                }
            }
        }),
{
    lemma_placeless(wm, sight.shown_window.id, sight.shown);
    lemma_to_float(wm, sight.shown);
    let plan = process_event::stage_effect(wm, event, EventStage::Place(placed), sight).1;
    if !process_event::show::floats(wm, event, sight) {
        if plan.failure is None {
            assert(tiles(plan.operations[1]));
        }
    }
}

/// A floating window that appeared is brought to the middle where that is asked for and the
/// workspace tiles; then the workspace is updated and the event goes on.
pub proof fn law_floating_windows_are_brought_to_the_middle(
    wm: WindowManagerView,
    event: WindowManagerEvent,
    placed: u32,
    workspace: WorkspaceView,
    sight: HandlingSightView,
)
    requires
        acting::is_in_focus(wm, workspace),
        is_placeless(wm, sight.shown_window.id, sight.shown),
        sight.behaviour.float_override || sight.behaviour.floating_layer_override || is_to_float(
            wm,
            sight.shown,
        ) && !(event is Manage),
    ensures
        ({
            let plan = process_event::stage_effect(wm, event, EventStage::Place(placed), sight).1;
            let window = sight.shown_window;
            let placement = if sight.behaviour.floating_layer_override {
                sight.behaviour.floating_layer_placement
            } else if sight.behaviour.float_override {
                sight.behaviour.float_override_placement
            } else {
                sight.behaviour.float_rule_placement
            };
            let n = plan.operations.len();
            &&& n >= 2
            &&& plan.operations[n - 2] == Operation::UpdateFocusedWorkspace(false, false)
            &&& plan.operations[n - 1] matches Operation::ResumeEvent(
                EventStage::Placed { window: resumed, tiled, was_there, monocle },
            ) && resumed == window.id && !tiled && was_there == dragging::is_on(
                workspace,
                window.id,
            ) && (monocle is Some <==> workspace.monocle_container is Some)
            &&& if placement == Placement::Unchanged || !workspace.tile {
                n == 2
            } else {
                &&& n == 3
                &&& plan.operations[0] == Operation::CenterWindow(
                    window.id,
                    placement == Placement::CenterAndResize,
                )
            }
        }),
{
    lemma_placeless(wm, sight.shown_window.id, sight.shown);
    lemma_to_float(wm, sight.shown);
    dragging::lemma_on(workspace, sight.shown_window.id);
}

/// A window that is tiled is noted as opened before it is put anywhere; afterwards the tiling
/// layer is up and the workspace is updated, with the cursor where the window joined a
/// container, and the event goes on.
pub proof fn law_tiled_windows_are_noted_as_opened(
    wm: WindowManagerView,
    event: WindowManagerEvent,
    placed: u32,
    workspace: WorkspaceView,
    sight: HandlingSightView,
)
    requires
        acting::is_in_focus(wm, workspace),
        is_placeless(wm, sight.shown_window.id, sight.shown),
        !sight.behaviour.float_override,
        !sight.behaviour.floating_layer_override,
        !is_to_float(wm, sight.shown) || event is Manage,
    ensures
        ({
            let plan = process_event::stage_effect(wm, event, EventStage::Place(placed), sight).1;
            let window = sight.shown_window;
            &&& plan.operations[0] == Operation::NoteWindowOpened(window.id)
            &&& plan.failure is None ==> {
                &&& plan.operations.len() == 5
                &&& tiles(plan.operations[1])
                &&& plan.operations[2] == Operation::SetWorkspaceLayer(WorkspaceLayer::Tiling)
                &&& plan.operations[3] == Operation::UpdateFocusedWorkspace(
                    sight.behaviour.current_behaviour == WindowContainerBehaviour::Append,
                    false,
                )
                &&& plan.operations[4] matches Operation::ResumeEvent(
                    EventStage::Placed { window: resumed, tiled, was_there, monocle },
                ) && resumed == window.id && tiled && was_there == dragging::is_on(
                    workspace,
                    window.id,
                ) && (monocle is Some <==> workspace.monocle_container is Some)
            }
            &&& plan.failure is Some ==> plan.operations.len() == 1
        }),
{
    lemma_placeless(wm, sight.shown_window.id, sight.shown);
    lemma_to_float(wm, sight.shown);
    dragging::lemma_on(workspace, sight.shown_window.id);
}

/// Once a window has been placed, it is focused if it is tiled and the only one there, and it is
/// hidden if it was there already, behind a container in monocle mode on the tiling layer that
/// does not have it in front; a floating window that is new is left alone.
pub proof fn law_a_placed_window_is_focused_if_alone(
    wm: WindowManagerView,
    event: WindowManagerEvent,
    window: u32,
    tiled: bool,
    was_there: bool,
    monocle: Option<Option<u32>>,
    workspace: WorkspaceView,
    sight: HandlingSightView,
)
    requires
        acting::is_in_focus(wm, workspace),
    ensures
        ({
            let (after, plan) = process_event::stage_effect(
                wm,
                event,
                EventStage::Placed { window, tiled, was_there, monocle },
                sight,
            );
            let alone = workspace.containers.len() + workspace.floating_windows.len() == 1;
            let focus: Seq<Operation> = if tiled && alone {
                seq![Operation::FocusWindow(window, wm.mouse_follows_focus)]
            } else {
                Seq::empty()
            };
            let hide: Seq<Operation> = if was_there && monocle is Some && monocle->0 != Some(
                window,
            ) && workspace.layer is Tiling {
                seq![Operation::HideWindow(window, workspace.window_hiding_position)]
            } else {
                Seq::empty()
            };
            &&& after == wm
            &&& dragging::does(plan, focus + hide, sight.border_window_id)
        }),
{
}


/// What follows the focus, or windows that come and go, is an error where no workspace has the focus.
pub proof fn law_following_needs_a_workspace(
    wm: WindowManagerView,
    event: WindowManagerEvent,
    notification: SystemNotification,
    process_id: i32,
    id: u32,
    sight: HandlingSightView,
    debug: RuleDebugView,
    error: CommandError,
)
    requires
        acting::is_out_of_focus(wm, error),
    ensures
        dragging::fails(
            process_event::stage_effect(wm, event, EventStage::FocusSettled(id), sight).1,
            error,
        ),
        dragging::fails(
            process_event::stage_effect(wm, event, EventStage::FocusReaped(id), sight).1,
            error,
        ),
        dragging::fails(
            process_event::stage_effect(wm, event, EventStage::Reaped, sight).1,
            error,
        ),
        dragging::fails(
            process_event::handling_effect(
                wm,
                WindowManagerEvent::Unmanage(notification, process_id, id),
                sight,
                debug,
            ).1,
            error,
        ),
        sight.application_found && sight.main_window_id is Some ==> dragging::fails(
            process_event::handling_effect(
                wm,
                WindowManagerEvent::FocusChange(notification, process_id, Some(id)),
                sight,
                debug,
            ).1,
            error,
        ),
        wm.minimized_windows.contains_key(id) ==> {
            let (after, plan) = process_event::handling_effect(
                wm,
                WindowManagerEvent::Restore(notification, process_id, id),
                sight,
                debug,
            );
            dragging::fails(plan, error) && !after.minimized_windows.contains_key(id)
        },
        notification == SystemNotification::Accessibility(
            AccessibilityNotification::AXApplicationHidden,
        ) && sight.application_found && sight.window_count == 1 ==> dragging::fails(
            process_event::handling_effect(
                wm,
                WindowManagerEvent::Destroy(notification, process_id),
                sight,
                debug,
            ).1,
            error,
        ),
{
}

/// Placing a window is an error where no workspace has the focus, unless the window had a place in an
/// earlier session; so is what follows once it has been placed, unless it floats and is new.
pub proof fn law_placing_needs_a_workspace(
    wm: WindowManagerView,
    event: WindowManagerEvent,
    placed: u32,
    tiled: bool,
    was_there: bool,
    monocle: Option<Option<u32>>,
    sight: HandlingSightView,
    error: CommandError,
)
    requires
        acting::is_out_of_focus(wm, error),
    ensures
        is_placeless(wm, sight.shown_window.id, sight.shown) ==> {
            let (after, plan) = process_event::stage_effect(
                wm,
                event,
                EventStage::Place(placed),
                sight,
            );
            after == wm && dragging::fails(plan, error)
        },
        ({
            let (after, plan) = process_event::stage_effect(
                wm,
                event,
                EventStage::Placed { window: placed, tiled, was_there, monocle },
                sight,
            );
            &&& after == wm
            &&& tiled || was_there ==> dragging::fails(plan, error)
            &&& !tiled && !was_there ==> dragging::does(plan, Seq::empty(), sight.border_window_id)
        }),
{
    if is_placeless(wm, sight.shown_window.id, sight.shown) {
        lemma_placeless(wm, sight.shown_window.id, sight.shown);
    }
}


/// A comparison of a rule names an application: by its id, whose `.exe` endings do not count.
pub open spec fn names(identifier: rules::IdWithIdentifierView, name: Seq<char>) -> bool {
    crate::text::exe_trimmed(identifier.id) == name
}

/// An application has a workspace rule exactly if some comparison of some rule names it, whatever the
/// comparison looks at.
pub proof fn law_an_application_is_ruled_by_its_name(
    wm: WindowManagerView,
    sight: HandlingSightView,
)
    ensures
        ({
            let name: Seq<char> = if sight.application_name is Some {
                sight.application_name->0
            } else {
                Seq::empty()
            };
            let list = wm.rules.workspace_matching_rules;
            is_ruled(wm, sight) <==> exists|i: int|
                0 <= i < list.len() && match (#[trigger] list[i]).matching_rule {
                    rules::MatchingRuleView::Simple(identifier) => names(identifier, name),
                    rules::MatchingRuleView::Composite(identifiers) => exists|j: int|
                        0 <= j < identifiers.len() && names(#[trigger] identifiers[j], name),
                }
        }),
{
    let name: Seq<char> = if sight.application_name is Some {
        sight.application_name->0
    } else {
        Seq::empty()
    };
    let list = wm.rules.workspace_matching_rules;
    assert forall|i: int| 0 <= i < list.len() implies process_event::focus_change::rule_names_application(
        #[trigger] list[i],
        name,
    ) == match list[i].matching_rule {
        rules::MatchingRuleView::Simple(identifier) => names(identifier, name),
        rules::MatchingRuleView::Composite(identifiers) => exists|j: int|
            0 <= j < identifiers.len() && names(#[trigger] identifiers[j], name),
    } by {
        if let rules::MatchingRuleView::Composite(identifiers) = list[i].matching_rule {
            assert forall|j: int| 0 <= j < identifiers.len() implies names(
                #[trigger] identifiers[j],
                name,
            ) == process_event::focus_change::names_application(identifiers[j], name) by {}
        }
    }
    if is_ruled(wm, sight) {
        let i = choose|i: int|
            0 <= i < list.len() && process_event::focus_change::rule_names_application(
                #[trigger] list[i],
                name,
            );
        assert(process_event::focus_change::rule_names_application(list[i], name));
    }
    if exists|i: int|
        0 <= i < list.len() && match (#[trigger] list[i]).matching_rule {
            rules::MatchingRuleView::Simple(identifier) => names(identifier, name),
            rules::MatchingRuleView::Composite(identifiers) => exists|j: int|
                0 <= j < identifiers.len() && names(#[trigger] identifiers[j], name),
        } {
        let i = choose|i: int|
            0 <= i < list.len() && match (#[trigger] list[i]).matching_rule {
                rules::MatchingRuleView::Simple(identifier) => names(identifier, name),
                rules::MatchingRuleView::Composite(identifiers) => exists|j: int|
                    0 <= j < identifiers.len() && names(#[trigger] identifiers[j], name),
            };
        assert(process_event::focus_change::rule_names_application(list[i], name));
    }
}

/// The focus of a window that does not float updates the workspace, with the cursor where the mouse
/// follows the focus, exactly if its layout scrolls and something is tiled there.
pub proof fn law_a_scrolling_layout_is_updated_for_the_focus(
    wm: WindowManagerView,
    notification: SystemNotification,
    process_id: i32,
    named: Option<u32>,
    window_id: u32,
    workspace: WorkspaceView,
    sight: HandlingSightView,
)
    requires
        acting::is_in_focus(wm, workspace),
        !dragging::is_among(workspace.floating_windows, window_id),
        notification != SystemNotification::Accessibility(
            AccessibilityNotification::AXMainWindowChanged,
        ),
    ensures
        ({
            let operations = process_event::stage_effect(
                wm,
                WindowManagerEvent::FocusChange(notification, process_id, named),
                EventStage::FocusSettled(window_id),
                sight,
            ).1.operations;
            let update = Operation::UpdateFocusedWorkspace(wm.mouse_follows_focus, false);
            let scrolls = workspace.layout == DefaultLayout::Scrolling
                && workspace.containers.len() > 0;
            &&& scrolls ==> operations.contains(update)
            &&& !scrolls ==> forall|i: int|
                0 <= i < operations.len() ==> !((#[trigger] operations[i])
                    is UpdateFocusedWorkspace)
        }),
{
    assert(dragging::is_among(workspace.floating_windows, window_id)
        == crate::window_manager::has_id(workspace.floating_windows, window_id));
    let operations = process_event::stage_effect(
        wm,
        WindowManagerEvent::FocusChange(notification, process_id, named),
        EventStage::FocusSettled(window_id),
        sight,
    ).1.operations;
    let follow = process_event::focus_change::follow_tiled(
        wm,
        workspace,
        window_id,
        process_id,
        sight,
    );
    if workspace.layout == DefaultLayout::Scrolling && workspace.containers.len() > 0 {
        assert(operations[follow.len() - 1] == Operation::UpdateFocusedWorkspace(
            wm.mouse_follows_focus,
            false,
        ));
    }
}

/// What is remembered of a container in monocle mode while a window is placed is the window that it
/// shows, if any.
pub proof fn law_the_covering_window_is_remembered(
    wm: WindowManagerView,
    event: WindowManagerEvent,
    placed: u32,
    workspace: WorkspaceView,
    sight: HandlingSightView,
)
    requires
        acting::is_in_focus(wm, workspace),
        is_placeless(wm, sight.shown_window.id, sight.shown),
    ensures
        ({
            let plan = process_event::stage_effect(wm, event, EventStage::Place(placed), sight).1;
            plan.failure is None ==> {
                &&& plan.operations.len() > 0
                &&& plan.operations.last() matches Operation::ResumeEvent(
                    EventStage::Placed { window, tiled, was_there, monocle },
                ) && monocle == match workspace.monocle_container {
                    Some(container) => if container.focused_window < container.windows.len() {
                        Some(Some(container.windows[container.focused_window as int].id))
                    } else {
                        Some(None)
                    },
                    None => None,
                }
            }
        }),
{
    lemma_placeless(wm, sight.shown_window.id, sight.shown);
}

} // verus!
