//! What commands that act on windows and containers do.

use crate::message::SocketMessage;
use crate::operation::Operation;
use crate::process_command::going;
use crate::process_command::plan::CommandSightView;
use crate::process_command;
use crate::settings::Axis;
use crate::settings::CycleDirection;
use crate::settings::OperationDirection;
use crate::settings::Sizing;
use crate::settings::WorkspaceWindowLocation;
use crate::window_manager::CommandError;
use crate::window_manager::WindowManagerView;
use crate::window_manager::WorkspaceView;
use vstd::prelude::*;

verus! {

/// A workspace is the focused one of the focused monitor.
pub open spec fn is_in_focus(wm: WindowManagerView, workspace: WorkspaceView) -> bool {
    &&& wm.focused_monitor < wm.monitors.len()
    &&& {
        let monitor = wm.monitors[wm.focused_monitor as int];
        &&& monitor.focused_workspace < monitor.workspaces.len()
        &&& workspace == monitor.workspaces[monitor.focused_workspace as int]
    }
}

/// Focusing, moving and cycling act on containers while the tiling layer is up, and on floating
/// windows while the floating layer is.
pub proof fn law_commands_act_on_the_layer_that_is_up(
    wm: WindowManagerView,
    workspace: WorkspaceView,
    direction: OperationDirection,
    cycle: CycleDirection,
    sight: CommandSightView,
)
    requires
        going::is_heard(wm, sight),
        is_in_focus(wm, workspace),
    ensures
        ({
            let (focused, focus) = process_command::command_effect(
                wm,
                SocketMessage::FocusWindow(direction),
                sight,
            );
            let (moved, moving) = process_command::command_effect(
                wm,
                SocketMessage::MoveWindow(direction),
                sight,
            );
            let (cycled, cycling) = process_command::command_effect(
                wm,
                SocketMessage::CycleFocusWindow(cycle),
                sight,
            );
            &&& focused == wm
            &&& moved == wm
            &&& cycled == wm
            &&& workspace.layer is Tiling ==> {
                &&& going::does(focus, seq![Operation::FocusContainerInDirection(direction)])
                &&& going::does(moving, seq![Operation::MoveContainerInDirection(direction)])
                &&& going::does(cycling, seq![Operation::FocusContainerInCycleDirection(cycle)])
            }
            &&& workspace.layer is Floating ==> {
                &&& going::does(focus, seq![Operation::FocusFloatingWindowInDirection(direction)])
                &&& going::does(moving, seq![Operation::MoveFloatingWindowInDirection(direction)])
                &&& going::does(
                    cycling,
                    seq![Operation::FocusFloatingWindowInCycleDirection(cycle)],
                )
            }
        }),
{
}

/// Promoting a window in a direction goes to the container there and brings it to the front.
pub proof fn law_promoting_goes_there_first(
    wm: WindowManagerView,
    direction: OperationDirection,
    sight: CommandSightView,
)
    requires
        going::is_heard(wm, sight),
    ensures
        ({
            let (after, plan) = process_command::command_effect(
                wm,
                SocketMessage::PromoteWindow(direction),
                sight,
            );
            &&& after == wm
            &&& going::does(
                plan,
                seq![
                    Operation::FocusContainerInDirection(direction),
                    Operation::PromoteContainerToFront,
                ],
            )
        }),
{
}

/// The outcome of a command is these operations with animations off everywhere in between: they
/// are off in the state that is left, nothing else is changed, and the last operation sets them
/// as they were.
pub open spec fn does_unanimated(
    wm: WindowManagerView,
    message: SocketMessage,
    sight: CommandSightView,
    operations: Seq<Operation>,
) -> bool {
    let (after, plan) = process_command::command_effect(wm, message, sight);
    &&& !after.animation.enabled.global
    &&& after.animation.enabled.movement == wm.animation.enabled.movement
    &&& after.animation.enabled.transparency == wm.animation.enabled.transparency
    &&& after.animation.duration == wm.animation.duration
    &&& after.animation.style == wm.animation.style
    &&& after.animation.fps == wm.animation.fps
    &&& after == (WindowManagerView { animation: after.animation, ..wm })
    &&& going::does(
        plan,
        operations + seq![Operation::SetGlobalAnimation(wm.animation.enabled.global)],
    )
}

/// Windows are stacked and unstacked without animation.
pub proof fn law_stacking_is_not_animated(
    wm: WindowManagerView,
    direction: OperationDirection,
    sight: CommandSightView,
)
    requires
        going::is_heard(wm, sight),
    ensures
        does_unanimated(
            wm,
            SocketMessage::StackWindow(direction),
            sight,
            seq![Operation::AddWindowToContainer(direction)],
        ),
        does_unanimated(
            wm,
            SocketMessage::UnstackWindow,
            sight,
            seq![Operation::RemoveWindowFromContainer, Operation::DestroyAllBorders],
        ),
        does_unanimated(wm, SocketMessage::StackAll, sight, seq![Operation::StackAll]),
        does_unanimated(
            wm,
            SocketMessage::UnstackAll,
            sight,
            seq![Operation::UnstackAll(true), Operation::DestroyAllBorders],
        ),
{
}

/// A stack is cycled through without animation.
pub proof fn law_cycling_through_a_stack_is_not_animated(
    wm: WindowManagerView,
    direction: CycleDirection,
    sight: CommandSightView,
)
    requires
        going::is_heard(wm, sight),
    ensures
        does_unanimated(
            wm,
            SocketMessage::CycleStack(direction),
            sight,
            seq![Operation::CycleContainerWindowInDirection(direction)],
        ),
        does_unanimated(
            wm,
            SocketMessage::CycleStackIndex(direction),
            sight,
            seq![Operation::CycleContainerWindowIndexInDirection(direction)],
        ),
{
}

/// A window of a stack is focused on the monitor that the cursor is on, without animation.
pub proof fn law_a_window_of_a_stack_is_focused_at_the_cursor(
    wm: WindowManagerView,
    idx: usize,
    sight: CommandSightView,
)
    requires
        going::is_heard(wm, sight),
    ensures
        ({
            let (after, plan) = process_command::command_effect(
                wm,
                SocketMessage::FocusStackWindow(idx),
                sight,
            );
            if sight.cursor_monitor_idx is Some && sight.cursor_monitor_idx->0
                >= wm.monitors.len() {
                after == wm && going::fails(plan, CommandError::NotAMonitorIndex)
            } else {
                &&& after.focused_monitor == match sight.cursor_monitor_idx {
                    Some(m) => m,
                    None => wm.focused_monitor,
                }
                &&& !after.animation.enabled.global
                &&& after.monitors == wm.monitors
                &&& going::does(
                    plan,
                    seq![
                        Operation::FocusContainerWindow(idx),
                        Operation::SetGlobalAnimation(wm.animation.enabled.global),
                    ],
                )
            }
        }),
{
}

/// Locking or unlocking a container sets whether it is locked, of that container and no other,
/// and changes nothing else. A container that is not there is passed over; a workspace or a
/// monitor that is not there is an error.
pub proof fn law_only_the_named_container_is_locked(
    wm: WindowManagerView,
    m: usize,
    w: usize,
    c: usize,
    locked: bool,
    sight: CommandSightView,
)
    requires
        going::is_heard(wm, sight),
    ensures
        ({
            let (after, plan) = process_command::command_effect(
                wm,
                if locked {
                    SocketMessage::LockMonitorWorkspaceContainer(m, w, c)
                } else {
                    SocketMessage::UnlockMonitorWorkspaceContainer(m, w, c)
                },
                sight,
            );
            if m >= wm.monitors.len() {
                after == wm && going::fails(plan, CommandError::NoMonitorAtIndex)
            } else if w >= wm.monitors[m as int].workspaces.len() {
                after == wm && going::fails(plan, CommandError::NoWorkspaceAtIndex)
            } else {
                let before = wm.monitors[m as int].workspaces[w as int];
                let now = after.monitors[m as int].workspaces[w as int];
                &&& going::does(plan, Seq::empty())
                &&& after == (WindowManagerView { monitors: after.monitors, ..wm })
                &&& after.monitors.len() == wm.monitors.len()
                &&& forall|i: int|
                    0 <= i < wm.monitors.len() && i != m ==> #[trigger] after.monitors[i]
                        == wm.monitors[i]
                &&& forall|i: int|
                    0 <= i < wm.monitors[m as int].workspaces.len() && i != w
                        ==> #[trigger] after.monitors[m as int].workspaces[i]
                        == wm.monitors[m as int].workspaces[i]
                &&& now == (WorkspaceView { containers: now.containers, ..before })
                &&& now.containers.len() == before.containers.len()
                &&& forall|i: int|
                    0 <= i < before.containers.len() && i != c ==> #[trigger] now.containers[i]
                        == before.containers[i]
                &&& c < before.containers.len() ==> {
                    &&& now.containers[c as int].locked == locked
                    &&& now.containers[c as int].windows == before.containers[c as int].windows
                    &&& now.containers[c as int].id == before.containers[c as int].id
                    &&& now.containers[c as int].focused_window
                        == before.containers[c as int].focused_window
                }
            }
        }),
{
}

/// Resizing at an edge resizes just there, by the resize delta, and updates the workspace;
/// resizing along an axis resizes at both of its edges and updates the workspace once.
pub proof fn law_resizing_goes_by_the_delta(
    wm: WindowManagerView,
    direction: OperationDirection,
    sizing: Sizing,
    sight: CommandSightView,
)
    requires
        going::is_heard(wm, sight),
    ensures
        ({
            let delta = wm.resize_delta;
            let left = Operation::ResizeWindow(OperationDirection::Left, sizing, delta, false);
            let right = Operation::ResizeWindow(OperationDirection::Right, sizing, delta, false);
            let up = Operation::ResizeWindow(OperationDirection::Up, sizing, delta, false);
            let down = Operation::ResizeWindow(OperationDirection::Down, sizing, delta, false);
            let update = Operation::UpdateFocusedWorkspace(false, false);
            &&& going::does(
                process_command::command_effect(
                    wm,
                    SocketMessage::ResizeWindowEdge(direction, sizing),
                    sight,
                ).1,
                seq![Operation::ResizeWindow(direction, sizing, delta, true)],
            )
            &&& going::does(
                process_command::command_effect(
                    wm,
                    SocketMessage::ResizeWindowAxis(Axis::Horizontal, sizing),
                    sight,
                ).1,
                seq![left, right, update],
            )
            &&& going::does(
                process_command::command_effect(
                    wm,
                    SocketMessage::ResizeWindowAxis(Axis::Vertical, sizing),
                    sight,
                ).1,
                seq![up, down, update],
            )
            &&& going::does(
                process_command::command_effect(
                    wm,
                    SocketMessage::ResizeWindowAxis(Axis::HorizontalAndVertical, sizing),
                    sight,
                ).1,
                seq![left, right, up, down, update],
            )
        }),
{
}

/// Minimizing and closing act on the window in front, and are an error where there is none.
pub proof fn law_the_window_in_front_is_minimized_or_closed(
    wm: WindowManagerView,
    sight: CommandSightView,
)
    requires
        going::is_heard(wm, sight),
    ensures
        ({
            let (minimized, minimizing) = process_command::command_effect(
                wm,
                SocketMessage::Minimize,
                sight,
            );
            let (closed, closing) = process_command::command_effect(
                wm,
                SocketMessage::Close,
                sight,
            );
            &&& minimized == wm
            &&& closed == wm
            &&& sight.foreground is Some ==> {
                &&& going::does(minimizing, seq![Operation::MinimizeForegroundWindow])
                &&& going::does(closing, seq![Operation::CloseForegroundWindow])
            }
            &&& sight.foreground is None ==> {
                &&& going::fails(minimizing, CommandError::NoForegroundWindow)
                &&& going::fails(closing, CommandError::NoForegroundWindow)
            }
        }),
{
}

/// A place is preselected only on the tiling layer and only while none is; it can be given up
/// at any time.
pub proof fn law_one_place_is_preselected_at_a_time(
    wm: WindowManagerView,
    workspace: WorkspaceView,
    direction: OperationDirection,
    sight: CommandSightView,
)
    requires
        going::is_heard(wm, sight),
        is_in_focus(wm, workspace),
    ensures
        ({
            let (after, plan) = process_command::command_effect(
                wm,
                SocketMessage::PreselectDirection(direction),
                sight,
            );
            &&& after == wm
            &&& going::does(
                plan,
                if workspace.preselected_container_idx is Some || workspace.layer is Floating {
                    Seq::empty()
                } else {
                    seq![
                        Operation::PreselectContainerInDirection(direction),
                        Operation::UpdateWorkspace,
                    ]
                },
            )
        }),
        ({
            let (after, plan) = process_command::command_effect(
                wm,
                SocketMessage::CancelPreselect,
                sight,
            );
            &&& after == wm
            &&& going::does(plan, seq![Operation::CancelPreselect, Operation::UpdateWorkspace])
        }),
{
}

/// An application was seen on a workspace.
pub open spec fn is_seen_at(wm: WindowManagerView, sight: CommandSightView, m: int, w: int) -> bool {
    &&& 0 <= m < wm.monitors.len()
    &&& m < sight.exe_locations.len()
    &&& 0 <= w < wm.monitors[m].workspaces.len()
    &&& w < sight.exe_locations[m].len()
    &&& sight.exe_locations[m][w] is Some
}

/// A workspace is the first that an application was seen on.
pub open spec fn is_seen_first_at(
    wm: WindowManagerView,
    sight: CommandSightView,
    m: usize,
    w: usize,
) -> bool {
    &&& is_seen_at(wm, sight, m as int, w as int)
    &&& forall|i: int, j: int|
        i < m || i == m && j < w ==> !#[trigger] is_seen_at(wm, sight, i, j)
}

proof fn lemma_located_on(
    row: Seq<Option<WorkspaceWindowLocation>>,
    workspaces: int,
    from: int,
)
    requires
        0 <= from,
        workspaces <= usize::MAX,
    ensures
        match process_command::windows::located_on(row, workspaces, from) {
            Some((w, location)) => {
                &&& from <= w < workspaces
                &&& w < row.len()
                &&& row[w as int] == Some(location)
                &&& forall|j: int| from <= j < w ==> (#[trigger] row[j]) is None
            },
            None => forall|j: int|
                from <= j < workspaces && j < row.len() ==> (#[trigger] row[j]) is None,
        },
    decreases workspaces - from,
{
    if from < workspaces && from < row.len() && row[from] is None {
        lemma_located_on(row, workspaces, from + 1);
    }
}

proof fn lemma_located(wm: WindowManagerView, sight: CommandSightView, from: int)
    requires
        0 <= from,
        wm.monitors.len() <= usize::MAX,
        forall|i: int|
            0 <= i < wm.monitors.len() ==> (#[trigger] wm.monitors[i]).workspaces.len()
                <= usize::MAX,
    ensures
        match process_command::windows::located(sight.exe_locations, wm.monitors, from) {
            Some((m, w, location)) => {
                &&& from <= m
                &&& is_seen_at(wm, sight, m as int, w as int)
                &&& sight.exe_locations[m as int][w as int] == Some(location)
                &&& forall|i: int, j: int|
                    from <= i && (i < m || i == m && j < w) ==> !#[trigger] is_seen_at(
                        wm,
                        sight,
                        i,
                        j,
                    )
            },
            None => forall|i: int, j: int|
                from <= i ==> !#[trigger] is_seen_at(wm, sight, i, j),
        },
    decreases wm.monitors.len() - from,
{
    if from < wm.monitors.len() && from < sight.exe_locations.len() {
        lemma_located_on(
            sight.exe_locations[from],
            wm.monitors[from].workspaces.len() as int,
            0,
        );
        lemma_located(wm, sight, from + 1);
    }
}

/// Eager focus goes to the first workspace that the application was seen on. A workspace that is
/// not shown is brought up first and loaded last, and the one it takes the place of is
/// remembered; another monitor is focused before the window is. The window that is focused is
/// the one that was seen. Where the application was seen nowhere, nothing is done.
pub proof fn law_eager_focus_finds_the_application(
    wm: WindowManagerView,
    exe: String,
    sight: CommandSightView,
)
    requires
        going::is_heard(wm, sight),
        wm.monitors.len() <= usize::MAX,
        forall|i: int|
            0 <= i < wm.monitors.len() ==> (#[trigger] wm.monitors[i]).workspaces.len()
                <= usize::MAX,
    ensures
        ({
            let (after, plan) = process_command::command_effect(
                wm,
                SocketMessage::EagerFocus(exe),
                sight,
            );
            ||| {
                &&& forall|i: int, j: int| !#[trigger] is_seen_at(wm, sight, i, j)
                &&& after == wm
                &&& going::does(plan, Seq::empty())
            }
            ||| exists|m: usize, w: usize|
                {
                    let monitor = wm.monitors[m as int];
                    let workspace = monitor.workspaces[w as int];
                    let location = sight.exe_locations[m as int][w as int]->0;
                    let elsewhere = monitor.focused_workspace != w;
                    let mouse = wm.mouse_follows_focus;
                    let start: Seq<Operation> = if elsewhere {
                        seq![Operation::FocusMonitorWorkspace(m, w)]
                    } else {
                        Seq::empty()
                    };
                    let across: Seq<Operation> = if m != wm.focused_monitor {
                        seq![Operation::FocusMonitor(m)]
                    } else {
                        Seq::empty()
                    };
                    let end: Seq<Operation> = if elsewhere {
                        seq![Operation::LoadFocusedWorkspace(m, mouse)]
                    } else {
                        Seq::empty()
                    };
                    let focus: Seq<Operation> = match location {
                        WorkspaceWindowLocation::Monocle(i) => seq![
                            Operation::FocusContainerWindow(i),
                        ],
                        WorkspaceWindowLocation::Container(c, i) => if c
                            == workspace.focused_container {
                            seq![Operation::FocusContainerWindow(i)]
                        } else {
                            seq![
                                Operation::FocusContainer(c),
                                Operation::FocusContainerWindow(i),
                            ]
                        },
                        WorkspaceWindowLocation::Maximized => if workspace.maximized_window
                            is Some {
                            seq![Operation::FocusWindow(workspace.maximized_window->0.id, mouse)]
                        } else {
                            Seq::empty()
                        },
                        WorkspaceWindowLocation::Floating(i) => if i
                            < workspace.floating_windows.len() {
                            seq![
                                Operation::FocusWindow(
                                    workspace.floating_windows[i as int].id,
                                    mouse,
                                ),
                            ]
                        } else {
                            Seq::empty()
                        },
                    };
                    &&& #[trigger] is_seen_first_at(wm, sight, m, w)
                    &&& going::does(plan, start + across + focus + end)
                    &&& !elsewhere ==> after == wm
                    &&& elsewhere ==> {
                        &&& after.monitors[m as int].last_focused_workspace == Some(
                            monitor.focused_workspace,
                        )
                        &&& after.monitors[m as int].workspaces == monitor.workspaces
                        &&& after.monitors[m as int].focused_workspace
                            == monitor.focused_workspace
                        &&& after.focused_monitor == wm.focused_monitor
                        &&& going::differ_only_at(after.monitors, wm.monitors, m as int)
                    }
                }
        }),
{
    lemma_located(wm, sight, 0);
    if let Some((m, w, _)) = process_command::windows::located(
        sight.exe_locations,
        wm.monitors,
        0,
    ) {
        assert(is_seen_first_at(wm, sight, m, w));
    }
}


/// There is no focused workspace, for this reason: no monitor has the focus, or the one that has it
/// shows no workspace.
pub open spec fn is_out_of_focus(wm: WindowManagerView, error: CommandError) -> bool {
    if wm.focused_monitor >= wm.monitors.len() {
        error is NoMonitor
    } else {
        &&& wm.monitors[wm.focused_monitor as int].focused_workspace
            >= wm.monitors[wm.focused_monitor as int].workspaces.len()
        &&& error is NoWorkspace
    }
}

/// What acts on the focused workspace fails where there is none, and changes nothing.
pub proof fn law_acting_needs_a_workspace(
    wm: WindowManagerView,
    error: CommandError,
    direction: OperationDirection,
    cycle: CycleDirection,
    sight: CommandSightView,
)
    requires
        going::is_heard(wm, sight),
        is_out_of_focus(wm, error),
    ensures
        going::is_refused(wm, SocketMessage::FocusWindow(direction), sight, error),
        going::is_refused(wm, SocketMessage::MoveWindow(direction), sight, error),
        going::is_refused(wm, SocketMessage::CycleFocusWindow(cycle), sight, error),
        going::is_refused(wm, SocketMessage::PreselectDirection(direction), sight, error),
        going::is_refused(wm, SocketMessage::CancelPreselect, sight, error),
{
}

} // verus!
