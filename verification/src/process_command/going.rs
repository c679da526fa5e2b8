//! What commands that focus something, or send something elsewhere, do.

use crate::message::SocketMessage;
use crate::operation::Operation;
use crate::process_command::plan::CommandPlanView;
use crate::process_command::plan::CommandSightView;
use crate::process_command;
use crate::settings::CycleDirection;
use crate::window_manager::CommandError;
use crate::window_manager::MonitorView;
use crate::window_manager::WindowManagerView;
use crate::window_manager::WorkspaceView;
use vstd::prelude::*;

verus! {

/// A command is listened to: no other space than the managed one is known to be on the screen,
/// and no unmanaged window is in front that commands are not to act on.
pub open spec fn is_heard(wm: WindowManagerView, sight: CommandSightView) -> bool {
    &&& wm.space_id is Some && sight.current_space_id is Some ==> wm.space_id
        == sight.current_space_id
    &&& !sight.unmanaged_window_in_front
}

/// A plan consists of these operations and of what follows every command.
pub open spec fn does(plan: CommandPlanView, operations: Seq<Operation>) -> bool {
    &&& plan.failure is None
    &&& plan.reply is None
    &&& plan.operations =~= operations + seq![
        Operation::UpdateKnownWindowIds,
        Operation::NotifySubscribers,
        Operation::UpdateBorders,
    ]
}

/// A plan consists of nothing but an error.
pub open spec fn fails(plan: CommandPlanView, error: CommandError) -> bool {
    &&& plan.failure == Some(error)
    &&& plan.reply is None
    &&& plan.operations.len() == 0
}

/// The index that follows another, going round. One that is out of range counts as standing
/// behind the last.
pub open spec fn follows(direction: CycleDirection, from: usize, to: usize, len: nat) -> bool {
    match direction {
        CycleDirection::Next => if from + 1 < len {
            to == from + 1
        } else {
            to == 0
        },
        CycleDirection::Previous => if 0 < from < len {
            to == from - 1
        } else {
            to == len - 1
        },
    }
}

/// No monitor but one differs between two lists of monitors.
pub open spec fn differ_only_at(
    after: Seq<MonitorView>,
    before: Seq<MonitorView>,
    m: int,
) -> bool {
    &&& after.len() == before.len()
    &&& forall|i: int| 0 <= i < before.len() && i != m ==> #[trigger] after[i] == before[i]
}

/// Nothing is done, and nothing changes, for a command that is not listened to: silently while
/// another space is on the screen, and with an error while an unmanaged window is in front.
pub proof fn law_commands_that_are_not_heard_do_nothing(
    wm: WindowManagerView,
    message: SocketMessage,
    sight: CommandSightView,
)
    requires
        !is_heard(wm, sight),
    ensures
        ({
            let (after, plan) = process_command::command_effect(wm, message, sight);
            &&& after == wm
            &&& plan.operations.len() == 0
            &&& plan.reply is None
            &&& plan.failure == if wm.space_id is Some && sight.current_space_id is Some
                && wm.space_id->0 != sight.current_space_id->0 {
                None
            } else {
                Some(CommandError::UnmanagedWindow)
            }
        }),
{
}

/// Focusing a workspace of a monitor focuses that monitor and then that workspace, whichever of
/// the two is already focused; only where both are is nothing done.
pub proof fn law_a_workspace_of_a_monitor_is_focused(
    wm: WindowManagerView,
    m: usize,
    w: usize,
    sight: CommandSightView,
)
    requires
        is_heard(wm, sight),
        m < wm.monitors.len(),
    ensures
        ({
            let (after, plan) = process_command::command_effect(
                wm,
                SocketMessage::FocusMonitorWorkspaceNumber(m, w),
                sight,
            );
            &&& after.focused_monitor == m
            &&& after == (WindowManagerView { focused_monitor: m, ..wm })
            &&& if (m, w) == (wm.focused_monitor, wm.monitors[m as int].focused_workspace) {
                does(plan, Seq::empty())
            } else {
                does(plan, seq![Operation::FocusWorkspace(w)])
            }
        }),
{
}

/// A workspace of a monitor that is not there cannot be focused.
pub proof fn law_a_workspace_of_no_monitor_is_not_focused(
    wm: WindowManagerView,
    m: usize,
    w: usize,
    sight: CommandSightView,
)
    requires
        is_heard(wm, sight),
        m >= wm.monitors.len(),
        wm.focused_monitor < wm.monitors.len(),
    ensures
        ({
            let (after, plan) = process_command::command_effect(
                wm,
                SocketMessage::FocusMonitorWorkspaceNumber(m, w),
                sight,
            );
            &&& after == wm
            &&& fails(plan, CommandError::NotAMonitorIndex)
        }),
{
}

/// Focusing a workspace by its number focuses it on the focused monitor, unless it is focused
/// already.
pub proof fn law_a_workspace_is_focused(wm: WindowManagerView, w: usize, sight: CommandSightView)
    requires
        is_heard(wm, sight),
        wm.focused_monitor < wm.monitors.len(),
    ensures
        ({
            let (after, plan) = process_command::command_effect(
                wm,
                SocketMessage::FocusWorkspaceNumber(w),
                sight,
            );
            &&& after == wm
            &&& if w == wm.monitors[wm.focused_monitor as int].focused_workspace {
                does(plan, Seq::empty())
            } else {
                does(plan, seq![Operation::FocusWorkspace(w)])
            }
        }),
{
}

/// Focusing a monitor focuses just that one and brings its workspace up, with the cursor where
/// the mouse follows the focus; one that is not there is an error.
pub proof fn law_a_monitor_is_focused(wm: WindowManagerView, m: usize, sight: CommandSightView)
    requires
        is_heard(wm, sight),
    ensures
        ({
            let (after, plan) = process_command::command_effect(
                wm,
                SocketMessage::FocusMonitorNumber(m),
                sight,
            );
            if m < wm.monitors.len() {
                &&& after.focused_monitor == m
                &&& after == (WindowManagerView { focused_monitor: m, ..wm })
                &&& does(
                    plan,
                    seq![Operation::UpdateFocusedWorkspace(wm.mouse_follows_focus, true)],
                )
            } else {
                after == wm && fails(plan, CommandError::NotAMonitorIndex)
            }
        }),
{
}

/// Cycling through the monitors focuses the one that follows in the direction taken, and comes
/// back to the first after the last.
pub proof fn law_cycling_focuses_the_monitor_that_follows(
    wm: WindowManagerView,
    direction: CycleDirection,
    sight: CommandSightView,
)
    requires
        is_heard(wm, sight),
        0 < wm.monitors.len() <= usize::MAX,
    ensures
        ({
            let (after, plan) = process_command::command_effect(
                wm,
                SocketMessage::CycleFocusMonitor(direction),
                sight,
            );
            &&& follows(
                direction,
                wm.focused_monitor,
                after.focused_monitor,
                wm.monitors.len(),
            )
            &&& after == (WindowManagerView { focused_monitor: after.focused_monitor, ..wm })
            &&& does(plan, seq![Operation::UpdateFocusedWorkspace(wm.mouse_follows_focus, true)])
        }),
{
}

/// Focusing the monitor that the cursor is on focuses that one, and nothing else happens.
pub proof fn law_the_monitor_at_the_cursor_is_focused(
    wm: WindowManagerView,
    sight: CommandSightView,
)
    requires
        is_heard(wm, sight),
    ensures
        ({
            let (after, plan) = process_command::command_effect(
                wm,
                SocketMessage::FocusMonitorAtCursor,
                sight,
            );
            match sight.cursor_monitor_idx {
                Some(m) => if m < wm.monitors.len() {
                    &&& after.focused_monitor == m
                    &&& after == (WindowManagerView { focused_monitor: m, ..wm })
                    &&& does(plan, Seq::empty())
                } else {
                    after == wm && fails(plan, CommandError::NotAMonitorIndex)
                },
                None => after == wm && does(plan, Seq::empty()),
            }
        }),
{
}

/// Where the focus is once it has followed the cursor to a monitor that shows nothing: the
/// monitor that the cursor is on if the workspace it shows holds no window, and otherwise where
/// it was.
pub open spec fn is_drawn_to(wm: WindowManagerView, cursor: Option<usize>, m: usize) -> bool {
    if cursor is Some && cursor->0 != wm.focused_monitor && cursor->0 < wm.monitors.len()
        && shows_nothing(wm.monitors[cursor->0 as int]) {
        m == cursor->0
    } else {
        m == wm.focused_monitor
    }
}

/// The workspace that a monitor shows holds no window.
pub open spec fn shows_nothing(monitor: MonitorView) -> bool {
    &&& monitor.focused_workspace < monitor.workspaces.len()
    &&& {
        let workspace = monitor.workspaces[monitor.focused_workspace as int];
        holds_nothing(workspace)
    }
}

/// There is no window on a workspace: not tiled, not floating, not on its own and not maximized.
pub open spec fn holds_nothing(workspace: WorkspaceView) -> bool {
    &&& workspace.containers.len() == 0
    &&& workspace.floating_windows.len() == 0
    &&& workspace.monocle_container is None
    &&& workspace.maximized_window is None
}

/// Cycling through the workspaces focuses the one that follows on the monitor that the focus is
/// drawn to, and comes back to the first after the last.
pub proof fn law_cycling_focuses_the_workspace_that_follows(
    wm: WindowManagerView,
    direction: CycleDirection,
    sight: CommandSightView,
)
    requires
        is_heard(wm, sight),
        wm.focused_monitor < wm.monitors.len(),
        forall|i: int|
            0 <= i < wm.monitors.len() ==> (#[trigger] wm.monitors[i]).workspaces.len()
                <= usize::MAX,
    ensures
        ({
            let (after, plan) = process_command::command_effect(
                wm,
                SocketMessage::CycleFocusWorkspace(direction),
                sight,
            );
            let monitor = wm.monitors[after.focused_monitor as int];
            &&& is_drawn_to(wm, sight.cursor_monitor_idx, after.focused_monitor)
            &&& after == (WindowManagerView { focused_monitor: after.focused_monitor, ..wm })
            &&& if monitor.workspaces.len() == 0 {
                fails(plan, CommandError::AtLeastOneWorkspace)
            } else {
                exists|w: usize|
                    follows(direction, monitor.focused_workspace, w, monitor.workspaces.len())
                        && #[trigger] does(plan, seq![Operation::FocusWorkspace(w)])
            }
        }),
{
    let (after, plan) = process_command::command_effect(
        wm,
        SocketMessage::CycleFocusWorkspace(direction),
        sight,
    );
    let monitor = wm.monitors[after.focused_monitor as int];
    if monitor.workspaces.len() > 0 {
        let w = plan.operations[0]->FocusWorkspace_0;
        assert(does(plan, seq![Operation::FocusWorkspace(w)]));
    }
}

/// Cycling to an empty workspace focuses one on the focused monitor that holds no window, if
/// there is any; the focused one only if no other is empty. Where there is none, nothing is
/// done.
pub proof fn law_cycling_to_an_empty_workspace_finds_one(
    wm: WindowManagerView,
    direction: CycleDirection,
    sight: CommandSightView,
    any: int,
)
    requires
        is_heard(wm, sight),
        wm.focused_monitor < wm.monitors.len(),
        ({
            let monitor = wm.monitors[wm.focused_monitor as int];
            &&& monitor.focused_workspace < monitor.workspaces.len() <= usize::MAX
            &&& 0 <= any < monitor.workspaces.len()
            &&& holds_nothing(monitor.workspaces[any])
        }),
    ensures
        ({
            let monitor = wm.monitors[wm.focused_monitor as int];
            let (after, plan) = process_command::command_effect(
                wm,
                SocketMessage::CycleFocusEmptyWorkspace(direction),
                sight,
            );
            &&& after == wm
            &&& exists|w: usize| #[trigger]
                does(plan, seq![Operation::FocusWorkspace(w)]) && w < monitor.workspaces.len()
                    && holds_nothing(monitor.workspaces[w as int]) && (w
                    == monitor.focused_workspace ==> any == w)
        }),
{
    let monitor = wm.monitors[wm.focused_monitor as int];
    let len = monitor.workspaces.len();
    let from = crate::settings::cycled(direction, monitor.focused_workspace as int, len as int);
    assert(monitor.workspaces[any].vacant());
    crate::process_command::focus::law_cycling_finds_the_nearest_empty_workspace(
        monitor.workspaces,
        direction,
        from,
        any,
    );
    let plan = process_command::command_effect(
        wm,
        SocketMessage::CycleFocusEmptyWorkspace(direction),
        sight,
    ).1;
    let w = plan.operations[0]->FocusWorkspace_0;
    assert(does(plan, seq![Operation::FocusWorkspace(w)]));
}

/// Where no workspace of the focused monitor is empty, cycling to an empty one does nothing.
pub proof fn law_cycling_to_an_empty_workspace_needs_one(
    wm: WindowManagerView,
    direction: CycleDirection,
    sight: CommandSightView,
)
    requires
        is_heard(wm, sight),
        wm.focused_monitor < wm.monitors.len(),
        forall|w: int|
            0 <= w < wm.monitors[wm.focused_monitor as int].workspaces.len() ==> !holds_nothing(
                #[trigger] wm.monitors[wm.focused_monitor as int].workspaces[w],
            ),
    ensures
        ({
            let (after, plan) = process_command::command_effect(
                wm,
                SocketMessage::CycleFocusEmptyWorkspace(direction),
                sight,
            );
            after == wm && does(plan, Seq::empty())
        }),
{
}

/// Going back to the last workspace focuses the one that had the focus before, and remembers
/// the one that has it now in its place.
pub proof fn law_the_last_workspace_is_focused(wm: WindowManagerView, sight: CommandSightView)
    requires
        is_heard(wm, sight),
        wm.focused_monitor < wm.monitors.len(),
    ensures
        ({
            let monitor = wm.monitors[wm.focused_monitor as int];
            let (after, plan) = process_command::command_effect(
                wm,
                SocketMessage::FocusLastWorkspace,
                sight,
            );
            &&& after == wm
            &&& match monitor.last_focused_workspace {
                Some(last) => does(
                    plan,
                    seq![
                        Operation::FocusWorkspace(last),
                        Operation::SetLastFocusedWorkspace(monitor.focused_workspace),
                    ],
                ),
                None => does(
                    plan,
                    seq![Operation::SetLastFocusedWorkspace(monitor.focused_workspace)],
                ),
            }
        }),
{
}

proof fn lemma_brought_up(m: nat, focused: usize, w: usize, k: int)
    requires
        m <= usize::MAX,
    ensures
        ({
            let all = crate::process_command::focus::bring_up_elsewhere(m, focused, w);
            &&& 0 <= k < m && k != focused ==> exists|i: int|
                0 <= i < all.len() - 1 && (#[trigger] all[i]) == Operation::FocusMonitorWorkspace(
                    k as usize,
                    w,
                ) && all[i + 1] == Operation::LoadFocusedWorkspace(k as usize, false)
            &&& forall|i: int|
                0 <= i < all.len() ==> match #[trigger] all[i] {
                    Operation::FocusMonitorWorkspace(other, to) => other != focused && other < m
                        && to == w,
                    Operation::LoadFocusedWorkspace(other, _) => other != focused && other < m,
                    _ => false,
                }
        }),
    decreases m,
{
    if m > 0 {
        let all = crate::process_command::focus::bring_up_elsewhere(m, focused, w);
        let earlier = crate::process_command::focus::bring_up_elsewhere((m - 1) as nat, focused, w);
        lemma_brought_up((m - 1) as nat, focused, w, k);
        if 0 <= k < m - 1 && k != focused {
            let i = choose|i: int|
                0 <= i < earlier.len() - 1 && (#[trigger] earlier[i])
                    == Operation::FocusMonitorWorkspace(k as usize, w) && earlier[i + 1]
                    == Operation::LoadFocusedWorkspace(k as usize, false);
            assert(all[i] == earlier[i] && all[i + 1] == earlier[i + 1]);
        } else if k == m - 1 && k != focused {
            let i = earlier.len() as int;
            assert(all[i] == Operation::FocusMonitorWorkspace(k as usize, w));
        }
    }
}

/// Focusing a workspace on all monitors brings it up and loads it on every other monitor, and
/// focuses it on the focused one last.
pub proof fn law_a_workspace_comes_up_on_every_monitor(
    wm: WindowManagerView,
    w: usize,
    sight: CommandSightView,
    k: usize,
)
    requires
        is_heard(wm, sight),
        wm.monitors.len() <= usize::MAX,
        k < wm.monitors.len(),
    ensures
        ({
            let (after, plan) = process_command::command_effect(
                wm,
                SocketMessage::FocusWorkspaceNumbers(w),
                sight,
            );
            let n = plan.operations.len() - 3;
            &&& after == wm
            &&& does(plan, plan.operations.take(n))
            &&& n > 0
            &&& plan.operations[n - 1] == Operation::FocusWorkspace(w)
            &&& k != wm.focused_monitor ==> exists|i: int|
                0 <= i < n - 2 && (#[trigger] plan.operations[i])
                    == Operation::FocusMonitorWorkspace(k, w) && plan.operations[i + 1]
                    == Operation::LoadFocusedWorkspace(k, false)
            &&& forall|i: int|
                0 <= i < n - 1 ==> match #[trigger] plan.operations[i] {
                    Operation::FocusMonitorWorkspace(other, to) => other != wm.focused_monitor
                        && to == w,
                    Operation::LoadFocusedWorkspace(other, _) => other != wm.focused_monitor,
                    _ => false,
                }
        }),
{
    let plan = process_command::command_effect(
        wm,
        SocketMessage::FocusWorkspaceNumbers(w),
        sight,
    ).1;
    let all = crate::process_command::focus::bring_up_elsewhere(
        wm.monitors.len(),
        wm.focused_monitor,
        w,
    );
    let n = plan.operations.len() - 3;
    lemma_brought_up(wm.monitors.len(), wm.focused_monitor, w, k as int);
    assert(plan.operations.take(n) =~= all.push(Operation::FocusWorkspace(w)));
    assert forall|i: int| 0 <= i < n - 1 implies #[trigger] plan.operations[i] == all[i] by {}
    if k != wm.focused_monitor {
        let i = choose|i: int|
            0 <= i < all.len() - 1 && (#[trigger] all[i]) == Operation::FocusMonitorWorkspace(k, w)
                && all[i + 1] == Operation::LoadFocusedWorkspace(k, false);
        assert(plan.operations[i] == all[i] && plan.operations[i + 1] == all[i + 1]);
    }
}

/// Closing the focused workspace takes it away, and no other, where it holds no window, has no
/// name and is not the only one, and focuses the one before it. Otherwise nothing is done.
pub proof fn law_only_a_spare_workspace_is_closed(wm: WindowManagerView, sight: CommandSightView)
    requires
        is_heard(wm, sight),
        wm.focused_monitor < wm.monitors.len(),
    ensures
        ({
            let monitor = wm.monitors[wm.focused_monitor as int];
            let w = monitor.focused_workspace as int;
            let (after, plan) = process_command::command_effect(
                wm,
                SocketMessage::CloseWorkspace,
                sight,
            );
            let left = after.monitors[wm.focused_monitor as int].workspaces;
            if w < monitor.workspaces.len() && monitor.workspaces.len() > 1 && shows_nothing(monitor)
                && monitor.workspaces[w].name is None {
                &&& left.len() == monitor.workspaces.len() - 1
                &&& forall|i: int| 0 <= i < w ==> #[trigger] left[i] == monitor.workspaces[i]
                &&& forall|i: int|
                    w <= i < left.len() ==> #[trigger] left[i] == monitor.workspaces[i + 1]
                &&& after.monitors.len() == wm.monitors.len()
                &&& forall|m: int|
                    0 <= m < wm.monitors.len() && m != wm.focused_monitor
                        ==> #[trigger] after.monitors[m] == wm.monitors[m]
                &&& does(
                    plan,
                    seq![
                        Operation::FocusWorkspace(
                            if w == 0 {
                                0
                            } else {
                                (w - 1) as usize
                            },
                        ),
                    ],
                )
            } else {
                after == wm && does(plan, Seq::empty())
            }
        }),
{
}

/// A place goes by a name.
pub open spec fn goes_by(wm: WindowManagerView, name: Seq<char>, m: int, w: int) -> bool {
    &&& 0 <= m < wm.monitors.len()
    &&& 0 <= w < wm.monitors[m].workspaces.len()
    &&& wm.monitors[m].workspaces[w].name == Some(name)
}

/// Moving a container somewhere and sending it there differ only in whether the focus follows:
/// moving it takes the focus along, sending it does not.
pub proof fn law_the_focus_follows_what_is_moved_but_not_what_is_sent(
    wm: WindowManagerView,
    m: usize,
    w: usize,
    sight: CommandSightView,
)
    requires
        is_heard(wm, sight),
    ensures
        ({
            let (after, plan) = process_command::command_effect(
                wm,
                SocketMessage::MoveContainerToWorkspaceNumber(w),
                sight,
            );
            after == wm && does(plan, seq![Operation::MoveContainerToWorkspace(w, true)])
        }),
        ({
            let (after, plan) = process_command::command_effect(
                wm,
                SocketMessage::SendContainerToWorkspaceNumber(w),
                sight,
            );
            after == wm && does(plan, seq![Operation::MoveContainerToWorkspace(w, false)])
        }),
        ({
            let (after, plan) = process_command::command_effect(
                wm,
                SocketMessage::MoveContainerToMonitorNumber(m),
                sight,
            );
            after == wm && does(plan, seq![Operation::MoveContainerToMonitor(m, None, true)])
        }),
        ({
            let (after, plan) = process_command::command_effect(
                wm,
                SocketMessage::SendContainerToMonitorNumber(m),
                sight,
            );
            after == wm && does(plan, seq![Operation::MoveContainerToMonitor(m, None, false)])
        }),
        ({
            let (after, plan) = process_command::command_effect(
                wm,
                SocketMessage::MoveContainerToMonitorWorkspaceNumber(m, w),
                sight,
            );
            after == wm && does(plan, seq![Operation::MoveContainerToMonitor(m, Some(w), true)])
        }),
        ({
            let (after, plan) = process_command::command_effect(
                wm,
                SocketMessage::SendContainerToMonitorWorkspaceNumber(m, w),
                sight,
            );
            after == wm && does(plan, seq![Operation::MoveContainerToMonitor(m, Some(w), false)])
        }),
{
}

/// Moving or sending a container on to the next workspace or monitor takes it to the one that
/// follows in the direction taken, with the focus if it is moved and without it if it is sent.
pub proof fn law_a_container_goes_on_to_what_follows(
    wm: WindowManagerView,
    direction: CycleDirection,
    sight: CommandSightView,
)
    requires
        is_heard(wm, sight),
        wm.focused_monitor < wm.monitors.len() <= usize::MAX,
        0 < wm.monitors[wm.focused_monitor as int].workspaces.len() <= usize::MAX,
    ensures
        ({
            let monitor = wm.monitors[wm.focused_monitor as int];
            exists|w: usize, m: usize|
                #![trigger follows(direction, monitor.focused_workspace, w, monitor.workspaces.len()), follows(direction, wm.focused_monitor, m, wm.monitors.len())]
                {
                    &&& follows(
                        direction,
                        monitor.focused_workspace,
                        w,
                        monitor.workspaces.len(),
                    )
                    &&& follows(direction, wm.focused_monitor, m, wm.monitors.len())
                    &&& does(
                        process_command::command_effect(
                            wm,
                            SocketMessage::CycleMoveContainerToWorkspace(direction),
                            sight,
                        ).1,
                        seq![Operation::MoveContainerToWorkspace(w, true)],
                    )
                    &&& does(
                        process_command::command_effect(
                            wm,
                            SocketMessage::CycleSendContainerToWorkspace(direction),
                            sight,
                        ).1,
                        seq![Operation::MoveContainerToWorkspace(w, false)],
                    )
                    &&& does(
                        process_command::command_effect(
                            wm,
                            SocketMessage::CycleMoveContainerToMonitor(direction),
                            sight,
                        ).1,
                        seq![Operation::MoveContainerToMonitor(m, None, true)],
                    )
                    &&& does(
                        process_command::command_effect(
                            wm,
                            SocketMessage::CycleSendContainerToMonitor(direction),
                            sight,
                        ).1,
                        seq![Operation::MoveContainerToMonitor(m, None, false)],
                    )
                    &&& does(
                        process_command::command_effect(
                            wm,
                            SocketMessage::CycleMoveWorkspaceToMonitor(direction),
                            sight,
                        ).1,
                        seq![Operation::MoveWorkspaceToMonitor(m)],
                    )
                }
        }),
{
    let monitor = wm.monitors[wm.focused_monitor as int];
    let w = crate::settings::cycled(
        direction,
        monitor.focused_workspace as int,
        monitor.workspaces.len() as int,
    ) as usize;
    let m = crate::settings::cycled(
        direction,
        wm.focused_monitor as int,
        wm.monitors.len() as int,
    ) as usize;
    assert(follows(direction, monitor.focused_workspace, w, monitor.workspaces.len()));
    assert(follows(direction, wm.focused_monitor, m, wm.monitors.len()));
}

/// Moving or sending a container to the last workspace takes it to the one that had the focus
/// before on the monitor that the focus is drawn to, and remembers the one that has it now in
/// its place.
pub proof fn law_a_container_goes_to_the_last_workspace(
    wm: WindowManagerView,
    sight: CommandSightView,
    follow: bool,
)
    requires
        is_heard(wm, sight),
        wm.focused_monitor < wm.monitors.len(),
    ensures
        ({
            let (after, plan) = process_command::command_effect(
                wm,
                if follow {
                    SocketMessage::MoveContainerToLastWorkspace
                } else {
                    SocketMessage::SendContainerToLastWorkspace
                },
                sight,
            );
            let monitor = wm.monitors[after.focused_monitor as int];
            &&& is_drawn_to(wm, sight.cursor_monitor_idx, after.focused_monitor)
            &&& after == (WindowManagerView { focused_monitor: after.focused_monitor, ..wm })
            &&& match monitor.last_focused_workspace {
                Some(last) => does(
                    plan,
                    seq![
                        Operation::MoveContainerToWorkspace(last, follow),
                        Operation::SetLastFocusedWorkspace(monitor.focused_workspace),
                    ],
                ),
                None => does(
                    plan,
                    seq![Operation::SetLastFocusedWorkspace(monitor.focused_workspace)],
                ),
            }
        }),
{
}

/// Whole workspaces are swapped with, or moved to, the monitor that is named.
pub proof fn law_workspaces_go_to_the_monitor_that_is_named(
    wm: WindowManagerView,
    m: usize,
    sight: CommandSightView,
)
    requires
        is_heard(wm, sight),
    ensures
        process_command::command_effect(
            wm,
            SocketMessage::SwapWorkspacesToMonitorNumber(m),
            sight,
        ).0 == wm,
        does(
            process_command::command_effect(
                wm,
                SocketMessage::SwapWorkspacesToMonitorNumber(m),
                sight,
            ).1,
            seq![Operation::SwapFocusedMonitor(m)],
        ),
        process_command::command_effect(
            wm,
            SocketMessage::MoveWorkspaceToMonitorNumber(m),
            sight,
        ).0 == wm,
        does(
            process_command::command_effect(
                wm,
                SocketMessage::MoveWorkspaceToMonitorNumber(m),
                sight,
            ).1,
            seq![Operation::MoveWorkspaceToMonitor(m)],
        ),
{
}

proof fn lemma_named_workspace(workspaces: Seq<WorkspaceView>, name: Seq<char>, from: int)
    requires
        0 <= from,
        workspaces.len() <= usize::MAX,
    ensures
        match crate::window_manager::named_workspace_from(workspaces, name, from) {
            Some(w) => {
                &&& from <= w < workspaces.len()
                &&& workspaces[w as int].name == Some(name)
                &&& forall|j: int|
                    from <= j < w ==> (#[trigger] workspaces[j]).name != Some(name)
            },
            None => forall|j: int|
                from <= j < workspaces.len() ==> (#[trigger] workspaces[j]).name != Some(name),
        },
    decreases workspaces.len() - from,
{
    if from < workspaces.len() && workspaces[from].name != Some(name) {
        lemma_named_workspace(workspaces, name, from + 1);
    }
}

proof fn lemma_named(wm: WindowManagerView, name: Seq<char>, from: int)
    requires
        0 <= from,
        wm.monitors.len() <= usize::MAX,
        forall|i: int|
            0 <= i < wm.monitors.len() ==> (#[trigger] wm.monitors[i]).workspaces.len()
                <= usize::MAX,
    ensures
        match crate::window_manager::named_from(wm.monitors, name, from) {
            Some((m, w)) => from <= m && goes_by(wm, name, m as int, w as int) && forall|
                i: int,
                j: int,
            |
                from <= i && (i < m || i == m && j < w) ==> !#[trigger] goes_by(wm, name, i, j),
            None => forall|i: int, j: int| from <= i ==> !#[trigger] goes_by(wm, name, i, j),
        },
    decreases wm.monitors.len() - from,
{
    if from < wm.monitors.len() {
        lemma_named_workspace(wm.monitors[from].workspaces, name, 0);
        lemma_named(wm, name, from + 1);
    }
}

/// The place that is found for a name is the first that goes by it.
pub proof fn lemma_first_by(wm: WindowManagerView, name: Seq<char>)
    requires
        wm.monitors.len() <= usize::MAX,
        forall|i: int|
            0 <= i < wm.monitors.len() ==> (#[trigger] wm.monitors[i]).workspaces.len()
                <= usize::MAX,
    ensures
        match wm.named(name) {
            Some((m, w)) => is_first_by(wm, name, m, w),
            None => forall|i: int, j: int| !#[trigger] goes_by(wm, name, i, j),
        },
{
    lemma_named(wm, name, 0);
}

/// Focusing a workspace by its name goes to the first place that goes by it, and does nothing
/// where no place does.
pub proof fn law_a_named_workspace_is_focused(
    wm: WindowManagerView,
    name: String,
    sight: CommandSightView,
)
    requires
        is_heard(wm, sight),
        wm.monitors.len() <= usize::MAX,
        forall|i: int|
            0 <= i < wm.monitors.len() ==> (#[trigger] wm.monitors[i]).workspaces.len()
                <= usize::MAX,
    ensures
        ({
            let (after, plan) = process_command::command_effect(
                wm,
                SocketMessage::FocusNamedWorkspace(name),
                sight,
            );
            ||| {
                &&& forall|i: int, j: int| !#[trigger] goes_by(wm, name@, i, j)
                &&& after == wm
                &&& does(plan, Seq::empty())
            }
            ||| exists|m: usize, w: usize|
                {
                    &&& #[trigger] is_first_by(wm, name@, m, w)
                    &&& after == (WindowManagerView { focused_monitor: m, ..wm })
                    &&& does(plan, seq![Operation::FocusWorkspace(w)])
                }
        }),
{
    lemma_named(wm, name@, 0);
    if let Some((m, w)) = crate::window_manager::named_from(wm.monitors, name@, 0) {
        assert(is_first_by(wm, name@, m, w));
    }
}

/// A place is the first that goes by a name.
pub open spec fn is_first_by(wm: WindowManagerView, name: Seq<char>, m: usize, w: usize) -> bool {
    &&& goes_by(wm, name, m as int, w as int)
    &&& forall|i: int, j: int|
        i < m || i == m && j < w ==> !#[trigger] goes_by(wm, name, i, j)
}

/// A container is moved or sent to the first place that goes by a name, and stays where it is
/// where no place does.
pub proof fn law_a_container_goes_to_a_named_workspace(
    wm: WindowManagerView,
    name: String,
    sight: CommandSightView,
    follow: bool,
)
    requires
        is_heard(wm, sight),
        wm.monitors.len() <= usize::MAX,
        forall|i: int|
            0 <= i < wm.monitors.len() ==> (#[trigger] wm.monitors[i]).workspaces.len()
                <= usize::MAX,
    ensures
        ({
            let (after, plan) = process_command::command_effect(
                wm,
                if follow {
                    SocketMessage::MoveContainerToNamedWorkspace(name)
                } else {
                    SocketMessage::SendContainerToNamedWorkspace(name)
                },
                sight,
            );
            &&& after == wm
            &&& {
                ||| {
                    &&& forall|i: int, j: int| !#[trigger] goes_by(wm, name@, i, j)
                    &&& does(plan, Seq::empty())
                }
                ||| exists|m: usize, w: usize|
                    {
                        &&& #[trigger] is_first_by(wm, name@, m, w)
                        &&& does(
                            plan,
                            seq![Operation::MoveContainerToMonitor(m, Some(w), follow)],
                        )
                    }
            }
        }),
{
    lemma_named(wm, name@, 0);
    if let Some((m, w)) = crate::window_manager::named_from(wm.monitors, name@, 0) {
        assert(is_first_by(wm, name@, m, w));
    }
}


/// A command fails with an error and changes nothing.
pub open spec fn is_refused(
    wm: WindowManagerView,
    message: SocketMessage,
    sight: CommandSightView,
    error: CommandError,
) -> bool {
    let (after, plan) = process_command::command_effect(wm, message, sight);
    after == wm && fails(plan, error)
}

/// What starts from the focused monitor fails where that is not there, and changes nothing; so does
/// cycling through monitors where there is none at all.
pub proof fn law_going_needs_a_monitor(
    wm: WindowManagerView,
    direction: CycleDirection,
    sight: CommandSightView,
)
    requires
        is_heard(wm, sight),
        wm.focused_monitor >= wm.monitors.len(),
        sight.cursor_monitor_idx is None,
    ensures
        is_refused(
            wm,
            SocketMessage::CycleFocusWorkspace(direction),
            sight,
            CommandError::NoMonitor,
        ),
        is_refused(
            wm,
            SocketMessage::CycleFocusEmptyWorkspace(direction),
            sight,
            CommandError::NoMonitor,
        ),
        is_refused(wm, SocketMessage::FocusLastWorkspace, sight, CommandError::NoMonitor),
        wm.monitors.len() == 0 ==> is_refused(
            wm,
            SocketMessage::CycleFocusMonitor(direction),
            sight,
            CommandError::AtLeastOneMonitor,
        ),
{
}

/// What sends a container on from the focused monitor fails where that is not there, or shows no
/// workspace to go on from, and changes nothing.
pub proof fn law_sending_needs_somewhere_to_go_on_from(
    wm: WindowManagerView,
    direction: CycleDirection,
    sight: CommandSightView,
)
    requires
        is_heard(wm, sight),
        sight.cursor_monitor_idx is None,
    ensures
        wm.focused_monitor >= wm.monitors.len() ==> {
            &&& is_refused(
                wm,
                SocketMessage::CycleMoveContainerToWorkspace(direction),
                sight,
                CommandError::NoMonitor,
            )
            &&& is_refused(
                wm,
                SocketMessage::MoveContainerToLastWorkspace,
                sight,
                CommandError::NoMonitor,
            )
        },
        wm.focused_monitor < wm.monitors.len() && wm.monitors[wm.focused_monitor as int].workspaces.len()
            == 0 ==> is_refused(
            wm,
            SocketMessage::CycleSendContainerToWorkspace(direction),
            sight,
            CommandError::AtLeastOneWorkspace,
        ),
        wm.monitors.len() == 0 ==> is_refused(
            wm,
            SocketMessage::CycleMoveContainerToMonitor(direction),
            sight,
            CommandError::AtLeastOneMonitor,
        ),
{
}

} // verus!
