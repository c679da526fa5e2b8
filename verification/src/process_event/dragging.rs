//! What windows that are moved and resized by hand come to.

use crate::eligibility::RuleDebugView;
use crate::events::SystemNotification;
use crate::events::WindowManagerEvent;
use crate::geometry::Rect;
use crate::operation::Operation;
use crate::process_command::acting;
use crate::process_command::plan::CommandPlanView;
use crate::process_event::handling::Frame;
use crate::process_event::handling::HandlingSightView;
use crate::process_event;
use crate::settings::OperationDirection;
use crate::settings::Sizing;
use crate::settings::WindowContainerBehaviour;
use crate::window_manager::CommandError;
use crate::window_manager::Window;
use crate::window_manager::WindowManagerView;
use crate::window_manager::WorkspaceView;
use vstd::prelude::*;

verus! {

/// A plan consists of these operations and of what follows every event.
pub open spec fn does(
    plan: CommandPlanView,
    operations: Seq<Operation>,
    border_window_id: Option<u32>,
) -> bool {
    &&& plan.failure is None
    &&& plan.reply is None
    &&& plan.operations =~= operations + seq![
        Operation::UpdateKnownWindowIds,
        Operation::NotifySubscribers,
        Operation::UpdateBordersFor(border_window_id),
        Operation::SaveSession,
    ]
}

/// A plan consists of nothing but an error.
pub open spec fn fails(plan: CommandPlanView, error: CommandError) -> bool {
    &&& plan.failure == Some(error)
    &&& plan.reply is None
    &&& plan.operations.len() == 0
}

/// An operation resizes the window at an edge.
pub open spec fn is_about(operation: Operation, edge: OperationDirection) -> bool {
    match operation {
        Operation::ResizeWindow(at, _, _, _) => at == edge,
        _ => false,
    }
}

/// An operation moves an edge of the layout by twice a distance, as far as numbers go.
pub open spec fn moves_edge(
    operation: Operation,
    edge: OperationDirection,
    sizing: Sizing,
    distance: int,
) -> bool {
    match operation {
        Operation::ResizeWindow(at, way, delta, update) => {
            &&& at == edge
            &&& way == sizing
            &&& update
            &&& delta == if 2 * distance <= i32::MAX {
                2 * distance
            } else {
                i32::MAX as int
            }
        },
        _ => false,
    }
}

/// Exactly one operation is about an edge, and it moves that edge.
pub open spec fn moves_once(
    operations: Seq<Operation>,
    edge: OperationDirection,
    sizing: Sizing,
    distance: int,
) -> bool {
    exists|i: int|
        {
            &&& 0 <= i < operations.len()
            &&& moves_edge(#[trigger] operations[i], edge, sizing, distance)
            &&& forall|j: int|
                0 <= j < operations.len() && j != i ==> !is_about(#[trigger] operations[j], edge)
        }
}

/// No operation is about an edge.
pub open spec fn leaves(operations: Seq<Operation>, edge: OperationDirection) -> bool {
    forall|i: int| 0 <= i < operations.len() ==> !is_about(#[trigger] operations[i], edge)
}

/// The focused window of a workspace: the focused one of its focused container.
pub open spec fn is_held(workspace: WorkspaceView, window: Window) -> bool {
    &&& workspace.focused_container < workspace.containers.len()
    &&& {
        let container = workspace.containers[workspace.focused_container as int];
        &&& container.focused_window < container.windows.len()
        &&& window == container.windows[container.focused_window as int]
    }
}

/// Where the layout last put the focused container of a workspace; where it has not put it anywhere,
/// the rectangle at the origin that covers nothing.
pub open spec fn was_laid_out_at(workspace: WorkspaceView, at: Rect) -> bool {
    if workspace.focused_container < workspace.latest_layout.len() {
        at == workspace.latest_layout[workspace.focused_container as int]
    } else {
        at.left == 0 && at.top == 0 && at.right == 0 && at.bottom == 0
    }
}

proof fn lemma_held_is_managed(workspace: WorkspaceView, window: Window)
    requires
        is_held(workspace, window),
    ensures
        workspace.manages(window.id),
{
    let container = workspace.containers[workspace.focused_container as int];
    assert(container.windows[container.focused_window as int].id == window.id);
    assert(crate::window_manager::has_id(container.windows, window.id));
}

/// Once a window has been resized by hand, each of its edges that went outwards is moved
/// outwards in the layout and each that went inwards is moved inwards, once and twice as far;
/// no other edge is. The right edge counts where the left one stayed, and the lower edge where
/// the upper one did: a window whose left edge stayed and that became wider gets one operation
/// that increases it to the right, and one that became narrower one that decreases it.
pub proof fn law_edges_follow_the_mouse(
    wm: WindowManagerView,
    notification: SystemNotification,
    process_id: i32,
    window_id: u32,
    workspace: WorkspaceView,
    window: Window,
    new: Rect,
    old_rect: Rect,
    sight: HandlingSightView,
    debug: RuleDebugView,
)
    requires
        wm.pending_resize_op == Some((window_id, Some(new))),
        acting::is_in_focus(wm, workspace),
        workspace.tile,
        is_held(workspace, window),
        was_laid_out_at(workspace, old_rect),
    ensures
        ({
            let (after, plan) = process_event::handling_effect(
                wm,
                WindowManagerEvent::ResizeEnd(notification, process_id, window_id),
                sight,
                debug,
            );
            let operations = plan.operations;
            let n = operations.len() - 4;
            &&& after == (WindowManagerView { pending_resize_op: None, ..wm })
            &&& does(plan, operations.take(n), sight.border_window_id)
            &&& n > 0
            &&& operations[n - 1] == Operation::UpdateFocusedWorkspace(false, false)
            &&& forall|i: int| 0 <= i < n - 1 ==> (#[trigger] operations[i]) is ResizeWindow
            &&& new.left < old_rect.left ==> moves_once(
                operations,
                OperationDirection::Left,
                Sizing::Increase,
                old_rect.left - new.left,
            )
            &&& new.left > old_rect.left ==> moves_once(
                operations,
                OperationDirection::Left,
                Sizing::Decrease,
                new.left - old_rect.left,
            )
            &&& new.left == old_rect.left ==> leaves(operations, OperationDirection::Left)
            &&& new.top < old_rect.top ==> moves_once(
                operations,
                OperationDirection::Up,
                Sizing::Increase,
                old_rect.top - new.top,
            )
            &&& new.top > old_rect.top ==> moves_once(
                operations,
                OperationDirection::Up,
                Sizing::Decrease,
                new.top - old_rect.top,
            )
            &&& new.top == old_rect.top ==> leaves(operations, OperationDirection::Up)
            &&& new.left == old_rect.left && new.right > old_rect.right ==> moves_once(
                operations,
                OperationDirection::Right,
                Sizing::Increase,
                new.right - old_rect.right,
            )
            &&& new.left == old_rect.left && new.right < old_rect.right ==> moves_once(
                operations,
                OperationDirection::Right,
                Sizing::Decrease,
                old_rect.right - new.right,
            )
            &&& new.left != old_rect.left || new.right == old_rect.right ==> leaves(
                operations,
                OperationDirection::Right,
            )
            &&& new.top == old_rect.top && new.bottom > old_rect.bottom ==> moves_once(
                operations,
                OperationDirection::Down,
                Sizing::Increase,
                new.bottom - old_rect.bottom,
            )
            &&& new.top == old_rect.top && new.bottom < old_rect.bottom ==> moves_once(
                operations,
                OperationDirection::Down,
                Sizing::Decrease,
                old_rect.bottom - new.bottom,
            )
            &&& new.top != old_rect.top || new.bottom == old_rect.bottom ==> leaves(
                operations,
                OperationDirection::Down,
            )
        }),
{
    lemma_held_is_managed(workspace, window);
    let (after, plan) = process_event::handling_effect(
        wm,
        WindowManagerEvent::ResizeEnd(notification, process_id, window_id),
        sight,
        debug,
    );
    let operations = plan.operations;
    let n = operations.len() - 4;
    let up = if new.left != old_rect.left {
        1int
    } else {
        0
    };
    let right = up + if new.top != old_rect.top {
        1int
    } else {
        0
    };
    let down = right + if new.left == old_rect.left && new.right != old_rect.right {
        1int
    } else {
        0
    };
    let made = process_event::moves::resize_operations(new, old_rect);
    assert(operations.take(n) =~= made);
    assert forall|i: int| 0 <= i < n implies #[trigger] operations[i] == made[i] by {}
    if new.left != old_rect.left {
        assert(operations[0] is ResizeWindow);
    }
    if new.top != old_rect.top {
        assert(operations[up] is ResizeWindow);
    }
    if new.left == old_rect.left && new.right != old_rect.right {
        assert(operations[right] is ResizeWindow);
    }
    if new.top == old_rect.top && new.bottom != old_rect.bottom {
        assert(operations[down] is ResizeWindow);
    }
}

/// A window that is taken hold of is remembered with the place it was taken from, unless some
/// window is being moved or resized already; nothing else is done.
pub proof fn law_taking_hold_is_remembered(
    wm: WindowManagerView,
    notification: SystemNotification,
    process_id: i32,
    window_id: u32,
    sight: HandlingSightView,
    debug: RuleDebugView,
)
    requires
        wm.focused_monitor < wm.monitors.len(),
    ensures
        ({
            let (after, plan) = process_event::handling_effect(
                wm,
                WindowManagerEvent::MoveStart(notification, process_id, window_id),
                sight,
                debug,
            );
            &&& does(plan, Seq::empty(), sight.border_window_id)
            &&& after.pending_move_op == if wm.pending_move_op is None && wm.pending_resize_op
                is None {
                Some(
                    (
                        wm.focused_monitor,
                        wm.monitors[wm.focused_monitor as int].focused_workspace,
                        window_id,
                    ),
                )
            } else {
                wm.pending_move_op
            }
            &&& after == (WindowManagerView { pending_move_op: after.pending_move_op, ..wm })
        }),
{
}

/// The frame that was read of a window: the first that is listed under its id.
pub open spec fn is_framed(frames: Seq<(u32, Frame)>, id: u32, frame: Frame) -> bool {
    exists|i: int|
        {
            &&& 0 <= i < frames.len()
            &&& #[trigger] frames[i] == (id, frame)
            &&& forall|j: int| 0 <= j < i ==> (#[trigger] frames[j]).0 != id
        }
}

/// The frame that was read of a window is the one that is found for it.
pub proof fn lemma_framed(frames: Seq<(u32, Frame)>, id: u32, frame: Frame)
    requires
        is_framed(frames, id, frame),
    ensures
        process_event::handling::frame_of(frames, id, 0) == frame,
{
    let i = choose|i: int|
        {
            &&& 0 <= i < frames.len()
            &&& #[trigger] frames[i] == (id, frame)
            &&& forall|j: int| 0 <= j < i ==> (#[trigger] frames[j]).0 != id
        };
    lemma_framed_from(frames, id, frame, i, 0);
}

proof fn lemma_framed_from(frames: Seq<(u32, Frame)>, id: u32, frame: Frame, i: int, from: int)
    requires
        0 <= from <= i < frames.len(),
        frames[i] == (id, frame),
        forall|j: int| 0 <= j < i ==> (#[trigger] frames[j]).0 != id,
    ensures
        process_event::handling::frame_of(frames, id, from) == frame,
    decreases i - from,
{
    if from < i {
        lemma_framed_from(frames, id, frame, i, from + 1);
    }
}

/// When a window begins to be resized, it is remembered together with where the focused window
/// is; nothing else is done.
pub proof fn law_the_frame_is_remembered_when_resizing_begins(
    wm: WindowManagerView,
    notification: SystemNotification,
    process_id: i32,
    window_id: u32,
    workspace: WorkspaceView,
    window: Window,
    frame: Rect,
    sight: HandlingSightView,
    debug: RuleDebugView,
)
    requires
        acting::is_in_focus(wm, workspace),
        is_held(workspace, window),
        is_framed(sight.frames, window.id, Frame::At(frame)),
    ensures
        ({
            let (after, plan) = process_event::handling_effect(
                wm,
                WindowManagerEvent::ResizeStart(notification, process_id, window_id),
                sight,
                debug,
            );
            &&& does(plan, Seq::empty(), sight.border_window_id)
            &&& after == (WindowManagerView {
                pending_resize_op: Some((window_id, Some(frame))),
                ..wm
            })
        }),
{
    lemma_framed(sight.frames, window.id, Frame::At(frame));
}

/// A resize that ends without having begun, or on a workspace that is not tiled, does nothing;
/// one that ends for another window than it began with is an error. It is forgotten each time.
pub proof fn law_only_a_resize_that_began_is_followed(
    wm: WindowManagerView,
    notification: SystemNotification,
    process_id: i32,
    window_id: u32,
    workspace: WorkspaceView,
    sight: HandlingSightView,
    debug: RuleDebugView,
)
    requires
        acting::is_in_focus(wm, workspace),
    ensures
        ({
            let (after, plan) = process_event::handling_effect(
                wm,
                WindowManagerEvent::ResizeEnd(notification, process_id, window_id),
                sight,
                debug,
            );
            &&& after == (WindowManagerView { pending_resize_op: None, ..wm })
            &&& wm.pending_resize_op is None ==> does(
                plan,
                Seq::empty(),
                sight.border_window_id,
            )
            &&& match wm.pending_resize_op {
                Some((held, Some(_))) => if held != window_id {
                    fails(plan, CommandError::ResizeOfAnotherWindow(held, window_id))
                } else {
                    !workspace.tile ==> does(plan, Seq::empty(), sight.border_window_id)
                },
                _ => true,
            }
        }),
{
}

/// A window that is let go of on another monitor than it is known to be on goes over to the
/// workspace shown there, to the container that it was let go of on; first the workspace that it
/// came from and then the one that it went to is laid out again, and it has the focus at the
/// end.
pub proof fn law_a_window_is_carried_to_another_monitor(
    wm: WindowManagerView,
    notification: SystemNotification,
    process_id: i32,
    window_id: u32,
    workspace: WorkspaceView,
    window: Window,
    frame: Rect,
    m: usize,
    w: usize,
    to: usize,
    sight: HandlingSightView,
    debug: RuleDebugView,
)
    requires
        wm.pending_move_op == Some((m, w, window_id)),
        sight.cursor_monitor_idx == Some(to),
        to < wm.monitors.len(),
        wm.monitors[to as int].focused_workspace < wm.monitors[to as int].workspaces.len(),
        wm.known_window_ids.contains_key(window_id),
        wm.known_window_ids[window_id].0 != to,
        acting::is_in_focus(wm, workspace),
        is_held(workspace, window),
        is_framed(sight.frames, window.id, Frame::At(frame)),
    ensures
        ({
            let (after, plan) = process_event::handling_effect(
                wm,
                WindowManagerEvent::MoveEnd(notification, process_id, window_id),
                sight,
                debug,
            );
            let there = wm.monitors[to as int].focused_workspace;
            let container = if sight.target_container_idx is Some {
                sight.target_container_idx->0
            } else {
                0
            };
            &&& after == (WindowManagerView { pending_move_op: None, ..wm })
            &&& does(
                plan,
                seq![
                    Operation::TransferWindow((m, w, window_id), (to, there, container)),
                    Operation::FocusMonitor(m),
                    Operation::FocusMonitorWorkspace(m, w),
                    Operation::UpdateFocusedWorkspace(false, false),
                    Operation::FocusMonitor(to),
                    Operation::FocusMonitorWorkspace(to, there),
                    Operation::UpdateFocusedWorkspace(false, false),
                    Operation::FocusWindow(window.id, wm.mouse_follows_focus),
                ],
                sight.border_window_id,
            )
        }),
{
    lemma_framed(sight.frames, window.id, Frame::At(frame));
}

/// A window that nobody knows to be elsewhere goes over to another monitor if it was on the
/// workspace that it was taken from, and only then.
pub proof fn law_a_window_that_was_not_there_is_not_carried_over(
    wm: WindowManagerView,
    notification: SystemNotification,
    process_id: i32,
    window_id: u32,
    workspace: WorkspaceView,
    window: Window,
    frame: Rect,
    m: usize,
    w: usize,
    to: usize,
    sight: HandlingSightView,
    debug: RuleDebugView,
)
    requires
        wm.pending_move_op == Some((m, w, window_id)),
        sight.cursor_monitor_idx == Some(to),
        to != m,
        m < wm.monitors.len(),
        w < wm.monitors[m as int].workspaces.len(),
        to < wm.monitors.len(),
        wm.monitors[to as int].focused_workspace < wm.monitors[to as int].workspaces.len(),
        wm.known_window_ids.contains_key(window_id) ==> wm.known_window_ids[window_id].0 == to,
        acting::is_in_focus(wm, workspace),
        is_held(workspace, window),
        is_framed(sight.frames, window.id, Frame::At(frame)),
    ensures
        ({
            let (after, plan) = process_event::handling_effect(
                wm,
                WindowManagerEvent::MoveEnd(notification, process_id, window_id),
                sight,
                debug,
            );
            &&& plan.failure is None
            &&& is_on(wm.monitors[m as int].workspaces[w as int], window_id)
                <==> plan.operations[0] is TransferWindow
            &&& is_on(wm.monitors[m as int].workspaces[w as int], window_id)
                <==> exists|i: int|
                0 <= i < plan.operations.len() && (#[trigger] plan.operations[i]) is TransferWindow
        }),
{
    lemma_framed(sight.frames, window.id, Frame::At(frame));
    lemma_on(wm.monitors[m as int].workspaces[w as int], window_id);
}

/// A window with an id is among these.
pub open spec fn is_among(windows: Seq<Window>, id: u32) -> bool {
    exists|i: int| 0 <= i < windows.len() && (#[trigger] windows[i]).id == id
}

/// A window is tiled on a workspace: in a container, on its own or maximized.
pub open spec fn is_tiled_on(workspace: WorkspaceView, id: u32) -> bool {
    ||| exists|c: int|
        0 <= c < workspace.containers.len() && is_among(
            (#[trigger] workspace.containers[c]).windows,
            id,
        )
    ||| workspace.monocle_container is Some && is_among(
        workspace.monocle_container->0.windows,
        id,
    )
    ||| workspace.maximized_window is Some && workspace.maximized_window->0.id == id
}

/// A window is on a workspace, tiled or floating.
pub open spec fn is_on(workspace: WorkspaceView, id: u32) -> bool {
    is_tiled_on(workspace, id) || is_among(workspace.floating_windows, id)
}

/// A window is on a workspace, or tiled there, exactly where the workspace says so.
pub proof fn lemma_on(workspace: WorkspaceView, id: u32)
    ensures
        is_tiled_on(workspace, id) == workspace.manages(id),
        is_on(workspace, id) == workspace.shows(id),
{
    assert forall|windows: Seq<Window>| #[trigger]
        crate::window_manager::has_id(windows, id) == is_among(windows, id) by {}
    if workspace.manages(id) && exists|c: int|
        0 <= c < workspace.containers.len() && crate::window_manager::has_id(
            (#[trigger] workspace.containers[c]).windows,
            id,
        ) {
        let c = choose|c: int|
            0 <= c < workspace.containers.len() && crate::window_manager::has_id(
                (#[trigger] workspace.containers[c]).windows,
                id,
            );
        assert(is_among(workspace.containers[c].windows, id));
    }
    if exists|c: int|
        0 <= c < workspace.containers.len() && is_among(
            (#[trigger] workspace.containers[c]).windows,
            id,
        ) {
        let c = choose|c: int|
            0 <= c < workspace.containers.len() && is_among(
                (#[trigger] workspace.containers[c]).windows,
                id,
            );
        assert(crate::window_manager::has_id(workspace.containers[c].windows, id));
    }
}

/// A window that is let go of on the monitor that it was taken from, at the size that it was laid
/// out at, trades places with the container that it was let go of on, or goes into it where new
/// windows do, or goes back where it was; where windows float it becomes a floating one. One
/// whose size is another, or that is not tiled, is left where it is.
pub proof fn law_a_window_is_dropped_on_a_container(
    wm: WindowManagerView,
    notification: SystemNotification,
    process_id: i32,
    window_id: u32,
    workspace: WorkspaceView,
    window: Window,
    frame: Rect,
    at: Rect,
    m: usize,
    w: usize,
    sight: HandlingSightView,
    debug: RuleDebugView,
)
    requires
        wm.pending_move_op == Some((m, w, window_id)),
        sight.cursor_monitor_idx == Some(m),
        wm.known_window_ids.contains_key(window_id) ==> wm.known_window_ids[window_id].0 == m,
        acting::is_in_focus(wm, workspace),
        is_held(workspace, window),
        was_laid_out_at(workspace, at),
        is_framed(sight.frames, window.id, Frame::At(frame)),
    ensures
        ({
            let (after, plan) = process_event::handling_effect(
                wm,
                WindowManagerEvent::MoveEnd(notification, process_id, window_id),
                sight,
                debug,
            );
            let released = WindowManagerView { pending_move_op: None, ..wm };
            let border = sight.border_window_id;
            let now = after.monitors[wm.focused_monitor as int];
            let shown = now.workspaces[wm.monitors[wm.focused_monitor as int].focused_workspace as int];
            if !workspace.tile || !is_tiled_on(workspace, window_id) || frame.right != at.right
                || frame.bottom != at.bottom {
                after == released && does(plan, Seq::empty(), border)
            } else if sight.behaviour.float_override {
                &&& after.pending_move_op is None
                &&& shown.floating_windows =~= workspace.floating_windows.push(window)
                &&& shown.containers == workspace.containers
                &&& does(plan, seq![Operation::UpdateFocusedWorkspace(false, false)], border)
            } else {
                &&& after == released
                &&& does(
                    plan,
                    if sight.cursor_container_idx is None {
                        seq![Operation::UpdateFocusedWorkspace(wm.mouse_follows_focus, false)]
                    } else if sight.behaviour.current_behaviour
                        == WindowContainerBehaviour::Append {
                        seq![
                            Operation::MoveWindowToContainer(sight.cursor_container_idx->0),
                            Operation::UpdateFocusedWorkspace(false, false),
                        ]
                    } else {
                        seq![
                            Operation::SwapContainers(
                                workspace.focused_container,
                                sight.cursor_container_idx->0,
                            ),
                            Operation::UpdateFocusedWorkspace(false, false),
                        ]
                    },
                    border,
                )
            }
        }),
{
    lemma_framed(sight.frames, window.id, Frame::At(frame));
    lemma_on(workspace, window_id);
}


/// A window that was not taken hold of can be let go of without anything happening. Where another was,
/// it is an error, and so is it where no monitor is under the cursor, where no workspace has the focus
/// and where it cannot be read where the focused window is. That a window was held is forgotten each
/// time, and nothing else changes.
pub proof fn law_letting_go_needs_a_monitor_and_a_frame(
    wm: WindowManagerView,
    notification: SystemNotification,
    process_id: i32,
    window_id: u32,
    sight: HandlingSightView,
    debug: RuleDebugView,
    error: CommandError,
    workspace: WorkspaceView,
    window: Window,
    frame: Frame,
)
    ensures
        ({
            let (after, plan) = process_event::handling_effect(
                wm,
                WindowManagerEvent::MoveEnd(notification, process_id, window_id),
                sight,
                debug,
            );
            let released = WindowManagerView { pending_move_op: None, ..wm };
            match wm.pending_move_op {
                None => after == released && does(plan, Seq::empty(), sight.border_window_id),
                Some((_, _, held)) => if held != window_id {
                    &&& after == released
                    &&& fails(plan, CommandError::MoveOfAnotherWindow(held, window_id))
                } else if sight.cursor_monitor_idx is None {
                    after == released && fails(plan, CommandError::NoMonitorAtCursor)
                } else {
                    &&& acting::is_out_of_focus(wm, error) ==> after == released && fails(
                        plan,
                        error,
                    )
                    &&& acting::is_in_focus(wm, workspace) && workspace.containers.len() == 0
                        ==> after == released && does(plan, Seq::empty(), sight.border_window_id)
                    &&& acting::is_in_focus(wm, workspace) && is_held(workspace, window)
                        && is_framed(sight.frames, window.id, frame) && !(frame is At) ==> after
                        == released && fails(plan, CommandError::UnreadableFrame)
                },
            }
        }),
{
    if is_framed(sight.frames, window.id, frame) {
        lemma_framed(sight.frames, window.id, frame);
    }
}

/// A window cannot be carried over to a monitor that is not there or shows no workspace; nor, where it
/// is not known where it is, from a place that is not there.
pub proof fn law_a_window_is_carried_between_places_that_are_there(
    wm: WindowManagerView,
    notification: SystemNotification,
    process_id: i32,
    window_id: u32,
    workspace: WorkspaceView,
    window: Window,
    frame: Rect,
    m: usize,
    w: usize,
    to: usize,
    sight: HandlingSightView,
    debug: RuleDebugView,
)
    requires
        wm.pending_move_op == Some((m, w, window_id)),
        sight.cursor_monitor_idx == Some(to),
        acting::is_in_focus(wm, workspace),
        is_held(workspace, window),
        is_framed(sight.frames, window.id, Frame::At(frame)),
    ensures
        ({
            let (after, plan) = process_event::handling_effect(
                wm,
                WindowManagerEvent::MoveEnd(notification, process_id, window_id),
                sight,
                debug,
            );
            let known = wm.known_window_ids.contains_key(window_id)
                && wm.known_window_ids[window_id].0 != to;
            &&& known && to >= wm.monitors.len() ==> fails(plan, CommandError::NoSuchMonitor)
            &&& known && to < wm.monitors.len() && wm.monitors[to as int].focused_workspace
                >= wm.monitors[to as int].workspaces.len() ==> fails(
                plan,
                CommandError::NoFocusedWorkspaceOnMonitor,
            )
            &&& !known && m != to && m >= wm.monitors.len() ==> fails(
                plan,
                CommandError::NoOriginMonitor,
            )
            &&& !known && m != to && m < wm.monitors.len() && w
                >= wm.monitors[m as int].workspaces.len() ==> fails(
                plan,
                CommandError::NoSuchWorkspace,
            )
        }),
{
    lemma_framed(sight.frames, window.id, Frame::At(frame));
}

/// Taking hold of a window, or resizing one, is an error where no workspace has the focus; so is
/// resizing one where it cannot be read where the focused window is. Where no window is focused nothing
/// happens.
pub proof fn law_taking_hold_needs_a_focus(
    wm: WindowManagerView,
    notification: SystemNotification,
    process_id: i32,
    window_id: u32,
    sight: HandlingSightView,
    debug: RuleDebugView,
    error: CommandError,
    workspace: WorkspaceView,
    window: Window,
    frame: Frame,
)
    ensures
        ({
            let (after, plan) = process_event::handling_effect(
                wm,
                WindowManagerEvent::ResizeStart(notification, process_id, window_id),
                sight,
                debug,
            );
            &&& acting::is_out_of_focus(wm, error) ==> after == wm && fails(plan, error)
            &&& acting::is_in_focus(wm, workspace) && workspace.containers.len() == 0 ==> after
                == wm && does(plan, Seq::empty(), sight.border_window_id)
            &&& acting::is_in_focus(wm, workspace) && is_held(workspace, window) && is_framed(
                sight.frames,
                window.id,
                frame,
            ) && !(frame is At) ==> after == wm && fails(plan, CommandError::UnreadableFrame)
        }),
        ({
            let (after, plan) = process_event::handling_effect(
                wm,
                WindowManagerEvent::MoveStart(notification, process_id, window_id),
                sight,
                debug,
            );
            wm.focused_monitor >= wm.monitors.len() && wm.pending_move_op is None
                && wm.pending_resize_op is None ==> after == wm && fails(
                plan,
                CommandError::NoMonitorWithIndex,
            )
        }),
{
    if is_framed(sight.frames, window.id, frame) {
        lemma_framed(sight.frames, window.id, frame);
    }
}


/// Where a window is that is not listed cannot be read.
pub proof fn law_a_window_that_is_not_listed_is_unreadable(
    frames: Seq<(u32, Frame)>,
    id: u32,
    from: int,
)
    requires
        forall|i: int| 0 <= i < frames.len() ==> (#[trigger] frames[i]).0 != id,
    ensures
        process_event::handling::frame_of(frames, id, from) == Frame::Unreadable,
    decreases frames.len() - from,
{
    if 0 <= from < frames.len() {
        law_a_window_that_is_not_listed_is_unreadable(frames, id, from + 1);
    }
}

} // verus!
