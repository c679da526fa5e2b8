//! A window is being moved or resized with the mouse.

use crate::geometry;
use crate::geometry::Rect;
use crate::operation::Operation;
use crate::process_command::plan;
use crate::process_command::plan::CommandPlan;
use crate::process_command::plan::CommandPlanView;
use crate::process_event::handling;
use crate::process_event::handling::Frame;
use crate::process_event::handling::HandlingSight;
use crate::process_event::handling::HandlingSightView;
use crate::settings::OperationDirection;
use crate::settings::Sizing;
use crate::settings::WindowContainerBehaviour;
use crate::window_manager::CommandError;
use crate::window_manager::Window;
use crate::window_manager::WindowManager;
use crate::window_manager::WindowManagerView;
use crate::window_manager::Workspace;
use crate::window_manager::WorkspaceView;
use vstd::prelude::*;

verus! {

/// The focused window of the focused container, if there is one.
pub open spec fn focused_window(workspace: WorkspaceView) -> Option<Window> {
    match workspace.focused() {
        Some(container) => container.focused(),
        None => None,
    }
}

/// Where the layout last put the focused container; nowhere, on a workspace that has not been
/// laid out.
pub open spec fn laid_out_at(workspace: WorkspaceView) -> Rect {
    if workspace.focused_container < workspace.latest_layout.len() {
        workspace.latest_layout[workspace.focused_container as int]
    } else {
        geometry::zero_rect()
    }
}

/// What taking hold of a window comes to: where it was taken from is remembered, unless
/// another window is being moved or resized.
pub open spec fn move_start_effect(
    wm: WindowManagerView,
    window_id: u32,
    sight: HandlingSightView,
) -> (WindowManagerView, CommandPlanView) {
    let done = handling::finished(plan::plan_nothing(), sight.border_window_id);
    if wm.pending_move_op is Some || wm.pending_resize_op is Some {
        (wm, done)
    } else {
        match wm.focused() {
            Some(monitor) => (
                WindowManagerView {
                    pending_move_op: Some(
                        (wm.focused_monitor, monitor.focused_workspace, window_id),
                    ),
                    ..wm
                },
                done,
            ),
            None => (wm, plan::plan_failure(CommandError::NoMonitorWithIndex)),
        }
    }
}

/// Whether a window was dropped on another monitor than it was taken from. A window that is
/// not known to be elsewhere only counts if it was on the workspace it was taken from, so
/// that dragging a window that is not managed moves nothing else.
pub open spec fn moved_across(
    wm: WindowManagerView,
    window_id: u32,
    origin: (usize, usize),
    target_monitor: usize,
) -> Result<bool, CommandError> {
    if wm.known_window_ids.contains_key(window_id) && wm.known_window_ids[window_id].0
        != target_monitor {
        Ok(true)
    } else if origin.0 == target_monitor {
        Ok(false)
    } else if origin.0 >= wm.monitors.len() {
        Err(CommandError::NoOriginMonitor)
    } else if origin.1 >= wm.monitors[origin.0 as int].workspaces.len() {
        Err(CommandError::NoSuchWorkspace)
    } else {
        Ok(wm.monitors[origin.0 as int].workspaces[origin.1 as int].shows(window_id))
    }
}

/// A window goes over to the workspace that is showing on another monitor, and both monitors
/// are laid out again.
pub open spec fn transfer_plan(
    wm: WindowManagerView,
    origin: (usize, usize),
    window_id: u32,
    focused: u32,
    target_monitor: usize,
    sight: HandlingSightView,
) -> CommandPlanView {
    if target_monitor >= wm.monitors.len() {
        plan::plan_failure(CommandError::NoSuchMonitor)
    } else {
        let monitor = wm.monitors[target_monitor as int];
        match monitor.focused() {
            None => plan::plan_failure(CommandError::NoFocusedWorkspaceOnMonitor),
            Some(_) => handling::finished(
                plan::plan_of(
                    seq![
                        Operation::TransferWindow(
                            (origin.0, origin.1, window_id),
                            (
                                target_monitor,
                                monitor.focused_workspace,
                                match sight.target_container_idx {
                                    Some(c) => c,
                                    None => 0,
                                },
                            ),
                        ),
                        Operation::FocusMonitor(origin.0),
                        Operation::FocusMonitorWorkspace(origin.0, origin.1),
                        Operation::UpdateFocusedWorkspace(false, false),
                        Operation::FocusMonitor(target_monitor),
                        Operation::FocusMonitorWorkspace(
                            target_monitor,
                            monitor.focused_workspace,
                        ),
                        Operation::UpdateFocusedWorkspace(false, false),
                        Operation::FocusWindow(focused, wm.mouse_follows_focus),
                    ],
                ),
                sight.border_window_id,
            ),
        }
    }
}

/// The operations for a window that was dropped on the workspace it was taken from: it trades
/// places with the container it was dropped on, or goes into it; dropped on none, it goes back
/// where it was.
pub open spec fn drop_operations(
    wm: WindowManagerView,
    workspace: WorkspaceView,
    sight: HandlingSightView,
) -> Seq<Operation> {
    if sight.behaviour.float_override {
        seq![Operation::UpdateFocusedWorkspace(false, false)]
    } else {
        match sight.cursor_container_idx {
            Some(target) => seq![
                match sight.behaviour.current_behaviour {
                    WindowContainerBehaviour::Create => Operation::SwapContainers(
                        workspace.focused_container,
                        target,
                    ),
                    WindowContainerBehaviour::Append => Operation::MoveWindowToContainer(target),
                },
                Operation::UpdateFocusedWorkspace(false, false),
            ],
            None => seq![Operation::UpdateFocusedWorkspace(wm.mouse_follows_focus, false)],
        }
    }
}

/// The state after a window was dropped on the workspace it was taken from.
pub open spec fn dropped(
    wm: WindowManagerView,
    workspace: WorkspaceView,
    window: Window,
    sight: HandlingSightView,
) -> WindowManagerView {
    if sight.behaviour.float_override {
        wm.with_workspace(
            WorkspaceView {
                floating_windows: workspace.floating_windows.push(window),
                ..workspace
            },
        )
    } else {
        wm
    }
}

/// A window was let go of, and it is known which one is focused and where that is.
pub open spec fn let_go_effect(
    wm: WindowManagerView,
    workspace: WorkspaceView,
    window: Window,
    frame: Rect,
    window_id: u32,
    origin: (usize, usize),
    target_monitor: usize,
    sight: HandlingSightView,
) -> (WindowManagerView, CommandPlanView) {
    let old = laid_out_at(workspace);
    let same_size = frame.right == old.right && frame.bottom == old.bottom;
    match moved_across(wm, window_id, origin, target_monitor) {
        Err(error) => (wm, plan::plan_failure(error)),
        Ok(true) => (wm, transfer_plan(wm, origin, window_id, window.id, target_monitor, sight)),
        Ok(false) => if workspace.tile && workspace.manages(window_id) && same_size {
            (
                dropped(wm, workspace, window, sight),
                handling::finished(
                    plan::plan_of(drop_operations(wm, workspace, sight)),
                    sight.border_window_id,
                ),
            )
        } else {
            (wm, handling::finished(plan::plan_nothing(), sight.border_window_id))
        },
    }
}

/// What letting go of a window comes to, when it is the one that was taken hold of.
pub open spec fn moved_effect(
    wm: WindowManagerView,
    window_id: u32,
    origin: (usize, usize),
    sight: HandlingSightView,
) -> (WindowManagerView, CommandPlanView) {
    match sight.cursor_monitor_idx {
        None => (wm, plan::plan_failure(CommandError::NoMonitorAtCursor)),
        Some(target_monitor) => match wm.workspace() {
            Err(error) => (wm, plan::plan_failure(error)),
            Ok(workspace) => match focused_window(workspace) {
                None => (wm, handling::finished(plan::plan_nothing(), sight.border_window_id)),
                Some(window) => match handling::frame_of(sight.frames, window.id, 0) {
                    Frame::At(frame) => let_go_effect(
                        wm,
                        workspace,
                        window,
                        frame,
                        window_id,
                        origin,
                        target_monitor,
                        sight,
                    ),
                    _ => (wm, plan::plan_failure(CommandError::UnreadableFrame)),
                },
            },
        },
    }
}

/// What letting go of a window comes to. That a window was taken hold of is forgotten
/// whatever happens; where another window was let go of, nothing else is done.
pub open spec fn move_end_effect(
    wm: WindowManagerView,
    window_id: u32,
    sight: HandlingSightView,
) -> (WindowManagerView, CommandPlanView) {
    let free = WindowManagerView { pending_move_op: None, ..wm };
    match wm.pending_move_op {
        None => (free, handling::finished(plan::plan_nothing(), sight.border_window_id)),
        Some((m, w, held)) => if held != window_id {
            (free, plan::plan_failure(CommandError::MoveOfAnotherWindow(held, window_id)))
        } else {
            moved_effect(free, window_id, (m, w), sight)
        },
    }
}

/// What it comes to that a window begins to be resized: where the focused window is, is
/// remembered.
pub open spec fn resize_start_effect(
    wm: WindowManagerView,
    window_id: u32,
    sight: HandlingSightView,
) -> (WindowManagerView, CommandPlanView) {
    let done = handling::finished(plan::plan_nothing(), sight.border_window_id);
    match wm.workspace() {
        Err(error) => (wm, plan::plan_failure(error)),
        Ok(workspace) => match focused_window(workspace) {
            None => (wm, done),
            Some(window) => match handling::frame_of(sight.frames, window.id, 0) {
                Frame::At(frame) => (
                    WindowManagerView { pending_resize_op: Some((window_id, Some(frame))), ..wm },
                    done,
                ),
                _ => (wm, plan::plan_failure(CommandError::UnreadableFrame)),
            },
        },
    }
}

/// How far an edge of the layout is moved for an edge of a window that moved by `difference`:
/// twice as far, as far as numbers go.
pub open spec fn twice(difference: int) -> i32 {
    geometry::clamped(if difference < 0 {
        -2 * difference
    } else {
        2 * difference
    })
}

/// An edge of the focused window is moved along with the mouse: outwards if `outwards` holds
/// of the way it went.
pub open spec fn edge_operation(
    direction: OperationDirection,
    difference: int,
    outwards: bool,
) -> Operation {
    Operation::ResizeWindow(
        direction,
        if outwards {
            Sizing::Increase
        } else {
            Sizing::Decrease
        },
        twice(difference),
        true,
    )
}

/// The operations for a window that went from `old` to `new`. The width and the height only
/// count where the left and the top edge, which they are measured from, stayed.
pub open spec fn resize_operations(new: Rect, old: Rect) -> Seq<Operation> {
    let left = new.left - old.left;
    let top = new.top - old.top;
    let right = new.right - old.right;
    let bottom = new.bottom - old.bottom;
    let none: Seq<Operation> = Seq::empty();
    (if left != 0 {
        none.push(edge_operation(OperationDirection::Left, left, left < 0))
    } else {
        none
    }) + (if top != 0 {
        none.push(edge_operation(OperationDirection::Up, top, top < 0))
    } else {
        none
    }) + (if right != 0 && left == 0 {
        none.push(edge_operation(OperationDirection::Right, right, right > 0))
    } else {
        none
    }) + (if bottom != 0 && top == 0 {
        none.push(edge_operation(OperationDirection::Down, bottom, bottom > 0))
    } else {
        none
    }) + none.push(Operation::UpdateFocusedWorkspace(false, false))
}

/// What the end of a resize comes to, when it is the resize that had begun.
pub open spec fn resized_plan(
    wm: WindowManagerView,
    frame: Rect,
    sight: HandlingSightView,
) -> CommandPlanView {
    match wm.workspace() {
        Err(error) => plan::plan_failure(error),
        Ok(workspace) => match focused_window(workspace) {
            Some(window) => if workspace.tile && workspace.manages(window.id) {
                handling::finished(
                    plan::plan_of(resize_operations(frame, laid_out_at(workspace))),
                    sight.border_window_id,
                )
            } else {
                handling::finished(plan::plan_nothing(), sight.border_window_id)
            },
            None => handling::finished(plan::plan_nothing(), sight.border_window_id),
        },
    }
}

/// What the end of a resize comes to. That one had begun is forgotten whatever happens; where
/// it was that of another window, nothing else is done.
pub open spec fn resize_end_effect(
    wm: WindowManagerView,
    window_id: u32,
    sight: HandlingSightView,
) -> (WindowManagerView, CommandPlanView) {
    let free = WindowManagerView { pending_resize_op: None, ..wm };
    match wm.pending_resize_op {
        Some((held, Some(frame))) => if held != window_id {
            (free, plan::plan_failure(CommandError::ResizeOfAnotherWindow(held, window_id)))
        } else {
            (free, resized_plan(free, frame, sight))
        },
        _ => (free, handling::finished(plan::plan_nothing(), sight.border_window_id)),
    }
}

fn find_focused_window(workspace: &Workspace) -> (window: Option<&Window>)
    ensures
        match window {
            Some(window) => focused_window(workspace.deep_view()) == Some(*window),
            None => focused_window(workspace.deep_view()) is None,
        },
{
    match workspace.focused() {
        Some(container) => container.focused(),
        None => None,
    }
}

fn last_layout(workspace: &Workspace) -> (rect: Rect)
    ensures
        rect == laid_out_at(workspace.deep_view()),
{
    if workspace.focused_container < workspace.latest_layout.len() {
        workspace.latest_layout[workspace.focused_container]
    } else {
        Rect::default()
    }
}

fn double(difference: i64) -> (delta: i32)
    requires
        -0x1_0000_0000 <= difference <= 0x1_0000_0000,
    ensures
        delta == twice(difference as int),
{
    if difference < 0 {
        geometry::clamp(2 * (0 - difference))
    } else {
        geometry::clamp(2 * difference)
    }
}

fn move_edge(direction: OperationDirection, difference: i64, outwards: bool) -> (operation:
    Operation)
    requires
        -0x1_0000_0000 <= difference <= 0x1_0000_0000,
    ensures
        operation == edge_operation(direction, difference as int, outwards),
{
    let sizing = if outwards {
        Sizing::Increase
    } else {
        Sizing::Decrease
    };
    Operation::ResizeWindow(direction, sizing, double(difference), true)
}

fn follow_edges(new: Rect, old: Rect) -> (operations: Vec<Operation>)
    ensures
        operations@ == resize_operations(new, old),
{
    let left: i64 = new.left as i64 - old.left as i64;
    let top: i64 = new.top as i64 - old.top as i64;
    let right: i64 = new.right as i64 - old.right as i64;
    let bottom: i64 = new.bottom as i64 - old.bottom as i64;
    let mut operations: Vec<Operation> = Vec::new();
    if left != 0 {
        operations.push(move_edge(OperationDirection::Left, left, left < 0));
    }
    if top != 0 {
        operations.push(move_edge(OperationDirection::Up, top, top < 0));
    }
    if right != 0 && left == 0 {
        operations.push(move_edge(OperationDirection::Right, right, right > 0));
    }
    if bottom != 0 && top == 0 {
        operations.push(move_edge(OperationDirection::Down, bottom, bottom > 0));
    }
    operations.push(Operation::UpdateFocusedWorkspace(false, false));
    assert(operations@ =~= resize_operations(new, old));
    operations
}

impl WindowManager {
    /// Handles that a window was taken hold of.
    pub fn handle_move_start(&mut self, window_id: u32, sight: &HandlingSight) -> (plan:
        CommandPlan)
        ensures
            (final(self).deep_view(), plan.deep_view()) == move_start_effect(
                old(self).deep_view(),
                window_id,
                sight.deep_view(),
            ),
    {
        if self.pending_move_op.is_none() && self.pending_resize_op.is_none() {
            match self.focused() {
                Some(monitor) => {
                    let place = (self.focused_monitor, monitor.focused_workspace, window_id);
                    self.pending_move_op = Some(place);
                },
                None => {
                    return CommandPlan::failed(CommandError::NoMonitorWithIndex);
                },
            }
        }
        handling::finish(CommandPlan::nothing(), sight.border_window_id)
    }

    fn has_moved_across(
        &self,
        window_id: u32,
        origin: (usize, usize),
        target_monitor: usize,
    ) -> (moved: Result<bool, CommandError>)
        ensures
            moved == moved_across(self.deep_view(), window_id, origin, target_monitor),
    {
        if let Some((m, _)) = self.known_place(window_id) {
            if m != target_monitor {
                return Ok(true);
            }
        }
        if origin.0 == target_monitor {
            return Ok(false);
        }
        if origin.0 >= self.monitors.len() {
            return Err(CommandError::NoOriginMonitor);
        }
        let monitor = &self.monitors[origin.0];
        assert(self.deep_view().monitors[origin.0 as int] == monitor.deep_view());
        if origin.1 >= monitor.workspaces.len() {
            return Err(CommandError::NoSuchWorkspace);
        }
        Ok(monitor.workspaces[origin.1].contains_window(window_id))
    }

    fn transfer(
        &self,
        origin: (usize, usize),
        window_id: u32,
        focused: u32,
        target_monitor: usize,
        sight: &HandlingSight,
    ) -> (plan: CommandPlan)
        ensures
            plan.deep_view() == transfer_plan(
                self.deep_view(),
                origin,
                window_id,
                focused,
                target_monitor,
                sight.deep_view(),
            ),
    {
        if target_monitor >= self.monitors.len() {
            return CommandPlan::failed(CommandError::NoSuchMonitor);
        }
        let monitor = &self.monitors[target_monitor];
        assert(self.deep_view().monitors[target_monitor as int] == monitor.deep_view());
        if monitor.focused().is_none() {
            return CommandPlan::failed(CommandError::NoFocusedWorkspaceOnMonitor);
        }
        let target_container: usize = match sight.target_container_idx {
            Some(c) => c,
            None => 0,
        };
        let operations: Vec<Operation> = vec![
            Operation::TransferWindow(
                (origin.0, origin.1, window_id),
                (target_monitor, monitor.focused_workspace, target_container),
            ),
            Operation::FocusMonitor(origin.0),
            Operation::FocusMonitorWorkspace(origin.0, origin.1),
            Operation::UpdateFocusedWorkspace(false, false),
            Operation::FocusMonitor(target_monitor),
            Operation::FocusMonitorWorkspace(target_monitor, monitor.focused_workspace),
            Operation::UpdateFocusedWorkspace(false, false),
            Operation::FocusWindow(focused, self.mouse_follows_focus),
        ];
        proof {
            let done = transfer_plan(
                self.deep_view(),
                origin,
                window_id,
                focused,
                target_monitor,
                sight.deep_view(),
            );
            assert(done.operations =~= operations@ + handling::after_event(
                sight.border_window_id,
            ));
        }
        handling::finish(CommandPlan::of(operations), sight.border_window_id)
    }

    fn plan_drop(&self, focused_container: usize, sight: &HandlingSight) -> (operations: Vec<
        Operation,
    >)
        ensures
            forall|workspace: WorkspaceView|
                workspace.focused_container == focused_container ==> operations@
                    == #[trigger] drop_operations(
                    self.deep_view(),
                    workspace,
                    sight.deep_view(),
                ),
    {
        let mut operations: Vec<Operation> = Vec::new();
        if sight.behaviour.float_override {
            operations.push(Operation::UpdateFocusedWorkspace(false, false));
        } else if let Some(target) = sight.cursor_container_idx {
            match sight.behaviour.current_behaviour {
                WindowContainerBehaviour::Create => {
                    operations.push(Operation::SwapContainers(focused_container, target));
                },
                WindowContainerBehaviour::Append => {
                    operations.push(Operation::MoveWindowToContainer(target));
                },
            }
            operations.push(Operation::UpdateFocusedWorkspace(false, false));
        } else {
            operations.push(Operation::UpdateFocusedWorkspace(self.mouse_follows_focus, false));
        }
        assert forall|workspace: WorkspaceView|
            workspace.focused_container == focused_container implies operations@
            == #[trigger] drop_operations(self.deep_view(), workspace, sight.deep_view()) by {
            assert(operations@ =~= drop_operations(
                self.deep_view(),
                workspace,
                sight.deep_view(),
            ));
        }
        operations
    }

    fn drop_window(&mut self, window: &Window, sight: &HandlingSight) -> (plan: CommandPlan)
        requires
            old(self).deep_view().workspace() is Ok,
        ensures
            final(self).deep_view() == dropped(
                old(self).deep_view(),
                old(self).deep_view().workspace()->Ok_0,
                *window,
                sight.deep_view(),
            ),
            plan.deep_view() == handling::finished(
                plan::plan_of(
                    drop_operations(
                        old(self).deep_view(),
                        old(self).deep_view().workspace()->Ok_0,
                        sight.deep_view(),
                    ),
                ),
                sight.border_window_id,
            ),
    {
        let focused_container: usize = match self.workspace() {
            Ok(workspace) => workspace.focused_container,
            Err(_) => 0,
        };
        let operations = self.plan_drop(focused_container, sight);
        if sight.behaviour.float_override {
            if let Ok(workspace) = self.workspace_mut() {
                workspace.floating_windows.push(window.clone());
            }
        }
        handling::finish(CommandPlan::of(operations), sight.border_window_id)
    }

    fn let_go(&mut self, window_id: u32, origin: (usize, usize), sight: &HandlingSight) -> (plan:
        CommandPlan)
        ensures
            (final(self).deep_view(), plan.deep_view()) == moved_effect(
                old(self).deep_view(),
                window_id,
                origin,
                sight.deep_view(),
            ),
    {
        let target_monitor: usize = match sight.cursor_monitor_idx {
            Some(target_monitor) => target_monitor,
            None => {
                return CommandPlan::failed(CommandError::NoMonitorAtCursor);
            },
        };
        let workspace = match self.workspace() {
            Ok(workspace) => workspace,
            Err(error) => {
                return CommandPlan::failed(error);
            },
        };
        let window = match find_focused_window(workspace) {
            Some(window) => window.clone(),
            None => {
                return handling::finish(CommandPlan::nothing(), sight.border_window_id);
            },
        };
        let frame = match sight.frame(window.id) {
            Frame::At(frame) => frame,
            _ => {
                return CommandPlan::failed(CommandError::UnreadableFrame);
            },
        };
        let old_frame = last_layout(workspace);
        let same_size: bool = frame.right == old_frame.right && frame.bottom == old_frame.bottom;
        let tiled: bool = workspace.tile && workspace.contains_managed_window(window_id);
        match self.has_moved_across(window_id, origin, target_monitor) {
            Err(error) => CommandPlan::failed(error),
            Ok(true) => self.transfer(origin, window_id, window.id, target_monitor, sight),
            Ok(false) => {
                if tiled && same_size {
                    self.drop_window(&window, sight)
                } else {
                    handling::finish(CommandPlan::nothing(), sight.border_window_id)
                }
            },
        }
    }

    /// Handles that a window was let go of.
    pub fn handle_move_end(&mut self, window_id: u32, sight: &HandlingSight) -> (plan: CommandPlan)
        ensures
            (final(self).deep_view(), plan.deep_view()) == move_end_effect(
                old(self).deep_view(),
                window_id,
                sight.deep_view(),
            ),
    {
        let pending = self.pending_move_op;
        self.pending_move_op = None;
        match pending {
            None => handling::finish(CommandPlan::nothing(), sight.border_window_id),
            Some((m, w, held)) => {
                if held != window_id {
                    CommandPlan::failed(CommandError::MoveOfAnotherWindow(held, window_id))
                } else {
                    self.let_go(window_id, (m, w), sight)
                }
            },
        }
    }

    /// Handles that a window begins to be resized.
    pub fn handle_resize_start(&mut self, window_id: u32, sight: &HandlingSight) -> (plan:
        CommandPlan)
        ensures
            (final(self).deep_view(), plan.deep_view()) == resize_start_effect(
                old(self).deep_view(),
                window_id,
                sight.deep_view(),
            ),
    {
        let frame = match self.workspace() {
            Err(error) => {
                return CommandPlan::failed(error);
            },
            Ok(workspace) => match find_focused_window(workspace) {
                None => {
                    return handling::finish(CommandPlan::nothing(), sight.border_window_id);
                },
                Some(window) => sight.frame(window.id),
            },
        };
        match frame {
            Frame::At(frame) => {
                self.pending_resize_op = Some((window_id, Some(frame)));
                handling::finish(CommandPlan::nothing(), sight.border_window_id)
            },
            _ => CommandPlan::failed(CommandError::UnreadableFrame),
        }
    }

    fn finish_resize(&self, frame: Rect, sight: &HandlingSight) -> (plan: CommandPlan)
        ensures
            plan.deep_view() == resized_plan(self.deep_view(), frame, sight.deep_view()),
    {
        let workspace = match self.workspace() {
            Ok(workspace) => workspace,
            Err(error) => {
                return CommandPlan::failed(error);
            },
        };
        if let Some(window) = find_focused_window(workspace) {
            if workspace.tile && workspace.contains_managed_window(window.id) {
                let operations = follow_edges(frame, last_layout(workspace));
                return handling::finish(CommandPlan::of(operations), sight.border_window_id);
            }
        }
        handling::finish(CommandPlan::nothing(), sight.border_window_id)
    }

    /// Handles that a window has been resized.
    pub fn handle_resize_end(&mut self, window_id: u32, sight: &HandlingSight) -> (plan:
        CommandPlan)
        ensures
            (final(self).deep_view(), plan.deep_view()) == resize_end_effect(
                old(self).deep_view(),
                window_id,
                sight.deep_view(),
            ),
    {
        let pending = self.pending_resize_op;
        self.pending_resize_op = None;
        match pending {
            Some((held, Some(frame))) => {
                if held != window_id {
                    CommandPlan::failed(CommandError::ResizeOfAnotherWindow(held, window_id))
                } else {
                    self.finish_resize(frame, sight)
                }
            },
            _ => handling::finish(CommandPlan::nothing(), sight.border_window_id),
        }
    }
}

/// However a move or a resize ends, none is under way afterwards.
pub proof fn law_letting_go_ends_the_move(
    wm: WindowManagerView,
    window_id: u32,
    sight: HandlingSightView,
)
    ensures
        move_end_effect(wm, window_id, sight).0.pending_move_op is None,
        resize_end_effect(wm, window_id, sight).0.pending_resize_op is None,
{
}

/// A window that was taken hold of and let go of on the same monitor without changing its
/// size is never transferred: it stays on its monitor.
pub proof fn law_a_move_on_one_monitor_stays_there(
    wm: WindowManagerView,
    window_id: u32,
    sight: HandlingSightView,
)
    requires
        wm.pending_move_op matches Some((m, _, _)) && sight.cursor_monitor_idx == Some(m),
        wm.known_window_ids.contains_key(window_id) ==> Some(wm.known_window_ids[window_id].0)
            == sight.cursor_monitor_idx,
    ensures
        forall|i: int|
            #![trigger move_end_effect(wm, window_id, sight).1.operations[i]]
            0 <= i < move_end_effect(wm, window_id, sight).1.operations.len() ==> !(move_end_effect(
                wm,
                window_id,
                sight,
            ).1.operations[i] is TransferWindow),
{
    let free = WindowManagerView { pending_move_op: None, ..wm };
    assert(free.known_window_ids == wm.known_window_ids);
}

} // verus!
