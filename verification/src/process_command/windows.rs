//! Commands that act on windows and containers.

use crate::message::SocketMessage;
use crate::operation::Operation;
use crate::process_command::focus;
use crate::process_command::plan;
use crate::process_command::plan::CommandPlan;
use crate::process_command::plan::CommandPlanView;
use crate::process_command::plan::CommandSight;
use crate::process_command::plan::CommandSightView;
use crate::settings::Axis;
use crate::settings::OperationDirection;
use crate::settings::Sizing;
use crate::settings::WorkspaceLayer;
use crate::settings::WorkspaceWindowLocation;
use crate::window_manager::CommandError;
use crate::window_manager::ContainerView;
use crate::window_manager::MonitorView;
use crate::window_manager::WindowManager;
use crate::window_manager::WindowManagerView;
use crate::window_manager::WorkspaceView;
use vstd::prelude::*;

verus! {

/// The operation on the layer that commands act on.
pub open spec fn on_layer(
    wm: WindowManagerView,
    tiling: Operation,
    floating: Operation,
) -> CommandPlanView {
    match wm.workspace() {
        Ok(workspace) => match workspace.layer {
            WorkspaceLayer::Tiling => plan::plan_of(seq![tiling]),
            WorkspaceLayer::Floating => plan::plan_of(seq![floating]),
        },
        Err(error) => plan::plan_failure(error),
    }
}

/// The state with animations off everywhere.
pub open spec fn unanimated(wm: WindowManagerView) -> WindowManagerView {
    WindowManagerView {
        animation: crate::settings::AnimationSettings {
            enabled: crate::settings::AnimationSetting { global: false, ..wm.animation.enabled },
            ..wm.animation
        },
        ..wm
    }
}

/// Operations that are carried out with animations off. Animations come back on only once
/// the operations have succeeded.
pub open spec fn without_animation(
    wm: WindowManagerView,
    operations: Seq<Operation>,
) -> (WindowManagerView, CommandPlanView) {
    (
        unanimated(wm),
        plan::plan_of(
            operations.push(Operation::SetGlobalAnimation(wm.animation.enabled.global)),
        ),
    )
}

/// A workspace with one of its containers locked or unlocked.
pub open spec fn with_lock(workspace: WorkspaceView, c: usize, locked: bool) -> WorkspaceView {
    if c < workspace.containers.len() {
        WorkspaceView {
            containers: workspace.containers.update(
                c as int,
                ContainerView { locked, ..workspace.containers[c as int] },
            ),
            ..workspace
        }
    } else {
        workspace
    }
}

/// A container is locked or unlocked. A container that is not there is not an error.
pub open spec fn lock_effect(
    wm: WindowManagerView,
    m: usize,
    w: usize,
    c: usize,
    locked: bool,
) -> (WindowManagerView, CommandPlanView) {
    if m >= wm.monitors.len() {
        (wm, plan::plan_failure(CommandError::NoMonitorAtIndex))
    } else if w >= wm.monitors[m as int].workspaces.len() {
        (wm, plan::plan_failure(CommandError::NoWorkspaceAtIndex))
    } else {
        (
            wm.with_workspace_at(
                m as int,
                w as int,
                with_lock(wm.monitors[m as int].workspaces[w as int], c, locked),
            ),
            plan::plan_nothing(),
        )
    }
}

/// The operations that resize the focused window along an axis.
pub open spec fn resize_axis(axis: Axis, sizing: Sizing, delta: i32) -> Seq<Operation> {
    let left = Operation::ResizeWindow(OperationDirection::Left, sizing, delta, false);
    let right = Operation::ResizeWindow(OperationDirection::Right, sizing, delta, false);
    let up = Operation::ResizeWindow(OperationDirection::Up, sizing, delta, false);
    let down = Operation::ResizeWindow(OperationDirection::Down, sizing, delta, false);
    let update = Operation::UpdateFocusedWorkspace(false, false);
    match axis {
        Axis::Horizontal => seq![left, right, update],
        Axis::Vertical => seq![up, down, update],
        Axis::HorizontalAndVertical => seq![left, right, up, down, update],
    }
}

/// The first workspace of a monitor, counting from `w`, that an application was seen on.
pub open spec fn located_on(
    row: Seq<Option<WorkspaceWindowLocation>>,
    workspaces: int,
    w: int,
) -> Option<(usize, WorkspaceWindowLocation)>
    decreases workspaces - w,
{
    if w < 0 || w >= workspaces || w >= row.len() {
        None
    } else {
        match row[w] {
            Some(location) => Some((w as usize, location)),
            None => located_on(row, workspaces, w + 1),
        }
    }
}

/// The first monitor and workspace, counting from monitor `m`, that an application was seen
/// on.
pub open spec fn located(
    locations: Seq<Seq<Option<WorkspaceWindowLocation>>>,
    monitors: Seq<MonitorView>,
    m: int,
) -> Option<(usize, usize, WorkspaceWindowLocation)>
    decreases monitors.len() - m,
{
    if m < 0 || m >= monitors.len() || m >= locations.len() {
        None
    } else {
        match located_on(locations[m], monitors[m].workspaces.len() as int, 0) {
            Some((w, location)) => Some((m as usize, w, location)),
            None => located(locations, monitors, m + 1),
        }
    }
}

/// The operations that focus a window where it was found on a workspace.
pub open spec fn focus_location(
    workspace: WorkspaceView,
    location: WorkspaceWindowLocation,
    mouse_follows_focus: bool,
) -> Seq<Operation> {
    match location {
        WorkspaceWindowLocation::Monocle(window) => seq![Operation::FocusContainerWindow(window)],
        WorkspaceWindowLocation::Maximized => match workspace.maximized_window {
            Some(window) => seq![Operation::FocusWindow(window.id, mouse_follows_focus)],
            None => Seq::empty(),
        },
        WorkspaceWindowLocation::Container(container, window) => if container
            != workspace.focused_container {
            seq![Operation::FocusContainer(container), Operation::FocusContainerWindow(window)]
        } else {
            seq![Operation::FocusContainerWindow(window)]
        },
        WorkspaceWindowLocation::Floating(window) => if window < workspace.floating_windows.len() {
            seq![
                Operation::FocusWindow(
                    workspace.floating_windows[window as int].id,
                    mouse_follows_focus,
                ),
            ]
        } else {
            Seq::empty()
        },
    }
}

/// The first window of an application is focused, wherever it is. The workspace it is on is
/// focused first, but only loaded once the window has the focus, so that no other window is
/// given it in between.
pub open spec fn eager_focus_effect(
    wm: WindowManagerView,
    sight: CommandSightView,
) -> (WindowManagerView, CommandPlanView) {
    match located(sight.exe_locations, wm.monitors, 0) {
        None => (wm, plan::plan_nothing()),
        Some((m, w, location)) => {
            let monitor = wm.monitors[m as int];
            let elsewhere = monitor.focused_workspace != w;
            let arrive: Seq<Operation> = if elsewhere {
                seq![Operation::FocusMonitorWorkspace(m, w)]
            } else {
                Seq::empty()
            };
            let cross: Seq<Operation> = if m != wm.focused_monitor {
                seq![Operation::FocusMonitor(m)]
            } else {
                Seq::empty()
            };
            let load: Seq<Operation> = if elsewhere {
                seq![Operation::LoadFocusedWorkspace(m, wm.mouse_follows_focus)]
            } else {
                Seq::empty()
            };
            (
                if elsewhere {
                    wm.with_monitor(
                        m as int,
                        MonitorView {
                            last_focused_workspace: Some(monitor.focused_workspace),
                            ..monitor
                        },
                    )
                } else {
                    wm
                },
                plan::plan_of(
                    arrive + cross + focus_location(
                        monitor.workspaces[w as int],
                        location,
                        wm.mouse_follows_focus,
                    ) + load,
                ),
            )
        },
    }
}

/// A window of the focused stack is focused, on the monitor that the cursor is on.
pub open spec fn focus_stack_effect(
    wm: WindowManagerView,
    idx: usize,
    cursor: Option<usize>,
) -> (WindowManagerView, CommandPlanView) {
    match cursor {
        Some(m) => if m < wm.monitors.len() {
            without_animation(
                WindowManagerView { focused_monitor: m, ..wm },
                seq![Operation::FocusContainerWindow(idx)],
            )
        } else {
            (wm, plan::plan_failure(CommandError::NotAMonitorIndex))
        },
        None => without_animation(wm, seq![Operation::FocusContainerWindow(idx)]),
    }
}

/// The place of the next window is chosen beforehand, unless one is already chosen or the
/// floating layer is up.
pub open spec fn preselect_plan(
    wm: WindowManagerView,
    direction: OperationDirection,
) -> CommandPlanView {
    match wm.workspace() {
        Ok(workspace) => if workspace.preselected_container_idx is None && workspace.layer
            == WorkspaceLayer::Tiling {
            plan::plan_of(
                seq![
                    Operation::PreselectContainerInDirection(direction),
                    Operation::UpdateWorkspace,
                ],
            )
        } else {
            plan::plan_nothing()
        },
        Err(error) => plan::plan_failure(error),
    }
}

/// The place of the next window is no longer chosen beforehand.
pub open spec fn cancel_preselect_plan(wm: WindowManagerView) -> CommandPlanView {
    match wm.workspace() {
        Ok(_) => plan::plan_of(seq![Operation::CancelPreselect, Operation::UpdateWorkspace]),
        Err(error) => plan::plan_failure(error),
    }
}

/// What a command that acts on windows and containers comes to.
pub open spec fn windows_effect(
    wm: WindowManagerView,
    message: SocketMessage,
    sight: CommandSightView,
) -> (WindowManagerView, CommandPlanView) {
    match message {
        SocketMessage::PromoteWindow(direction) => (
            wm,
            plan::plan_of(
                seq![
                    Operation::FocusContainerInDirection(direction),
                    Operation::PromoteContainerToFront,
                ],
            ),
        ),
        SocketMessage::EagerFocus(_) => eager_focus_effect(wm, sight),
        SocketMessage::FocusWindow(direction) => (
            wm,
            on_layer(
                wm,
                Operation::FocusContainerInDirection(direction),
                Operation::FocusFloatingWindowInDirection(direction),
            ),
        ),
        SocketMessage::MoveWindow(direction) => (
            wm,
            on_layer(
                wm,
                Operation::MoveContainerInDirection(direction),
                Operation::MoveFloatingWindowInDirection(direction),
            ),
        ),
        SocketMessage::CycleFocusWindow(direction) => (
            wm,
            on_layer(
                wm,
                Operation::FocusContainerInCycleDirection(direction),
                Operation::FocusFloatingWindowInCycleDirection(direction),
            ),
        ),
        SocketMessage::PreselectDirection(direction) => (wm, preselect_plan(wm, direction)),
        SocketMessage::CancelPreselect => (wm, cancel_preselect_plan(wm)),
        SocketMessage::StackWindow(direction) => without_animation(
            wm,
            seq![Operation::AddWindowToContainer(direction)],
        ),
        SocketMessage::UnstackWindow => without_animation(
            wm,
            seq![Operation::RemoveWindowFromContainer, Operation::DestroyAllBorders],
        ),
        SocketMessage::StackAll => without_animation(wm, seq![Operation::StackAll]),
        SocketMessage::UnstackAll => without_animation(
            wm,
            seq![Operation::UnstackAll(true), Operation::DestroyAllBorders],
        ),
        SocketMessage::CycleStack(direction) => without_animation(
            wm,
            seq![Operation::CycleContainerWindowInDirection(direction)],
        ),
        SocketMessage::CycleStackIndex(direction) => without_animation(
            wm,
            seq![Operation::CycleContainerWindowIndexInDirection(direction)],
        ),
        SocketMessage::FocusStackWindow(idx) => focus_stack_effect(
            wm,
            idx,
            sight.cursor_monitor_idx,
        ),
        SocketMessage::LockMonitorWorkspaceContainer(m, w, c) => lock_effect(wm, m, w, c, true),
        SocketMessage::UnlockMonitorWorkspaceContainer(m, w, c) => lock_effect(wm, m, w, c, false),
        SocketMessage::ResizeWindowEdge(direction, sizing) => (
            wm,
            plan::plan_of(
                seq![Operation::ResizeWindow(direction, sizing, wm.resize_delta, true)],
            ),
        ),
        SocketMessage::ResizeWindowAxis(axis, sizing) => (
            wm,
            plan::plan_of(resize_axis(axis, sizing, wm.resize_delta)),
        ),
        SocketMessage::Minimize => (
            wm,
            if sight.foreground is Some {
                plan::plan_of(seq![Operation::MinimizeForegroundWindow])
            } else {
                plan::plan_failure(CommandError::NoForegroundWindow)
            },
        ),
        SocketMessage::Close => (
            wm,
            if sight.foreground is Some {
                plan::plan_of(seq![Operation::CloseForegroundWindow])
            } else {
                plan::plan_failure(CommandError::NoForegroundWindow)
            },
        ),
        _ => focus::focus_effect(wm, message, sight),
    }
}

impl WindowManager {
    fn plan_on_layer(&self, tiling: Operation, floating: Operation) -> (plan: CommandPlan)
        ensures
            plan.deep_view() == on_layer(self.deep_view(), tiling, floating),
    {
        match self.workspace() {
            Ok(workspace) => match workspace.layer {
                WorkspaceLayer::Tiling => CommandPlan::single(tiling),
                WorkspaceLayer::Floating => CommandPlan::single(floating),
            },
            Err(error) => CommandPlan::failed(error),
        }
    }

    fn plan_without_animation(&mut self, operations: Vec<Operation>) -> (plan: CommandPlan)
        ensures
            (final(self).deep_view(), plan.deep_view()) == without_animation(
                old(self).deep_view(),
                operations@,
            ),
    {
        let restore: bool = self.animation.enabled.global;
        self.animation.enabled.global = false;
        let mut operations = operations;
        operations.push(Operation::SetGlobalAnimation(restore));
        CommandPlan::of(operations)
    }

    fn one_without_animation(&mut self, operation: Operation) -> (plan: CommandPlan)
        ensures
            (final(self).deep_view(), plan.deep_view()) == without_animation(
                old(self).deep_view(),
                seq![operation],
            ),
    {
        let operations = vec![operation];
        assert(operations@ =~= seq![operation]);
        self.plan_without_animation(operations)
    }

    fn two_without_animation(&mut self, first: Operation, second: Operation) -> (plan: CommandPlan)
        ensures
            (final(self).deep_view(), plan.deep_view()) == without_animation(
                old(self).deep_view(),
                seq![first, second],
            ),
    {
        let operations = vec![first, second];
        assert(operations@ =~= seq![first, second]);
        self.plan_without_animation(operations)
    }

    fn focus_stack_window(&mut self, idx: usize, cursor: Option<usize>) -> (plan: CommandPlan)
        ensures
            (final(self).deep_view(), plan.deep_view()) == focus_stack_effect(
                old(self).deep_view(),
                idx,
                cursor,
            ),
    {
        if let Some(m) = cursor {
            if let Err(error) = self.focus_monitor(m) {
                return CommandPlan::failed(error);
            }
        }
        self.one_without_animation(Operation::FocusContainerWindow(idx))
    }

    fn preselect(&self, direction: OperationDirection) -> (plan: CommandPlan)
        ensures
            plan.deep_view() == preselect_plan(self.deep_view(), direction),
    {
        match self.workspace() {
            Ok(workspace) => {
                let tiling: bool = match workspace.layer {
                    WorkspaceLayer::Tiling => true,
                    WorkspaceLayer::Floating => false,
                };
                if workspace.preselected_container_idx.is_none() && tiling {
                    CommandPlan::pair(
                        Operation::PreselectContainerInDirection(direction),
                        Operation::UpdateWorkspace,
                    )
                } else {
                    CommandPlan::nothing()
                }
            },
            Err(error) => CommandPlan::failed(error),
        }
    }

    fn cancel_preselect(&self) -> (plan: CommandPlan)
        ensures
            plan.deep_view() == cancel_preselect_plan(self.deep_view()),
    {
        match self.workspace() {
            Ok(_) => CommandPlan::pair(Operation::CancelPreselect, Operation::UpdateWorkspace),
            Err(error) => CommandPlan::failed(error),
        }
    }

    fn set_lock(&mut self, m: usize, w: usize, c: usize, locked: bool) -> (plan: CommandPlan)
        ensures
            (final(self).deep_view(), plan.deep_view()) == lock_effect(
                old(self).deep_view(),
                m,
                w,
                c,
                locked,
            ),
    {
        if m >= self.monitors.len() {
            return CommandPlan::failed(CommandError::NoMonitorAtIndex);
        }
        if w >= self.monitors[m].workspaces.len() {
            return CommandPlan::failed(CommandError::NoWorkspaceAtIndex);
        }
        let ghost before = self.deep_view();
        let ghost there = self.deep_view().monitors[m as int].workspaces[w as int];
        let workspace = self.workspace_at_mut(m, w);
        assert(workspace.deep_view() == there);
        if c < workspace.containers.len() {
            workspace.containers[c].locked = locked;
        }
        assert(workspace.containers.deep_view() =~= with_lock(there, c, locked).containers);
        CommandPlan::nothing()
    }

    fn resize_along(&self, axis: Axis, sizing: Sizing) -> (plan: CommandPlan)
        ensures
            plan.deep_view() == plan::plan_of(resize_axis(axis, sizing, self.resize_delta)),
    {
        let delta: i32 = self.resize_delta;
        let mut operations: Vec<Operation> = Vec::new();
        match axis {
            Axis::Horizontal | Axis::HorizontalAndVertical => {
                operations.push(
                    Operation::ResizeWindow(OperationDirection::Left, sizing, delta, false),
                );
                operations.push(
                    Operation::ResizeWindow(OperationDirection::Right, sizing, delta, false),
                );
            },
            Axis::Vertical => {},
        }
        match axis {
            Axis::Vertical | Axis::HorizontalAndVertical => {
                operations.push(
                    Operation::ResizeWindow(OperationDirection::Up, sizing, delta, false),
                );
                operations.push(
                    Operation::ResizeWindow(OperationDirection::Down, sizing, delta, false),
                );
            },
            Axis::Horizontal => {},
        }
        operations.push(Operation::UpdateFocusedWorkspace(false, false));
        assert(operations@ =~= resize_axis(axis, sizing, delta));
        CommandPlan::of(operations)
    }

    fn locate(&self, sight: &CommandSight) -> (place: Option<
        (usize, usize, WorkspaceWindowLocation),
    >)
        ensures
            place == located(sight.deep_view().exe_locations, self.deep_view().monitors, 0),
            place matches Some((m, w, _)) ==> m < self.monitors.len() && w
                < self.monitors[m as int].workspaces.len(),
    {
        let mut m: usize = 0;
        while m < self.monitors.len() && m < sight.exe_locations.len()
            invariant
                m <= self.monitors.len(),
                located(sight.deep_view().exe_locations, self.deep_view().monitors, 0) == located(
                    sight.deep_view().exe_locations,
                    self.deep_view().monitors,
                    m as int,
                ),
            decreases self.monitors.len() - m,
        {
            let row = &sight.exe_locations[m];
            let workspaces: usize = self.monitors[m].workspaces.len();
            assert(sight.deep_view().exe_locations[m as int] == row@);
            assert(self.deep_view().monitors[m as int].workspaces.len() == workspaces);
            if let Some((w, location)) = locate_on(row, workspaces) {
                return Some((m, w, location));
            }
            m += 1;
        }
        None
    }

    fn eager_focus(&mut self, sight: &CommandSight) -> (plan: CommandPlan)
        ensures
            (final(self).deep_view(), plan.deep_view()) == eager_focus_effect(
                old(self).deep_view(),
                sight.deep_view(),
            ),
    {
        let (m, w, location) = match self.locate(sight) {
            Some(place) => place,
            None => {
                return CommandPlan::nothing();
            },
        };
        let mouse_follows_focus: bool = self.mouse_follows_focus;
        let mut operations: Vec<Operation> = Vec::new();
        let focused: usize = self.monitors[m].focused_workspace;
        if focused != w {
            operations.push(Operation::FocusMonitorWorkspace(m, w));
        }
        if m != self.focused_monitor {
            operations.push(Operation::FocusMonitor(m));
        }
        let workspace = &self.monitors[m].workspaces[w];
        assert(self.deep_view().monitors[m as int].workspaces[w as int] == workspace.deep_view());
        match location {
            WorkspaceWindowLocation::Monocle(window) => {
                operations.push(Operation::FocusContainerWindow(window));
            },
            WorkspaceWindowLocation::Maximized => {
                if let Some(window) = &workspace.maximized_window {
                    operations.push(Operation::FocusWindow(window.id, mouse_follows_focus));
                }
            },
            WorkspaceWindowLocation::Container(container, window) => {
                if container != workspace.focused_container {
                    operations.push(Operation::FocusContainer(container));
                }
                operations.push(Operation::FocusContainerWindow(window));
            },
            WorkspaceWindowLocation::Floating(window) => {
                if window < workspace.floating_windows.len() {
                    operations.push(
                        Operation::FocusWindow(
                            workspace.floating_windows[window].id,
                            mouse_follows_focus,
                        ),
                    );
                }
            },
        }
        if focused != w {
            operations.push(Operation::LoadFocusedWorkspace(m, mouse_follows_focus));
            self.monitor_mut(m).last_focused_workspace = Some(focused);
        }
        proof {
            let expected = eager_focus_effect(old(self).deep_view(), sight.deep_view()).1;
            assert(operations@ =~= expected.operations);
        }
        CommandPlan::of(operations)
    }

    /// Carries out a command that acts on windows and containers.
    pub fn windows_command(&mut self, message: SocketMessage, sight: &CommandSight) -> (plan:
        CommandPlan)
        ensures
            (final(self).deep_view(), plan.deep_view()) == windows_effect(
                old(self).deep_view(),
                message,
                sight.deep_view(),
            ),
    {
        match message {
            SocketMessage::PromoteWindow(direction) => CommandPlan::pair(
                Operation::FocusContainerInDirection(direction),
                Operation::PromoteContainerToFront,
            ),
            SocketMessage::EagerFocus(_) => self.eager_focus(sight),
            SocketMessage::FocusWindow(direction) => self.plan_on_layer(
                Operation::FocusContainerInDirection(direction),
                Operation::FocusFloatingWindowInDirection(direction),
            ),
            SocketMessage::MoveWindow(direction) => self.plan_on_layer(
                Operation::MoveContainerInDirection(direction),
                Operation::MoveFloatingWindowInDirection(direction),
            ),
            SocketMessage::CycleFocusWindow(direction) => self.plan_on_layer(
                Operation::FocusContainerInCycleDirection(direction),
                Operation::FocusFloatingWindowInCycleDirection(direction),
            ),
            SocketMessage::PreselectDirection(direction) => self.preselect(direction),
            SocketMessage::CancelPreselect => self.cancel_preselect(),
            SocketMessage::StackWindow(direction) => self.one_without_animation(Operation::AddWindowToContainer(direction)),
            SocketMessage::UnstackWindow => self.two_without_animation(Operation::RemoveWindowFromContainer, Operation::DestroyAllBorders),
            SocketMessage::StackAll => self.one_without_animation(Operation::StackAll),
            SocketMessage::UnstackAll => self.two_without_animation(Operation::UnstackAll(true), Operation::DestroyAllBorders),
            SocketMessage::CycleStack(direction) => self.one_without_animation(Operation::CycleContainerWindowInDirection(direction)),
            SocketMessage::CycleStackIndex(direction) => self.one_without_animation(Operation::CycleContainerWindowIndexInDirection(direction)),
            SocketMessage::FocusStackWindow(idx) => self.focus_stack_window(
                idx,
                sight.cursor_monitor_idx,
            ),
            SocketMessage::LockMonitorWorkspaceContainer(m, w, c) => self.set_lock(m, w, c, true),
            SocketMessage::UnlockMonitorWorkspaceContainer(m, w, c) => self.set_lock(
                m,
                w,
                c,
                false,
            ),
            SocketMessage::ResizeWindowEdge(direction, sizing) => CommandPlan::single(
                Operation::ResizeWindow(direction, sizing, self.resize_delta, true),
            ),
            SocketMessage::ResizeWindowAxis(axis, sizing) => self.resize_along(axis, sizing),
            SocketMessage::Minimize => if sight.foreground.is_some() {
                CommandPlan::single(Operation::MinimizeForegroundWindow)
            } else {
                CommandPlan::failed(CommandError::NoForegroundWindow)
            },
            SocketMessage::Close => if sight.foreground.is_some() {
                CommandPlan::single(Operation::CloseForegroundWindow)
            } else {
                CommandPlan::failed(CommandError::NoForegroundWindow)
            },
            message => self.focus_command(message, sight),
        }
    }
}

fn locate_on(row: &Vec<Option<WorkspaceWindowLocation>>, workspaces: usize) -> (place: Option<
    (usize, WorkspaceWindowLocation),
>)
    ensures
        place == located_on(row@, workspaces as int, 0),
        place matches Some((w, _)) ==> w < workspaces,
{
    let mut w: usize = 0;
    while w < workspaces && w < row.len()
        invariant
            w <= workspaces,
            located_on(row@, workspaces as int, 0) == located_on(
                row@,
                workspaces as int,
                w as int,
            ),
        decreases workspaces - w,
    {
        if let Some(location) = row[w] {
            return Some((w, location));
        }
        w += 1;
    }
    None
}

} // verus!
