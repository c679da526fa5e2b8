//! Commands that move containers and workspaces elsewhere.

use crate::message::SocketMessage;
use crate::operation::Operation;
use crate::process_command::behaviour;
use crate::process_command::focus;
use crate::process_command::plan;
use crate::process_command::plan::CommandPlan;
use crate::process_command::plan::CommandPlanView;
use crate::process_command::plan::CommandSight;
use crate::process_command::plan::CommandSightView;
use crate::settings;
use crate::settings::CycleDirection;
use crate::window_manager::CommandError;
use crate::window_manager::WindowManager;
use crate::window_manager::WindowManagerView;
use vstd::prelude::*;

verus! {

/// The focused container goes to the workspace that had the focus before, followed there or
/// not, and the one that has it now is remembered in its place.
pub open spec fn to_last_workspace_effect(
    wm: WindowManagerView,
    follow: bool,
    cursor: Option<usize>,
) -> (WindowManagerView, CommandPlanView) {
    let there = focus::cursor_focus(wm, cursor);
    (
        there,
        match there.focused() {
            Some(monitor) => plan::plan_of(
                match monitor.last_focused_workspace {
                    Some(last) => seq![
                        Operation::MoveContainerToWorkspace(last, follow),
                        Operation::SetLastFocusedWorkspace(monitor.focused_workspace),
                    ],
                    None => seq![Operation::SetLastFocusedWorkspace(monitor.focused_workspace)],
                },
            ),
            None => plan::plan_failure(CommandError::NoMonitor),
        },
    )
}

/// The focused container goes to the next workspace.
pub open spec fn to_next_workspace_plan(
    wm: WindowManagerView,
    direction: CycleDirection,
    follow: bool,
) -> CommandPlanView {
    match focus::next_workspace(wm, direction) {
        Ok(w) => plan::plan_of(seq![Operation::MoveContainerToWorkspace(w, follow)]),
        Err(error) => plan::plan_failure(error),
    }
}

/// The next monitor, or why there is none.
pub open spec fn next_monitor(wm: WindowManagerView, direction: CycleDirection) -> Result<
    usize,
    CommandError,
> {
    if wm.monitors.len() == 0 {
        Err(CommandError::AtLeastOneMonitor)
    } else {
        Ok(
            settings::cycled(
                direction,
                wm.focused_monitor as int,
                wm.monitors.len() as int,
            ) as usize,
        )
    }
}

/// The focused container goes to the next monitor.
pub open spec fn to_next_monitor_plan(
    wm: WindowManagerView,
    direction: CycleDirection,
    follow: bool,
) -> CommandPlanView {
    match next_monitor(wm, direction) {
        Ok(m) => plan::plan_of(seq![Operation::MoveContainerToMonitor(m, None, follow)]),
        Err(error) => plan::plan_failure(error),
    }
}

/// The focused workspace goes to the next monitor.
pub open spec fn workspace_to_next_monitor_plan(
    wm: WindowManagerView,
    direction: CycleDirection,
) -> CommandPlanView {
    match next_monitor(wm, direction) {
        Ok(m) => plan::plan_of(seq![Operation::MoveWorkspaceToMonitor(m)]),
        Err(error) => plan::plan_failure(error),
    }
}

/// The focused container goes to the workspace that goes by a name, if there is one.
pub open spec fn to_named_workspace_plan(
    wm: WindowManagerView,
    name: Seq<char>,
    follow: bool,
) -> CommandPlanView {
    match wm.named(name) {
        Some((m, w)) => plan::plan_of(
            seq![Operation::MoveContainerToMonitor(m, Some(w), follow)],
        ),
        None => plan::plan_nothing(),
    }
}

/// What a command that moves containers and workspaces elsewhere comes to.
pub open spec fn transfer_effect(
    wm: WindowManagerView,
    message: SocketMessage,
    sight: CommandSightView,
) -> (WindowManagerView, CommandPlanView) {
    match message {
        SocketMessage::MoveContainerToWorkspaceNumber(w) => (
            wm,
            plan::plan_of(seq![Operation::MoveContainerToWorkspace(w, true)]),
        ),
        SocketMessage::SendContainerToWorkspaceNumber(w) => (
            wm,
            plan::plan_of(seq![Operation::MoveContainerToWorkspace(w, false)]),
        ),
        SocketMessage::MoveContainerToLastWorkspace => to_last_workspace_effect(
            wm,
            true,
            sight.cursor_monitor_idx,
        ),
        SocketMessage::SendContainerToLastWorkspace => to_last_workspace_effect(
            wm,
            false,
            sight.cursor_monitor_idx,
        ),
        SocketMessage::CycleMoveContainerToWorkspace(direction) => (
            wm,
            to_next_workspace_plan(wm, direction, true),
        ),
        SocketMessage::CycleSendContainerToWorkspace(direction) => (
            wm,
            to_next_workspace_plan(wm, direction, false),
        ),
        SocketMessage::MoveContainerToMonitorNumber(m) => (
            wm,
            plan::plan_of(seq![Operation::MoveContainerToMonitor(m, None, true)]),
        ),
        SocketMessage::SendContainerToMonitorNumber(m) => (
            wm,
            plan::plan_of(seq![Operation::MoveContainerToMonitor(m, None, false)]),
        ),
        SocketMessage::CycleMoveContainerToMonitor(direction) => (
            wm,
            to_next_monitor_plan(wm, direction, true),
        ),
        SocketMessage::CycleSendContainerToMonitor(direction) => (
            wm,
            to_next_monitor_plan(wm, direction, false),
        ),
        SocketMessage::MoveContainerToMonitorWorkspaceNumber(m, w) => (
            wm,
            plan::plan_of(seq![Operation::MoveContainerToMonitor(m, Some(w), true)]),
        ),
        SocketMessage::SendContainerToMonitorWorkspaceNumber(m, w) => (
            wm,
            plan::plan_of(seq![Operation::MoveContainerToMonitor(m, Some(w), false)]),
        ),
        SocketMessage::MoveContainerToNamedWorkspace(name) => (
            wm,
            to_named_workspace_plan(wm, name@, true),
        ),
        SocketMessage::SendContainerToNamedWorkspace(name) => (
            wm,
            to_named_workspace_plan(wm, name@, false),
        ),
        SocketMessage::SwapWorkspacesToMonitorNumber(m) => (
            wm,
            plan::plan_of(seq![Operation::SwapFocusedMonitor(m)]),
        ),
        SocketMessage::MoveWorkspaceToMonitorNumber(m) => (
            wm,
            plan::plan_of(seq![Operation::MoveWorkspaceToMonitor(m)]),
        ),
        SocketMessage::CycleMoveWorkspaceToMonitor(direction) => (
            wm,
            workspace_to_next_monitor_plan(wm, direction),
        ),
        _ => behaviour::behaviour_effect(wm, message, sight),
    }
}

impl WindowManager {
    fn to_last_workspace(&mut self, follow: bool, cursor: Option<usize>) -> (plan: CommandPlan)
        ensures
            (final(self).deep_view(), plan.deep_view()) == to_last_workspace_effect(
                old(self).deep_view(),
                follow,
                cursor,
            ),
    {
        self.follow_cursor(cursor);
        match self.focused() {
            Some(monitor) => match monitor.last_focused_workspace {
                Some(last) => CommandPlan::pair(
                    Operation::MoveContainerToWorkspace(last, follow),
                    Operation::SetLastFocusedWorkspace(monitor.focused_workspace),
                ),
                None => CommandPlan::single(
                    Operation::SetLastFocusedWorkspace(monitor.focused_workspace),
                ),
            },
            None => CommandPlan::failed(CommandError::NoMonitor),
        }
    }

    fn to_next_workspace(&self, direction: CycleDirection, follow: bool) -> (plan: CommandPlan)
        ensures
            plan.deep_view() == to_next_workspace_plan(self.deep_view(), direction, follow),
    {
        match self.next_workspace_idx(direction) {
            Ok(w) => CommandPlan::single(Operation::MoveContainerToWorkspace(w, follow)),
            Err(error) => CommandPlan::failed(error),
        }
    }

    fn next_monitor_idx(&self, direction: CycleDirection) -> (next: Result<usize, CommandError>)
        ensures
            next == next_monitor(self.deep_view(), direction),
    {
        if self.monitors.len() == 0 {
            Err(CommandError::AtLeastOneMonitor)
        } else {
            Ok(direction.next_idx(self.focused_monitor, self.monitors.len()))
        }
    }

    fn to_next_monitor(&self, direction: CycleDirection, follow: bool) -> (plan: CommandPlan)
        ensures
            plan.deep_view() == to_next_monitor_plan(self.deep_view(), direction, follow),
    {
        match self.next_monitor_idx(direction) {
            Ok(m) => CommandPlan::single(Operation::MoveContainerToMonitor(m, None, follow)),
            Err(error) => CommandPlan::failed(error),
        }
    }

    fn workspace_to_next_monitor(&self, direction: CycleDirection) -> (plan: CommandPlan)
        ensures
            plan.deep_view() == workspace_to_next_monitor_plan(self.deep_view(), direction),
    {
        match self.next_monitor_idx(direction) {
            Ok(m) => CommandPlan::single(Operation::MoveWorkspaceToMonitor(m)),
            Err(error) => CommandPlan::failed(error),
        }
    }

    fn to_named_workspace(&self, name: &str, follow: bool) -> (plan: CommandPlan)
        ensures
            plan.deep_view() == to_named_workspace_plan(self.deep_view(), name@, follow),
    {
        match self.monitor_workspace_index_by_name(name) {
            Some((m, w)) => CommandPlan::single(
                Operation::MoveContainerToMonitor(m, Some(w), follow),
            ),
            None => CommandPlan::nothing(),
        }
    }

    /// Carries out a command that moves containers and workspaces elsewhere.
    pub fn transfer_command(&mut self, message: SocketMessage, sight: &CommandSight) -> (plan:
        CommandPlan)
        ensures
            (final(self).deep_view(), plan.deep_view()) == transfer_effect(
                old(self).deep_view(),
                message,
                sight.deep_view(),
            ),
    {
        match message {
            SocketMessage::MoveContainerToWorkspaceNumber(w) => CommandPlan::single(
                Operation::MoveContainerToWorkspace(w, true),
            ),
            SocketMessage::SendContainerToWorkspaceNumber(w) => CommandPlan::single(
                Operation::MoveContainerToWorkspace(w, false),
            ),
            SocketMessage::MoveContainerToLastWorkspace => self.to_last_workspace(
                true,
                sight.cursor_monitor_idx,
            ),
            SocketMessage::SendContainerToLastWorkspace => self.to_last_workspace(
                false,
                sight.cursor_monitor_idx,
            ),
            SocketMessage::CycleMoveContainerToWorkspace(direction) => self.to_next_workspace(
                direction,
                true,
            ),
            SocketMessage::CycleSendContainerToWorkspace(direction) => self.to_next_workspace(
                direction,
                false,
            ),
            SocketMessage::MoveContainerToMonitorNumber(m) => CommandPlan::single(
                Operation::MoveContainerToMonitor(m, None, true),
            ),
            SocketMessage::SendContainerToMonitorNumber(m) => CommandPlan::single(
                Operation::MoveContainerToMonitor(m, None, false),
            ),
            SocketMessage::CycleMoveContainerToMonitor(direction) => self.to_next_monitor(
                direction,
                true,
            ),
            SocketMessage::CycleSendContainerToMonitor(direction) => self.to_next_monitor(
                direction,
                false,
            ),
            SocketMessage::MoveContainerToMonitorWorkspaceNumber(m, w) => CommandPlan::single(
                Operation::MoveContainerToMonitor(m, Some(w), true),
            ),
            SocketMessage::SendContainerToMonitorWorkspaceNumber(m, w) => CommandPlan::single(
                Operation::MoveContainerToMonitor(m, Some(w), false),
            ),
            SocketMessage::MoveContainerToNamedWorkspace(name) => self.to_named_workspace(
                name.as_str(),
                true,
            ),
            SocketMessage::SendContainerToNamedWorkspace(name) => self.to_named_workspace(
                name.as_str(),
                false,
            ),
            SocketMessage::SwapWorkspacesToMonitorNumber(m) => CommandPlan::single(
                Operation::SwapFocusedMonitor(m),
            ),
            SocketMessage::MoveWorkspaceToMonitorNumber(m) => CommandPlan::single(
                Operation::MoveWorkspaceToMonitor(m),
            ),
            SocketMessage::CycleMoveWorkspaceToMonitor(
                direction,
            ) => self.workspace_to_next_monitor(direction),
            message => self.behaviour_command(message, sight),
        }
    }
}

} // verus!
