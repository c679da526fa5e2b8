//! Commands that change settings.

use crate::focus_follows_mouse;
use crate::focus_follows_mouse::Follower;
use crate::geometry::Rect;
use crate::message::SocketMessage;
use crate::operation::Operation;
use crate::process_command::looks;
use crate::process_command::plan;
use crate::process_command::plan::CommandPlan;
use crate::process_command::plan::CommandPlanView;
use crate::process_command::plan::CommandSight;
use crate::process_command::plan::CommandSightView;
use crate::settings;
use crate::settings::LayoutOptions;
use crate::settings::WindowManagementBehaviour;
use crate::window_manager::MonitorView;
use crate::window_manager::WindowManager;
use crate::window_manager::WindowManagerView;
use crate::window_manager::WorkspaceView;
use vstd::prelude::*;

verus! {

/// The focused workspace gets a container behaviour of its own: the other one than it had,
/// or the other one than everywhere else.
pub open spec fn toggle_workspace_container_effect(
    wm: WindowManagerView,
) -> (WindowManagerView, CommandPlanView) {
    match wm.workspace() {
        Ok(workspace) => (
            wm.with_workspace(
                WorkspaceView {
                    window_container_behaviour: Some(
                        settings::other_container_behaviour(
                            match workspace.window_container_behaviour {
                                Some(behaviour) => behaviour,
                                None => wm.window_management_behaviour.current_behaviour,
                            },
                        ),
                    ),
                    ..workspace
                },
            ),
            plan::plan_nothing(),
        ),
        Err(error) => (wm, plan::plan_failure(error)),
    }
}

/// The focused workspace gets a float override of its own: the opposite of what it had, or
/// of what holds everywhere else.
pub open spec fn toggle_workspace_float_effect(
    wm: WindowManagerView,
) -> (WindowManagerView, CommandPlanView) {
    match wm.workspace() {
        Ok(workspace) => (
            wm.with_workspace(
                WorkspaceView {
                    float_override: Some(
                        !match workspace.float_override {
                            Some(float_override) => float_override,
                            None => wm.window_management_behaviour.float_override,
                        },
                    ),
                    ..workspace
                },
            ),
            plan::plan_nothing(),
        ),
        Err(error) => (wm, plan::plan_failure(error)),
    }
}

/// The focused workspace stops or starts making room by the number of its windows.
pub open spec fn toggle_window_offset_effect(
    wm: WindowManagerView,
) -> (WindowManagerView, CommandPlanView) {
    match wm.workspace() {
        Ok(workspace) => (
            wm.with_workspace(
                WorkspaceView {
                    apply_window_based_work_area_offset:
                        !workspace.apply_window_based_work_area_offset,
                    ..workspace
                },
            ),
            plan::plan_of(seq![Operation::RetileAll(true)]),
        ),
        Err(error) => (wm, plan::plan_failure(error)),
    }
}

/// A monitor gets a work area offset. A monitor that is not there is not an error.
pub open spec fn monitor_offset_effect(
    wm: WindowManagerView,
    m: usize,
    rect: Rect,
) -> (WindowManagerView, CommandPlanView) {
    if m < wm.monitors.len() {
        (
            wm.with_monitor(
                m as int,
                MonitorView { work_area_offset: Some(rect), ..wm.monitors[m as int] },
            ),
            plan::plan_of(seq![Operation::RetileAll(false)]),
        )
    } else {
        (wm, plan::plan_nothing())
    }
}

/// A workspace gets a work area offset. A workspace that is not there is not an error.
pub open spec fn workspace_offset_effect(
    wm: WindowManagerView,
    m: usize,
    w: usize,
    rect: Rect,
) -> (WindowManagerView, CommandPlanView) {
    if m < wm.monitors.len() && w < wm.monitors[m as int].workspaces.len() {
        (
            wm.with_workspace_at(
                m as int,
                w as int,
                WorkspaceView {
                    work_area_offset: Some(rect),
                    ..wm.monitors[m as int].workspaces[w as int]
                },
            ),
            plan::plan_of(seq![Operation::RetileAll(false)]),
        )
    } else {
        (wm, plan::plan_nothing())
    }
}

/// The focused workspace scrolls through so many columns.
pub open spec fn columns_effect(
    wm: WindowManagerView,
    columns: usize,
) -> (WindowManagerView, CommandPlanView) {
    match wm.workspace() {
        Ok(workspace) => (
            wm.with_workspace(
                WorkspaceView {
                    layout_options: Some(
                        settings::with_columns(workspace.layout_options, columns),
                    ),
                    ..workspace
                },
            ),
            plan::plan_of(seq![Operation::UpdateFocusedWorkspace(false, false)]),
        ),
        Err(error) => (wm, plan::plan_failure(error)),
    }
}

/// The focused workspace gets layout options, if it had none, and its ratios are set.
pub open spec fn ratios_effect(wm: WindowManagerView) -> (WindowManagerView, CommandPlanView) {
    match wm.workspace() {
        Ok(workspace) => (
            wm.with_workspace(
                WorkspaceView {
                    layout_options: Some(
                        match workspace.layout_options {
                            Some(options) => options,
                            None => LayoutOptions { scrolling: None },
                        },
                    ),
                    ..workspace
                },
            ),
            plan::plan_of(
                seq![
                    Operation::ApplyLayoutRatios,
                    Operation::UpdateFocusedWorkspace(false, false),
                ],
            ),
        ),
        Err(error) => (wm, plan::plan_failure(error)),
    }
}

/// Where the preference for an index stands, counting from `from`.
pub open spec fn preference_at(
    preferences: Seq<(usize, Seq<char>)>,
    index: usize,
    from: int,
) -> Option<int>
    decreases preferences.len() - from,
{
    if from < 0 || from >= preferences.len() {
        None
    } else if preferences[from].0 == index {
        Some(from)
    } else {
        preference_at(preferences, index, from + 1)
    }
}

/// The preferences with a display preferred at an index, in place of any other.
pub open spec fn with_preference(
    preferences: Seq<(usize, Seq<char>)>,
    index: usize,
    display: Seq<char>,
) -> Seq<(usize, Seq<char>)> {
    match preference_at(preferences, index, 0) {
        Some(i) => preferences.update(i, (index, display)),
        None => preferences.push((index, display)),
    }
}

/// What a command that changes a setting comes to.
pub open spec fn behaviour_effect(
    wm: WindowManagerView,
    message: SocketMessage,
    sight: CommandSightView,
) -> (WindowManagerView, CommandPlanView) {
    match message {
        SocketMessage::TogglePause => (
            WindowManagerView { is_paused: !wm.is_paused, ..wm },
            plan::plan_nothing(),
        ),
        SocketMessage::ToggleWorkspaceWindowContainerBehaviour => toggle_workspace_container_effect(
            wm,
        ),
        SocketMessage::ToggleWorkspaceFloatOverride => toggle_workspace_float_effect(wm),
        SocketMessage::ToggleWindowContainerBehaviour => (
            WindowManagerView {
                window_management_behaviour: WindowManagementBehaviour {
                    current_behaviour: settings::other_container_behaviour(
                        wm.window_management_behaviour.current_behaviour,
                    ),
                    ..wm.window_management_behaviour
                },
                ..wm
            },
            plan::plan_nothing(),
        ),
        SocketMessage::ToggleFloatOverride => (
            WindowManagerView {
                window_management_behaviour: WindowManagementBehaviour {
                    float_override: !wm.window_management_behaviour.float_override,
                    ..wm.window_management_behaviour
                },
                ..wm
            },
            plan::plan_nothing(),
        ),
        SocketMessage::ToggleWindowBasedWorkAreaOffset => toggle_window_offset_effect(wm),
        SocketMessage::ToggleCrossMonitorMoveBehaviour => (
            WindowManagerView {
                cross_monitor_move_behaviour: settings::other_move_behaviour(
                    wm.cross_monitor_move_behaviour,
                ),
                ..wm
            },
            plan::plan_nothing(),
        ),
        SocketMessage::CrossMonitorMoveBehaviour(behaviour) => (
            WindowManagerView { cross_monitor_move_behaviour: behaviour, ..wm },
            plan::plan_nothing(),
        ),
        SocketMessage::ToggleMonocleFocusBehaviour => (
            WindowManagerView {
                monocle_focus_behaviour: settings::other_monocle_behaviour(
                    wm.monocle_focus_behaviour,
                ),
                ..wm
            },
            plan::plan_nothing(),
        ),
        SocketMessage::MonocleFocusBehaviour(behaviour) => (
            WindowManagerView { monocle_focus_behaviour: behaviour, ..wm },
            plan::plan_nothing(),
        ),
        SocketMessage::UnmanagedWindowOperationBehaviour(behaviour) => (
            WindowManagerView { unmanaged_window_operation_behaviour: behaviour, ..wm },
            plan::plan_nothing(),
        ),
        SocketMessage::MouseFollowsFocus(enable) => (
            WindowManagerView { mouse_follows_focus: enable, ..wm },
            plan::plan_nothing(),
        ),
        SocketMessage::ToggleMouseFollowsFocus => (
            WindowManagerView { mouse_follows_focus: !wm.mouse_follows_focus, ..wm },
            plan::plan_nothing(),
        ),
        SocketMessage::FocusFollowsMouse(enable) => (
            WindowManagerView { follower: Follower { enabled: enable, ..wm.follower }, ..wm },
            plan::plan_nothing(),
        ),
        SocketMessage::ToggleFocusFollowsMouse => (
            WindowManagerView {
                follower: Follower { enabled: !wm.follower.enabled, ..wm.follower },
                ..wm
            },
            plan::plan_nothing(),
        ),
        SocketMessage::ResizeDelta(delta) => (
            WindowManagerView { resize_delta: delta, ..wm },
            plan::plan_nothing(),
        ),
        SocketMessage::WorkAreaOffset(rect) => (
            WindowManagerView { work_area_offset: Some(rect), ..wm },
            plan::plan_of(seq![Operation::RetileAll(false)]),
        ),
        SocketMessage::MonitorWorkAreaOffset(m, rect) => monitor_offset_effect(wm, m, rect),
        SocketMessage::WorkspaceWorkAreaOffset(m, w, rect) => workspace_offset_effect(
            wm,
            m,
            w,
            rect,
        ),
        SocketMessage::DisplayIndexPreference(index, display) => (
            WindowManagerView {
                display_index_preferences: with_preference(
                    wm.display_index_preferences,
                    index,
                    display@,
                ),
                ..wm
            },
            plan::plan_nothing(),
        ),
        SocketMessage::ScrollingLayoutColumns(columns) => columns_effect(wm, columns),
        SocketMessage::LayoutRatios => ratios_effect(wm),
        _ => looks::looks_effect(wm, message, sight),
    }
}

impl WindowManager {
    fn toggle_workspace_container_behaviour(&mut self) -> (plan: CommandPlan)
        ensures
            (final(self).deep_view(), plan.deep_view()) == toggle_workspace_container_effect(
                old(self).deep_view(),
            ),
    {
        let global = self.window_management_behaviour.current_behaviour;
        match self.workspace_mut() {
            Ok(workspace) => {
                let current = match workspace.window_container_behaviour {
                    Some(behaviour) => behaviour,
                    None => global,
                };
                workspace.window_container_behaviour = Some(current.toggled());
                CommandPlan::nothing()
            },
            Err(error) => CommandPlan::failed(error),
        }
    }

    fn toggle_workspace_float_override(&mut self) -> (plan: CommandPlan)
        ensures
            (final(self).deep_view(), plan.deep_view()) == toggle_workspace_float_effect(
                old(self).deep_view(),
            ),
    {
        let global: bool = self.window_management_behaviour.float_override;
        match self.workspace_mut() {
            Ok(workspace) => {
                let current: bool = match workspace.float_override {
                    Some(float_override) => float_override,
                    None => global,
                };
                workspace.float_override = Some(!current);
                CommandPlan::nothing()
            },
            Err(error) => CommandPlan::failed(error),
        }
    }

    fn toggle_window_offset(&mut self) -> (plan: CommandPlan)
        ensures
            (final(self).deep_view(), plan.deep_view()) == toggle_window_offset_effect(
                old(self).deep_view(),
            ),
    {
        match self.workspace_mut() {
            Ok(workspace) => {
                let applies: bool = workspace.apply_window_based_work_area_offset;
                workspace.apply_window_based_work_area_offset = !applies;
                CommandPlan::single(Operation::RetileAll(true))
            },
            Err(error) => CommandPlan::failed(error),
        }
    }

    fn set_monitor_offset(&mut self, m: usize, rect: Rect) -> (plan: CommandPlan)
        ensures
            (final(self).deep_view(), plan.deep_view()) == monitor_offset_effect(
                old(self).deep_view(),
                m,
                rect,
            ),
    {
        if m < self.monitors.len() {
            let ghost there = self.deep_view().monitors[m as int];
            let monitor = self.monitor_mut(m);
            assert(monitor.deep_view() == there);
            monitor.work_area_offset = Some(rect);
            CommandPlan::single(Operation::RetileAll(false))
        } else {
            CommandPlan::nothing()
        }
    }

    fn set_workspace_offset(&mut self, m: usize, w: usize, rect: Rect) -> (plan: CommandPlan)
        ensures
            (final(self).deep_view(), plan.deep_view()) == workspace_offset_effect(
                old(self).deep_view(),
                m,
                w,
                rect,
            ),
    {
        if m < self.monitors.len() && w < self.monitors[m].workspaces.len() {
            let ghost there = self.deep_view().monitors[m as int].workspaces[w as int];
            let workspace = self.workspace_at_mut(m, w);
            assert(workspace.deep_view() == there);
            workspace.work_area_offset = Some(rect);
            CommandPlan::single(Operation::RetileAll(false))
        } else {
            CommandPlan::nothing()
        }
    }

    fn set_columns(&mut self, columns: usize) -> (plan: CommandPlan)
        ensures
            (final(self).deep_view(), plan.deep_view()) == columns_effect(
                old(self).deep_view(),
                columns,
            ),
    {
        match self.workspace_mut() {
            Ok(workspace) => {
                let options = settings::set_columns(workspace.layout_options, columns);
                workspace.layout_options = Some(options);
                CommandPlan::single(Operation::UpdateFocusedWorkspace(false, false))
            },
            Err(error) => CommandPlan::failed(error),
        }
    }

    fn set_ratios(&mut self) -> (plan: CommandPlan)
        ensures
            (final(self).deep_view(), plan.deep_view()) == ratios_effect(old(self).deep_view()),
    {
        match self.workspace_mut() {
            Ok(workspace) => {
                let options = match workspace.layout_options {
                    Some(options) => options,
                    None => LayoutOptions { scrolling: None },
                };
                workspace.layout_options = Some(options);
                CommandPlan::pair(
                    Operation::ApplyLayoutRatios,
                    Operation::UpdateFocusedWorkspace(false, false),
                )
            },
            Err(error) => CommandPlan::failed(error),
        }
    }

    fn prefer_display(&mut self, index: usize, display: String) -> (plan: CommandPlan)
        ensures
            plan.deep_view() == plan::plan_nothing(),
            final(self).deep_view() == (WindowManagerView {
                display_index_preferences: with_preference(
                    old(self).deep_view().display_index_preferences,
                    index,
                    display@,
                ),
                ..old(self).deep_view()
            }),
    {
        let ghost before = self.display_index_preferences.deep_view();
        let mut i: usize = 0;
        while i < self.display_index_preferences.len()
            invariant
                i <= self.display_index_preferences.len(),
                before == self.display_index_preferences.deep_view(),
                *self == *old(self),
                preference_at(before, index, 0) == preference_at(before, index, i as int),
            decreases self.display_index_preferences.len() - i,
        {
            assert(before[i as int] == self.display_index_preferences[i as int].deep_view());
            if self.display_index_preferences[i].0 == index {
                self.display_index_preferences[i] = (index, display);
                assert(self.display_index_preferences.deep_view() =~= before.update(
                    i as int,
                    (index, display@),
                ));
                return CommandPlan::nothing();
            }
            i += 1;
        }
        self.display_index_preferences.push((index, display));
        assert(self.display_index_preferences.deep_view() =~= before.push((index, display@)));
        CommandPlan::nothing()
    }

    /// Carries out a command that changes a setting.
    pub fn behaviour_command(&mut self, message: SocketMessage, sight: &CommandSight) -> (plan:
        CommandPlan)
        ensures
            (final(self).deep_view(), plan.deep_view()) == behaviour_effect(
                old(self).deep_view(),
                message,
                sight.deep_view(),
            ),
    {
        match message {
            SocketMessage::TogglePause => {
                self.is_paused = !self.is_paused;
                CommandPlan::nothing()
            },
            SocketMessage::ToggleWorkspaceWindowContainerBehaviour =>
                self.toggle_workspace_container_behaviour(),
            SocketMessage::ToggleWorkspaceFloatOverride => self.toggle_workspace_float_override(),
            SocketMessage::ToggleWindowContainerBehaviour => {
                let behaviour = self.window_management_behaviour.current_behaviour;
                self.window_management_behaviour.current_behaviour = behaviour.toggled();
                CommandPlan::nothing()
            },
            SocketMessage::ToggleFloatOverride => {
                let float_override: bool = self.window_management_behaviour.float_override;
                self.window_management_behaviour.float_override = !float_override;
                CommandPlan::nothing()
            },
            SocketMessage::ToggleWindowBasedWorkAreaOffset => self.toggle_window_offset(),
            SocketMessage::ToggleCrossMonitorMoveBehaviour => {
                self.cross_monitor_move_behaviour = self.cross_monitor_move_behaviour.toggled();
                CommandPlan::nothing()
            },
            SocketMessage::CrossMonitorMoveBehaviour(behaviour) => {
                self.cross_monitor_move_behaviour = behaviour;
                CommandPlan::nothing()
            },
            SocketMessage::ToggleMonocleFocusBehaviour => {
                self.monocle_focus_behaviour = self.monocle_focus_behaviour.toggled();
                CommandPlan::nothing()
            },
            SocketMessage::MonocleFocusBehaviour(behaviour) => {
                self.monocle_focus_behaviour = behaviour;
                CommandPlan::nothing()
            },
            SocketMessage::UnmanagedWindowOperationBehaviour(behaviour) => {
                self.unmanaged_window_operation_behaviour = behaviour;
                CommandPlan::nothing()
            },
            SocketMessage::MouseFollowsFocus(enable) => {
                self.mouse_follows_focus = enable;
                CommandPlan::nothing()
            },
            SocketMessage::ToggleMouseFollowsFocus => {
                self.mouse_follows_focus = !self.mouse_follows_focus;
                CommandPlan::nothing()
            },
            SocketMessage::FocusFollowsMouse(enable) => {
                focus_follows_mouse::set_enabled(&mut self.follower, enable);
                CommandPlan::nothing()
            },
            SocketMessage::ToggleFocusFollowsMouse => {
                let enabled: bool = focus_follows_mouse::is_enabled(&self.follower);
                focus_follows_mouse::set_enabled(&mut self.follower, !enabled);
                CommandPlan::nothing()
            },
            SocketMessage::ResizeDelta(delta) => {
                self.resize_delta = delta;
                CommandPlan::nothing()
            },
            SocketMessage::WorkAreaOffset(rect) => {
                self.work_area_offset = Some(rect);
                CommandPlan::single(Operation::RetileAll(false))
            },
            SocketMessage::MonitorWorkAreaOffset(m, rect) => self.set_monitor_offset(m, rect),
            SocketMessage::WorkspaceWorkAreaOffset(m, w, rect) => self.set_workspace_offset(
                m,
                w,
                rect,
            ),
            SocketMessage::DisplayIndexPreference(index, display) => self.prefer_display(
                index,
                display,
            ),
            SocketMessage::ScrollingLayoutColumns(columns) => self.set_columns(columns),
            SocketMessage::LayoutRatios => self.set_ratios(),
            message => self.looks_command(message, sight),
        }
    }
}

} // verus!
