//! Commands that set up workspaces.

use crate::message::SocketMessage;
use crate::operation::Operation;
use crate::process_command::layer;
use crate::process_command::plan;
use crate::process_command::plan::CommandPlan;
use crate::process_command::plan::CommandPlanView;
use crate::process_command::plan::CommandSight;
use crate::process_command::plan::CommandSightView;
use crate::process_command::questions;
use crate::settings::DefaultLayout;
use crate::window_manager::CommandError;
use crate::window_manager::WindowManager;
use crate::window_manager::WindowManagerView;
use vstd::prelude::*;

verus! {

/// One setting of a workspace.
#[derive(Clone, Copy, Debug, PartialEq, Eq, Structural)]
pub enum WorkspaceSetting {
    ContainerPadding(i32),
    WorkspacePadding(i32),
    Tiling(bool),
    Layout(DefaultLayout),
    LayoutRule(usize, DefaultLayout),
    NoLayoutRules,
}

/// The operation that makes a setting of a workspace.
pub open spec fn setting_operation(m: usize, w: usize, setting: WorkspaceSetting) -> Operation {
    match setting {
        WorkspaceSetting::ContainerPadding(size) => Operation::SetContainerPadding(m, w, size),
        WorkspaceSetting::WorkspacePadding(size) => Operation::SetWorkspacePadding(m, w, size),
        WorkspaceSetting::Tiling(tile) => Operation::SetWorkspaceTiling(m, w, tile),
        WorkspaceSetting::Layout(layout) => Operation::SetWorkspaceLayout(m, w, layout),
        WorkspaceSetting::LayoutRule(count, layout) => Operation::AddWorkspaceLayoutRule(
            m,
            w,
            count,
            layout,
        ),
        WorkspaceSetting::NoLayoutRules => Operation::ClearWorkspaceLayoutRules(m, w),
    }
}

/// A setting is made of a workspace. A name that no workspace goes by is not an error.
pub open spec fn setting_plan(
    place: Option<(usize, usize)>,
    setting: WorkspaceSetting,
) -> CommandPlanView {
    match place {
        Some((m, w)) => plan::plan_of(seq![setting_operation(m, w, setting)]),
        None => plan::plan_nothing(),
    }
}

/// A setting is made of the focused workspace.
pub open spec fn focused_setting_plan(
    wm: WindowManagerView,
    setting: WorkspaceSetting,
) -> CommandPlanView {
    match wm.focused() {
        Some(monitor) => plan::plan_of(
            seq![setting_operation(wm.focused_monitor, monitor.focused_workspace, setting)],
        ),
        None => plan::plan_failure(CommandError::NoMonitor),
    }
}

/// What a command that sets up workspaces comes to.
pub open spec fn workspaces_effect(
    wm: WindowManagerView,
    message: SocketMessage,
    sight: CommandSightView,
) -> (WindowManagerView, CommandPlanView) {
    match message {
        SocketMessage::ContainerPadding(m, w, size) => (
            wm,
            setting_plan(Some((m, w)), WorkspaceSetting::ContainerPadding(size)),
        ),
        SocketMessage::NamedWorkspaceContainerPadding(name, size) => (
            wm,
            setting_plan(wm.named(name@), WorkspaceSetting::ContainerPadding(size)),
        ),
        SocketMessage::FocusedWorkspaceContainerPadding(size) => (
            wm,
            focused_setting_plan(wm, WorkspaceSetting::ContainerPadding(size)),
        ),
        SocketMessage::WorkspacePadding(m, w, size) => (
            wm,
            setting_plan(Some((m, w)), WorkspaceSetting::WorkspacePadding(size)),
        ),
        SocketMessage::NamedWorkspacePadding(name, size) => (
            wm,
            setting_plan(wm.named(name@), WorkspaceSetting::WorkspacePadding(size)),
        ),
        SocketMessage::FocusedWorkspacePadding(size) => (
            wm,
            focused_setting_plan(wm, WorkspaceSetting::WorkspacePadding(size)),
        ),
        SocketMessage::WorkspaceTiling(m, w, tile) => (
            wm,
            setting_plan(Some((m, w)), WorkspaceSetting::Tiling(tile)),
        ),
        SocketMessage::NamedWorkspaceTiling(name, tile) => (
            wm,
            setting_plan(wm.named(name@), WorkspaceSetting::Tiling(tile)),
        ),
        SocketMessage::WorkspaceLayout(m, w, layout) => (
            wm,
            setting_plan(Some((m, w)), WorkspaceSetting::Layout(layout)),
        ),
        SocketMessage::NamedWorkspaceLayout(name, layout) => (
            wm,
            setting_plan(wm.named(name@), WorkspaceSetting::Layout(layout)),
        ),
        SocketMessage::WorkspaceLayoutRule(m, w, count, layout) => (
            wm,
            setting_plan(Some((m, w)), WorkspaceSetting::LayoutRule(count, layout)),
        ),
        SocketMessage::NamedWorkspaceLayoutRule(name, count, layout) => (
            wm,
            setting_plan(wm.named(name@), WorkspaceSetting::LayoutRule(count, layout)),
        ),
        SocketMessage::ClearWorkspaceLayoutRules(m, w) => (
            wm,
            setting_plan(Some((m, w)), WorkspaceSetting::NoLayoutRules),
        ),
        SocketMessage::ClearNamedWorkspaceLayoutRules(name) => (
            wm,
            setting_plan(wm.named(name@), WorkspaceSetting::NoLayoutRules),
        ),
        SocketMessage::ToggleWorkspaceLayer => layer::toggle_layer_effect(
            wm,
            sight.floating_rects,
        ),
        _ => (wm, questions::questions_plan(wm, message, sight)),
    }
}

fn setting_operation_of(m: usize, w: usize, setting: WorkspaceSetting) -> (operation: Operation)
    ensures
        operation == setting_operation(m, w, setting),
{
    match setting {
        WorkspaceSetting::ContainerPadding(size) => Operation::SetContainerPadding(m, w, size),
        WorkspaceSetting::WorkspacePadding(size) => Operation::SetWorkspacePadding(m, w, size),
        WorkspaceSetting::Tiling(tile) => Operation::SetWorkspaceTiling(m, w, tile),
        WorkspaceSetting::Layout(layout) => Operation::SetWorkspaceLayout(m, w, layout),
        WorkspaceSetting::LayoutRule(count, layout) => Operation::AddWorkspaceLayoutRule(
            m,
            w,
            count,
            layout,
        ),
        WorkspaceSetting::NoLayoutRules => Operation::ClearWorkspaceLayoutRules(m, w),
    }
}

fn plan_setting(m: usize, w: usize, setting: WorkspaceSetting) -> (plan: CommandPlan)
    ensures
        plan.deep_view() == setting_plan(Some((m, w)), setting),
{
    CommandPlan::single(setting_operation_of(m, w, setting))
}

impl WindowManager {
    fn plan_named_setting(&self, name: &str, setting: WorkspaceSetting) -> (plan: CommandPlan)
        ensures
            plan.deep_view() == setting_plan(self.deep_view().named(name@), setting),
    {
        match self.monitor_workspace_index_by_name(name) {
            Some((m, w)) => plan_setting(m, w, setting),
            None => CommandPlan::nothing(),
        }
    }

    fn plan_focused_setting(&self, setting: WorkspaceSetting) -> (plan: CommandPlan)
        ensures
            plan.deep_view() == focused_setting_plan(self.deep_view(), setting),
    {
        match self.focused() {
            Some(monitor) => plan_setting(
                self.focused_monitor,
                monitor.focused_workspace,
                setting,
            ),
            None => CommandPlan::failed(CommandError::NoMonitor),
        }
    }

    /// Carries out a command that sets up workspaces.
    pub fn workspaces_command(&mut self, message: SocketMessage, sight: &CommandSight) -> (plan:
        CommandPlan)
        ensures
            (final(self).deep_view(), plan.deep_view()) == workspaces_effect(
                old(self).deep_view(),
                message,
                sight.deep_view(),
            ),
    {
        match message {
            SocketMessage::ContainerPadding(m, w, size) => plan_setting(
                m,
                w,
                WorkspaceSetting::ContainerPadding(size),
            ),
            SocketMessage::NamedWorkspaceContainerPadding(name, size) => self.plan_named_setting(
                name.as_str(),
                WorkspaceSetting::ContainerPadding(size),
            ),
            SocketMessage::FocusedWorkspaceContainerPadding(size) => self.plan_focused_setting(
                WorkspaceSetting::ContainerPadding(size),
            ),
            SocketMessage::WorkspacePadding(m, w, size) => plan_setting(
                m,
                w,
                WorkspaceSetting::WorkspacePadding(size),
            ),
            SocketMessage::NamedWorkspacePadding(name, size) => self.plan_named_setting(
                name.as_str(),
                WorkspaceSetting::WorkspacePadding(size),
            ),
            SocketMessage::FocusedWorkspacePadding(size) => self.plan_focused_setting(
                WorkspaceSetting::WorkspacePadding(size),
            ),
            SocketMessage::WorkspaceTiling(m, w, tile) => plan_setting(
                m,
                w,
                WorkspaceSetting::Tiling(tile),
            ),
            SocketMessage::NamedWorkspaceTiling(name, tile) => self.plan_named_setting(
                name.as_str(),
                WorkspaceSetting::Tiling(tile),
            ),
            SocketMessage::WorkspaceLayout(m, w, layout) => plan_setting(
                m,
                w,
                WorkspaceSetting::Layout(layout),
            ),
            SocketMessage::NamedWorkspaceLayout(name, layout) => self.plan_named_setting(
                name.as_str(),
                WorkspaceSetting::Layout(layout),
            ),
            SocketMessage::WorkspaceLayoutRule(m, w, count, layout) => plan_setting(
                m,
                w,
                WorkspaceSetting::LayoutRule(count, layout),
            ),
            SocketMessage::NamedWorkspaceLayoutRule(name, count, layout) => self.plan_named_setting(
                name.as_str(),
                WorkspaceSetting::LayoutRule(count, layout),
            ),
            SocketMessage::ClearWorkspaceLayoutRules(m, w) => plan_setting(
                m,
                w,
                WorkspaceSetting::NoLayoutRules,
            ),
            SocketMessage::ClearNamedWorkspaceLayoutRules(name) => self.plan_named_setting(
                name.as_str(),
                WorkspaceSetting::NoLayoutRules,
            ),
            SocketMessage::ToggleWorkspaceLayer => self.toggle_layer(&sight.floating_rects),
            message => self.plan_question(message, sight),
        }
    }
}

} // verus!
