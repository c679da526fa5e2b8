//! Commands that ask something, and those that only ask for work to be done.

use crate::message::SocketMessage;
use crate::operation::Operation;
use crate::process_command::plan;
use crate::process_command::plan::CommandPlan;
use crate::process_command::plan::CommandPlanView;
use crate::process_command::plan::CommandSight;
use crate::process_command::plan::CommandSightView;
use crate::settings;
use crate::settings::StateQuery;
use crate::text;
use crate::window_manager::CommandError;
use crate::window_manager::WindowManager;
use crate::window_manager::WindowManagerView;
use vstd::prelude::*;

verus! {

/// The answer to a question about the state, or why there is none.
pub open spec fn answer(
    wm: WindowManagerView,
    query: StateQuery,
    version: Seq<char>,
) -> Result<Seq<char>, CommandError> {
    match query {
        StateQuery::FocusedMonitorIndex => Ok(text::decimal_digits(wm.focused_monitor as nat)),
        StateQuery::FocusedWorkspaceIndex => match wm.focused() {
            Some(monitor) => Ok(text::decimal_digits(monitor.focused_workspace as nat)),
            None => Err(CommandError::NoMonitor),
        },
        StateQuery::FocusedContainerIndex => match wm.workspace() {
            Ok(workspace) => Ok(text::decimal_digits(workspace.focused_container as nat)),
            Err(error) => Err(error),
        },
        StateQuery::FocusedWindowIndex => match wm.workspace() {
            Ok(workspace) => match workspace.focused() {
                Some(container) => Ok(text::decimal_digits(container.focused_window as nat)),
                None => Err(CommandError::NoContainer),
            },
            Err(error) => Err(error),
        },
        StateQuery::FocusedWorkspaceName => match wm.focused() {
            Some(monitor) => match monitor.focused() {
                Some(workspace) => match workspace.name {
                    Some(name) => Ok(name),
                    None => Ok(text::decimal_digits(monitor.focused_workspace as nat)),
                },
                None => Ok(text::decimal_digits(monitor.focused_workspace as nat)),
            },
            None => Err(CommandError::NoMonitor),
        },
        StateQuery::FocusedWorkspaceLayout => match wm.focused() {
            Some(monitor) => match monitor.focused() {
                Some(workspace) => Ok(settings::layout_name(workspace.layout)),
                None => Ok("None"@),
            },
            None => Err(CommandError::NoMonitor),
        },
        StateQuery::FocusedContainerKind => match wm.workspace() {
            Ok(workspace) => Ok(
                match workspace.focused() {
                    Some(container) => if container.windows.len() > 1 {
                        "Stack"@
                    } else {
                        "Single"@
                    },
                    None => "None"@,
                },
            ),
            Err(error) => Err(error),
        },
        StateQuery::Version => Ok(version),
    }
}

/// A question about the state is answered.
pub open spec fn query_plan(
    wm: WindowManagerView,
    query: StateQuery,
    version: Seq<char>,
) -> CommandPlanView {
    match answer(wm, query, version) {
        Ok(text) => plan::plan_reply(text),
        Err(error) => plan::plan_failure(error),
    }
}

/// The operations of a command that needs no deciding.
pub open spec fn plain_operations(message: SocketMessage) -> Seq<Operation> {
    match message {
        SocketMessage::Promote => seq![Operation::PromoteContainerToFront],
        SocketMessage::PromoteSwap => seq![Operation::PromoteContainerSwap],
        SocketMessage::PromoteFocus => seq![Operation::PromoteFocusToFront],
        SocketMessage::CycleMoveWindow(direction) => seq![
            Operation::MoveContainerInCycleDirection(direction),
        ],
        SocketMessage::ManageFocusedWindow => seq![Operation::ManageFocusedWindow],
        SocketMessage::UnmanageFocusedWindow => seq![Operation::UnmanageFocusedWindow],
        SocketMessage::FlipLayout(axis) => seq![Operation::FlipLayout(axis)],
        SocketMessage::ChangeLayout(layout) => seq![Operation::ChangeWorkspaceLayout(layout)],
        SocketMessage::CycleLayout(direction) => seq![Operation::CycleLayout(direction)],
        SocketMessage::ToggleMonocle => seq![Operation::ToggleMonocle],
        SocketMessage::ToggleFloat => seq![Operation::ToggleFloat(false)],
        SocketMessage::ToggleLock => seq![Operation::ToggleLock],
        SocketMessage::ToggleTiling => seq![Operation::ToggleTiling],
        SocketMessage::Retile => seq![Operation::RetileAll(false)],
        SocketMessage::RetileWithResizeDimensions => seq![Operation::RetileAll(true)],
        SocketMessage::NewWorkspace => seq![Operation::NewWorkspace],
        SocketMessage::AdjustContainerPadding(sizing, adjustment) => seq![
            Operation::AdjustContainerPadding(sizing, adjustment),
        ],
        SocketMessage::AdjustWorkspacePadding(sizing, adjustment) => seq![
            Operation::AdjustWorkspacePadding(sizing, adjustment),
        ],
        SocketMessage::WorkspaceName(m, w, name) => seq![Operation::SetWorkspaceName(m, w, name)],
        SocketMessage::EnsureWorkspaces(m, count) => seq![Operation::EnsureWorkspaces(m, count)],
        SocketMessage::EnsureNamedWorkspaces(m, names) => seq![
            Operation::EnsureNamedWorkspaces(m, names),
        ],
        SocketMessage::State => seq![Operation::ReplyState],
        SocketMessage::GlobalState => seq![Operation::ReplyGlobalState],
        SocketMessage::VisibleWindows => seq![Operation::ReplyVisibleWindows],
        SocketMessage::MonitorInformation => seq![Operation::ReplyMonitorInformation],
        SocketMessage::SessionFloatRules => seq![Operation::ReplySessionFloatRules],
        SocketMessage::DebugWindow(id) => seq![Operation::ReplyWindowDebug(id)],
        SocketMessage::ApplicationSpecificConfigurationSchema => seq![
            Operation::ReplyApplicationSpecificConfigurationSchema,
        ],
        SocketMessage::NotificationSchema => seq![Operation::ReplyNotificationSchema],
        SocketMessage::SocketSchema => seq![Operation::ReplySocketSchema],
        SocketMessage::StaticConfigSchema => seq![Operation::ReplyStaticConfigSchema],
        SocketMessage::GenerateStaticConfig => seq![Operation::ReplyStaticConfig],
        SocketMessage::ReloadStaticConfiguration(path) => seq![
            Operation::ReloadStaticConfiguration(path),
        ],
        SocketMessage::Stop => seq![Operation::Stop(false)],
        SocketMessage::StopIgnoreRestore => seq![Operation::Stop(true)],
        SocketMessage::Theme => seq![Operation::SendTheme],
        _ => Seq::empty(),
    }
}

/// The file that the resize dimensions of the focused workspace are written to or read from:
/// a path, or the quick save.
pub open spec fn resize_file_plan(
    wm: WindowManagerView,
    path: Option<String>,
    write: bool,
) -> CommandPlanView {
    match wm.workspace() {
        Ok(_) => if write {
            plan::plan_of(seq![Operation::WriteResizeDimensions(path)])
        } else {
            plan::plan_of(
                seq![
                    Operation::ReadResizeDimensions(path),
                    Operation::UpdateFocusedWorkspace(false, false),
                ],
            )
        },
        Err(error) => plan::plan_failure(error),
    }
}

/// What a command that asks something, or only asks for work to be done, comes to.
pub open spec fn questions_plan(
    wm: WindowManagerView,
    message: SocketMessage,
    sight: CommandSightView,
) -> CommandPlanView {
    match message {
        SocketMessage::Query(query) => query_plan(wm, query, sight.version),
        SocketMessage::QuickSave => resize_file_plan(wm, None, true),
        SocketMessage::QuickLoad => resize_file_plan(wm, None, false),
        SocketMessage::Save(path) => resize_file_plan(wm, Some(path), true),
        SocketMessage::Load(path) => resize_file_plan(wm, Some(path), false),
        _ => plan::plan_of(plain_operations(message)),
    }
}

fn one(operation: Operation) -> (operations: Vec<Operation>)
    ensures
        operations@ == seq![operation],
{
    let operations = vec![operation];
    assert(operations@ =~= seq![operation]);
    operations
}

fn plain(message: SocketMessage) -> (operations: Vec<Operation>)
    ensures
        operations@ == plain_operations(message),
{
    match message {
        SocketMessage::Promote => one(Operation::PromoteContainerToFront),
        SocketMessage::PromoteSwap => one(Operation::PromoteContainerSwap),
        SocketMessage::PromoteFocus => one(Operation::PromoteFocusToFront),
        SocketMessage::CycleMoveWindow(direction) => one(
            Operation::MoveContainerInCycleDirection(direction),
        ),
        SocketMessage::ManageFocusedWindow => one(Operation::ManageFocusedWindow),
        SocketMessage::UnmanageFocusedWindow => one(Operation::UnmanageFocusedWindow),
        SocketMessage::FlipLayout(axis) => one(Operation::FlipLayout(axis)),
        SocketMessage::ChangeLayout(layout) => one(Operation::ChangeWorkspaceLayout(layout)),
        SocketMessage::CycleLayout(direction) => one(Operation::CycleLayout(direction)),
        SocketMessage::ToggleMonocle => one(Operation::ToggleMonocle),
        SocketMessage::ToggleFloat => one(Operation::ToggleFloat(false)),
        SocketMessage::ToggleLock => one(Operation::ToggleLock),
        SocketMessage::ToggleTiling => one(Operation::ToggleTiling),
        SocketMessage::Retile => one(Operation::RetileAll(false)),
        SocketMessage::RetileWithResizeDimensions => one(Operation::RetileAll(true)),
        SocketMessage::NewWorkspace => one(Operation::NewWorkspace),
        SocketMessage::AdjustContainerPadding(sizing, adjustment) => one(
            Operation::AdjustContainerPadding(sizing, adjustment),
        ),
        SocketMessage::AdjustWorkspacePadding(sizing, adjustment) => one(
            Operation::AdjustWorkspacePadding(sizing, adjustment),
        ),
        SocketMessage::WorkspaceName(m, w, name) => one(Operation::SetWorkspaceName(m, w, name)),
        SocketMessage::EnsureWorkspaces(m, count) => one(Operation::EnsureWorkspaces(m, count)),
        SocketMessage::EnsureNamedWorkspaces(m, names) => one(
            Operation::EnsureNamedWorkspaces(m, names),
        ),
        SocketMessage::State => one(Operation::ReplyState),
        SocketMessage::GlobalState => one(Operation::ReplyGlobalState),
        SocketMessage::VisibleWindows => one(Operation::ReplyVisibleWindows),
        SocketMessage::MonitorInformation => one(Operation::ReplyMonitorInformation),
        SocketMessage::SessionFloatRules => one(Operation::ReplySessionFloatRules),
        SocketMessage::DebugWindow(id) => one(Operation::ReplyWindowDebug(id)),
        SocketMessage::ApplicationSpecificConfigurationSchema => one(
            Operation::ReplyApplicationSpecificConfigurationSchema,
        ),
        SocketMessage::NotificationSchema => one(Operation::ReplyNotificationSchema),
        SocketMessage::SocketSchema => one(Operation::ReplySocketSchema),
        SocketMessage::StaticConfigSchema => one(Operation::ReplyStaticConfigSchema),
        SocketMessage::GenerateStaticConfig => one(Operation::ReplyStaticConfig),
        SocketMessage::ReloadStaticConfiguration(path) => one(
            Operation::ReloadStaticConfiguration(path),
        ),
        SocketMessage::Stop => one(Operation::Stop(false)),
        SocketMessage::StopIgnoreRestore => one(Operation::Stop(true)),
        SocketMessage::Theme => one(Operation::SendTheme),
        _ => Vec::new(),
    }
}

impl WindowManager {
    /// Answers a question about the state.
    pub fn query(&self, query: StateQuery, version: &str) -> (reply: Result<String, CommandError>)
        ensures
            match reply {
                Ok(text) => answer(self.deep_view(), query, version@) == Ok::<
                    Seq<char>,
                    CommandError,
                >(text@),
                Err(error) => answer(self.deep_view(), query, version@) == Err::<
                    Seq<char>,
                    CommandError,
                >(error),
            },
    {
        match query {
            StateQuery::FocusedMonitorIndex => Ok(text::decimal(self.focused_monitor)),
            StateQuery::FocusedWorkspaceIndex => match self.focused() {
                Some(monitor) => Ok(text::decimal(monitor.focused_workspace)),
                None => Err(CommandError::NoMonitor),
            },
            StateQuery::FocusedContainerIndex => match self.workspace() {
                Ok(workspace) => Ok(text::decimal(workspace.focused_container)),
                Err(error) => Err(error),
            },
            StateQuery::FocusedWindowIndex => match self.workspace() {
                Ok(workspace) => match workspace.focused() {
                    Some(container) => Ok(text::decimal(container.focused_window)),
                    None => Err(CommandError::NoContainer),
                },
                Err(error) => Err(error),
            },
            StateQuery::FocusedWorkspaceName => match self.focused() {
                Some(monitor) => match monitor.focused() {
                    Some(workspace) => match &workspace.name {
                        Some(name) => Ok(name.clone()),
                        None => Ok(text::decimal(monitor.focused_workspace)),
                    },
                    None => Ok(text::decimal(monitor.focused_workspace)),
                },
                None => Err(CommandError::NoMonitor),
            },
            StateQuery::FocusedWorkspaceLayout => match self.focused() {
                Some(monitor) => match monitor.focused() {
                    Some(workspace) => Ok(workspace.layout.name()),
                    None => Ok("None".to_owned()),
                },
                None => Err(CommandError::NoMonitor),
            },
            StateQuery::FocusedContainerKind => match self.workspace() {
                Ok(workspace) => match workspace.focused() {
                    Some(container) => if container.windows.len() > 1 {
                        Ok("Stack".to_owned())
                    } else {
                        Ok("Single".to_owned())
                    },
                    None => Ok("None".to_owned()),
                },
                Err(error) => Err(error),
            },
            StateQuery::Version => Ok(version.to_owned()),
        }
    }

    fn plan_query(&self, query: StateQuery, version: &str) -> (plan: CommandPlan)
        ensures
            plan.deep_view() == query_plan(self.deep_view(), query, version@),
    {
        match self.query(query, version) {
            Ok(text) => CommandPlan::replied(text),
            Err(error) => CommandPlan::failed(error),
        }
    }

    fn plan_resize_file(&self, path: Option<String>, write: bool) -> (plan: CommandPlan)
        ensures
            plan.deep_view() == resize_file_plan(self.deep_view(), path, write),
    {
        match self.workspace() {
            Ok(_) => if write {
                CommandPlan::single(Operation::WriteResizeDimensions(path))
            } else {
                CommandPlan::pair(
                    Operation::ReadResizeDimensions(path),
                    Operation::UpdateFocusedWorkspace(false, false),
                )
            },
            Err(error) => CommandPlan::failed(error),
        }
    }

    /// Plans a command that asks something, or only asks for work to be done.
    pub fn plan_question(&self, message: SocketMessage, sight: &CommandSight) -> (plan: CommandPlan)
        ensures
            plan.deep_view() == questions_plan(self.deep_view(), message, sight.deep_view()),
    {
        match message {
            SocketMessage::Query(query) => self.plan_query(query, sight.version.as_str()),
            SocketMessage::QuickSave => self.plan_resize_file(None, true),
            SocketMessage::QuickLoad => self.plan_resize_file(None, false),
            SocketMessage::Save(path) => self.plan_resize_file(Some(path), true),
            SocketMessage::Load(path) => self.plan_resize_file(Some(path), false),
            message => CommandPlan::of(plain(message)),
        }
    }
}

} // verus!
