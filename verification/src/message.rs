//! What can be asked for over the socket.

use crate::geometry::Rect;
use crate::rules::ApplicationIdentifier;
use crate::settings::AnimationPrefix;
use crate::settings::AnimationStyle;
use crate::settings::Axis;
use crate::settings::CycleDirection;
use crate::settings::DefaultLayout;
use crate::settings::MonocleFocusBehaviour;
use crate::settings::MoveBehaviour;
use crate::settings::OperationBehaviour;
use crate::settings::OperationDirection;
use crate::settings::Sizing;
use crate::settings::StateQuery;
use crate::settings::SubscribeOptions;
use crate::settings::WindowKind;
use vstd::prelude::*;

verus! {

/// A command. Payloads that only the receiver of an operation can make sense of (a theme,
/// the ratios of a layout) stay with it and are not repeated here.
#[derive(Debug)]
pub enum SocketMessage {
    // windows and containers
    Promote,
    PromoteSwap,
    PromoteFocus,
    PromoteWindow(OperationDirection),
    EagerFocus(String),
    FocusWindow(OperationDirection),
    PreselectDirection(OperationDirection),
    CancelPreselect,
    MoveWindow(OperationDirection),
    CycleFocusWindow(CycleDirection),
    CycleMoveWindow(CycleDirection),
    StackWindow(OperationDirection),
    UnstackWindow,
    StackAll,
    UnstackAll,
    CycleStack(CycleDirection),
    CycleStackIndex(CycleDirection),
    FocusStackWindow(usize),
    Minimize,
    Close,
    ManageFocusedWindow,
    UnmanageFocusedWindow,
    LockMonitorWorkspaceContainer(usize, usize, usize),
    UnlockMonitorWorkspaceContainer(usize, usize, usize),
    ResizeWindowEdge(OperationDirection, Sizing),
    ResizeWindowAxis(Axis, Sizing),
    ToggleMonocle,
    ToggleFloat,
    ToggleLock,
    // layouts
    FlipLayout(Axis),
    ChangeLayout(DefaultLayout),
    CycleLayout(CycleDirection),
    ScrollingLayoutColumns(usize),
    LayoutRatios,
    Retile,
    RetileWithResizeDimensions,
    ToggleTiling,
    ToggleWorkspaceLayer,
    ToggleWindowBasedWorkAreaOffset,
    // focus
    CycleFocusMonitor(CycleDirection),
    CycleFocusWorkspace(CycleDirection),
    CycleFocusEmptyWorkspace(CycleDirection),
    FocusMonitorNumber(usize),
    FocusMonitorAtCursor,
    FocusLastWorkspace,
    FocusWorkspaceNumber(usize),
    FocusWorkspaceNumbers(usize),
    FocusMonitorWorkspaceNumber(usize, usize),
    FocusNamedWorkspace(String),
    CloseWorkspace,
    NewWorkspace,
    // moving between workspaces and monitors
    MoveContainerToWorkspaceNumber(usize),
    SendContainerToWorkspaceNumber(usize),
    MoveContainerToLastWorkspace,
    SendContainerToLastWorkspace,
    CycleMoveContainerToWorkspace(CycleDirection),
    CycleSendContainerToWorkspace(CycleDirection),
    MoveContainerToMonitorNumber(usize),
    SendContainerToMonitorNumber(usize),
    CycleMoveContainerToMonitor(CycleDirection),
    CycleSendContainerToMonitor(CycleDirection),
    MoveContainerToMonitorWorkspaceNumber(usize, usize),
    SendContainerToMonitorWorkspaceNumber(usize, usize),
    MoveContainerToNamedWorkspace(String),
    SendContainerToNamedWorkspace(String),
    SwapWorkspacesToMonitorNumber(usize),
    MoveWorkspaceToMonitorNumber(usize),
    CycleMoveWorkspaceToMonitor(CycleDirection),
    // behaviour
    TogglePause,
    ToggleWorkspaceWindowContainerBehaviour,
    ToggleWorkspaceFloatOverride,
    ToggleWindowContainerBehaviour,
    ToggleFloatOverride,
    ToggleCrossMonitorMoveBehaviour,
    CrossMonitorMoveBehaviour(MoveBehaviour),
    ToggleMonocleFocusBehaviour,
    MonocleFocusBehaviour(MonocleFocusBehaviour),
    UnmanagedWindowOperationBehaviour(OperationBehaviour),
    MouseFollowsFocus(bool),
    ToggleMouseFollowsFocus,
    FocusFollowsMouse(bool),
    ToggleFocusFollowsMouse,
    ResizeDelta(i32),
    WorkAreaOffset(Rect),
    MonitorWorkAreaOffset(usize, Rect),
    WorkspaceWorkAreaOffset(usize, usize, Rect),
    DisplayIndexPreference(usize, String),
    // rules
    SessionFloatRule,
    SessionFloatRules,
    ClearSessionFloatRules,
    InitialWorkspaceRule(ApplicationIdentifier, String, usize, usize),
    InitialNamedWorkspaceRule(ApplicationIdentifier, String, String),
    WorkspaceRule(ApplicationIdentifier, String, usize, usize),
    NamedWorkspaceRule(ApplicationIdentifier, String, String),
    ClearWorkspaceRules(usize, usize),
    ClearNamedWorkspaceRules(String),
    ClearAllWorkspaceRules,
    EnforceWorkspaceRules,
    IgnoreRule(ApplicationIdentifier, String),
    ManageRule(ApplicationIdentifier, String),
    // workspaces
    ContainerPadding(usize, usize, i32),
    NamedWorkspaceContainerPadding(String, i32),
    FocusedWorkspaceContainerPadding(i32),
    AdjustContainerPadding(Sizing, i32),
    WorkspacePadding(usize, usize, i32),
    NamedWorkspacePadding(String, i32),
    FocusedWorkspacePadding(i32),
    AdjustWorkspacePadding(Sizing, i32),
    WorkspaceTiling(usize, usize, bool),
    NamedWorkspaceTiling(String, bool),
    WorkspaceLayout(usize, usize, DefaultLayout),
    NamedWorkspaceLayout(String, DefaultLayout),
    WorkspaceLayoutRule(usize, usize, usize, DefaultLayout),
    NamedWorkspaceLayoutRule(String, usize, DefaultLayout),
    ClearWorkspaceLayoutRules(usize, usize),
    ClearNamedWorkspaceLayoutRules(String),
    WorkspaceName(usize, usize, String),
    EnsureWorkspaces(usize, usize),
    EnsureNamedWorkspaces(usize, Vec<String>),
    // questions
    State,
    GlobalState,
    VisibleWindows,
    MonitorInformation,
    Query(StateQuery),
    DebugWindow(u32),
    ApplicationSpecificConfigurationSchema,
    NotificationSchema,
    SocketSchema,
    StaticConfigSchema,
    GenerateStaticConfig,
    // subscribers
    AddSubscriberSocket(String),
    AddSubscriberSocketWithOptions(String, SubscribeOptions),
    RemoveSubscriberSocket(String),
    // configuration and files
    ReloadStaticConfiguration(String),
    ReplaceConfiguration(String),
    QuickSave,
    QuickLoad,
    Save(String),
    Load(String),
    Stop,
    StopIgnoreRestore,
    // looks
    Border(bool),
    BorderColour(WindowKind, u32, u32, u32),
    BorderWidth(i32),
    BorderOffset(i32),
    Theme,
    Animation(bool, Option<AnimationPrefix>),
    AnimationDuration(u64, Option<AnimationPrefix>),
    AnimationFps(u64),
    AnimationStyle(AnimationStyle, Option<AnimationPrefix>),
}

/// A command is carried out even while everything is paused.
pub open spec fn heard_while_paused(message: SocketMessage) -> bool {
    ||| message is TogglePause
    ||| message is State
    ||| message is GlobalState
    ||| message is Stop
}

impl SocketMessage {
    /// Whether the command is carried out even while everything is paused.
    pub fn is_heard_while_paused(&self) -> (heard: bool)
        ensures
            heard == heard_while_paused(*self),
    {
        match self {
            SocketMessage::TogglePause
            | SocketMessage::State
            | SocketMessage::GlobalState
            | SocketMessage::Stop => true,
            _ => false,
        }
    }

    /// Whether every subscriber is told of the command, changed state or not.
    pub fn is_override_event(&self) -> (overrides: bool)
        ensures
            overrides == told_to_everyone(*self),
    {
        match self {
            SocketMessage::AddSubscriberSocket(_)
            | SocketMessage::AddSubscriberSocketWithOptions(_, _)
            | SocketMessage::Theme
            | SocketMessage::ReloadStaticConfiguration(_) => true,
            _ => false,
        }
    }
}

/// Every subscriber is told of the command, changed state or not.
pub open spec fn told_to_everyone(message: SocketMessage) -> bool {
    ||| message is AddSubscriberSocket
    ||| message is AddSubscriberSocketWithOptions
    ||| message is Theme
    ||| message is ReloadStaticConfiguration
}

/// What becomes of a command that was read from a socket.
#[derive(Clone, Copy, Debug, PartialEq, Eq, Structural)]
pub enum Reception {
    /// It is carried out, and the session is saved afterwards.
    CarryOutAndSave,
    /// It is carried out, and nothing more is read from the socket.
    CarryOutAndClose,
    /// It is not carried out, and nothing more is read from the socket.
    DropAndClose,
}

/// What becomes of a command, paused or not.
pub open spec fn reception(message: SocketMessage, is_paused: bool) -> Reception {
    if !is_paused {
        Reception::CarryOutAndSave
    } else if heard_while_paused(message) {
        Reception::CarryOutAndClose
    } else {
        Reception::DropAndClose
    }
}

/// What becomes of a command that was read from a socket.
pub fn receive_command(message: &SocketMessage, is_paused: bool) -> (outcome: Reception)
    ensures
        outcome == reception(*message, is_paused),
{
    if !is_paused {
        Reception::CarryOutAndSave
    } else if message.is_heard_while_paused() {
        Reception::CarryOutAndClose
    } else {
        Reception::DropAndClose
    }
}


/// While nothing is paused every command is carried out. While everything is, only those are that end
/// the pause, ask for the state or stop, and the others are dropped.
pub proof fn law_a_pause_lets_few_commands_through(message: SocketMessage)
    ensures
        reception(message, false) is CarryOutAndSave,
        reception(message, true) is CarryOutAndClose <==> (message is TogglePause || message
            is State || message is GlobalState || message is Stop),
        reception(message, true) is DropAndClose <==> !(message is TogglePause || message is State
            || message is GlobalState || message is Stop),
{
}

} // verus!
