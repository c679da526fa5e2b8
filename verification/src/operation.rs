//! What the library asks to have done.
//!
//! Decisions are made here; moving windows, laying out workspaces, answering over a socket
//! and reading files is done by whoever holds the screen. An operation names one such piece
//! of work. Operations are carried out in the order they are given, and the first one that
//! fails ends the command or the event they belong to.

use crate::events::ManualNotification;
use crate::geometry::WindowHidingPosition;
use crate::settings::Axis;
use crate::settings::CycleDirection;
use crate::settings::DefaultLayout;
use crate::settings::OperationDirection;
use crate::settings::Sizing;
use crate::settings::WorkspaceLayer;
use crate::window_manager::Window;
use vstd::prelude::*;

verus! {

/// One piece of work.
#[derive(Debug)]
pub enum Operation {
    // containers of the focused workspace
    PromoteContainerToFront,
    PromoteContainerSwap,
    PromoteFocusToFront,
    FocusContainerInDirection(OperationDirection),
    FocusFloatingWindowInDirection(OperationDirection),
    FocusContainerInCycleDirection(CycleDirection),
    FocusFloatingWindowInCycleDirection(CycleDirection),
    MoveContainerInDirection(OperationDirection),
    MoveFloatingWindowInDirection(OperationDirection),
    MoveContainerInCycleDirection(CycleDirection),
    PreselectContainerInDirection(OperationDirection),
    CancelPreselect,
    AddWindowToContainer(OperationDirection),
    RemoveWindowFromContainer,
    StackAll,
    UnstackAll(bool),
    CycleContainerWindowInDirection(CycleDirection),
    CycleContainerWindowIndexInDirection(CycleDirection),
    FocusContainer(usize),
    FocusContainerWindow(usize),
    FocusContainerByWindow(u32),
    ResizeWindow(OperationDirection, Sizing, i32, bool),
    ToggleMonocle,
    ToggleFloat(bool),
    ToggleLock,
    ToggleTiling,
    // windows
    FocusWindow(u32, bool),
    RaiseWindow(u32),
    RestoreWindow(u32),
    HideWindow(u32, WindowHidingPosition),
    HideUnmanagedWindow(u32, WindowHidingPosition),
    CenterWindow(u32, bool),
    ObserveWindow(u32),
    MinimizeForegroundWindow,
    CloseForegroundWindow,
    ManageFocusedWindow,
    UnmanageFocusedWindow,
    RemoveWindow(usize, u32),
    // layouts
    FlipLayout(Axis),
    ChangeWorkspaceLayout(DefaultLayout),
    CycleLayout(CycleDirection),
    ApplyLayoutRatios,
    UpdateWorkspace,
    UpdateFocusedWorkspace(bool, bool),
    UpdateMonitorFocusedWorkspace(usize),
    RetileAll(bool),
    // monitors and workspaces
    FocusMonitor(usize),
    FocusWorkspace(usize),
    FocusMonitorWorkspace(usize, usize),
    LoadFocusedWorkspace(usize, bool),
    SetLastFocusedWorkspace(usize),
    MoveContainerToWorkspace(usize, bool),
    MoveContainerToMonitor(usize, Option<usize>, bool),
    SwapFocusedMonitor(usize),
    MoveWorkspaceToMonitor(usize),
    NewWorkspace,
    SetContainerPadding(usize, usize, i32),
    SetWorkspacePadding(usize, usize, i32),
    AdjustContainerPadding(Sizing, i32),
    AdjustWorkspacePadding(Sizing, i32),
    SetWorkspaceTiling(usize, usize, bool),
    SetWorkspaceLayout(usize, usize, DefaultLayout),
    AddWorkspaceLayoutRule(usize, usize, usize, DefaultLayout),
    ClearWorkspaceLayoutRules(usize, usize),
    SetWorkspaceName(usize, usize, String),
    EnsureWorkspaces(usize, usize),
    EnsureNamedWorkspaces(usize, Vec<String>),
    RemoveContainer(usize, usize, usize),
    RemoveContainerByIdx(usize, usize, usize),
    EnforceWorkspaceRules,
    UpdateKnownWindowIds,
    // replies
    ReplyState,
    ReplyGlobalState,
    ReplyVisibleWindows,
    ReplyMonitorInformation,
    ReplySessionFloatRules,
    ReplyWindowDebug(u32),
    ReplyApplicationSpecificConfigurationSchema,
    ReplyNotificationSchema,
    ReplySocketSchema,
    ReplyStaticConfigSchema,
    ReplyStaticConfig,
    // configuration and files
    ReloadStaticConfiguration(String),
    StartOverFromConfiguration(String),
    RestoreAllWindows(bool),
    WriteResizeDimensions(Option<String>),
    ReadResizeDimensions(Option<String>),
    Stop(bool),
    // looks
    SetGlobalAnimation(bool),
    SendTheme,
    DestroyAllBorders,
    UpdateBorders,
    // around commands and events
    NotifySubscribers,
    SaveSession,
    // events
    HandleEvent,
    ResumeEvent(EventStage),
    SendManualEvent(ManualNotification, i32, u32),
    Reconcile(usize, usize),
    ReapInvalidWindows(i32),
    ForceReapInvalidWindows(i32),
    ActivateFinder,
    SetWorkspaceLayer(WorkspaceLayer),
    NewContainerForWindow(Window),
    AddWindowToFocusedContainer(Window, WindowHidingPosition),
    NoteWindowOpened(u32),
    EnsureWorkspace(usize, usize),
    RemoveWindowFromFocusedWorkspace(u32),
    AddUnmanagedWindow(u32),
    ExtractMinimizedWindow(u32),
    TransferWindow((usize, usize, u32), (usize, usize, usize)),
    SwapContainers(usize, usize),
    MoveWindowToContainer(usize),
    UpdateBordersFor(Option<u32>),
    UpdateBordersAfterReaping(u32),
}

/// Where the handling of an event goes on once earlier operations have been carried out.
#[derive(Clone, Copy, Debug, PartialEq, Eq, Structural)]
pub enum EventStage {
    /// The focus of a window that is not a tab has been followed up as far as its workspace.
    FocusSettled(u32),
    /// The focus has moved to a window whose first tab has gone, and windows that have gone have
    /// been reaped.
    FocusReaped(u32),
    /// A window that appeared is being observed and is to be placed.
    Place(u32),
    /// A window that appeared had a place in an earlier session, and its workspace is there.
    PutBack {
        monitor: usize,
        workspace: usize,
        slot: usize,
    },
    /// A window that appeared has been placed.
    Placed {
        window: u32,
        tiled: bool,
        was_there: bool,
        monocle: Option<Option<u32>>,
    },
    /// Windows that have gone have been reaped.
    Reaped,
}

} // verus!
