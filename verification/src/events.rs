//! What the system reports.

use vstd::prelude::*;

verus! {

/// Reports of the accessibility system.
#[derive(Clone, Copy, Debug, PartialEq, Eq, Structural)]
pub enum AccessibilityNotification {
    AXWindowCreated,
    AXMainWindowChanged,
    AXFocusedWindowChanged,
    AXApplicationActivated,
    AXApplicationDeactivated,
    AXApplicationHidden,
    AXApplicationShown,
    AXUIElementDestroyed,
    AXWindowMiniaturized,
    AXWindowDeminiaturized,
    AXWindowMoved,
    AXWindowResized,
    AXTitleChanged,
}

/// Events that were made up rather than reported.
#[derive(Clone, Copy, Debug, PartialEq, Eq, Structural)]
pub enum ManualNotification {
    ShowOnFocusChangeFirstTabDestroyed,
    ShowOnFocusChangeWindowlessAppRestored,
    ShowOnInputEvent,
    MouseMove,
    Command,
}

/// Where an event came from.
#[derive(Clone, Copy, Debug, PartialEq, Eq, Structural)]
pub enum SystemNotification {
    Accessibility(AccessibilityNotification),
    Workspace,
    Manual(ManualNotification),
}

/// Something happened: where the report came from, the process it is about and, where it is
/// about one window, the id of that window.
#[derive(Clone, Copy, Debug, PartialEq, Eq, Structural)]
pub enum WindowManagerEvent {
    FocusChange(SystemNotification, i32, Option<u32>),
    Show(SystemNotification, i32),
    Manage(SystemNotification, i32, u32),
    Unmanage(SystemNotification, i32, u32),
    Destroy(SystemNotification, i32),
    Minimize(SystemNotification, i32, u32),
    Restore(SystemNotification, i32, u32),
    MoveStart(SystemNotification, i32, u32),
    MoveEnd(SystemNotification, i32, u32),
    ResizeStart(SystemNotification, i32, u32),
    ResizeEnd(SystemNotification, i32, u32),
    SpaceChange(SystemNotification, i32),
    ScreenLock(SystemNotification, i32),
    ScreenUnlock(SystemNotification, i32),
}

/// Where the report of an event came from.
pub open spec fn source_of(event: WindowManagerEvent) -> SystemNotification {
    match event {
        WindowManagerEvent::FocusChange(notification, _, _) => notification,
        WindowManagerEvent::Show(notification, _) => notification,
        WindowManagerEvent::Manage(notification, _, _) => notification,
        WindowManagerEvent::Unmanage(notification, _, _) => notification,
        WindowManagerEvent::Destroy(notification, _) => notification,
        WindowManagerEvent::Minimize(notification, _, _) => notification,
        WindowManagerEvent::Restore(notification, _, _) => notification,
        WindowManagerEvent::MoveStart(notification, _, _) => notification,
        WindowManagerEvent::MoveEnd(notification, _, _) => notification,
        WindowManagerEvent::ResizeStart(notification, _, _) => notification,
        WindowManagerEvent::ResizeEnd(notification, _, _) => notification,
        WindowManagerEvent::SpaceChange(notification, _) => notification,
        WindowManagerEvent::ScreenLock(notification, _) => notification,
        WindowManagerEvent::ScreenUnlock(notification, _) => notification,
    }
}

/// The process that an event is about.
pub open spec fn process_of(event: WindowManagerEvent) -> i32 {
    match event {
        WindowManagerEvent::FocusChange(_, process_id, _) => process_id,
        WindowManagerEvent::Show(_, process_id) => process_id,
        WindowManagerEvent::Manage(_, process_id, _) => process_id,
        WindowManagerEvent::Unmanage(_, process_id, _) => process_id,
        WindowManagerEvent::Destroy(_, process_id) => process_id,
        WindowManagerEvent::Minimize(_, process_id, _) => process_id,
        WindowManagerEvent::Restore(_, process_id, _) => process_id,
        WindowManagerEvent::MoveStart(_, process_id, _) => process_id,
        WindowManagerEvent::MoveEnd(_, process_id, _) => process_id,
        WindowManagerEvent::ResizeStart(_, process_id, _) => process_id,
        WindowManagerEvent::ResizeEnd(_, process_id, _) => process_id,
        WindowManagerEvent::SpaceChange(_, process_id) => process_id,
        WindowManagerEvent::ScreenLock(_, process_id) => process_id,
        WindowManagerEvent::ScreenUnlock(_, process_id) => process_id,
    }
}

/// The window that an event is about, where it names one.
pub open spec fn window_of(event: WindowManagerEvent) -> Option<u32> {
    match event {
        WindowManagerEvent::FocusChange(_, _, window_id) => window_id,
        WindowManagerEvent::Manage(_, _, window_id) => Some(window_id),
        WindowManagerEvent::Unmanage(_, _, window_id) => Some(window_id),
        WindowManagerEvent::Minimize(_, _, window_id) => Some(window_id),
        WindowManagerEvent::Restore(_, _, window_id) => Some(window_id),
        WindowManagerEvent::MoveStart(_, _, window_id) => Some(window_id),
        WindowManagerEvent::MoveEnd(_, _, window_id) => Some(window_id),
        WindowManagerEvent::ResizeStart(_, _, window_id) => Some(window_id),
        WindowManagerEvent::ResizeEnd(_, _, window_id) => Some(window_id),
        _ => None,
    }
}

/// The event reports that a window has just been created.
pub open spec fn reports_creation(event: WindowManagerEvent) -> bool {
    event matches WindowManagerEvent::Show(notification, _) && notification
        == SystemNotification::Accessibility(AccessibilityNotification::AXWindowCreated)
}

impl WindowManagerEvent {
    /// Where the report of the event came from.
    pub fn notification(&self) -> (notification: SystemNotification)
        ensures
            notification == source_of(*self),
    {
        match *self {
            WindowManagerEvent::FocusChange(notification, _, _) => notification,
            WindowManagerEvent::Show(notification, _) => notification,
            WindowManagerEvent::Manage(notification, _, _) => notification,
            WindowManagerEvent::Unmanage(notification, _, _) => notification,
            WindowManagerEvent::Destroy(notification, _) => notification,
            WindowManagerEvent::Minimize(notification, _, _) => notification,
            WindowManagerEvent::Restore(notification, _, _) => notification,
            WindowManagerEvent::MoveStart(notification, _, _) => notification,
            WindowManagerEvent::MoveEnd(notification, _, _) => notification,
            WindowManagerEvent::ResizeStart(notification, _, _) => notification,
            WindowManagerEvent::ResizeEnd(notification, _, _) => notification,
            WindowManagerEvent::SpaceChange(notification, _) => notification,
            WindowManagerEvent::ScreenLock(notification, _) => notification,
            WindowManagerEvent::ScreenUnlock(notification, _) => notification,
        }
    }

    /// The process that the event is about.
    pub fn process_id(&self) -> (process_id: i32)
        ensures
            process_id == process_of(*self),
    {
        match *self {
            WindowManagerEvent::FocusChange(_, process_id, _) => process_id,
            WindowManagerEvent::Show(_, process_id) => process_id,
            WindowManagerEvent::Manage(_, process_id, _) => process_id,
            WindowManagerEvent::Unmanage(_, process_id, _) => process_id,
            WindowManagerEvent::Destroy(_, process_id) => process_id,
            WindowManagerEvent::Minimize(_, process_id, _) => process_id,
            WindowManagerEvent::Restore(_, process_id, _) => process_id,
            WindowManagerEvent::MoveStart(_, process_id, _) => process_id,
            WindowManagerEvent::MoveEnd(_, process_id, _) => process_id,
            WindowManagerEvent::ResizeStart(_, process_id, _) => process_id,
            WindowManagerEvent::ResizeEnd(_, process_id, _) => process_id,
            WindowManagerEvent::SpaceChange(_, process_id) => process_id,
            WindowManagerEvent::ScreenLock(_, process_id) => process_id,
            WindowManagerEvent::ScreenUnlock(_, process_id) => process_id,
        }
    }

    /// The window that the event is about, where it names one.
    pub fn window_id(&self) -> (window_id: Option<u32>)
        ensures
            window_id == window_of(*self),
    {
        match *self {
            WindowManagerEvent::FocusChange(_, _, window_id) => window_id,
            WindowManagerEvent::Manage(_, _, window_id) => Some(window_id),
            WindowManagerEvent::Unmanage(_, _, window_id) => Some(window_id),
            WindowManagerEvent::Minimize(_, _, window_id) => Some(window_id),
            WindowManagerEvent::Restore(_, _, window_id) => Some(window_id),
            WindowManagerEvent::MoveStart(_, _, window_id) => Some(window_id),
            WindowManagerEvent::MoveEnd(_, _, window_id) => Some(window_id),
            WindowManagerEvent::ResizeStart(_, _, window_id) => Some(window_id),
            WindowManagerEvent::ResizeEnd(_, _, window_id) => Some(window_id),
            _ => None,
        }
    }

    /// Whether the event reports that a window has just been created.
    pub fn is_creation(&self) -> (creation: bool)
        ensures
            creation == reports_creation(*self),
    {
        match *self {
            WindowManagerEvent::Show(
                SystemNotification::Accessibility(AccessibilityNotification::AXWindowCreated),
                _,
            ) => true,
            _ => false,
        }
    }

    /// Whether every subscriber is told of the event, changed state or not.
    pub fn is_override_event(&self) -> (overrides: bool)
        ensures
            overrides == (*self is Show),
    {
        match *self {
            WindowManagerEvent::Show(_, _) => true,
            _ => false,
        }
    }
}

} // verus!
