//! Windows that have gone, that are no longer managed, or that were minimized.

use crate::events::AccessibilityNotification;
use crate::events::SystemNotification;
use crate::operation::EventStage;
use crate::operation::Operation;
use crate::process_command::plan;
use crate::process_command::plan::CommandPlan;
use crate::process_command::plan::CommandPlanView;
use crate::process_event::handling;
use crate::process_event::handling::HandlingSight;
use crate::process_event::handling::HandlingSightView;
use crate::settings;
use crate::settings::Placement;
use crate::window_manager::CommandError;
use crate::window_manager::Window;
use crate::window_manager::WindowManager;
use crate::window_manager::WindowManagerView;
use vstd::prelude::*;

verus! {

/// The application was hidden.
pub open spec fn reports_hiding(notification: SystemNotification) -> bool {
    notification == SystemNotification::Accessibility(
        AccessibilityNotification::AXApplicationHidden,
    )
}

/// What it comes to that windows have gone. An application that hides itself while it has one
/// window is taken to have closed that window, which is reaped though it is still there.
pub open spec fn destroy_plan(
    wm: WindowManagerView,
    notification: SystemNotification,
    process_id: i32,
    sight: HandlingSightView,
) -> CommandPlanView {
    let resume = Operation::ResumeEvent(EventStage::Reaped);
    if !reports_hiding(notification) {
        plan::plan_of(seq![Operation::ReapInvalidWindows(process_id), resume])
    } else if !sight.application_found {
        plan::plan_failure(CommandError::NoApplication)
    } else if sight.window_count != 1 {
        plan::plan_of(seq![Operation::ReapInvalidWindows(process_id), resume])
    } else {
        match wm.workspace() {
            Ok(_) => plan::plan_of(seq![Operation::ForceReapInvalidWindows(process_id), resume]),
            Err(error) => plan::plan_failure(error),
        }
    }
}

/// What follows once windows that have gone have been reaped. Where the last one has gone
/// from the workspace, the desktop is brought forward, so that no application on another
/// workspace takes the focus.
pub open spec fn reaped_plan(wm: WindowManagerView, sight: HandlingSightView) -> CommandPlanView {
    match wm.workspace() {
        Err(error) => plan::plan_failure(error),
        Ok(workspace) => handling::finished(
            plan::plan_of(
                if workspace.containers.len() == 0 {
                    seq![
                        Operation::ActivateFinder,
                        Operation::UpdateFocusedWorkspace(false, false),
                    ]
                } else {
                    seq![Operation::UpdateFocusedWorkspace(false, false)]
                },
            ),
            sight.border_window_id,
        ),
    }
}

/// What it comes to that a window is no longer to be managed: it leaves its workspace and goes
/// to the middle, where no other window hides it, and is only then noted down.
pub open spec fn unmanage_plan(
    wm: WindowManagerView,
    window_id: u32,
    sight: HandlingSightView,
) -> CommandPlanView {
    match wm.workspace() {
        Err(error) => plan::plan_failure(error),
        Ok(_) => handling::finished(
            plan::plan_of(
                seq![
                    Operation::RemoveWindowFromFocusedWorkspace(window_id),
                    Operation::CenterWindow(
                        window_id,
                        settings::float_placement(sight.behaviour) == Placement::CenterAndResize,
                    ),
                    Operation::AddUnmanagedWindow(window_id),
                    Operation::UpdateFocusedWorkspace(false, false),
                ],
            ),
            sight.border_window_id,
        ),
    }
}

/// What it comes to that a window was minimized.
pub open spec fn minimize_plan(window_id: u32, sight: HandlingSightView) -> CommandPlanView {
    handling::finished(
        plan::plan_of(
            seq![
                Operation::ExtractMinimizedWindow(window_id),
                Operation::UpdateFocusedWorkspace(false, false),
            ],
        ),
        sight.border_window_id,
    )
}

/// What it comes to that a window is no longer minimized: one that was noted down when it was
/// minimized gets a container on the focused workspace.
pub open spec fn restore_effect(
    wm: WindowManagerView,
    window_id: u32,
    sight: HandlingSightView,
) -> (WindowManagerView, CommandPlanView) {
    if wm.minimized_windows.contains_key(window_id) {
        (
            WindowManagerView {
                minimized_windows: wm.minimized_windows.remove(window_id),
                ..wm
            },
            match wm.workspace() {
                Err(error) => plan::plan_failure(error),
                Ok(_) => handling::finished(
                    plan::plan_of(
                        seq![
                            Operation::NewContainerForWindow(wm.minimized_windows[window_id]),
                            Operation::UpdateFocusedWorkspace(false, false),
                        ],
                    ),
                    sight.border_window_id,
                ),
            },
        )
    } else {
        (wm, handling::finished(plan::plan_nothing(), sight.border_window_id))
    }
}

impl WindowManager {
    /// Handles that windows have gone.
    pub fn handle_destroy(
        &self,
        notification: SystemNotification,
        process_id: i32,
        sight: &HandlingSight,
    ) -> (plan: CommandPlan)
        ensures
            plan.deep_view() == destroy_plan(
                self.deep_view(),
                notification,
                process_id,
                sight.deep_view(),
            ),
    {
        let hidden: bool = match notification {
            SystemNotification::Accessibility(
                AccessibilityNotification::AXApplicationHidden,
            ) => true,
            _ => false,
        };
        if hidden {
            if !sight.application_found {
                return CommandPlan::failed(CommandError::NoApplication);
            }
            if sight.window_count == 1 {
                return match self.workspace() {
                    Ok(_) => CommandPlan::pair(
                        Operation::ForceReapInvalidWindows(process_id),
                        Operation::ResumeEvent(EventStage::Reaped),
                    ),
                    Err(error) => CommandPlan::failed(error),
                };
            }
        }
        CommandPlan::pair(
            Operation::ReapInvalidWindows(process_id),
            Operation::ResumeEvent(EventStage::Reaped),
        )
    }

    /// Goes on once windows that have gone have been reaped.
    pub fn settle_destroy(&self, sight: &HandlingSight) -> (plan: CommandPlan)
        ensures
            plan.deep_view() == reaped_plan(self.deep_view(), sight.deep_view()),
    {
        match self.workspace() {
            Err(error) => CommandPlan::failed(error),
            Ok(workspace) => {
                let plan = if workspace.containers.len() == 0 {
                    CommandPlan::pair(
                        Operation::ActivateFinder,
                        Operation::UpdateFocusedWorkspace(false, false),
                    )
                } else {
                    CommandPlan::single(Operation::UpdateFocusedWorkspace(false, false))
                };
                handling::finish(plan, sight.border_window_id)
            },
        }
    }

    /// Handles that a window is no longer to be managed.
    pub fn handle_unmanage(&self, window_id: u32, sight: &HandlingSight) -> (plan: CommandPlan)
        ensures
            plan.deep_view() == unmanage_plan(self.deep_view(), window_id, sight.deep_view()),
    {
        if let Err(error) = self.workspace() {
            return CommandPlan::failed(error);
        }
        let resize: bool = sight.behaviour.placement().should_resize();
        let operations: Vec<Operation> = vec![
            Operation::RemoveWindowFromFocusedWorkspace(window_id),
            Operation::CenterWindow(window_id, resize),
            Operation::AddUnmanagedWindow(window_id),
            Operation::UpdateFocusedWorkspace(false, false),
        ];
        assert(unmanage_plan(self.deep_view(), window_id, sight.deep_view()).operations
            =~= operations@ + handling::after_event(sight.border_window_id));
        handling::finish(CommandPlan::of(operations), sight.border_window_id)
    }

    /// Handles that a window was minimized.
    pub fn handle_minimize(&self, window_id: u32, sight: &HandlingSight) -> (plan: CommandPlan)
        ensures
            plan.deep_view() == minimize_plan(window_id, sight.deep_view()),
    {
        handling::finish(
            CommandPlan::pair(
                Operation::ExtractMinimizedWindow(window_id),
                Operation::UpdateFocusedWorkspace(false, false),
            ),
            sight.border_window_id,
        )
    }

    fn take_minimized(&mut self, window_id: u32) -> (window: Option<Window>)
        ensures
            match window {
                Some(window) => {
                    &&& old(self).deep_view().minimized_windows.contains_key(window_id)
                    &&& window == old(self).deep_view().minimized_windows[window_id]
                    &&& final(self).deep_view() == (WindowManagerView {
                        minimized_windows: old(self).deep_view().minimized_windows.remove(
                            window_id,
                        ),
                        ..old(self).deep_view()
                    })
                },
                None => {
                    &&& !old(self).deep_view().minimized_windows.contains_key(window_id)
                    &&& final(self).deep_view() == old(self).deep_view()
                },
            },
    {
        broadcast use vstd::std_specs::hash::group_hash_axioms;

        let ghost before = self.minimized_windows@;
        let window = self.minimized_windows.remove(&window_id);
        assert(self.minimized_windows@ =~= before.remove(window_id));
        assert(window is None ==> self.minimized_windows@ =~= before);
        window
    }

    /// Handles that a window is no longer minimized.
    pub fn handle_restore(&mut self, window_id: u32, sight: &HandlingSight) -> (plan: CommandPlan)
        ensures
            (final(self).deep_view(), plan.deep_view()) == restore_effect(
                old(self).deep_view(),
                window_id,
                sight.deep_view(),
            ),
    {
        match self.take_minimized(window_id) {
            None => handling::finish(CommandPlan::nothing(), sight.border_window_id),
            Some(window) => match self.workspace() {
                Err(error) => CommandPlan::failed(error),
                Ok(_) => handling::finish(
                    CommandPlan::pair(
                        Operation::NewContainerForWindow(window),
                        Operation::UpdateFocusedWorkspace(false, false),
                    ),
                    sight.border_window_id,
                ),
            },
        }
    }
}

} // verus!
